//! A scripted stand-in for the external weather source, with a call
//! counter, so fetch behaviour is observable and provable.

use crate::errors::FetchError;
use crate::provider::{ProviderForecast, ProviderWeather};
use vstd::prelude::*;

verus! {

/// A scripted stand-in for the external current-weather source. It answers
/// each fetch with the next scripted reply, keeps a counter of the calls
/// made, and answers as an unreachable provider once the script runs out.
/// The counter is how the at-most-one-fetch guarantees are observed.
#[derive(Debug)]
pub struct ScriptedWeatherSource {
    pending: Vec<Result<ProviderWeather, FetchError>>,
    calls: u64,
}

impl ScriptedWeatherSource {
    /// The replies not yet served, first to be served first.
    pub closed spec fn pending_replies(&self) -> Seq<Result<ProviderWeather, FetchError>> {
        self.pending@
    }

    /// How many fetches were made against this source.
    pub closed spec fn calls_made(&self) -> u64 {
        self.calls
    }

    /// A source that will answer with `replies`, in order.
    pub fn new(replies: Vec<Result<ProviderWeather, FetchError>>) -> (s: Self)
        ensures
            s.pending_replies() == replies@,
            s.calls_made() == 0,
    {
        ScriptedWeatherSource { pending: replies, calls: 0 }
    }

    /// The number of fetches made so far.
    pub fn call_count(&self) -> (n: u64)
        ensures
            n == self.calls_made(),
    {
        self.calls
    }

    /// One fetch against the source: serves the next scripted reply, or a
    /// transport error when the script is exhausted. Always counts as one
    /// call.
    pub fn fetch(&mut self) -> (r: Result<ProviderWeather, FetchError>)
        requires
            old(self).calls_made() < u64::MAX,
        ensures
            final(self).calls_made() == old(self).calls_made() + 1,
            old(self).pending_replies().len() > 0 ==> {
                &&& r == old(self).pending_replies()[0]
                &&& final(self).pending_replies() == old(self).pending_replies().drop_first()
            },
            old(self).pending_replies().len() == 0 ==> {
                &&& r == Result::<ProviderWeather, FetchError>::Err(FetchError::TransportError)
                &&& final(self).pending_replies() == old(self).pending_replies()
            },
    {
        self.calls = self.calls + 1;
        if self.pending.len() == 0 {
            Result::Err(FetchError::TransportError)
        } else {
            let ghost before = self.pending@;
            let r = self.pending.remove(0);
            proof {
                assert(self.pending@ =~= before.drop_first());
            }
            r
        }
    }
}

/// The forecast counterpart of `ScriptedWeatherSource`.
#[derive(Debug)]
pub struct ScriptedForecastSource {
    pending: Vec<Result<ProviderForecast, FetchError>>,
    calls: u64,
}

impl ScriptedForecastSource {
    /// The replies not yet served, first to be served first.
    pub closed spec fn pending_replies(&self) -> Seq<Result<ProviderForecast, FetchError>> {
        self.pending@
    }

    /// How many fetches were made against this source.
    pub closed spec fn calls_made(&self) -> u64 {
        self.calls
    }

    /// A source that will answer with `replies`, in order.
    pub fn new(replies: Vec<Result<ProviderForecast, FetchError>>) -> (s: Self)
        ensures
            s.pending_replies() == replies@,
            s.calls_made() == 0,
    {
        ScriptedForecastSource { pending: replies, calls: 0 }
    }

    /// The number of fetches made so far.
    pub fn call_count(&self) -> (n: u64)
        ensures
            n == self.calls_made(),
    {
        self.calls
    }

    /// One fetch against the source: serves the next scripted reply, or a
    /// transport error when the script is exhausted. Always counts as one
    /// call.
    pub fn fetch(&mut self) -> (r: Result<ProviderForecast, FetchError>)
        requires
            old(self).calls_made() < u64::MAX,
        ensures
            final(self).calls_made() == old(self).calls_made() + 1,
            old(self).pending_replies().len() > 0 ==> {
                &&& r == old(self).pending_replies()[0]
                &&& final(self).pending_replies() == old(self).pending_replies().drop_first()
            },
            old(self).pending_replies().len() == 0 ==> {
                &&& r == Result::<ProviderForecast, FetchError>::Err(FetchError::TransportError)
                &&& final(self).pending_replies() == old(self).pending_replies()
            },
    {
        self.calls = self.calls + 1;
        if self.pending.len() == 0 {
            Result::Err(FetchError::TransportError)
        } else {
            let ghost before = self.pending@;
            let r = self.pending.remove(0);
            proof {
                assert(self.pending@ =~= before.drop_first());
            }
            r
        }
    }
}

} // verus!
