//! User profile data: preferred units with their stored names, profile
//! metadata, and stored credentials.

use vstd::prelude::*;

verus! {

/// The measurement system a user prefers for presented values.
#[derive(Debug, Clone, Copy, PartialEq, Eq, Structural)]
pub enum Units {
    Imperial,
    Metric,
}

impl Units {
    /// The lower-case name under which the preference is stored.
    pub fn as_str(&self) -> (r: &'static str)
        ensures
            *self is Imperial ==> r@ == "imperial"@,
            *self is Metric ==> r@ == "metric"@,
    {
        match self {
            Units::Imperial => "imperial",
            Units::Metric => "metric",
        }
    }

    /// Read a stored preference name back; exactly the two stored names are
    /// accepted.
    pub fn parse(value: &str) -> (r: Option<Units>)
        ensures
            value@ == "imperial"@ ==> r == Option::Some(Units::Imperial),
            value@ == "metric"@ ==> r == Option::Some(Units::Metric),
            value@ != "imperial"@ && value@ != "metric"@ ==> r == Option::<Units>::None,
    {
        proof {
            assert("imperial"@ != "metric"@) by {
                reveal_strlit("imperial");
                reveal_strlit("metric");
                assert("imperial"@.len() != "metric"@.len());
            }
        }
        let owned = value.to_owned();
        if owned == "imperial".to_owned() {
            Option::Some(Units::Imperial)
        } else if owned == "metric".to_owned() {
            Option::Some(Units::Metric)
        } else {
            Option::None
        }
    }
}

/// A user's profile data, apart from credentials.
#[derive(Debug)]
pub struct Metadata {
    pub name: String,
    pub username: String,
    pub units: Units,
    /// The user's preferred offset from UTC, in seconds, when set.
    pub timezone: Option<i64>,
}

/// A user's stored credentials: the salted hash, never the password.
#[derive(Debug)]
pub struct Authentication {
    pub username: String,
    pub hash: Vec<u8>,
    pub salt: Vec<u8>,
}

} // verus!
