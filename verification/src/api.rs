//! Parameter and answer shapes of the HTTP interface. The handlers that
//! use them live outside the library, next to the router.

use vstd::prelude::*;

verus! {

/// Path parameters of the by-identifier routes.
#[derive(Debug, Clone, Copy, PartialEq, Eq, Structural)]
pub struct IdParams {
    pub id: i64,
}

/// Query parameters of the location-search route.
#[derive(Debug)]
pub struct SearchParams {
    pub search: String,
}

/// One row of a location-search answer.
#[derive(Debug)]
pub struct SearchUniv {
    pub id: i64,
    pub name: String,
}

} // verus!
