//! A staleness-aware weather cache.
//!
//! The library keeps current-weather and forecast rows for a set of tracked
//! locations. A periodic scheduler wakes on interval boundaries aligned to
//! the Unix epoch and drives a bulk refresh of every tracked location inside
//! one atomic unit of work; an on-demand reader serves cached rows when they
//! are recent enough and otherwise fetches, stores and returns fresh ones.

pub mod api;
pub mod cache;
pub mod errors;
pub mod localtime;
pub mod nws;
pub mod options;
pub mod provider;
pub mod records;
pub mod refresh;
pub mod schedule;
pub mod source;
pub mod store;
pub mod user;
