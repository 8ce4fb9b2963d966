//! The library's contact with outside crates: the clock, identifiers, time
//! spans, JSON and URL texts, and the concurrent tables that hold the cloud
//! service's state. Every function here is trusted: Verus believes its
//! contract and does not read its body.

pub mod clock;
pub mod formats;
pub mod tables;
