//! Verified core of the SatPlatform debugging platform: the shared data model,
//! the cloud service's connection, group and task-state bookkeeping, the message
//! router, and the decision logic of the two desktop clients.

pub mod client_link;
pub mod cloud;
pub mod control_center;
pub mod models;
pub mod onsite_mobile;
pub mod outside;
pub mod text;

use vstd::prelude::*;

verus! {

/// Adds two numbers; the sum must fit in a `u64`.
pub fn add(left: u64, right: u64) -> (sum: u64)
    requires
        left + right <= u64::MAX,
    ensures
        sum == left + right,
{
    left + right
}

} // verus!
