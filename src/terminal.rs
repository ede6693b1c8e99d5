//! What the dashboard keeps and shows beside the monitors themselves.

use crate::clock::monotonic_now;
use std::time::Instant;
use vstd::prelude::*;

verus! {

/// State of one dashboard session.
pub struct Context {
    /// Monotonic reading taken when the session started.
    pub start_time: Instant,
}

impl Context {
    /// A session that starts now.
    pub fn new() -> (r: Context) {
        Context { start_time: monotonic_now() }
    }
}

/// The word shown for an endpoint's state: online, offline, or still waiting
/// for its first probe.
pub fn status_label(is_online: Option<bool>) -> (r: &'static str)
    ensures
        is_online == Some(true) ==> r@ == "ONLINE"@,
        is_online == Some(false) ==> r@ == "OFFLINE"@,
        is_online is None ==> r@ == "WAIT"@,
{
    match is_online {
        Some(true) => "ONLINE",
        Some(false) => "OFFLINE",
        None => "WAIT",
    }
}

} // verus!
