//! The host's stand. The module is public to its parent, and of its items only
//! those marked `pub` can be reached from outside it.
use vstd::prelude::*;

verus! {

/// Puts a guest on the waiting list. It needs nothing and changes nothing.
pub fn add_to_waitlist() {
}

/// Shows a guest to a table; private to the host's stand.
fn seat_at_table() {
}

} // verus!
