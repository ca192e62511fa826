//! A small restaurant and its kitchen garden, laid out as a tree of modules.
//!
//! ```text
//! crate
//!  ├── front_of_house        (private)
//!  │   ├── hosting           (public within the crate)
//!  │   │   ├── add_to_waitlist
//!  │   │   └── seat_at_table
//!  │   └── serving           (private)
//!  │       ├── take_order
//!  │       ├── serve_order
//!  │       └── take_payment
//!  └── garden
//!      └── vegetables
//!          └── Asparagus
//! ```
//!
//! `front_of_house` is a sibling of `eat_at_restaurant`, so the function may
//! name it without the module being public; only the items inside it that are
//! marked `pub` can be reached from here.
use vstd::prelude::*;
use vstd::string::StringExecFns;

use crate::garden::vegetables::Asparagus;

mod front_of_house;
pub mod garden;

verus! {

/// Lets a guest in: puts them on the waiting list, once by an absolute path
/// and once by a relative one. Both paths name the same function.
pub fn eat_at_restaurant() {
    // absolute path, from the crate root
    crate::front_of_house::hosting::add_to_waitlist();

    // relative path, from this module
    front_of_house::hosting::add_to_waitlist();
}

/// The line a gardener says of a plant: `I'm growing <name>!`.
pub open spec fn spec_growing_message(name: Seq<char>) -> Seq<char> {
    "I'm growing "@ + name + "!"@
}

/// Says what is growing: `I'm growing Asparagus!`.
pub fn growing_message(plant: &Asparagus) -> (r: String)
    ensures
        r@ == spec_growing_message(Asparagus::spec_name()),
        r@ == "I'm growing Asparagus!"@,
{
    let r = String::from_str("I'm growing ").concat(plant.name()).concat("!");
    proof {
        reveal_strlit("I'm growing ");
        reveal_strlit("Asparagus");
        reveal_strlit("!");
        reveal_strlit("I'm growing Asparagus!");
        assert(r@ =~= "I'm growing Asparagus!"@);
    }
    r
}

} // verus!
