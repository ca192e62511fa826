//! Table service; private to `front_of_house`, as is each of its items.
use vstd::prelude::*;

verus! {

/// Takes a table's order.
fn take_order() {
}

/// Brings an order to the table.
fn serve_order() {
}

/// Settles the bill.
fn take_payment() {
}

} // verus!
