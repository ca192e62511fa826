//! What grows in the garden.
use vstd::prelude::*;

verus! {

/// A plant with nothing to record about it but its kind. Its `Debug` form is
/// its name, `Asparagus`.
#[derive(Debug, Clone, Copy, PartialEq, Eq)]
pub struct Asparagus {}

impl Asparagus {
    /// The plant's name, as its `Debug` form writes it.
    pub open spec fn spec_name() -> Seq<char> {
        "Asparagus"@
    }

    /// Returns the plant's name.
    pub fn name(&self) -> (r: &'static str)
        ensures
            r@ == Self::spec_name(),
    {
        "Asparagus"
    }
}

} // verus!
