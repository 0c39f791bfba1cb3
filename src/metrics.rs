use vstd::prelude::*;

verus! {

/// A quantity that a piece of work is measured by.
pub trait Metric {
    /// The quantity, as a mathematical integer.
    spec fn amount(&self) -> int;

    /// The quantity.
    fn value(&self) -> (r: u32)
        ensures
            r as int == self.amount(),
    ;
}

/// Revenue: the full amount a piece of work brings in if it is realised as
/// scheduled.
#[derive(Clone, Copy, Debug, PartialEq, Eq, Structural)]
pub struct Revenue {
    pub value: u32,
}

impl Metric for Revenue {
    open spec fn amount(&self) -> int {
        self.value as int
    }

    fn value(&self) -> (r: u32) {
        self.value
    }
}

} // verus!
