//! Storage capacities. A capacity of zero does not exist: in the source data
//! zero stands for "not set", so a set capacity is never zero.

use vstd::prelude::*;

verus! {

/// A storage capacity that is set, hence not zero.
#[derive(Clone, Copy, Debug, PartialEq, Eq, Hash)]
pub struct Capacity {
    amount: i64,
}

impl Capacity {
    #[verifier::type_invariant]
    spec fn is_set(self) -> bool {
        self.amount != 0
    }

    /// The amount that this capacity holds.
    pub closed spec fn value(self) -> int {
        self.amount as int
    }

    /// The capacity of `amount`, or `None` where `amount` is the zero that
    /// stands for "not set".
    pub fn new(amount: i64) -> (r: Option<Capacity>)
        ensures
            amount == 0 <==> r is None,
            r matches Some(c) ==> c.value() == amount,
    {
        if amount == 0 {
            None
        } else {
            Some(Capacity { amount })
        }
    }

    /// The amount, which is never zero.
    pub fn get(&self) -> (r: i64)
        ensures
            r == self.value(),
            r != 0,
    {
        proof {
            use_type_invariant(self);
        }
        self.amount
    }
}

/// Reads a decoded capacity field: zero is the sentinel for "not set".
pub fn deserialize_zero_as_none(value: i64) -> (r: Option<Capacity>)
    ensures
        value == 0 <==> r is None,
        r matches Some(c) ==> c.value() == value,
{
    Capacity::new(value)
}

/// The first capacity that is set: `own`, else `other`.
pub open spec fn capacity_or(own: Option<Capacity>, other: Option<Capacity>) -> Option<Capacity> {
    if own is Some {
        own
    } else {
        other
    }
}

} // verus!
