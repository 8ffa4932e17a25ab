//! Generator of fresh type-variable ids and fresh synthetic names.
use vstd::prelude::*;
use crate::typing::{Type, SpecType};

verus! {

/// The counter value after one id is handed out: the counter saturates at the
/// maximum of its type, so it never moves backwards; ids are globally unique
/// as long as the maximum is never reached.
pub open spec fn spec_next_counter(c: usize) -> usize {
    if c < usize::MAX {
        (c + 1) as usize
    } else {
        c
    }
}

/// A monotonic counter of fresh type-variable ids and synthetic names.
/// Counting starts at 1: id 0 is the parse-time placeholder and is never
/// handed out as a fresh id.
#[derive(Debug, PartialEq, Eq)]
pub struct IdGen {
    pub counter: usize,
}

impl IdGen {
    /// A fresh generator; the first id handed out is 1.
    pub fn new() -> (r: IdGen)
        ensures
            r.counter == 1,
    {
        IdGen { counter: 1 }
    }

    /// A fresh, never before seen id.
    pub fn get_id(&mut self) -> (n: usize)
        ensures
            n == old(self).counter,
            final(self).counter == spec_next_counter(old(self).counter),
    {
        let n = self.counter;
        if self.counter < usize::MAX {
            self.counter = self.counter + 1;
        }
        n
    }

    /// A fresh type variable: `Var` of a fresh id.
    pub fn get_type(&mut self) -> (t: Type)
        ensures
            t@ == SpecType::Var(old(self).counter),
            final(self).counter == spec_next_counter(old(self).counter),
    {
        let n = self.get_id();
        Type::Var(n)
    }
}

} // verus!
