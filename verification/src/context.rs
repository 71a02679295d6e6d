//! A short-lived pairing of a piece of state with the container it came
//! from.
//!
//! A crate record must consult its registry when a reference crosses a crate
//! boundary, but storing a pointer back to the registry inside each record
//! would create a cycle and stop the registry from ever replacing a record.
//! Instead, a lookup hands out a transient `Context` that borrows both the
//! record and the registry; it lives no longer than the query that needed it.

use vstd::prelude::*;

verus! {

pub struct Context<'a, T, C>(&'a T, &'a C);

impl<'a, T, C> Context<'a, T, C> {
    /// The state this pairing wraps.
    pub closed spec fn spec_state(self) -> T {
        *self.0
    }

    /// The container the state was found in.
    pub closed spec fn spec_context(self) -> C {
        *self.1
    }

    pub fn new(state: &'a T, context: &'a C) -> (r: Self)
        ensures
            r.spec_state() == *state,
            r.spec_context() == *context,
    {
        Context(state, context)
    }

    pub fn state(&self) -> (r: &'a T)
        ensures
            *r == self.spec_state(),
    {
        self.0
    }

    pub fn context(&self) -> (r: &'a C)
        ensures
            *r == self.spec_context(),
    {
        self.1
    }
}

} // verus!
