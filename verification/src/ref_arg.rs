//! The non-owning view of a value that the call path takes as an argument.

use vstd::prelude::*;

verus! {

/// A reference to the value of one call argument, lent for the call.
pub struct RefArg<'r, T> {
    shared_ref: &'r T,
}

impl<'r, T> View for RefArg<'r, T> {
    type V = T;

    closed spec fn view(&self) -> T {
        *self.shared_ref
    }
}

impl<'r, T> RefArg<'r, T> {
    /// A view of the value behind `shared_ref`.
    pub fn new(shared_ref: &'r T) -> (res: Self)
        ensures
            res@ == *shared_ref,
    {
        RefArg { shared_ref }
    }

    /// The reference that the view was made from.
    pub fn get_ref(&self) -> (res: &'r T)
        ensures
            *res == self@,
    {
        self.shared_ref
    }
}

} // verus!
