//! Controllers: the entry points of the application.

pub mod error;
pub mod estimate_controller;
pub mod section_controller;

use vstd::prelude::*;

verus! {

/// Something that takes inputs of type `T`, one at a time.
pub trait Executable<T>: Sized {
    /// Whether taking `input` may lead from `before` to `after`.
    spec fn leads(before: Self, input: T, after: Self) -> bool;

    fn execute(&mut self, input: T)
        ensures
            Self::leads(*old(self), input, *final(self)),
    ;
}

/// A controller that hands every input to its use case.
pub struct GenericController<U> {
    use_case: U,
}

impl<U> GenericController<U> {
    /// The use case of the controller.
    pub closed spec fn use_case(&self) -> U {
        self.use_case
    }

    /// The controller of `use_case`.
    pub fn new(use_case: U) -> (r: Self)
        ensures
            r.use_case() == use_case,
    {
        Self { use_case }
    }
}

impl<U, T> Executable<T> for GenericController<U> where U: Executable<T> {
    /// The controller does what its use case does.
    open spec fn leads(before: Self, input: T, after: Self) -> bool {
        U::leads(before.use_case(), input, after.use_case())
    }

    fn execute(&mut self, input: T) {
        self.use_case.execute(input);
    }
}

} // verus!
