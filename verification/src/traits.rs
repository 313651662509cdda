//! The uniform single-sample contracts that processing modules implement.
//!
//! A process is a stateful function: it takes one input sample and produces
//! one output sample, with memory of previous states. A source is a process
//! that takes no input. Chains of effects are built by composing `step`
//! calls.

use vstd::prelude::*;

verus! {

/// Every effect in an effect chain implements this trait.
pub trait Process<T> {
    /// Feeds a sample as an input and produces an output, stepping time
    /// forward by a single time slot.
    fn step(&mut self, input: T) -> T;
}

/// Every source at the beginning of an effect chain implements this trait.
pub trait Source<T> {
    /// Generates an output, stepping time forward by a single time slot.
    fn step(&mut self) -> T;
}

/// This process does nothing, except passing the values supplied by `step`
/// to the output unchanged. It is mostly for debugging and testing purposes,
/// and can serve as a template for developing other processes.
pub struct EmptyProcess {}

impl<T> Process<T> for EmptyProcess {
    fn step(&mut self, input: T) -> T {
        input
    }
}

/// This source does nothing, except outputting unit samples. It is mostly
/// for debugging and testing purposes, and can serve as a template for
/// developing other sources.
pub struct EmptySource {}

impl Source<i64> for EmptySource {
    fn step(&mut self) -> i64 {
        crate::math::FX_ONE
    }
}

} // verus!
