//! Uniform signal generator: an unbounded, stateful source of pseudo-random
//! integers in a half-open range fixed at construction. Each `next` call is a
//! state transition with no failure mode.
//!
//! The draws come from the `rand` crate's thread-local generator; only the
//! two calls into `rand` are trusted, the range bookkeeping around them is
//! verified.

use vstd::prelude::*;

verus! {

#[verifier::external_type_specification]
#[verifier::external_body]
pub struct ExThreadRng(rand::rngs::ThreadRng);

/// Relies on rand::thread_rng: a handle to the lazily-initialized
/// thread-local generator. Nothing is promised of it.
#[verifier::external_body]
fn fresh_rng() -> rand::rngs::ThreadRng {
    rand::thread_rng()
}

/// Relies on rand::Rng::gen_range over a half-open integer range: the result
/// is drawn from `[lower, upper)`; the call panics when the range is empty,
/// so an empty range is excluded here.
#[verifier::external_body]
fn sample_range(rng: &mut rand::rngs::ThreadRng, lower: u64, upper: u64) -> (r: u64)
    requires
        lower < upper,
    ensures
        lower <= r < upper,
{
    rand::Rng::gen_range(rng, lower..upper)
}

/// An unbounded source of pseudo-random integers, each drawn from
/// `[lower, upper)`.
pub struct RandomSignal {
    lower: u64,
    upper: u64,
    rng: rand::rngs::ThreadRng,
}

impl RandomSignal {
    /// Inclusive lower bound of every emitted value; fixed at construction.
    pub closed spec fn spec_lower(self) -> u64 {
        self.lower
    }

    /// Exclusive upper bound of every emitted value; fixed at construction.
    pub closed spec fn spec_upper(self) -> u64 {
        self.upper
    }

    /// Structural invariant: the sampling range is non-empty.
    pub open spec fn wf(self) -> bool {
        self.spec_lower() < self.spec_upper()
    }

    /// Returns the inclusive lower bound.
    pub fn lower(&self) -> (r: u64)
        ensures
            r == self.spec_lower(),
    {
        self.lower
    }

    /// Returns the exclusive upper bound.
    pub fn upper(&self) -> (r: u64)
        ensures
            r == self.spec_upper(),
    {
        self.upper
    }

    /// Builds a generator whose every value lies in `[lower, upper)`. An
    /// empty range is a caller error: sampling from it cannot be satisfied.
    pub fn new(lower: u64, upper: u64) -> (r: RandomSignal)
        requires
            lower < upper,
        ensures
            r.wf(),
            r.spec_lower() == lower,
            r.spec_upper() == upper,
    {
        RandomSignal { lower, upper, rng: fresh_rng() }
    }

    /// Produces the next sample: a value in `[lower, upper)`. The bounds
    /// never change; the sequence never ends.
    pub fn next(&mut self) -> (r: u64)
        requires
            old(self).wf(),
        ensures
            final(self).wf(),
            final(self).spec_lower() == old(self).spec_lower(),
            final(self).spec_upper() == old(self).spec_upper(),
            old(self).spec_lower() <= r < old(self).spec_upper(),
    {
        let lower = self.lower;
        let upper = self.upper;
        sample_range(&mut self.rng, lower, upper)
    }
}

} // verus!
