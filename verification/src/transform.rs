//! The tiered transform capability traits.
//!
//! A transform is a value representing a pure computation from an input
//! domain to an output range. Three capabilities of increasing strength
//! describe how a transform may be applied: consuming it, through
//! exclusive mutable access, or through shared read-only access. The tiers
//! form a strict refinement chain, and each stronger tier carries a proof
//! obligation that its result agrees with the tier below it, so a caller
//! holding only a weak capability computes the same answer as a caller
//! holding a strong one.
//!
//! Each capability splits into a specification trait, which names the
//! value the tier computes and states the coherence obligation, and the
//! executable trait, whose apply operation is bound to that value.

mod impls;

use vstd::prelude::*;

verus! {

/// The specification of a transform that is applied at most once: the
/// output domain and the value computed from a given transform state and
/// input.
pub trait SpecOnceTransform<Input>: Sized + Send + Sync where Input: Send + Sync {
    /// The output type of the transform.
    type Output: Send + Sync;

    /// The value that applying the transform once returns for a given
    /// transform state and input.
    spec fn once_result(self, input: Input) -> Self::Output;
}

/// The specification of a transform applied through exclusive access: the
/// value computed, the state left behind, and the obligation that the
/// value agrees with the once tier.
pub trait SpecMutableTransform<Input>: SpecOnceTransform<Input> where Input: Send + Sync {
    /// The value that a mutable application returns for a given transform
    /// state and input.
    spec fn mut_result(self, input: Input) -> Self::Output;

    /// Whether one mutable application on `input` may carry the transform
    /// from this state to `next`. A transform with deterministic state
    /// pins `next` exactly.
    spec fn mut_transition(self, input: Input, next: Self) -> bool;

    /// Tier coherence: from any state, a mutable application returns
    /// exactly what consuming the transform in that state would return.
    proof fn mut_agrees_with_once(self, input: Input)
        ensures
            self.mut_result(input) == self.once_result(input),
    ;
}

/// The specification of a transform applied through shared access: the
/// value computed, and the obligation that it agrees with the mutable
/// tier.
pub trait SpecTransform<Input>: SpecMutableTransform<Input> where Input: Send + Sync {
    /// The value that a shared application returns for a given transform
    /// state and input.
    spec fn result(self, input: Input) -> Self::Output;

    /// Tier coherence: a shared application returns exactly what a mutable
    /// application from the same state would return.
    proof fn apply_agrees_with_mut(self, input: Input)
        ensures
            self.result(input) == self.mut_result(input),
    ;
}

/// A transform operation that can be applied exactly once.
///
/// Applying the transform consumes it, so this is the weakest capability
/// tier; it is analogous to [`FnOnce`]. Transform values and the values
/// flowing through them must be shareable across concurrent execution
/// contexts, hence the `Send + Sync` bounds.
pub trait OnceTransform<Input>: SpecOnceTransform<Input> where Input: Send + Sync {
    /// Apply the transform operation, consuming both the transform and the
    /// input and yielding the output.
    fn apply_once(self, input: Input) -> (output: Self::Output)
        ensures
            output == self.once_result(input),
    ;
}

/// A transform operation that can be applied repeatedly through exclusive
/// access, possibly updating internal state on each application.
///
/// This tier refines [`OnceTransform`] and is analogous to [`FnMut`].
pub trait MutableTransform<Input>: OnceTransform<Input> + SpecMutableTransform<Input> where
    Input: Send + Sync,
 {
    /// Apply the transform operation through exclusive access, consuming
    /// the input and yielding the output.
    fn apply_mut(&mut self, input: Input) -> (output: Self::Output)
        ensures
            output == (*old(self)).mut_result(input),
            (*old(self)).mut_transition(input, *final(self)),
    ;
}

/// A transform operation that can be applied repeatedly through shared
/// read-only access.
///
/// This tier refines [`MutableTransform`] and is analogous to [`Fn`]. A
/// value with this capability may be applied concurrently from several
/// execution contexts, since application takes only read access.
pub trait Transform<Input>: MutableTransform<Input> + SpecTransform<Input> where
    Input: Send + Sync,
 {
    /// Apply the transform operation, consuming the input and yielding the
    /// output.
    fn apply(&self, input: Input) -> (output: Self::Output)
        ensures
            output == self.result(input),
    ;
}

/// Capability strength is additive, never divergent: for a transform with
/// the shared capability, all three tiers compute the same output from the
/// same transform state and input.
pub proof fn lemma_tier_coherence<Input: Send + Sync, T: SpecTransform<Input>>(t: T, input: Input)
    ensures
        t.result(input) == t.mut_result(input),
        t.result(input) == t.once_result(input),
{
    t.apply_agrees_with_mut(input);
    t.mut_agrees_with_once(input);
}

} // verus!
