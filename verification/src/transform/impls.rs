//! Reference-forwarding implementations.
//!
//! A shared reference to a transform with the shared capability is itself
//! a transform of every tier, and a mutable reference to a mutable
//! transform keeps the mutable and once tiers, each by delegating to the
//! referent. Transform values can therefore be passed around by reference
//! without losing capability.

use vstd::prelude::*;

use super::MutableTransform;
use super::OnceTransform;
use super::SpecMutableTransform;
use super::SpecOnceTransform;
use super::SpecTransform;
use super::Transform;

verus! {

impl<'a, Input: Send + Sync, TransformType: SpecTransform<Input>> SpecOnceTransform<Input> for &'a TransformType {
    type Output = TransformType::Output;

    open spec fn once_result(self, input: Input) -> TransformType::Output {
        (*self).result(input)
    }
}

impl<'a, Input: Send + Sync, TransformType: SpecTransform<Input>> SpecMutableTransform<Input> for &'a TransformType {
    open spec fn mut_result(self, input: Input) -> TransformType::Output {
        (*self).result(input)
    }

    open spec fn mut_transition(self, input: Input, next: Self) -> bool {
        next == self
    }

    proof fn mut_agrees_with_once(self, input: Input) {
    }
}

impl<'a, Input: Send + Sync, TransformType: SpecTransform<Input>> SpecTransform<Input> for &'a TransformType {
    open spec fn result(self, input: Input) -> TransformType::Output {
        (*self).result(input)
    }

    proof fn apply_agrees_with_mut(self, input: Input) {
    }
}

impl<'a, Input: Send + Sync, TransformType: Transform<Input>> OnceTransform<Input> for &'a TransformType {
    fn apply_once(self, input: Input) -> (output: TransformType::Output) {
        (*self).apply(input)
    }
}

impl<'a, Input: Send + Sync, TransformType: Transform<Input>> MutableTransform<Input> for &'a TransformType {
    fn apply_mut(&mut self, input: Input) -> (output: TransformType::Output) {
        (**self).apply(input)
    }
}

impl<'a, Input: Send + Sync, TransformType: Transform<Input>> Transform<Input> for &'a TransformType {
    fn apply(&self, input: Input) -> (output: TransformType::Output) {
        (**self).apply(input)
    }
}

impl<'a, Input: Send + Sync, TransformType: SpecMutableTransform<Input>> SpecOnceTransform<Input> for &'a mut TransformType {
    type Output = TransformType::Output;

    open spec fn once_result(self, input: Input) -> TransformType::Output {
        mut_ref_current(self).mut_result(input)
    }
}

impl<'a, Input: Send + Sync, TransformType: SpecMutableTransform<Input>> SpecMutableTransform<Input> for &'a mut TransformType {
    open spec fn mut_result(self, input: Input) -> TransformType::Output {
        mut_ref_current(self).mut_result(input)
    }

    open spec fn mut_transition(self, input: Input, next: Self) -> bool {
        mut_ref_current(self).mut_transition(input, mut_ref_current(next))
    }

    proof fn mut_agrees_with_once(self, input: Input) {
    }
}

impl<'a, Input: Send + Sync, TransformType: MutableTransform<Input>> OnceTransform<Input> for &'a mut TransformType {
    fn apply_once(self, input: Input) -> (output: TransformType::Output) {
        (*self).apply_mut(input)
    }
}

impl<'a, Input: Send + Sync, TransformType: MutableTransform<Input>> MutableTransform<Input> for &'a mut TransformType {
    fn apply_mut(&mut self, input: Input) -> (output: TransformType::Output) {
        (**self).apply_mut(input)
    }
}

/// Reference forwarding is faithful: a shared reference to a transform,
/// used as a transform in its own right, computes exactly what the
/// referent computes, at every capability tier.
pub proof fn lemma_reference_forwarding<Input: Send + Sync, TransformType: SpecTransform<Input>>(
    t: &TransformType,
    input: Input,
)
    ensures
        <&TransformType as SpecTransform<Input>>::result(t, input) == (*t).result(input),
        <&TransformType as SpecMutableTransform<Input>>::mut_result(t, input) == (*t).result(input),
        <&TransformType as SpecOnceTransform<Input>>::once_result(t, input) == (*t).result(input),
{
}

} // verus!
