//! Arithmetic sample transforms over `i32`.
//!
//! [`Add`] and [`Sub`] add and subtract a fixed offset, wrapping on
//! overflow. They implement every capability tier and declare each other
//! as inverses, which exercises the whole algebra on a concrete domain:
//! wrapping addition and subtraction by the same offset are exact inverses
//! over all of `i32`.

use vstd::prelude::*;
use vstd::wrapping::i32_specs;

use crate::inverse;
use crate::transform::MutableTransform;
use crate::transform::OnceTransform;
use crate::transform::SpecMutableTransform;
use crate::transform::SpecOnceTransform;
use crate::transform::SpecTransform;
use crate::transform::Transform;

verus! {

/// A transform that adds a fixed offset to its input, wrapping on
/// overflow.
#[derive(Clone, Copy, Debug)]
pub struct Add(pub i32);

/// A transform that subtracts a fixed offset from its input, wrapping on
/// overflow.
#[derive(Clone, Copy, Debug)]
pub struct Sub(pub i32);

impl Add {
    /// The offset this transform adds.
    pub open spec fn offset(self) -> i32 {
        self.0
    }

    /// Create an addition transform with the given offset.
    pub fn new(n: i32) -> (add: Self)
        ensures
            add.offset() == n,
    {
        Self(n)
    }

    /// Return the offset.
    pub fn value(&self) -> (n: i32)
        ensures
            n == self.offset(),
    {
        self.0
    }
}

impl Sub {
    /// The offset this transform subtracts.
    pub open spec fn offset(self) -> i32 {
        self.0
    }

    /// Create a subtraction transform with the given offset.
    pub fn new(n: i32) -> (sub: Self)
        ensures
            sub.offset() == n,
    {
        Self(n)
    }

    /// Return the offset.
    pub fn value(&self) -> (n: i32)
        ensures
            n == self.offset(),
    {
        self.0
    }
}

impl SpecOnceTransform<i32> for Add {
    type Output = i32;

    open spec fn once_result(self, input: i32) -> i32 {
        i32_specs::wrapping_add(input, self.offset())
    }
}

impl SpecMutableTransform<i32> for Add {
    open spec fn mut_result(self, input: i32) -> i32 {
        self.once_result(input)
    }

    open spec fn mut_transition(self, input: i32, next: Self) -> bool {
        next == self
    }

    proof fn mut_agrees_with_once(self, input: i32) {
    }
}

impl SpecTransform<i32> for Add {
    open spec fn result(self, input: i32) -> i32 {
        self.once_result(input)
    }

    proof fn apply_agrees_with_mut(self, input: i32) {
    }
}

impl OnceTransform<i32> for Add {
    fn apply_once(self, input: i32) -> (output: i32) {
        Transform::apply(&self, input)
    }
}

impl MutableTransform<i32> for Add {
    fn apply_mut(&mut self, input: i32) -> (output: i32) {
        Transform::apply(self, input)
    }
}

impl Transform<i32> for Add {
    fn apply(&self, input: i32) -> (output: i32) {
        input.wrapping_add(self.0)
    }
}

impl SpecOnceTransform<i32> for Sub {
    type Output = i32;

    open spec fn once_result(self, input: i32) -> i32 {
        i32_specs::wrapping_sub(input, self.offset())
    }
}

impl SpecMutableTransform<i32> for Sub {
    open spec fn mut_result(self, input: i32) -> i32 {
        self.once_result(input)
    }

    open spec fn mut_transition(self, input: i32, next: Self) -> bool {
        next == self
    }

    proof fn mut_agrees_with_once(self, input: i32) {
    }
}

impl SpecTransform<i32> for Sub {
    open spec fn result(self, input: i32) -> i32 {
        self.once_result(input)
    }

    proof fn apply_agrees_with_mut(self, input: i32) {
    }
}

impl OnceTransform<i32> for Sub {
    fn apply_once(self, input: i32) -> (output: i32) {
        Transform::apply(&self, input)
    }
}

impl MutableTransform<i32> for Sub {
    fn apply_mut(&mut self, input: i32) -> (output: i32) {
        Transform::apply(self, input)
    }
}

impl Transform<i32> for Sub {
    fn apply(&self, input: i32) -> (output: i32) {
        input.wrapping_sub(self.0)
    }
}

impl inverse::Transform for Add {
    type Input = i32;

    type Output = i32;

    open spec fn result(self, input: i32) -> i32 {
        i32_specs::wrapping_add(input, self.offset())
    }

    fn apply(&self, input: i32) -> (output: i32) {
        input.wrapping_add(self.0)
    }
}

impl inverse::InversibleTransform for Add {
    type Inverse = Sub;

    open spec fn inverse(self) -> Sub {
        Sub(self.0)
    }

    fn invert(&self) -> (inverse: Sub) {
        Sub(self.0)
    }
}

impl inverse::Transform for Sub {
    type Input = i32;

    type Output = i32;

    open spec fn result(self, input: i32) -> i32 {
        i32_specs::wrapping_sub(input, self.offset())
    }

    fn apply(&self, input: i32) -> (output: i32) {
        input.wrapping_sub(self.0)
    }
}

impl inverse::InversibleTransform for Sub {
    type Inverse = Add;

    open spec fn inverse(self) -> Add {
        Add(self.0)
    }

    fn invert(&self) -> (inverse: Add) {
        Add(self.0)
    }
}

/// A transform that consumes a queued sequence of offsets, adding one per
/// application, from the back of the queue forward, and leaving the input
/// unchanged once the queue is empty.
///
/// Unlike [`Add`], this transform updates internal state on every mutable
/// application, so it holds the mutable and once capabilities but not the
/// shared one.
#[derive(Clone, Debug)]
pub struct SequencedAdd(pub Vec<i32>);

impl SequencedAdd {
    /// The queue of offsets still to be added, applied from the back.
    pub open spec fn queued(self) -> Seq<i32> {
        self.0@
    }

    /// Create a sequenced addition transform over the given queue.
    pub fn new(queue: Vec<i32>) -> (sequenced: Self)
        ensures
            sequenced.queued() == queue@,
    {
        Self(queue)
    }
}

impl SpecOnceTransform<i32> for SequencedAdd {
    type Output = i32;

    open spec fn once_result(self, input: i32) -> i32 {
        if self.queued().len() > 0 {
            i32_specs::wrapping_add(input, self.queued().last())
        } else {
            input
        }
    }
}

impl SpecMutableTransform<i32> for SequencedAdd {
    open spec fn mut_result(self, input: i32) -> i32 {
        self.once_result(input)
    }

    open spec fn mut_transition(self, input: i32, next: Self) -> bool {
        if self.queued().len() > 0 {
            next.queued() == self.queued().drop_last()
        } else {
            next.queued() == self.queued()
        }
    }

    proof fn mut_agrees_with_once(self, input: i32) {
    }
}

impl OnceTransform<i32> for SequencedAdd {
    fn apply_once(self, input: i32) -> (output: i32) {
        let mut consumed = self;
        consumed.apply_mut(input)
    }
}

impl MutableTransform<i32> for SequencedAdd {
    fn apply_mut(&mut self, input: i32) -> (output: i32) {
        match self.0.pop() {
            Some(value) => input.wrapping_add(value),
            None => input,
        }
    }
}

/// Wrapping addition and subtraction by the same offset are exact inverses
/// over all of `i32`, in both orders.
pub proof fn lemma_offset_round_trip(n: i32, v: i32)
    ensures
        i32_specs::wrapping_sub(i32_specs::wrapping_add(v, n), n) == v,
        i32_specs::wrapping_add(i32_specs::wrapping_sub(v, n), n) == v,
{
}

/// The declared inverses of [`Add`] and [`Sub`] truly undo them: on every
/// input, applying the declared inverse to an applied offset transform's
/// output recovers the input exactly.
pub proof fn lemma_offset_revert_exact(n: i32, v: i32)
    ensures
        inverse::Transform::result(
            inverse::InversibleTransform::inverse(Add(n)),
            inverse::Transform::result(Add(n), v),
        ) == v,
        inverse::Transform::result(
            inverse::InversibleTransform::inverse(Sub(n)),
            inverse::Transform::result(Sub(n), v),
        ) == v,
{
    lemma_offset_round_trip(n, v);
}

} // verus!
