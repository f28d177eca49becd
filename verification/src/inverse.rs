//! Transform operations with a declared inversion relation.
//!
//! A transform here declares its input and output domains as associated
//! types. A transform may additionally declare a second transform type as
//! its structural inverse; any transform whose declared inverse maps the
//! output domain back to the input domain automatically gains the revert
//! capability, defined once and for all as constructing the inverse and
//! applying it. That single shared definition is what rules out divergent
//! per-type undo logic.

use vstd::prelude::*;

verus! {

/// A transform operation over a declared input and output domain.
///
/// Objects implementing this trait represent a transform operation over an
/// arbitrary domain, applied through shared read-only access.
pub trait Transform: Sized + Send + Sync {
    /// The input type for the transform.
    type Input;

    /// The output type for the transform.
    type Output;

    /// The value that `apply` returns for a given transform state and
    /// input.
    spec fn result(self, input: Self::Input) -> Self::Output;

    /// Apply the transform operation, consuming the input and yielding the
    /// output.
    fn apply(&self, input: Self::Input) -> (output: Self::Output)
        ensures
            output == self.result(input),
    ;
}

/// A transform operation with an inverse relationship to another transform
/// type.
///
/// The library can check that the two types compose; that the inverse
/// truly reverses the forward operation over their common domain is
/// established by each implementation, not by the type system.
pub trait InversibleTransform: Transform {
    /// The [`Transform`] type that corresponds to the inverse operation.
    type Inverse: Transform;

    /// The inverse value that `invert` constructs from a given transform
    /// state.
    spec fn inverse(self) -> Self::Inverse;

    /// Create a fresh instance of the [`InversibleTransform::Inverse`],
    /// without mutating this transform.
    fn invert(&self) -> (inverse: Self::Inverse)
        ensures
            inverse == self.inverse(),
    ;
}

/// A transform operation that can be reverted.
///
/// Objects implementing this trait undo their own [`Transform::apply`]
/// operation. A blanket implementation is provided for any
/// [`InversibleTransform`] whose inverse's input and output types match the
/// [`RevertableTransform::revert`] signature.
pub trait RevertableTransform: Transform {
    /// The value that `revert` returns for a given output-domain value.
    spec fn revert_result(self, input: Self::Output) -> Self::Input;

    /// Apply the inverse of the [`Transform::apply`] operation.
    fn revert(&self, input: Self::Output) -> (reverted: Self::Input)
        ensures
            reverted == self.revert_result(input),
    ;
}

impl<InversibleType> RevertableTransform for InversibleType
where
    InversibleType: InversibleTransform,
    <InversibleType as InversibleTransform>::Inverse: Transform<
        Input = <InversibleType as Transform>::Output,
        Output = <InversibleType as Transform>::Input,
    >,
{
    open spec fn revert_result(self, input: Self::Output) -> Self::Input {
        self.inverse().result(input)
    }

    fn revert(&self, input: Self::Output) -> (reverted: Self::Input) {
        self.invert().apply(input)
    }
}

/// Revert has a single definition: for any transform whose declared
/// inverse maps the output domain back to the input domain, reverting is
/// exactly applying the inverse. So wherever the inverse truly undoes the
/// forward operation on a value, the revert of an applied value recovers
/// that value.
pub proof fn lemma_revert_round_trip<InversibleType>(t: InversibleType, v: InversibleType::Input)
where
    InversibleType: InversibleTransform,
    <InversibleType as InversibleTransform>::Inverse: Transform<
        Input = <InversibleType as Transform>::Output,
        Output = <InversibleType as Transform>::Input,
    >,
    requires
        t.inverse().result(t.result(v)) == v,
    ensures
        t.revert_result(t.result(v)) == v,
{
}

} // verus!
