//! The core view abstractions.

use vstd::prelude::*;

verus! {

/// The core trait used to describe the building blocks of a user
/// interface.
///
/// The body of a view is itself meant to be a view, with the unit value
/// as the terminal body. Verus refuses an associated type whose bound is
/// satisfied by its own implementation as a cyclic definition, so the
/// refinement `Body: View` cannot be declared here; the body type keeps
/// the shareability bound that every view carries.
pub trait View: Sized + Send + Sync {
    /// The type representing the body of the view.
    type Body: Send + Sync;

    /// The view value that `body` produces.
    spec fn body_result(self) -> Self::Body;

    /// The content and behaviour of the view.
    fn body(&self) -> (b: Self::Body)
        ensures
            b == self.body_result(),
    ;
}

/// The empty view: the unit value is its own body.
impl View for () {
    type Body = ();

    open spec fn body_result(self) -> () {
        ()
    }

    fn body(&self) -> (b: ()) {
    }
}

} // verus!
