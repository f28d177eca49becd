//! Core capability primitives for a declarative UI toolkit: a tiered
//! transform algebra, an inversion relation with a derived revert
//! capability, and the root view abstraction.

pub mod arith;
pub mod inverse;
pub mod transform;
pub mod view;

pub use view::View;
