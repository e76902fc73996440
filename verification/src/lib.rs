//! The combinatorial core of a two-curve billiard: which curve each contact
//! of the trajectory lies on, how the path length is assembled from straight
//! segments, where the starting parameters sit in the interval, and which
//! outcome of a minimisation run is accepted.
//!
//! Every rule here is exact and free of numerics: callers evaluate the
//! curves, measure the segments and run the minimiser, and come back for
//! the decisions.

pub mod billiard;
pub mod curve;
pub mod guess;
pub mod length;
pub mod trajectory;

pub use billiard::{Billiard, BilliardError, Outcome};
pub use curve::{Contact, Curve, Parameter, Segment};
pub use guess::Fraction;
