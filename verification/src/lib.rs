//! Unwrapping inside loop bodies.
//!
//! A loop body often has to give up on the current iteration, or on the
//! whole loop, when a value is missing. The operations of this crate take a
//! container, an optional loop label and an optional diagnostic message, and
//! return either the value that the container holds or the escape that is
//! due: which loop-control action to take, on which loop, and what to write
//! before it.

pub mod args;
pub mod container;
pub mod escape;
pub mod laws;
pub mod unwrap;

pub use args::{Arg, CallArgs, ShapeError};
pub use container::ToOption;
pub use escape::{Effect, Escape, EscapeKind, Jump, Reaction};
pub use unwrap::{unwrap_break, unwrap_break_err, unwrap_continue, Unwrapped, UnwrappedErr};
