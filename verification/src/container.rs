//! Reduction of optional values and value-or-error results to one two-state
//! shape: present with a value, or absent.

use vstd::prelude::*;

verus! {

/// A container that is either present with a value of type `T` or absent.
///
/// Implementing this trait makes a type usable with the skipping and exiting
/// unwrap operations of this crate. The reduction is total and pure: it is
/// defined for every container and depends on nothing but the container.
pub trait ToOption<T> {
    /// The two-state shape of the container: `Some(v)` when it holds `v`,
    /// `None` when it holds no value.
    spec fn spec_to_option(self) -> Option<T>;

    /// Reduces the container to its two-state shape.
    fn to_option(self) -> (state: Option<T>)
        ensures
            state == self.spec_to_option(),
    ;
}

impl<T> ToOption<T> for Option<T> {
    /// An optional value is its own two-state shape.
    open spec fn spec_to_option(self) -> Option<T> {
        self
    }

    fn to_option(self) -> (state: Option<T>) {
        self
    }
}

impl<T, U> ToOption<T> for Result<T, U> {
    /// A success is present with its value; a failure is absent, and its
    /// payload is dropped.
    open spec fn spec_to_option(self) -> Option<T> {
        match self {
            Ok(v) => Some(v),
            Err(_) => None,
        }
    }

    fn to_option(self) -> (state: Option<T>) {
        match self {
            Ok(v) => Some(v),
            Err(_) => None,
        }
    }
}

} // verus!
