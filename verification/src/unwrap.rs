//! The three unwrap operations for loop bodies: each yields the value that a
//! container holds, or the escape that is due when it holds none.

use vstd::prelude::*;
use crate::args::CallArgs;
use crate::container::ToOption;
use crate::escape::{Effect, Escape, EscapeKind, Jump};

verus! {

/// The outcome of unwrapping inside a loop body without keeping a failure.
#[derive(Debug, PartialEq, Eq)]
pub enum Unwrapped<T, L, M> {
    /// The container held this value; the loop body goes on with it.
    Present(T),
    /// The container held no value; the escape is due.
    Absent(Escape<L, M>),
}

/// The outcome of unwrapping a value-or-error result inside a loop body while
/// keeping the failure.
#[derive(Debug, PartialEq, Eq)]
pub enum UnwrappedErr<T, E, L, M> {
    /// The result was a success with this value; the loop body goes on with
    /// it.
    Present(T),
    /// The result was this failure; the escape is due, and the targeted loop
    /// evaluates to the failure.
    Failed(E, Escape<L, M>),
}

impl<T, L, M> Unwrapped<T, L, M> {
    /// The effects that the outcome calls for, in order: none when a value
    /// is present, those of the escape otherwise.
    pub open spec fn spec_effects(self) -> Seq<Effect<L, M>> {
        match self {
            Unwrapped::Present(_) => Seq::empty(),
            Unwrapped::Absent(escape) => escape.spec_effects(),
        }
    }

    /// Yields the value of the two-state shape `state`, or a skip to the
    /// next iteration of the targeted loop when it is absent.
    pub fn or_skip(state: Option<T>, args: CallArgs<L, M>) -> (outcome: Self)
        ensures
            outcome == spec_unwrap_or_escape(EscapeKind::Skip, state, args),
    {
        Self::or_escape(EscapeKind::Skip, state, args)
    }

    /// Yields the value of the two-state shape `state`, or an exit from the
    /// targeted loop when it is absent.
    pub fn or_exit(state: Option<T>, args: CallArgs<L, M>) -> (outcome: Self)
        ensures
            outcome == spec_unwrap_or_escape(EscapeKind::Exit, state, args),
    {
        Self::or_escape(EscapeKind::Exit, state, args)
    }

    fn or_escape(kind: EscapeKind, state: Option<T>, args: CallArgs<L, M>) -> (outcome: Self)
        ensures
            outcome == spec_unwrap_or_escape(kind, state, args),
    {
        match state {
            Some(v) => Unwrapped::Present(v),
            None => Unwrapped::Absent(
                Escape { message: args.message, jump: Jump { kind, label: args.label } },
            ),
        }
    }
}

impl<T, E, L, M> UnwrappedErr<T, E, L, M> {
    /// The effects that the outcome calls for, in order: none when a value
    /// is present, those of the escape otherwise.
    pub open spec fn spec_effects(self) -> Seq<Effect<L, M>> {
        match self {
            UnwrappedErr::Present(_) => Seq::empty(),
            UnwrappedErr::Failed(_, escape) => escape.spec_effects(),
        }
    }
}

/// The outcome of unwrapping a container whose two-state shape is `state`
/// with an escape of kind `kind`: the value when there is one, else an
/// escape of that kind that carries the label and the message of `args`.
pub open spec fn spec_unwrap_or_escape<T, L, M>(
    kind: EscapeKind,
    state: Option<T>,
    args: CallArgs<L, M>,
) -> Unwrapped<T, L, M> {
    match state {
        Some(v) => Unwrapped::Present(v),
        None => Unwrapped::Absent(
            Escape { message: args.message, jump: Jump { kind, label: args.label } },
        ),
    }
}

/// The outcome of unwrapping `result` while keeping its failure: the success
/// value when there is one, else the failure as it is, with an exit that
/// carries the label and the message of `args`.
pub open spec fn spec_unwrap_or_propagate<T, E, L, M>(
    result: Result<T, E>,
    args: CallArgs<L, M>,
) -> UnwrappedErr<T, E, L, M> {
    match result {
        Ok(v) => UnwrappedErr::Present(v),
        Err(e) => UnwrappedErr::Failed(
            e,
            Escape {
                message: args.message,
                jump: Jump { kind: EscapeKind::ExitPropagatingFailure, label: args.label },
            },
        ),
    }
}

/// Yields the value that `value` holds, or a skip to the next iteration of
/// the targeted loop when it holds none.
///
/// The outcome is the one that `Unwrapped::or_skip` gives for the two-state
/// shape of `value`.
pub fn unwrap_continue<T, C: ToOption<T>, L, M>(
    value: C,
    args: CallArgs<L, M>,
) -> (outcome: Unwrapped<T, L, M>)
    ensures
        outcome == spec_unwrap_or_escape(EscapeKind::Skip, value.spec_to_option(), args),
{
    Unwrapped::or_skip(value.to_option(), args)
}

/// Yields the value that `value` holds, or an exit from the targeted loop
/// when it holds none.
///
/// The outcome is the one that `Unwrapped::or_exit` gives for the two-state
/// shape of `value`.
pub fn unwrap_break<T, C: ToOption<T>, L, M>(
    value: C,
    args: CallArgs<L, M>,
) -> (outcome: Unwrapped<T, L, M>)
    ensures
        outcome == spec_unwrap_or_escape(EscapeKind::Exit, value.spec_to_option(), args),
{
    Unwrapped::or_exit(value.to_option(), args)
}

/// Yields the success value of `result`, or its failure, unchanged, together
/// with an exit from the targeted loop.
pub fn unwrap_break_err<T, E, L, M>(
    result: Result<T, E>,
    args: CallArgs<L, M>,
) -> (outcome: UnwrappedErr<T, E, L, M>)
    ensures
        outcome == spec_unwrap_or_propagate(result, args),
{
    match result {
        Ok(v) => UnwrappedErr::Present(v),
        Err(e) => UnwrappedErr::Failed(
            e,
            Escape {
                message: args.message,
                jump: Jump { kind: EscapeKind::ExitPropagatingFailure, label: args.label },
            },
        ),
    }
}

} // verus!
