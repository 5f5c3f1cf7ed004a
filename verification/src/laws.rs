//! What holds of the unwrap operations on every input.

use vstd::prelude::*;
use crate::args::{Arg, CallArgs, ShapeError};
use crate::container::ToOption;
use crate::escape::{Effect, Escape, EscapeKind, Jump, Reaction};
use crate::unwrap::{spec_unwrap_or_escape, spec_unwrap_or_propagate, Unwrapped, UnwrappedErr};

verus! {

/// An optional value that holds `v` and a success with `v` both count as
/// present with `v`. On a present value every operation yields exactly that
/// value, whatever label and message the call carries: nothing is written
/// and no jump is taken.
pub proof fn law_present_yields_value<T, E, L, M>(kind: EscapeKind, v: T, args: CallArgs<L, M>)
    ensures
        Some(v).spec_to_option() == Some(v),
        Ok::<T, E>(v).spec_to_option() == Some(v),
        spec_unwrap_or_escape(kind, Some(v), args) == Unwrapped::<T, L, M>::Present(v),
        spec_unwrap_or_escape(kind, Some(v), args).spec_effects() == Seq::<
            Effect<L, M>,
        >::empty(),
        spec_unwrap_or_propagate(Ok::<T, E>(v), args) == UnwrappedErr::<T, E, L, M>::Present(v),
        spec_unwrap_or_propagate(Ok::<T, E>(v), args).spec_effects() == Seq::<
            Effect<L, M>,
        >::empty(),
{
}

/// An optional value that holds nothing and a failure both count as absent.
/// On an absent value without a message the only effect of skipping and of
/// exiting is the jump itself, with the kind of the operation and the label
/// of the call: nothing is written.
pub proof fn law_absent_without_message_only_jumps<T, E, L, M>(
    kind: EscapeKind,
    failure: E,
    args: CallArgs<L, M>,
)
    requires
        args.message is None,
    ensures
        None::<T>.spec_to_option() == None::<T>,
        Err::<T, E>(failure).spec_to_option() == None::<T>,
        spec_unwrap_or_escape::<T, L, M>(kind, None, args).spec_effects() == seq![
            Effect::<L, M>::Jump(Jump { kind, label: args.label }),
        ],
        spec_unwrap_or_propagate::<T, E, L, M>(Err(failure), args).spec_effects() == seq![
            Effect::<L, M>::Jump(
                Jump { kind: EscapeKind::ExitPropagatingFailure, label: args.label },
            ),
        ],
{
}

/// On an absent value with a message, the effects of every operation are
/// exactly two: the message is written, once, and after it the jump is
/// taken.
pub proof fn law_message_written_once_before_jump<T, E, L, M>(
    kind: EscapeKind,
    failure: E,
    args: CallArgs<L, M>,
    message: M,
)
    requires
        args.message == Some(message),
    ensures
        spec_unwrap_or_escape::<T, L, M>(kind, None, args).spec_effects() == seq![
            Effect::<L, M>::Write(message),
            Effect::<L, M>::Jump(Jump { kind, label: args.label }),
        ],
        spec_unwrap_or_propagate::<T, E, L, M>(Err(failure), args).spec_effects() == seq![
            Effect::<L, M>::Write(message),
            Effect::<L, M>::Jump(
                Jump { kind: EscapeKind::ExitPropagatingFailure, label: args.label },
            ),
        ],
{
}

/// The escape of every operation targets the label of the call. Where only
/// the outer of two nested loops bears that label, the inner loop passes the
/// jump outward, and the outer loop is the one that continues, on a skip, or
/// ends, on an exit.
pub proof fn law_label_targets_outer_loop<T, E, L, M>(
    kind: EscapeKind,
    failure: E,
    args: CallArgs<L, M>,
    label: L,
)
    requires
        args.label == Some(label),
    ensures
        (spec_unwrap_or_escape::<T, L, M>(kind, None, args) matches Unwrapped::Absent(escape) && {
            &&& escape.jump.label == Some(label)
            &&& escape.jump.spec_reaction(None) == Reaction::PassOutward
            &&& kind is Skip ==> escape.jump.spec_reaction(Some(label)) == Reaction::Continue
            &&& !(kind is Skip) ==> escape.jump.spec_reaction(Some(label)) == Reaction::Break
        }),
        (spec_unwrap_or_propagate::<T, E, L, M>(Err(failure), args) matches UnwrappedErr::Failed(
            _,
            escape,
        ) && {
            &&& escape.jump.label == Some(label)
            &&& escape.jump.spec_reaction(None) == Reaction::PassOutward
            &&& escape.jump.spec_reaction(Some(label)) == Reaction::Break
        }),
{
}

/// A jump without a label is carried out by the first loop that it reaches,
/// whether or not that loop bears a label.
pub proof fn law_unlabeled_jump_targets_innermost_loop<L>(jump: Jump<L>, own: Option<L>)
    requires
        jump.label is None,
    ensures
        jump.targets(own),
        jump.spec_reaction(own) != Reaction::PassOutward,
{
}

/// The arguments that follow the value source are recognized exactly when
/// there are at most two of them and no two of them fill the same slot. More
/// than two are a wrong arity; two for one slot are an unrecognized
/// ordering. Where they are recognized, each slot holds what was written for
/// it, wherever it stood.
pub proof fn law_recognized_shapes<L, M>(trailing: Seq<Arg<L, M>>)
    ensures
        CallArgs::spec_match_shape(trailing) is Ok <==> (trailing.len() <= 1 || (trailing.len()
            == 2 && (trailing[0] is Label <==> trailing[1] is Message))),
        CallArgs::spec_match_shape(trailing) == Err::<CallArgs<L, M>, ShapeError>(
            ShapeError::WrongArity,
        ) <==> trailing.len() > 2,
        CallArgs::spec_match_shape(trailing) == Err::<CallArgs<L, M>, ShapeError>(
            ShapeError::UnrecognizedOrdering,
        ) <==> trailing.len() == 2 && (trailing[0] is Label <==> trailing[1] is Label),
        (CallArgs::spec_match_shape(trailing) matches Ok(args) ==> {
            &&& forall|l: L| args.label == Some(l) <==> trailing.contains(Arg::Label(l))
            &&& forall|m: M| args.message == Some(m) <==> trailing.contains(Arg::Message(m))
        }),
{
}

/// The shapes `(value, label, message)` and `(value, message, label)` fill
/// the same slots, so every operation gives the same outcome for both.
pub proof fn law_argument_order_is_irrelevant<T, E, L, M>(
    kind: EscapeKind,
    state: Option<T>,
    result: Result<T, E>,
    label: L,
    message: M,
)
    ensures
        CallArgs::spec_match_shape(seq![Arg::Label(label), Arg::Message(message)])
            == CallArgs::spec_match_shape(seq![Arg::Message(message), Arg::Label(label)]),
        CallArgs::spec_match_shape(seq![Arg::Label(label), Arg::Message(message)]) == Ok::<
            CallArgs<L, M>,
            ShapeError,
        >(CallArgs { label: Some(label), message: Some(message) }),
        ({
            let a = CallArgs::spec_match_shape(seq![Arg::Label(label), Arg::Message(message)]);
            let b = CallArgs::spec_match_shape(seq![Arg::Message(message), Arg::Label(label)]);
            &&& a is Ok
            &&& b is Ok
            &&& spec_unwrap_or_escape(kind, state, a->Ok_0) == spec_unwrap_or_escape(
                kind,
                state,
                b->Ok_0,
            )
            &&& spec_unwrap_or_propagate(result, a->Ok_0) == spec_unwrap_or_propagate(
                result,
                b->Ok_0,
            )
        }),
{
}

/// When a result is a failure, the outcome of unwrapping it while keeping
/// the failure holds that very failure, and the escape is an exit that
/// propagates it.
pub proof fn law_failure_is_propagated_unchanged<T, E, L, M>(failure: E, args: CallArgs<L, M>)
    ensures
        spec_unwrap_or_propagate::<T, E, L, M>(Err(failure), args) == UnwrappedErr::<
            T,
            E,
            L,
            M,
        >::Failed(
            failure,
            Escape {
                message: args.message,
                jump: Jump { kind: EscapeKind::ExitPropagatingFailure, label: args.label },
            },
        ),
{
}

} // verus!
