//! Call-site arguments: the optional loop label and the optional diagnostic
//! message that may follow the value source, in either order.

use vstd::prelude::*;

verus! {

/// One argument written after the value source.
#[derive(Debug, PartialEq, Eq)]
pub enum Arg<L, M> {
    /// Names the enclosing loop that the escape targets.
    Label(L),
    /// The line to write to the diagnostic sink before escaping.
    Message(M),
}

/// Why the arguments that follow the value source do not make a recognized
/// call shape.
#[derive(Debug, Clone, Copy, PartialEq, Eq)]
pub enum ShapeError {
    /// More than two arguments follow the value source: no call takes more
    /// than a value, a label and a message.
    WrongArity,
    /// Two arguments follow the value source and both fill the same slot:
    /// two labels, or two messages.
    UnrecognizedOrdering,
}

/// The canonical form of a call's trailing arguments: one slot for the label
/// and one for the message, whatever order they were written in.
#[derive(Debug, PartialEq, Eq)]
pub struct CallArgs<L, M> {
    /// The loop to target; `None` targets the innermost enclosing loop.
    pub label: Option<L>,
    /// The diagnostic line to write on absence; `None` writes nothing.
    pub message: Option<M>,
}

impl CallArgs<(), ()> {
    /// The shape `(value)`.
    pub fn value() -> (args: Self)
        ensures
            args.label is None,
            args.message is None,
            Ok::<Self, ShapeError>(args) == Self::spec_match_shape(Seq::empty()),
    {
        CallArgs { label: None, message: None }
    }
}

impl<L> CallArgs<L, ()> {
    /// The shape `(value, label)`.
    pub fn label(label: L) -> (args: Self)
        ensures
            args.label == Some(label),
            args.message is None,
            Ok::<Self, ShapeError>(args) == Self::spec_match_shape(seq![Arg::Label(label)]),
    {
        CallArgs { label: Some(label), message: None }
    }
}

impl<M> CallArgs<(), M> {
    /// The shape `(value, message)`.
    pub fn message(message: M) -> (args: Self)
        ensures
            args.label is None,
            args.message == Some(message),
            Ok::<Self, ShapeError>(args) == Self::spec_match_shape(seq![Arg::Message(message)]),
    {
        CallArgs { label: None, message: Some(message) }
    }
}

impl<L, M> CallArgs<L, M> {
    /// The shape `(value, label, message)`.
    pub fn label_message(label: L, message: M) -> (args: Self)
        ensures
            args.label == Some(label),
            args.message == Some(message),
            Ok::<Self, ShapeError>(args) == Self::spec_match_shape(
                seq![Arg::Label(label), Arg::Message(message)],
            ),
    {
        CallArgs { label: Some(label), message: Some(message) }
    }

    /// The shape `(value, message, label)`.
    pub fn message_label(message: M, label: L) -> (args: Self)
        ensures
            args.label == Some(label),
            args.message == Some(message),
            Ok::<Self, ShapeError>(args) == Self::spec_match_shape(
                seq![Arg::Message(message), Arg::Label(label)],
            ),
    {
        CallArgs { label: Some(label), message: Some(message) }
    }

    /// What `match_shape` returns for the arguments `trailing` that follow the
    /// value source.
    pub open spec fn spec_match_shape(trailing: Seq<Arg<L, M>>) -> Result<Self, ShapeError> {
        if trailing.len() == 0 {
            Ok(CallArgs { label: None, message: None })
        } else if trailing.len() == 1 {
            match trailing[0] {
                Arg::Label(l) => Ok(CallArgs { label: Some(l), message: None }),
                Arg::Message(m) => Ok(CallArgs { label: None, message: Some(m) }),
            }
        } else if trailing.len() == 2 {
            match (trailing[0], trailing[1]) {
                (Arg::Label(l), Arg::Message(m)) => Ok(
                    CallArgs { label: Some(l), message: Some(m) },
                ),
                (Arg::Message(m), Arg::Label(l)) => Ok(
                    CallArgs { label: Some(l), message: Some(m) },
                ),
                _ => Err(ShapeError::UnrecognizedOrdering),
            }
        } else {
            Err(ShapeError::WrongArity)
        }
    }

    /// Matches the arguments that follow the value source against the
    /// recognized call shapes and fills the label and message slots.
    ///
    /// The value source is the first argument of every call and is handed to
    /// the unwrap operation itself. What may follow it is nothing, a label,
    /// a message, or both in either order; anything else is rejected.
    pub fn match_shape(trailing: Vec<Arg<L, M>>) -> (matched: Result<Self, ShapeError>)
        ensures
            matched == Self::spec_match_shape(trailing@),
    {
        let mut rest = trailing;
        if rest.len() > 2 {
            return Err(ShapeError::WrongArity);
        }
        let last = rest.pop();
        let first = rest.pop();
        match (first, last) {
            (None, None) => Ok(CallArgs { label: None, message: None }),
            (None, Some(Arg::Label(l))) => Ok(CallArgs { label: Some(l), message: None }),
            (None, Some(Arg::Message(m))) => Ok(CallArgs { label: None, message: Some(m) }),
            (Some(Arg::Label(l)), Some(Arg::Message(m))) => Ok(
                CallArgs { label: Some(l), message: Some(m) },
            ),
            (Some(Arg::Message(m)), Some(Arg::Label(l))) => Ok(
                CallArgs { label: Some(l), message: Some(m) },
            ),
            _ => Err(ShapeError::UnrecognizedOrdering),
        }
    }
}

} // verus!
