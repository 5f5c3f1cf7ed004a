//! The escape taken when a value is absent: what it does, which loop it
//! targets, and in which order its effects happen.

use vstd::prelude::*;
use vstd::laws_eq::obeys_concrete_eq;
use vstd::std_specs::cmp::PartialEqSpec;

verus! {

/// The loop-control action taken on absence.
#[derive(Debug, Clone, Copy, PartialEq, Eq)]
pub enum EscapeKind {
    /// Resume the targeted loop at its next iteration.
    Skip,
    /// Leave the targeted loop.
    Exit,
    /// Leave the targeted loop, which then evaluates to the failure that
    /// caused the escape.
    ExitPropagatingFailure,
}

/// A loop-control action together with the loop that it targets.
#[derive(Debug, PartialEq, Eq)]
pub struct Jump<L> {
    /// The action to take.
    pub kind: EscapeKind,
    /// The loop to target; `None` targets the innermost enclosing loop.
    pub label: Option<L>,
}

/// An escape that is due: the line to write, if any, and the jump to take
/// after it.
#[derive(Debug, PartialEq, Eq)]
pub struct Escape<L, M> {
    /// The line to write to the diagnostic sink first; `None` writes nothing.
    pub message: Option<M>,
    /// The jump that ends the escape.
    pub jump: Jump<L>,
}

/// One observable effect of an escape.
#[derive(Debug, PartialEq, Eq)]
pub enum Effect<L, M> {
    /// Write one line to the diagnostic sink.
    Write(M),
    /// Take the loop-control action on the targeted loop.
    Jump(Jump<L>),
}

/// What a loop does with a jump that reaches it from its body.
#[derive(Debug, Clone, Copy, PartialEq, Eq)]
pub enum Reaction {
    /// The loop is the target of a skip: it starts its next iteration.
    Continue,
    /// The loop is the target of an exit: it ends.
    Break,
    /// Another loop is the target: this loop ends and hands the jump to the
    /// loop that encloses it.
    PassOutward,
}

impl<L, M> Escape<L, M> {
    /// The effects of the escape, in the order in which they happen: the
    /// message, if there is one, is written once, and then the jump is taken.
    pub open spec fn spec_effects(self) -> Seq<Effect<L, M>> {
        match self.message {
            Some(m) => seq![Effect::Write(m), Effect::Jump(self.jump)],
            None => seq![Effect::Jump(self.jump)],
        }
    }

    /// Lists the effects of the escape in the order in which they are to be
    /// carried out.
    pub fn effects(self) -> (effects: Vec<Effect<L, M>>)
        ensures
            effects@ == self.spec_effects(),
    {
        let Escape { message, jump } = self;
        let mut effects = Vec::new();
        if let Some(m) = message {
            effects.push(Effect::Write(m));
        }
        effects.push(Effect::Jump(jump));
        effects
    }
}

impl<L> Jump<L> {
    /// What a loop does with the jump, given whether the loop is its target:
    /// the target starts its next iteration on a skip and ends on either
    /// kind of exit; any other loop passes the jump outward.
    pub open spec fn reaction_of(self, is_target: bool) -> Reaction {
        if !is_target {
            Reaction::PassOutward
        } else if self.kind is Skip {
            Reaction::Continue
        } else {
            Reaction::Break
        }
    }

    /// Whether a loop that bears `own` as its label is the target of the
    /// jump, given that the jump reaches it from its body. A jump without a
    /// label targets the first loop that it reaches.
    pub open spec fn targets(self, own: Option<L>) -> bool {
        match self.label {
            None => true,
            Some(target) => own == Some(target),
        }
    }

    /// What a loop that bears `own` as its label does with the jump.
    pub open spec fn spec_reaction(self, own: Option<L>) -> Reaction {
        self.reaction_of(self.targets(own))
    }
}

impl<L: PartialEq> Jump<L> {
    /// Decides what a loop that bears `own` as its label does with the jump.
    ///
    /// A jump without a label is carried out by the loop; a jump with a label
    /// passes a loop without one. Where both have a label, the two are
    /// compared with `==`: for every label type whose `==` is equality the
    /// answer is `spec_reaction`.
    pub fn reaction(&self, own: &Option<L>) -> (reaction: Reaction)
        ensures
            self.label is None ==> reaction == self.reaction_of(true),
            self.label is Some && own is None ==> reaction == self.reaction_of(false),
            self.label matches Some(target) ==> (*own matches Some(o) ==> (L::obeys_eq_spec()
                ==> reaction == self.reaction_of(o.eq_spec(&target)))),
            obeys_concrete_eq::<L>() ==> reaction == self.spec_reaction(*own),
    {
        proof {
            reveal(obeys_concrete_eq);
        }
        let is_target = match &self.label {
            None => true,
            Some(target) => match own {
                Some(o) => *o == *target,
                None => false,
            },
        };
        if !is_target {
            Reaction::PassOutward
        } else {
            match self.kind {
                EscapeKind::Skip => Reaction::Continue,
                _ => Reaction::Break,
            }
        }
    }
}

} // verus!
