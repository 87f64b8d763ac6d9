//! A reduced, action-centred alphabet.
//!
//! Each symbol pairs a drawing action with an optional rule tag. It
//! comes with one demonstration rule, the Koch-style branch split.

use vstd::prelude::*;

use crate::fixed::{fx_div_int, fxb, spec_from_degrees, Fx};

verus! {

/// A mesh-generation action.
#[derive(Clone, Copy, Debug, PartialEq, Eq, Structural)]
pub enum Action {
    /// A straight branch with width `w` and length `l`.
    Branch { w: Fx, l: Fx },
    /// Move forward distance `d` without making a branch.
    Forward { d: Fx },
    /// Roll by `r` radians around the local z axis.
    Roll { r: Fx },
    /// Pitch by `r` radians around the local x axis.
    Pitch { r: Fx },
    /// Yaw by `r` radians around the local y axis.
    Yaw { r: Fx },
    /// Turn around: a half-turn yaw.
    Reverse,
    /// Save the current transform on the pushdown stack.
    Push,
    /// Restore the most recently pushed transform.
    Pop,
    /// Do nothing; the action part of a symbol that is only a rule.
    Idle,
}

impl Action {
    pub fn branch(w: Fx, l: Fx) -> (a: Action)
        ensures
            a == (Action::Branch { w, l }),
    {
        Action::Branch { w, l }
    }

    pub fn forward(d: Fx) -> (a: Action)
        ensures
            a == (Action::Forward { d }),
    {
        Action::Forward { d }
    }

    pub fn roll(r: Fx) -> (a: Action)
        ensures
            a == (Action::Roll { r }),
    {
        Action::Roll { r }
    }

    pub fn pitch(r: Fx) -> (a: Action)
        ensures
            a == (Action::Pitch { r }),
    {
        Action::Pitch { r }
    }

    pub fn yaw(r: Fx) -> (a: Action)
        ensures
            a == (Action::Yaw { r }),
    {
        Action::Yaw { r }
    }

    pub fn reverse() -> (a: Action)
        ensures
            a == Action::Reverse,
    {
        Action::Reverse
    }

    pub fn push() -> (a: Action)
        ensures
            a == Action::Push,
    {
        Action::Push
    }

    pub fn pop() -> (a: Action)
        ensures
            a == Action::Pop,
    {
        Action::Pop
    }

    pub fn none() -> (a: Action)
        ensures
            a == Action::Idle,
    {
        Action::Idle
    }
}

/// A rule tag; symbols that are pure actions carry `Idle`.
#[derive(Clone, Copy, Debug, PartialEq, Eq, Structural)]
pub enum Rule {
    /// No rule to apply.
    Idle,
}

/// One symbol of a word in this alphabet: an action plus a rule tag.
#[derive(Clone, Copy, Debug, PartialEq, Eq, Structural)]
pub struct Module {
    pub action: Action,
    pub rule: Rule,
}

impl Module {
    /// A symbol that neither draws nor rewrites.
    pub fn none() -> (m: Module)
        ensures
            m == (Module { action: Action::Idle, rule: Rule::Idle }),
    {
        Module { action: Action::Idle, rule: Rule::Idle }
    }

    /// A symbol that is only an action.
    pub fn action(action: Action) -> (m: Module)
        ensures
            m == (Module { action, rule: Rule::Idle }),
    {
        Module { action, rule: Rule::Idle }
    }

    /// A symbol that is only a rule.
    pub fn rule(rule: Rule) -> (m: Module)
        ensures
            m == (Module { action: Action::Idle, rule }),
    {
        Module { action: Action::Idle, rule }
    }
}

/// The Koch-style demonstration rule, as a mathematical function.
pub open spec fn spec_rule_produce(component: Module) -> Seq<Module> {
    match component.action {
        Action::Branch { w, l } => seq![
            Module {
                action: Action::Branch { w, l: fxb(fx_div_int(l@, 3)) },
                rule: Rule::Idle,
            },
            Module { action: Action::Pitch { r: spec_from_degrees(60) }, rule: Rule::Idle },
            Module {
                action: Action::Branch { w, l: fxb(fx_div_int(l@, 3)) },
                rule: Rule::Idle,
            },
            Module { action: Action::Pitch { r: spec_from_degrees(-120) }, rule: Rule::Idle },
            Module {
                action: Action::Branch { w, l: fxb(fx_div_int(l@, 3)) },
                rule: Rule::Idle,
            },
            Module { action: Action::Pitch { r: spec_from_degrees(60) }, rule: Rule::Idle },
            Module {
                action: Action::Branch { w, l: fxb(fx_div_int(l@, 3)) },
                rule: Rule::Idle,
            },
        ],
        _ => seq![component],
    }
}

/// The Koch-style demonstration rule: a branch splits into four
/// third-length branches interleaved with sixty-degree pitches; every
/// other symbol falls through unchanged, so the rule is total and
/// never drops a symbol.
pub fn rule_produce(component: Module) -> (out: Vec<Module>)
    ensures
        out@ == spec_rule_produce(component),
{
    match component.action {
        Action::Branch { w, l } => {
            let third = l.div_int(3);
            let limb = Module::action(Action::branch(w, third));
            let p60 = Module::action(Action::pitch(Fx::from_degrees(60)));
            let m120 = Module::action(Action::pitch(Fx::from_degrees(-120)));
            let out = vec![limb, p60, limb, m120, limb, p60, limb];
            proof {
                assert(out@ =~= spec_rule_produce(component));
            }
            out
        },
        _ => {
            let out = vec![component];
            proof {
                assert(out@ =~= spec_rule_produce(component));
            }
            out
        },
    }
}

} // verus!
