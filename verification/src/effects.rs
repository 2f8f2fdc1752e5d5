//! What the library asks of the program around it.
use vstd::prelude::*;
use crate::apps::AppKind;
use crate::json::{Json, JsonV};
use crate::personas::Persona;

verus! {

/// How a notice is coloured, and how long it stays.
#[derive(Clone, Copy, Debug, PartialEq, Eq, Structural)]
pub enum ToastKind {
    Info,
    Success,
    Warn,
    Error,
}

/// The session of a notice that leads nowhere.
pub const NOWHERE: i32 = -1;

/// Something for the program to do.
#[derive(Debug)]
pub enum Effect {
    /// Show a notice. A click on it opens the session, where that is not negative.
    Toast { kind: ToastKind, text: String, session: i32 },
    /// Bring a freshly opened app's contents up to date.
    Refresh(AppKind),
    /// Write the reflexes to disk.
    SaveReflexes,
    /// Switch the skin, tell the agent, and write the choice to disk.
    Wear(Persona),
    /// Send a frame to the agent.
    Send(Json),
    /// Read a text aloud.
    Speak(String),
    /// Start recording from the microphone.
    Record,
    /// Draw what a tool call describes, and tell the shell what came of it.
    Draw(Json),
}

/// The model of an [`Effect`].
pub enum EffectV {
    Toast { kind: ToastKind, text: Seq<char>, session: i32 },
    Refresh(AppKind),
    SaveReflexes,
    Wear(Persona),
    Send(JsonV),
    Speak(Seq<char>),
    Record,
    Draw(JsonV),
}

impl View for Effect {
    type V = EffectV;

    open spec fn view(&self) -> EffectV {
        match self {
            Effect::Toast { kind, text, session } => EffectV::Toast {
                kind: *kind,
                text: text@,
                session: *session,
            },
            Effect::Refresh(k) => EffectV::Refresh(*k),
            Effect::SaveReflexes => EffectV::SaveReflexes,
            Effect::Wear(p) => EffectV::Wear(*p),
            Effect::Send(j) => EffectV::Send(j@),
            Effect::Speak(s) => EffectV::Speak(s@),
            Effect::Record => EffectV::Record,
            Effect::Draw(j) => EffectV::Draw(j@),
        }
    }
}

/// A notice that leads nowhere.
pub open spec fn notice_v(kind: ToastKind, text: Seq<char>) -> EffectV {
    EffectV::Toast { kind, text, session: NOWHERE }
}

/// A notice that leads nowhere.
pub fn notice(kind: ToastKind, text: String) -> (r: Effect)
    ensures
        r@ == notice_v(kind, text@),
{
    Effect::Toast { kind, text, session: NOWHERE }
}

} // verus!
