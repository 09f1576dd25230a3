//! The decisions of a process script's runtime.
//!
//! A process script reads a `Message` from its standard input. A `Greeting`
//! is answered with the script's metadata; a one-shot script then exits,
//! because the host spawns it anew for every call. Then hook calls are
//! served: a daemon first reads the `Execute` message of each call, every
//! script reads the hook name and hands it to its handler, which reads the
//! hook's input and writes the output. A one-shot script returns after one
//! call; a daemon serves calls until its input closes.
//!
//! `ScriptRuntime` makes these decisions; the caller performs each `Step`
//! on the standard streams and reports back.

use crate::protocol::{Message, ScriptType};
use vstd::prelude::*;

verus! {

/// What the runtime does next.
#[derive(PartialEq, Eq, Structural, Clone, Copy, Debug)]
pub enum Step {
    /// Read one `Message` from standard input.
    ReadMessage,
    /// Write the script's metadata to standard output and flush it.
    SendInfo,
    /// Exit the process with code 0.
    Exit,
    /// Read a hook name from standard input.
    ReadHookName,
    /// Run the handler on the hook name just read, then flush standard output.
    Handle,
    /// Return to the caller: the run is over.
    Return,
}

/// Where the runtime stands: which step it waits to hear back from.
#[derive(PartialEq, Eq, Structural, Clone, Copy, Debug)]
pub enum Phase {
    /// The first message is being read.
    FirstMessage,
    /// The metadata is being sent.
    Greeting,
    /// The `Execute` message of a daemon's call is being read.
    CallMessage,
    /// The hook name is being read.
    HookName,
    /// The handler is running.
    Handling,
    /// The run is over.
    Done,
}

/// The step that starts serving a call: a daemon reads the call's message
/// first, other scripts read the hook name at once.
pub open spec fn call_entry(t: ScriptType) -> (Phase, Step) {
    if t == ScriptType::Daemon {
        (Phase::CallMessage, Step::ReadMessage)
    } else {
        (Phase::HookName, Step::ReadHookName)
    }
}

/// The next phase and step, after the step of `phase` was performed;
/// `message` is what a `ReadMessage` step read.
pub open spec fn transition(t: ScriptType, phase: Phase, message: Option<Message>) -> (Phase, Step) {
    match phase {
        Phase::FirstMessage => if message == Some(Message::Greeting) {
            (Phase::Greeting, Step::SendInfo)
        } else {
            call_entry(t)
        },
        Phase::Greeting => if t == ScriptType::OneShot {
            (Phase::Done, Step::Exit)
        } else {
            call_entry(t)
        },
        Phase::CallMessage => (Phase::HookName, Step::ReadHookName),
        Phase::HookName => (Phase::Handling, Step::Handle),
        Phase::Handling => if t == ScriptType::OneShot {
            (Phase::Done, Step::Return)
        } else {
            call_entry(t)
        },
        Phase::Done => (Phase::Done, Step::Return),
    }
}

/// The state of a process script's runtime.
#[derive(Debug)]
pub struct ScriptRuntime {
    script_type: ScriptType,
    phase: Phase,
}

impl ScriptRuntime {
    /// The kind of script being run.
    pub closed spec fn kind(&self) -> ScriptType {
        self.script_type
    }

    /// The phase the runtime is in.
    pub closed spec fn current(&self) -> Phase {
        self.phase
    }

    /// A runtime about to read its first message; the first step is
    /// `ReadMessage`.
    pub fn new(script_type: ScriptType) -> (r: Self)
        ensures
            r.kind() == script_type,
            r.current() == Phase::FirstMessage,
    {
        ScriptRuntime { script_type, phase: Phase::FirstMessage }
    }

    /// The phase the runtime is in.
    pub fn phase(&self) -> (r: Phase)
        ensures
            r == self.current(),
    {
        self.phase
    }

    fn call_entry(&self) -> (r: (Phase, Step))
        ensures
            r == call_entry(self.kind()),
    {
        if self.script_type == ScriptType::Daemon {
            (Phase::CallMessage, Step::ReadMessage)
        } else {
            (Phase::HookName, Step::ReadHookName)
        }
    }

    /// Records that the pending step was performed, `message` being what a
    /// `ReadMessage` step read, and returns the next step.
    pub fn advance(&mut self, message: Option<Message>) -> (r: Step)
        ensures
            final(self).kind() == old(self).kind(),
            (final(self).current(), r) == transition(old(self).kind(), old(self).current(), message),
    {
        let (phase, step) = match self.phase {
            Phase::FirstMessage => if message == Some(Message::Greeting) {
                (Phase::Greeting, Step::SendInfo)
            } else {
                self.call_entry()
            },
            Phase::Greeting => if self.script_type == ScriptType::OneShot {
                (Phase::Done, Step::Exit)
            } else {
                self.call_entry()
            },
            Phase::CallMessage => (Phase::HookName, Step::ReadHookName),
            Phase::HookName => (Phase::Handling, Step::Handle),
            Phase::Handling => if self.script_type == ScriptType::OneShot {
                (Phase::Done, Step::Return)
            } else {
                self.call_entry()
            },
            Phase::Done => (Phase::Done, Step::Return),
        };
        self.phase = phase;
        step
    }
}

} // verus!
