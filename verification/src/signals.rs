//! The three signals by which the service shows what the worker is doing.
//!
//! The signals are shared between threads, so whoever runs the service keeps them
//! where every thread sees a write at once. This module says what they are, which
//! effect writes which of them, and what a waiting caller makes of them.

use crate::shutdown::ShutdownAction;
use crate::worker::WorkerAction;
use vstd::prelude::*;

verus! {

/// How the last compilation ended. It is kept for inspection only: no decision of
/// the service depends on it.
#[derive(Clone, Copy, Debug, PartialEq, Eq, Structural)]
pub enum LastCompilationState {
    Success,
    Failed,
    Uninitialized,
}

/// The signals that the worker and the request handlers share.
#[derive(Clone, Copy, Debug, PartialEq, Eq, Structural)]
pub struct CompilationState {
    /// Set while a parse and the publication of its result are under way.
    pub is_compiling: bool,
    /// Set to ask a parse that is under way to give up at its next checkpoint.
    pub retrigger_requested: bool,
    /// How the last compilation ended.
    pub last_outcome: LastCompilationState,
}

/// One write to one signal.
#[derive(Clone, Copy, Debug, PartialEq, Eq, Structural)]
pub enum SignalWrite {
    /// `is_compiling` becomes the given value.
    IsCompiling(bool),
    /// `retrigger_requested` becomes the given value.
    RetriggerRequested(bool),
    /// `last_outcome` becomes the given value.
    LastOutcome(LastCompilationState),
}

/// Whether the compiled view is settled: nothing is being compiled and nothing
/// waits to be.
pub open spec fn settled(is_compiling: bool, queue_is_empty: bool) -> bool {
    !is_compiling && queue_is_empty
}

/// What a caller that waits for a settled view does next.
#[derive(Clone, Copy, Debug, PartialEq, Eq, Structural)]
pub enum WaitDecision {
    /// The view is settled: stop waiting.
    Settled,
    /// Wait for the next idle notification, then look again.
    AwaitNotification,
}

impl WorkerAction {
    /// The write to a signal that this effect consists of, if it is one. Only five
    /// effects of the worker touch the signals, each exactly one of them.
    pub open spec fn signal(self) -> Option<SignalWrite> {
        match self {
            WorkerAction::SetCompiling => Some(SignalWrite::IsCompiling(true)),
            WorkerAction::ClearCompiling => Some(SignalWrite::IsCompiling(false)),
            WorkerAction::ClearRetrigger => Some(SignalWrite::RetriggerRequested(false)),
            WorkerAction::RecordSuccess => Some(
                SignalWrite::LastOutcome(LastCompilationState::Success),
            ),
            WorkerAction::RecordFailure => Some(
                SignalWrite::LastOutcome(LastCompilationState::Failed),
            ),
            _ => None,
        }
    }

    /// The write to a signal that performing this effect asks for, if any.
    pub fn signal_write(self) -> (write: Option<SignalWrite>)
        ensures
            write == self.signal(),
    {
        match self {
            WorkerAction::SetCompiling => Some(SignalWrite::IsCompiling(true)),
            WorkerAction::ClearCompiling => Some(SignalWrite::IsCompiling(false)),
            WorkerAction::ClearRetrigger => Some(SignalWrite::RetriggerRequested(false)),
            WorkerAction::RecordSuccess => Some(
                SignalWrite::LastOutcome(LastCompilationState::Success),
            ),
            WorkerAction::RecordFailure => Some(
                SignalWrite::LastOutcome(LastCompilationState::Failed),
            ),
            _ => None,
        }
    }
}

impl ShutdownAction {
    /// The write to a signal that this effect consists of, if it is one: of the
    /// effects of a shutdown, only the request for a retrigger.
    pub open spec fn signal(self) -> Option<SignalWrite> {
        match self {
            ShutdownAction::RequestRetrigger => Some(SignalWrite::RetriggerRequested(true)),
            _ => None,
        }
    }

    /// The write to a signal that performing this effect asks for, if any.
    pub fn signal_write(self) -> (write: Option<SignalWrite>)
        ensures
            write == self.signal(),
    {
        match self {
            ShutdownAction::RequestRetrigger => Some(SignalWrite::RetriggerRequested(true)),
            _ => None,
        }
    }
}

impl CompilationState {
    /// The signals before anything was compiled.
    pub open spec fn initial() -> Self {
        CompilationState {
            is_compiling: false,
            retrigger_requested: false,
            last_outcome: LastCompilationState::Uninitialized,
        }
    }

    /// The signals once `write` was made: the signal it names has its value, the
    /// other two are as they were.
    pub open spec fn written(self, write: SignalWrite) -> Self {
        match write {
            SignalWrite::IsCompiling(value) => CompilationState { is_compiling: value, ..self },
            SignalWrite::RetriggerRequested(value) => CompilationState {
                retrigger_requested: value,
                ..self
            },
            SignalWrite::LastOutcome(value) => CompilationState { last_outcome: value, ..self },
        }
    }

    /// The signals once the worker's effect `action` has been performed.
    pub open spec fn after(self, action: WorkerAction) -> Self {
        match action.signal() {
            Some(write) => self.written(write),
            None => self,
        }
    }

    /// The signals once a retrigger has been requested.
    pub open spec fn retriggered(self) -> Self {
        self.written(SignalWrite::RetriggerRequested(true))
    }

    /// The signals of a service that has compiled nothing yet.
    pub fn new() -> (state: Self)
        ensures
            state == Self::initial(),
    {
        CompilationState {
            is_compiling: false,
            retrigger_requested: false,
            last_outcome: LastCompilationState::Uninitialized,
        }
    }

    /// Makes one write to one signal.
    pub fn write(&mut self, write: SignalWrite)
        ensures
            *final(self) == old(self).written(write),
    {
        match write {
            SignalWrite::IsCompiling(value) => {
                self.is_compiling = value;
            },
            SignalWrite::RetriggerRequested(value) => {
                self.retrigger_requested = value;
            },
            SignalWrite::LastOutcome(value) => {
                self.last_outcome = value;
            },
        }
    }

    /// Performs the part of the worker's effect `action` that concerns the signals.
    pub fn apply(&mut self, action: WorkerAction)
        ensures
            *final(self) == old(self).after(action),
    {
        match action.signal_write() {
            Some(write) => self.write(write),
            None => {},
        }
    }

    /// Asks a parse that is under way to give up at its next checkpoint.
    pub fn request_retrigger(&mut self)
        ensures
            *final(self) == old(self).retriggered(),
    {
        self.write(SignalWrite::RetriggerRequested(true));
    }
}

impl Default for CompilationState {
    fn default() -> (state: Self)
        ensures
            state == Self::initial(),
    {
        CompilationState::new()
    }
}

} // verus!
