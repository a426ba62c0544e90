//! The compilation worker: one request at a time, one effect at a time.
//!
//! The worker is a state machine. Its state is the effect it is waiting to have
//! performed (a [`WorkerAction`]) together with the request it is working on. The
//! caller performs the effect and reports what came of it as a [`WorkerEvent`];
//! [`CompilationWorker::step`] then names the next effect.

use crate::request::{gc_due, CompilationContext, TaskMessage};
use vstd::prelude::*;

verus! {

/// One effect that the worker asks its caller to perform.
#[derive(Clone, Copy, Debug, PartialEq, Eq, Structural)]
pub enum WorkerAction {
    /// Block on the queue until a message arrives or the queue is closed.
    Receive,
    /// Copy the session's published engines into the worker's working copy.
    SnapshotEngines,
    /// Garbage collect the working copy.
    CollectGarbage,
    /// Set the `is_compiling` signal.
    SetCompiling,
    /// Parse the request's document against the working copy.
    Parse,
    /// Replace the session's published engines by the working copy, in one swap.
    PublishSnapshot,
    /// Store what the parse returned in the session.
    WriteParseResult,
    /// Record that the last compilation succeeded.
    RecordSuccess,
    /// Record that the last compilation failed; the working copy is dropped.
    RecordFailure,
    /// Reset the `is_compiling` signal.
    ClearCompiling,
    /// Reset the `retrigger_requested` signal.
    ClearRetrigger,
    /// Ask the queue whether it is empty.
    CheckQueue,
    /// Wake everyone who waits for the service to be idle.
    NotifyIdle,
    /// Leave the worker's loop; nothing is asked for after this.
    Exit,
}

/// What came of the effect that the worker was waiting for.
#[derive(Debug)]
pub enum WorkerEvent<S> {
    /// The queue handed out a message.
    Received(TaskMessage<S>),
    /// The queue was closed: no sender is left.
    Disconnected,
    /// An effect that yields nothing was performed.
    Completed,
    /// Garbage collection ended, well or not.
    GarbageCollected { ok: bool },
    /// The parse ended, well or not.
    Parsed { ok: bool },
    /// The queue said whether it is empty.
    QueueChecked { empty: bool },
}

/// The single consumer of the compilation queue.
pub struct CompilationWorker<S> {
    /// The effect that the worker is waiting to have performed.
    pub pending: WorkerAction,
    /// The request in progress, from its receipt until `is_compiling` is reset.
    pub request: Option<CompilationContext<S>>,
}

impl WorkerAction {
    /// The effects that belong to the handling of one request: from the snapshot of
    /// the engines to the reset of `is_compiling`.
    pub open spec fn serves_request(self) -> bool {
        !(self is Receive || self is ClearRetrigger || self is CheckQueue || self is NotifyIdle
            || self is Exit)
    }

    /// The effects during which the `is_compiling` signal is set.
    pub open spec fn under_compiling_signal(self) -> bool {
        self is Parse || self is PublishSnapshot || self is WriteParseResult
            || self is RecordSuccess || self is RecordFailure || self is ClearCompiling
    }
}

impl<S> CompilationWorker<S> {
    /// The worker holds a request, and a complete one, exactly while it serves one.
    pub open spec fn wf(self) -> bool {
        &&& self.pending.serves_request() <==> self.request is Some
        &&& self.request matches Some(ctx) ==> ctx.is_complete()
    }

    /// The worker as it starts: waiting for its first message.
    pub open spec fn fresh() -> Self {
        CompilationWorker { pending: WorkerAction::Receive, request: None }
    }

    /// Whether `event` is an answer to the effect that the worker is waiting for.
    ///
    /// A request that lacks its session or its document is no answer to `Receive`.
    /// Once the worker has left its loop, nothing is.
    pub open spec fn accepts(self, event: WorkerEvent<S>) -> bool {
        match self.pending {
            WorkerAction::Receive => match event {
                WorkerEvent::Received(TaskMessage::CompilationContext(ctx)) => ctx.is_complete(),
                WorkerEvent::Received(TaskMessage::Terminate) => true,
                WorkerEvent::Disconnected => true,
                _ => false,
            },
            WorkerAction::CollectGarbage => event is GarbageCollected,
            WorkerAction::Parse => event is Parsed,
            WorkerAction::CheckQueue => event is QueueChecked,
            WorkerAction::Exit => false,
            _ => event is Completed,
        }
    }

    /// The effect that follows once `event` has answered the pending one.
    pub open spec fn next_action(self, event: WorkerEvent<S>) -> WorkerAction {
        match self.pending {
            WorkerAction::Receive => match event {
                WorkerEvent::Received(TaskMessage::CompilationContext(_)) =>
                    WorkerAction::SnapshotEngines,
                _ => WorkerAction::Exit,
            },
            WorkerAction::SnapshotEngines => match self.request {
                Some(ctx) if gc_due(ctx.version) => WorkerAction::CollectGarbage,
                _ => WorkerAction::SetCompiling,
            },
            WorkerAction::CollectGarbage => WorkerAction::SetCompiling,
            WorkerAction::SetCompiling => WorkerAction::Parse,
            WorkerAction::Parse => match event {
                WorkerEvent::Parsed { ok: true } => WorkerAction::PublishSnapshot,
                _ => WorkerAction::RecordFailure,
            },
            WorkerAction::PublishSnapshot => WorkerAction::WriteParseResult,
            WorkerAction::WriteParseResult => WorkerAction::RecordSuccess,
            WorkerAction::RecordSuccess => WorkerAction::ClearCompiling,
            WorkerAction::RecordFailure => WorkerAction::ClearCompiling,
            WorkerAction::ClearCompiling => WorkerAction::ClearRetrigger,
            WorkerAction::ClearRetrigger => WorkerAction::CheckQueue,
            WorkerAction::CheckQueue => match event {
                WorkerEvent::QueueChecked { empty: true } => WorkerAction::NotifyIdle,
                _ => WorkerAction::Receive,
            },
            WorkerAction::NotifyIdle => WorkerAction::Receive,
            WorkerAction::Exit => WorkerAction::Exit,
        }
    }

    /// The request that the worker holds once `event` has answered the pending effect:
    /// the one just received, the one in progress, or none once `is_compiling` is reset.
    pub open spec fn next_request(self, event: WorkerEvent<S>) -> Option<CompilationContext<S>> {
        match self.pending {
            WorkerAction::Receive => match event {
                WorkerEvent::Received(TaskMessage::CompilationContext(ctx)) => Some(ctx),
                _ => None,
            },
            WorkerAction::ClearCompiling => None,
            _ => self.request,
        }
    }

    /// The worker after `event`: moved on if the event answers the pending effect,
    /// unchanged if it does not.
    pub open spec fn after(self, event: WorkerEvent<S>) -> Self {
        if self.accepts(event) {
            CompilationWorker {
                pending: self.next_action(event),
                request: self.next_request(event),
            }
        } else {
            self
        }
    }

    /// A worker that waits for its first message.
    pub fn new() -> (worker: Self)
        ensures
            worker == Self::fresh(),
            worker.wf(),
    {
        CompilationWorker { pending: WorkerAction::Receive, request: None }
    }

    /// The effect that the worker is waiting to have performed.
    pub fn pending(&self) -> (action: WorkerAction)
        ensures
            action == self.pending,
    {
        self.pending
    }

    /// The request in progress, if the worker serves one.
    pub fn request(&self) -> (request: Option<&CompilationContext<S>>)
        ensures
            request is Some <==> self.request is Some,
            request matches Some(ctx) ==> Some(*ctx) == self.request,
            self.wf() ==> (request is Some <==> self.pending.serves_request()),
    {
        self.request.as_ref()
    }

    /// Whether the worker has left its loop.
    pub fn has_exited(&self) -> (exited: bool)
        ensures
            exited == (self.pending is Exit),
    {
        self.pending == WorkerAction::Exit
    }

    /// Takes what came of the pending effect and names the next one.
    ///
    /// An event that does not answer the pending effect is refused: `None` is
    /// returned and the worker does not move.
    pub fn step(&mut self, event: WorkerEvent<S>) -> (action: Option<WorkerAction>)
        ensures
            *final(self) == old(self).after(event),
            action == if old(self).accepts(event) {
                Some(old(self).next_action(event))
            } else {
                None
            },
            old(self).wf() ==> final(self).wf(),
    {
        let next = match self.pending {
            WorkerAction::Receive => match event {
                WorkerEvent::Received(TaskMessage::CompilationContext(ctx)) => {
                    if ctx.complete() {
                        self.request = Some(ctx);
                        Some(WorkerAction::SnapshotEngines)
                    } else {
                        None
                    }
                },
                WorkerEvent::Received(TaskMessage::Terminate) => {
                    self.request = None;
                    Some(WorkerAction::Exit)
                },
                WorkerEvent::Disconnected => {
                    self.request = None;
                    Some(WorkerAction::Exit)
                },
                _ => None,
            },
            WorkerAction::SnapshotEngines => match event {
                WorkerEvent::Completed => {
                    let due = match &self.request {
                        Some(ctx) => ctx.needs_garbage_collection(),
                        None => false,
                    };
                    if due {
                        Some(WorkerAction::CollectGarbage)
                    } else {
                        Some(WorkerAction::SetCompiling)
                    }
                },
                _ => None,
            },
            WorkerAction::CollectGarbage => match event {
                WorkerEvent::GarbageCollected { ok: _ } => Some(WorkerAction::SetCompiling),
                _ => None,
            },
            WorkerAction::SetCompiling => match event {
                WorkerEvent::Completed => Some(WorkerAction::Parse),
                _ => None,
            },
            WorkerAction::Parse => match event {
                WorkerEvent::Parsed { ok } => if ok {
                    Some(WorkerAction::PublishSnapshot)
                } else {
                    Some(WorkerAction::RecordFailure)
                },
                _ => None,
            },
            WorkerAction::PublishSnapshot => match event {
                WorkerEvent::Completed => Some(WorkerAction::WriteParseResult),
                _ => None,
            },
            WorkerAction::WriteParseResult => match event {
                WorkerEvent::Completed => Some(WorkerAction::RecordSuccess),
                _ => None,
            },
            WorkerAction::RecordSuccess => match event {
                WorkerEvent::Completed => Some(WorkerAction::ClearCompiling),
                _ => None,
            },
            WorkerAction::RecordFailure => match event {
                WorkerEvent::Completed => Some(WorkerAction::ClearCompiling),
                _ => None,
            },
            WorkerAction::ClearCompiling => match event {
                WorkerEvent::Completed => {
                    self.request = None;
                    Some(WorkerAction::ClearRetrigger)
                },
                _ => None,
            },
            WorkerAction::ClearRetrigger => match event {
                WorkerEvent::Completed => Some(WorkerAction::CheckQueue),
                _ => None,
            },
            WorkerAction::CheckQueue => match event {
                WorkerEvent::QueueChecked { empty } => if empty {
                    Some(WorkerAction::NotifyIdle)
                } else {
                    Some(WorkerAction::Receive)
                },
                _ => None,
            },
            WorkerAction::NotifyIdle => match event {
                WorkerEvent::Completed => Some(WorkerAction::Receive),
                _ => None,
            },
            WorkerAction::Exit => None,
        };
        if let Some(action) = next {
            self.pending = action;
        }
        next
    }
}

} // verus!
