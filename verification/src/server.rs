//! The state of the server, and the entry points of its request handlers.

use crate::config::Config;
use crate::request::{CompilationContext, TaskMessage};
use crate::sessions::Sessions;
use crate::shutdown::Shutdown;
use crate::signals::{settled, WaitDecision};
use crate::worker::CompilationWorker;
use lsp_types::Url;
use vstd::prelude::*;

verus! {

/// The number of messages that the compilation queue holds: a sender that finds the
/// one slot taken waits.
pub const COMPILATION_QUEUE_CAPACITY: usize = 1;

/// The record of whether a server's worker was handed out. It starts open, is
/// closed when the worker is handed out and never opens again: none can be made
/// but by a new server.
pub struct WorkerLatch {
    handed_out: bool,
}

/// The state of the language server, as far as the scheduling of compilations and
/// the publication of diagnostics go.
pub struct ServerState<S> {
    /// The settings.
    pub config: Config,
    /// The sessions of the projects that were opened.
    pub sessions: Sessions<S>,
    /// Whether the worker of this server was handed out.
    pub worker: WorkerLatch,
}

impl WorkerLatch {
    /// Whether the worker was handed out.
    pub closed spec fn handed_out(&self) -> bool {
        self.handed_out
    }

    /// Whether the worker was handed out.
    pub fn is_closed(&self) -> (closed: bool)
        ensures
            closed == self.handed_out(),
    {
        self.handed_out
    }
}

impl<S> ServerState<S> {
    /// The registry of sessions is in order.
    pub open spec fn wf(&self) -> bool {
        self.sessions.wf()
    }

    /// Whether the worker of this server was handed out. A server has one worker:
    /// once it is handed out there is no other.
    pub open spec fn worker_started(&self) -> bool {
        self.worker.handed_out()
    }

    /// A server with the settings `config` that has opened no project and whose
    /// worker has not been started.
    pub fn new(config: Config) -> (state: Self)
        ensures
            state.wf(),
            state.config == config,
            state.sessions@ == Map::<Seq<char>, S>::empty(),
            !state.worker_started(),
    {
        ServerState { config, sessions: Sessions::new(), worker: WorkerLatch { handed_out: false } }
    }

    /// Whether the worker of this server was handed out.
    pub fn has_worker(&self) -> (started: bool)
        ensures
            started == self.worker_started(),
    {
        self.worker.is_closed()
    }

    /// Hands out the worker that is to consume the compilation queue, as it starts:
    /// waiting for its first message. The caller gives it a thread of its own and
    /// performs what it asks for.
    ///
    /// The worker is handed out once. Every later call yields `None`, so that one
    /// worker consumes the queue and no two compiles can run at the same time.
    pub fn spawn_compilation_thread(&mut self) -> (worker: Option<CompilationWorker<S>>)
        ensures
            worker is Some <==> !old(self).worker_started(),
            worker matches Some(w) ==> w == CompilationWorker::<S>::fresh() && w.wf(),
            final(self).worker_started(),
            final(self).config == old(self).config,
            final(self).sessions == old(self).sessions,
    {
        if self.worker.handed_out {
            None
        } else {
            self.worker.handed_out = true;
            Some(CompilationWorker::new())
        }
    }

    /// The message that asks the worker to compile the document `uri` at `version`
    /// in `session`. The caller sends it, waiting if the queue is full.
    pub fn enqueue(&self, session: S, uri: Url, version: Option<i32>) -> (message: TaskMessage<S>)
        ensures
            message == TaskMessage::CompilationContext(
                (CompilationContext { session: Some(session), uri: Some(uri), version }),
            ),
    {
        TaskMessage::CompilationContext(CompilationContext::new(session, uri, version))
    }

    /// One round of waiting for a settled view. `is_compiling` is the signal and
    /// `queue_is_empty` the state of the queue as the caller has just read them: the
    /// caller stops exactly when nothing is being compiled and the queue is empty,
    /// and otherwise waits for the next idle notification and asks again.
    pub fn wait_for_parsing(&self, is_compiling: bool, queue_is_empty: bool) -> (decision:
        WaitDecision)
        ensures
            decision is Settled <==> settled(is_compiling, queue_is_empty),
            decision is Settled ==> !is_compiling && queue_is_empty,
    {
        if !is_compiling {
            if queue_is_empty {
                return WaitDecision::Settled;
            }
        }
        WaitDecision::AwaitNotification
    }

    /// Begins the shutdown of the server: the first thing asked for is to discard
    /// what waits in the queue.
    pub fn shutdown_server(&self) -> (shutdown: Shutdown)
        ensures
            shutdown == Shutdown::begun(),
    {
        Shutdown::new()
    }
}

} // verus!
