//! The service as a whole, and what holds of it at all times.
//!
//! [`Service`] puts the worker beside what it shares with the rest of the server:
//! the queue of one slot, the three signals and the published engines of each
//! session. There is one worker, as a server hands out one and no second. A [`Move`] is one step of one party: a handler sends a message, the
//! worker has its pending effect performed, someone requests a retrigger, the
//! shutdown discards what is pending. The parties interleave in any order, and the
//! engine answers as it likes. The laws at the end of this file hold after every
//! sequence of moves.
//!
//! `S` is the handle of a session, `E` the value of a session's engines.

use crate::request::{gc_due, TaskMessage};
use crate::signals::{settled, CompilationState, LastCompilationState};
use crate::worker::{CompilationWorker, WorkerAction, WorkerEvent};
use vstd::prelude::*;

verus! {

/// What the world outside answers when the worker's pending effect is performed.
/// Each effect reads the part that concerns it.
pub struct Outcome<E> {
    /// Whether every sender of the queue is gone.
    pub disconnected: bool,
    /// The working copy as garbage collection left it, or `None` if it failed.
    pub collected: Option<E>,
    /// The working copy as the parse left it, or `None` if it failed or gave up.
    pub parsed: Option<E>,
}

/// One step of one party.
pub enum Move<S, E> {
    /// A handler sends a message. While the slot is taken the sender waits: the
    /// move changes nothing.
    Send(TaskMessage<S>),
    /// The worker's pending effect is performed and the worker takes its answer.
    /// While the worker waits for a message that is not there, the move changes
    /// nothing.
    Work(Outcome<E>),
    /// The `retrigger_requested` signal is set.
    Retrigger,
    /// The message in the slot, if any, is taken out and dropped unrun.
    Discard,
}

/// The worker and all it shares, with a record of the request in progress.
#[verifier::reject_recursive_types(S)]
pub struct Service<S, E> {
    /// The worker.
    pub worker: CompilationWorker<S>,
    /// The three signals.
    pub signals: CompilationState,
    /// The queue: the messages sent and not yet received, oldest first.
    pub queue: Seq<TaskMessage<S>>,
    /// The published engines of each session: what a reader sees.
    pub engines: Map<S, E>,
    /// The worker's working copy, while it has one.
    pub working: Option<E>,
    /// The session of the request last received.
    pub subject: Option<S>,
    /// The published engines as they were when that request was received.
    pub before: Map<S, E>,
    /// How the parse of that request ended, once it has.
    pub verdict: Option<bool>,
    /// The working copy as a successful parse of that request left it.
    pub fresh: Option<E>,
    /// What was published for that request, once it was.
    pub published: Option<E>,
    /// How many parses have begun.
    pub compiles_begun: nat,
    /// How many parses have ended.
    pub compiles_ended: nat,
    /// How many requests were received for which garbage collection was due.
    pub collections_due: nat,
    /// How many garbage collections were run.
    pub collections_run: nat,
}

impl<S, E> Service<S, E> {
    /// The service as it starts with the sessions' engines `engines`: the worker
    /// waits, the queue is empty, no signal is set.
    pub open spec fn boot(engines: Map<S, E>) -> Self {
        Service {
            worker: CompilationWorker::fresh(),
            signals: CompilationState::initial(),
            queue: Seq::empty(),
            engines,
            working: None,
            subject: None,
            before: engines,
            verdict: None,
            fresh: None,
            published: None,
            compiles_begun: 0,
            compiles_ended: 0,
            collections_due: 0,
            collections_run: 0,
        }
    }

    /// What comes of performing the worker's pending effect: the event that the
    /// worker is handed, or `None` where the worker waits on an empty queue or has
    /// left its loop.
    pub open spec fn answer(self, outcome: Outcome<E>) -> Option<WorkerEvent<S>> {
        match self.worker.pending {
            WorkerAction::Receive => if self.queue.len() > 0 {
                Some(WorkerEvent::Received(self.queue[0]))
            } else if outcome.disconnected {
                Some(WorkerEvent::Disconnected)
            } else {
                None
            },
            WorkerAction::CollectGarbage => Some(
                WorkerEvent::GarbageCollected { ok: outcome.collected is Some },
            ),
            WorkerAction::Parse => Some(WorkerEvent::Parsed { ok: outcome.parsed is Some }),
            WorkerAction::CheckQueue => Some(
                WorkerEvent::QueueChecked { empty: self.queue.len() == 0 },
            ),
            WorkerAction::Exit => None,
            _ => Some(WorkerEvent::Completed),
        }
    }

    /// What performing the worker's pending effect does to everything but the
    /// worker itself.
    pub open spec fn performed(self, outcome: Outcome<E>) -> Self {
        match self.worker.pending {
            WorkerAction::Receive => if self.queue.len() > 0 {
                match self.queue[0] {
                    TaskMessage::CompilationContext(ctx) if ctx.is_complete() => Service {
                        queue: self.queue.drop_first(),
                        subject: ctx.session,
                        before: self.engines,
                        verdict: None,
                        fresh: None,
                        published: None,
                        collections_due: if gc_due(ctx.version) {
                            self.collections_due + 1
                        } else {
                            self.collections_due
                        },
                        ..self
                    },
                    _ => Service { queue: self.queue.drop_first(), ..self },
                }
            } else {
                self
            },
            WorkerAction::SnapshotEngines => Service {
                working: Some(self.engines[self.subject.unwrap()]),
                ..self
            },
            WorkerAction::CollectGarbage => Service {
                working: if outcome.collected is Some {
                    outcome.collected
                } else {
                    self.working
                },
                collections_run: self.collections_run + 1,
                ..self
            },
            WorkerAction::SetCompiling => Service {
                signals: self.signals.after(WorkerAction::SetCompiling),
                compiles_begun: self.compiles_begun + 1,
                ..self
            },
            WorkerAction::Parse => Service {
                working: if outcome.parsed is Some {
                    outcome.parsed
                } else {
                    self.working
                },
                verdict: Some(outcome.parsed is Some),
                fresh: outcome.parsed,
                compiles_ended: self.compiles_ended + 1,
                ..self
            },
            WorkerAction::PublishSnapshot => Service {
                engines: self.engines.insert(self.subject.unwrap(), self.working.unwrap()),
                published: self.working,
                working: None,
                ..self
            },
            WorkerAction::RecordFailure => Service {
                signals: self.signals.after(WorkerAction::RecordFailure),
                working: None,
                ..self
            },
            action => Service { signals: self.signals.after(action), ..self },
        }
    }

    /// The service after the worker's pending effect was performed with `outcome`.
    pub open spec fn work(self, outcome: Outcome<E>) -> Self {
        match self.answer(outcome) {
            Some(event) => Service { worker: self.worker.after(event), ..self.performed(outcome) },
            None => self,
        }
    }

    /// The service after one move.
    pub open spec fn after(self, m: Move<S, E>) -> Self {
        match m {
            Move::Send(message) => if self.queue.len() == 0 {
                Service { queue: seq![message], ..self }
            } else {
                self
            },
            Move::Work(outcome) => self.work(outcome),
            Move::Retrigger => Service { signals: self.signals.retriggered(), ..self },
            Move::Discard => Service { queue: Seq::empty(), ..self },
        }
    }

    /// The service after each of `moves` in turn.
    pub open spec fn after_all(self, moves: Seq<Move<S, E>>) -> Self
        decreases moves.len(),
    {
        if moves.len() == 0 {
            self
        } else {
            self.after_all(moves.drop_last()).after(moves.last())
        }
    }

    /// The published engines that follow from the record of the request last
    /// received: as they were at its receipt, but for what was published for it.
    pub open spec fn engines_on_record(self) -> Map<S, E> {
        match self.published {
            Some(engines) => self.before.insert(self.subject.unwrap(), engines),
            None => self.before,
        }
    }

    /// Whether garbage collection is still to come for the request in progress.
    pub open spec fn collection_ahead(self) -> bool {
        (self.worker.pending is SnapshotEngines || self.worker.pending is CollectGarbage) && (
        self.worker.request matches Some(ctx) && gc_due(ctx.version))
    }

    /// What holds of the service at all times.
    pub open spec fn holds_together(self) -> bool {
        let pending = self.worker.pending;
        &&& self.worker.wf()
        &&& self.queue.len() <= 1
        &&& self.signals.is_compiling == pending.under_compiling_signal()
        &&& self.compiles_begun == self.compiles_ended + if pending is Parse {
            1nat
        } else {
            0nat
        }
        &&& self.collections_due == self.collections_run + if self.collection_ahead() {
            1nat
        } else {
            0nat
        }
        &&& pending is CollectGarbage ==> self.collection_ahead()
        &&& self.worker.request matches Some(ctx) ==> ctx.session == self.subject
        &&& self.working is Some <==> pending is CollectGarbage || pending is SetCompiling
            || pending is Parse || pending is PublishSnapshot || pending is RecordFailure
        &&& self.engines == self.engines_on_record()
        &&& self.published is Some ==> self.subject is Some && self.verdict == Some(true)
            && self.published == self.fresh
        &&& self.verdict == Some(true) ==> self.fresh is Some
        &&& self.verdict == Some(true) && self.published is None ==> pending is PublishSnapshot
            && self.working == self.fresh
        &&& pending is PublishSnapshot || pending is WriteParseResult || pending is RecordSuccess
            ==> self.verdict == Some(true)
        &&& pending is PublishSnapshot ==> self.published is None
        &&& pending is RecordFailure ==> self.verdict == Some(false)
        &&& self.verdict is Some ==> self.compiles_ended > 0
        &&& pending is SnapshotEngines || pending is CollectGarbage || pending is SetCompiling
            || pending is Parse ==> self.verdict is None
        &&& self.verdict is Some && !(pending is PublishSnapshot || pending is WriteParseResult
            || pending is RecordSuccess || pending is RecordFailure) ==> self.signals.last_outcome
            == if self.verdict == Some(true) {
            LastCompilationState::Success
        } else {
            LastCompilationState::Failed
        }
        &&& self.compiles_ended == 0 ==> self.signals.last_outcome is Uninitialized
        &&& pending is ClearCompiling || pending is ClearRetrigger || pending is CheckQueue
            || pending is NotifyIdle ==> self.compiles_ended > 0
    }
}

proof fn lemma_boot_invariant<S, E>(engines: Map<S, E>)
    ensures
        Service::<S, E>::boot(engines).holds_together(),
{
}

proof fn lemma_move_keeps_invariant<S, E>(service: Service<S, E>, m: Move<S, E>)
    requires
        service.holds_together(),
    ensures
        service.after(m).holds_together(),
{
    let next = service.after(m);
    match m {
        Move::Send(message) => {
            assert(seq![message].len() == 1);
        },
        Move::Retrigger => {},
        Move::Discard => {},
        Move::Work(outcome) => {
            match service.answer(outcome) {
                None => {},
                Some(event) => {
                    let done = service.performed(outcome);
                    assert(next == Service { worker: service.worker.after(event), ..done });
                    match service.worker.pending {
                        WorkerAction::Receive => {
                            if service.queue.len() > 0 {
                                assert(service.queue.drop_first().len() == 0);
                            }
                        },
                        WorkerAction::PublishSnapshot => {
                            assert(next.engines == next.engines_on_record());
                        },
                        _ => {},
                    }
                },
            }
        },
    }
}

proof fn lemma_invariant_always<S, E>(engines: Map<S, E>, moves: Seq<Move<S, E>>)
    ensures
        Service::boot(engines).after_all(moves).holds_together(),
    decreases moves.len(),
{
    if moves.len() == 0 {
        lemma_boot_invariant::<S, E>(engines);
    } else {
        lemma_invariant_always(engines, moves.drop_last());
        lemma_move_keeps_invariant(Service::boot(engines).after_all(moves.drop_last()), moves.last());
    }
}

/// At most one compile runs at any time. After every sequence of moves, the parses
/// that have begun and not ended are one or none, and there is one exactly while the
/// worker waits for its parse to end.
pub proof fn law_one_compile_at_a_time<S, E>(engines: Map<S, E>, moves: Seq<Move<S, E>>)
    ensures
        ({
            let service = Service::boot(engines).after_all(moves);
            &&& service.compiles_ended <= service.compiles_begun <= service.compiles_ended + 1
            &&& service.compiles_begun == service.compiles_ended + 1
                <==> service.worker.pending is Parse
        }),
{
    lemma_invariant_always(engines, moves);
}

/// The queue never holds more than one message: a sender that finds the slot taken
/// waits until the worker has emptied it.
pub proof fn law_queue_holds_one<S, E>(
    engines: Map<S, E>,
    moves: Seq<Move<S, E>>,
    message: TaskMessage<S>,
)
    ensures
        ({
            let service = Service::boot(engines).after_all(moves);
            &&& service.queue.len() <= 1
            &&& service.queue.len() == 1 ==> service.after(Move::Send(message)) == service
        }),
{
    lemma_invariant_always(engines, moves);
}

/// `is_compiling` is set exactly from the moment the worker has set it, just before
/// the parse begins, until the worker resets it, after the outcome is recorded. So
/// it is set only while the worker holds a request, and it is never set while the
/// worker waits for a message, looks at the queue or notifies.
pub proof fn law_compiling_signal<S, E>(engines: Map<S, E>, moves: Seq<Move<S, E>>)
    ensures
        ({
            let service = Service::boot(engines).after_all(moves);
            &&& service.signals.is_compiling == service.worker.pending.under_compiling_signal()
            &&& service.signals.is_compiling ==> service.worker.request is Some
            &&& service.compiles_begun > service.compiles_ended ==> service.signals.is_compiling
        }),
{
    lemma_invariant_always(engines, moves);
}

/// From the parse on, `is_compiling` is set exactly while the worker holds a
/// request. What is left out is the time in which the worker holds a request and
/// has not yet set the signal: while it copies and garbage collects the engines.
pub proof fn law_compiling_while_serving<S, E>(engines: Map<S, E>, moves: Seq<Move<S, E>>)
    requires
        ({
            let pending = Service::boot(engines).after_all(moves).worker.pending;
            !(pending is SnapshotEngines || pending is CollectGarbage || pending is SetCompiling)
        }),
    ensures
        ({
            let service = Service::boot(engines).after_all(moves);
            service.signals.is_compiling <==> service.worker.request is Some
        }),
{
    lemma_invariant_always(engines, moves);
}

/// A caller that finds the view settled finds, at that instant, that nothing is
/// being parsed or published, that `is_compiling` is not set and that the queue is
/// empty.
pub proof fn law_settled_view<S, E>(engines: Map<S, E>, moves: Seq<Move<S, E>>)
    requires
        ({
            let service = Service::boot(engines).after_all(moves);
            settled(service.signals.is_compiling, service.queue.len() == 0)
        }),
    ensures
        ({
            let service = Service::boot(engines).after_all(moves);
            &&& !service.signals.is_compiling
            &&& service.queue.len() == 0
            &&& service.compiles_begun == service.compiles_ended
            &&& !service.worker.pending.under_compiling_signal()
        }),
{
    lemma_invariant_always(engines, moves);
}

/// Published engines change in one way only: the worker's publication replaces the
/// engines of the request's session by the whole working copy that the successful
/// parse left, in a single move. Every other move, and every other session, leaves
/// what readers see as it is.
pub proof fn law_engines_replaced_whole<S, E>(
    engines: Map<S, E>,
    moves: Seq<Move<S, E>>,
    m: Move<S, E>,
)
    ensures
        ({
            let service = Service::boot(engines).after_all(moves);
            let next = service.after(m);
            ||| next.engines == service.engines
            ||| {
                &&& m is Work
                &&& service.worker.pending is PublishSnapshot
                &&& service.subject is Some
                &&& service.fresh is Some
                &&& service.working == service.fresh
                &&& next.engines == service.engines.insert(
                    service.subject.unwrap(),
                    service.fresh.unwrap(),
                )
            }
        }),
{
    lemma_invariant_always(engines, moves);
    let service = Service::boot(engines).after_all(moves);
    match m {
        Move::Work(outcome) => {
            if service.answer(outcome) is Some {
                if service.worker.pending is PublishSnapshot {
                    assert(service.worker.request is Some);
                }
            }
        },
        _ => {},
    }
}

/// A reader sees the old engines or the new, never a mixture. From the receipt of a
/// request until the next, the published engines are those of the receipt as long
/// as nothing was published, and afterwards those of the receipt with the session's
/// engines replaced by what the parse left.
pub proof fn law_readers_see_old_or_new<S, E>(engines: Map<S, E>, moves: Seq<Move<S, E>>)
    ensures
        ({
            let service = Service::boot(engines).after_all(moves);
            &&& service.published is None ==> service.engines == service.before
            &&& service.published is Some ==> {
                &&& service.verdict == Some(true)
                &&& service.subject is Some
                &&& service.fresh is Some
                &&& service.engines == service.before.insert(
                    service.subject.unwrap(),
                    service.fresh.unwrap(),
                )
            }
        }),
{
    lemma_invariant_always(engines, moves);
}

/// A compile that fails changes nothing that readers see: the published engines are
/// those of the request's receipt, no publication and no storing of a parse result
/// is asked for, and once the outcome is recorded it is `Failed`.
pub proof fn law_failed_compile_changes_nothing<S, E>(engines: Map<S, E>, moves: Seq<Move<S, E>>)
    requires
        Service::boot(engines).after_all(moves).verdict == Some(false),
    ensures
        ({
            let service = Service::boot(engines).after_all(moves);
            &&& service.engines == service.before
            &&& service.published is None
            &&& !(service.worker.pending is PublishSnapshot || service.worker.pending
                is WriteParseResult || service.worker.pending is RecordSuccess)
            &&& !(service.worker.pending is RecordFailure) ==> service.signals.last_outcome
                is Failed
        }),
{
    lemma_invariant_always(engines, moves);
}

/// A compile that succeeds is published: once the worker is past the publication,
/// the session's engines are what the parse left, and once the outcome is recorded
/// it is `Success`.
pub proof fn law_successful_compile_is_published<S, E>(engines: Map<S, E>, moves: Seq<Move<S, E>>)
    requires
        Service::boot(engines).after_all(moves).verdict == Some(true),
        !(Service::boot(engines).after_all(moves).worker.pending is PublishSnapshot),
    ensures
        ({
            let service = Service::boot(engines).after_all(moves);
            &&& service.subject is Some
            &&& service.fresh is Some
            &&& service.engines == service.before.insert(
                service.subject.unwrap(),
                service.fresh.unwrap(),
            )
            &&& !(service.worker.pending is WriteParseResult || service.worker.pending
                is RecordSuccess) ==> service.signals.last_outcome is Success
        }),
{
    lemma_invariant_always(engines, moves);
}

/// Garbage collection runs once for each request for which it is due, and never for
/// another: the collections run are as many as the requests received for which one
/// was due, less the one that is still to come for the request in progress.
pub proof fn law_garbage_collected_when_due<S, E>(engines: Map<S, E>, moves: Seq<Move<S, E>>)
    ensures
        ({
            let service = Service::boot(engines).after_all(moves);
            &&& service.collections_due == service.collections_run + if service.collection_ahead() {
                1nat
            } else {
                0nat
            }
            &&& service.worker.pending is CollectGarbage ==> (service.worker.request matches Some(
                ctx,
            ) && gc_due(ctx.version))
        }),
{
    lemma_invariant_always(engines, moves);
}

/// The idle notification is sent only when a request has just been finished and the
/// queue was found empty: while it is pending, a parse has ended, none is running,
/// the worker holds no request and `is_compiling` is not set. And when the worker
/// looks at the queue, the notification is the next effect exactly if the queue is
/// empty at that instant.
pub proof fn law_notified_when_idle<S, E>(
    engines: Map<S, E>,
    moves: Seq<Move<S, E>>,
    outcome: Outcome<E>,
)
    ensures
        ({
            let service = Service::boot(engines).after_all(moves);
            let next = service.after(Move::Work(outcome));
            &&& service.worker.pending is NotifyIdle ==> {
                &&& service.compiles_ended > 0
                &&& service.compiles_begun == service.compiles_ended
                &&& service.worker.request is None
                &&& !service.signals.is_compiling
            }
            &&& service.worker.pending is CheckQueue ==> (next.worker.pending is NotifyIdle
                <==> service.queue.len() == 0)
            &&& next.worker.pending is NotifyIdle && !(service.worker.pending is NotifyIdle)
                ==> service.worker.pending is CheckQueue
        }),
{
    lemma_invariant_always(engines, moves);
}

/// Once the worker has left its loop it does nothing more: no message is taken from
/// the queue, no signal and no engines are touched.
pub proof fn law_exit_is_final<S, E>(
    engines: Map<S, E>,
    moves: Seq<Move<S, E>>,
    outcome: Outcome<E>,
)
    requires
        Service::boot(engines).after_all(moves).worker.pending is Exit,
    ensures
        ({
            let service = Service::boot(engines).after_all(moves);
            service.after(Move::Work(outcome)) == service
        }),
{
}

} // verus!
