//! Taking the service down: what is done, and in which order.
//!
//! Like the worker, the shutdown is a state machine whose state is the effect it is
//! waiting to have performed.

use vstd::prelude::*;

verus! {

/// One effect that the shutdown asks its caller to perform.
#[derive(Clone, Copy, Debug, PartialEq, Eq, Structural)]
pub enum ShutdownAction {
    /// Take one message from the queue without blocking, and drop it unrun.
    DiscardPending,
    /// Set the `retrigger_requested` signal, so that a parse under way gives up.
    RequestRetrigger,
    /// Wait until the view is settled.
    WaitForIdle,
    /// Send the terminate message to the worker.
    SendTerminate,
    /// Tear down every session of the registry.
    ShutdownSessions,
    /// The service is down; report success.
    Finish,
    /// The terminate message could not be sent: the queue is broken, give up.
    Abort,
}

/// What came of the effect that the shutdown was waiting for.
#[derive(Clone, Copy, Debug, PartialEq, Eq, Structural)]
pub enum ShutdownEvent {
    /// The queue was asked for a message; `found` says whether it had one.
    Discarded { found: bool },
    /// An effect that yields nothing was performed.
    Completed,
    /// The terminate message was handed to the queue, or the queue refused it.
    TerminateSent { ok: bool },
}

/// The shutdown of the service, from the first discarded request to the last
/// session torn down.
#[derive(Clone, Copy, Debug, PartialEq, Eq, Structural)]
pub struct Shutdown {
    /// The effect that the shutdown is waiting to have performed.
    pub pending: ShutdownAction,
}

impl ShutdownAction {
    /// The place of an effect in the order of a shutdown. `Abort` takes the place
    /// of the teardown that it replaces.
    pub open spec fn rank(self) -> int {
        match self {
            ShutdownAction::DiscardPending => 0,
            ShutdownAction::RequestRetrigger => 1,
            ShutdownAction::WaitForIdle => 2,
            ShutdownAction::SendTerminate => 3,
            ShutdownAction::ShutdownSessions => 4,
            ShutdownAction::Abort => 4,
            ShutdownAction::Finish => 5,
        }
    }

    /// Whether nothing follows this effect.
    pub open spec fn is_last(self) -> bool {
        self is Finish || self is Abort
    }
}

impl Shutdown {
    /// A shutdown that has just begun: the queue is drained first.
    pub open spec fn begun() -> Self {
        Shutdown { pending: ShutdownAction::DiscardPending }
    }

    /// Whether `event` is an answer to the effect that the shutdown is waiting for.
    pub open spec fn accepts(self, event: ShutdownEvent) -> bool {
        match self.pending {
            ShutdownAction::DiscardPending => event is Discarded,
            ShutdownAction::SendTerminate => event is TerminateSent,
            ShutdownAction::Finish => false,
            ShutdownAction::Abort => false,
            _ => event is Completed,
        }
    }

    /// The effect that follows once `event` has answered the pending one.
    pub open spec fn next_action(self, event: ShutdownEvent) -> ShutdownAction {
        match self.pending {
            ShutdownAction::DiscardPending => match event {
                ShutdownEvent::Discarded { found: false } => ShutdownAction::RequestRetrigger,
                _ => ShutdownAction::DiscardPending,
            },
            ShutdownAction::RequestRetrigger => ShutdownAction::WaitForIdle,
            ShutdownAction::WaitForIdle => ShutdownAction::SendTerminate,
            ShutdownAction::SendTerminate => match event {
                ShutdownEvent::TerminateSent { ok: true } => ShutdownAction::ShutdownSessions,
                _ => ShutdownAction::Abort,
            },
            ShutdownAction::ShutdownSessions => ShutdownAction::Finish,
            ShutdownAction::Finish => ShutdownAction::Finish,
            ShutdownAction::Abort => ShutdownAction::Abort,
        }
    }

    /// The shutdown after `event`: moved on if the event answers the pending effect,
    /// unchanged if it does not.
    pub open spec fn after(self, event: ShutdownEvent) -> Self {
        if self.accepts(event) {
            Shutdown { pending: self.next_action(event) }
        } else {
            self
        }
    }

    /// The shutdown after each of `events` in turn.
    pub open spec fn after_all(self, events: Seq<ShutdownEvent>) -> Self
        decreases events.len(),
    {
        if events.len() == 0 {
            self
        } else {
            self.after_all(events.drop_last()).after(events.last())
        }
    }

    /// The effects asked for while `events` came in, the first included, in the
    /// order in which they were asked for. A refused event asks for nothing.
    pub open spec fn asked(self, events: Seq<ShutdownEvent>) -> Seq<ShutdownAction>
        decreases events.len(),
    {
        if events.len() == 0 {
            seq![self.pending]
        } else {
            let before = self.after_all(events.drop_last());
            let so_far = self.asked(events.drop_last());
            if before.accepts(events.last()) {
                so_far.push(before.next_action(events.last()))
            } else {
                so_far
            }
        }
    }

    /// Begins a shutdown.
    pub fn new() -> (shutdown: Self)
        ensures
            shutdown == Self::begun(),
    {
        Shutdown { pending: ShutdownAction::DiscardPending }
    }

    /// The effect that the shutdown is waiting to have performed.
    pub fn pending(&self) -> (action: ShutdownAction)
        ensures
            action == self.pending,
    {
        self.pending
    }

    /// Whether the shutdown has ended, in success or not.
    pub fn is_over(&self) -> (over: bool)
        ensures
            over == self.pending.is_last(),
    {
        self.pending == ShutdownAction::Finish || self.pending == ShutdownAction::Abort
    }

    /// Takes what came of the pending effect and names the next one.
    ///
    /// The queue is drained until it reports itself empty; then the parse under way
    /// is asked to give up, the view is awaited, the worker is told to terminate and
    /// the sessions are torn down. If the terminate message cannot be sent, the
    /// shutdown aborts. An event that does not answer the pending effect is refused:
    /// `None` is returned and the shutdown does not move.
    pub fn step(&mut self, event: ShutdownEvent) -> (action: Option<ShutdownAction>)
        ensures
            *final(self) == old(self).after(event),
            action == if old(self).accepts(event) {
                Some(old(self).next_action(event))
            } else {
                None
            },
    {
        let next = match self.pending {
            ShutdownAction::DiscardPending => match event {
                ShutdownEvent::Discarded { found } => if found {
                    Some(ShutdownAction::DiscardPending)
                } else {
                    Some(ShutdownAction::RequestRetrigger)
                },
                _ => None,
            },
            ShutdownAction::RequestRetrigger => match event {
                ShutdownEvent::Completed => Some(ShutdownAction::WaitForIdle),
                _ => None,
            },
            ShutdownAction::WaitForIdle => match event {
                ShutdownEvent::Completed => Some(ShutdownAction::SendTerminate),
                _ => None,
            },
            ShutdownAction::SendTerminate => match event {
                ShutdownEvent::TerminateSent { ok } => if ok {
                    Some(ShutdownAction::ShutdownSessions)
                } else {
                    Some(ShutdownAction::Abort)
                },
                _ => None,
            },
            ShutdownAction::ShutdownSessions => match event {
                ShutdownEvent::Completed => Some(ShutdownAction::Finish),
                _ => None,
            },
            ShutdownAction::Finish => None,
            ShutdownAction::Abort => None,
        };
        if let Some(action) = next {
            self.pending = action;
        }
        next
    }
}

/// What holds of the effects asked for by a shutdown, whatever events came in.
spec fn in_shutdown_order(asked: Seq<ShutdownAction>, pending: ShutdownAction) -> bool {
    &&& asked.len() > 0
    &&& asked.last() == pending
    &&& forall|i: int, j: int|
        0 <= i <= j < asked.len() ==> (#[trigger] asked[i]).rank() <= (#[trigger] asked[j]).rank()
    &&& forall|a: ShutdownAction|
        a.rank() < pending.rank() && a.rank() <= 3 ==> #[trigger] asked.contains(a)
    &&& pending is Finish ==> asked.contains(ShutdownAction::ShutdownSessions)
    &&& asked.contains(ShutdownAction::Abort) ==> !asked.contains(
        ShutdownAction::ShutdownSessions,
    )
}

proof fn lemma_asked_in_order(events: Seq<ShutdownEvent>)
    ensures
        in_shutdown_order(
            Shutdown::begun().asked(events),
            Shutdown::begun().after_all(events).pending,
        ),
    decreases events.len(),
{
    let start = Shutdown::begun();
    if events.len() == 0 {
        assert(start.asked(events) == seq![start.pending]);
        assert(start.after_all(events) == start);
    } else {
        lemma_asked_in_order(events.drop_last());
        let before = start.after_all(events.drop_last());
        let so_far = start.asked(events.drop_last());
        let event = events.last();
        if before.accepts(event) {
            let next = before.next_action(event);
            let now = so_far.push(next);
            assert(start.asked(events) == now);
            assert(start.after_all(events).pending == next);
            assert(now.last() == next);
            assert(so_far.contains(before.pending)) by {
                assert(so_far[so_far.len() - 1] == before.pending);
            }
            assert forall|a: ShutdownAction| so_far.contains(a) implies #[trigger] now.contains(
                a,
            ) by {
                let i = choose|i: int| 0 <= i < so_far.len() && so_far[i] == a;
                assert(now[i] == a);
            }
            assert(now.contains(next)) by {
                assert(now[now.len() - 1] == next);
            }
            assert forall|i: int, j: int| 0 <= i <= j < now.len() implies (#[trigger] now[i]).rank()
                <= (#[trigger] now[j]).rank() by {
                if j < so_far.len() {
                    assert(now[i] == so_far[i] && now[j] == so_far[j]);
                } else if i < so_far.len() {
                    assert(now[i] == so_far[i]);
                    assert(so_far[i].rank() <= so_far[so_far.len() - 1].rank());
                }
            }
            assert forall|a: ShutdownAction|
                a.rank() < next.rank() && a.rank() <= 3 implies #[trigger] now.contains(a) by {
                if a.rank() < before.pending.rank() {
                    assert(so_far.contains(a));
                } else {
                    assert(a == before.pending);
                }
            }
            assert(now.contains(ShutdownAction::Abort) ==> !now.contains(
                ShutdownAction::ShutdownSessions,
            )) by {
                if now.contains(ShutdownAction::Abort) && now.contains(
                    ShutdownAction::ShutdownSessions,
                ) {
                    let i = choose|i: int| 0 <= i < now.len() && now[i] == ShutdownAction::Abort;
                    let j = choose|j: int|
                        0 <= j < now.len() && now[j] == ShutdownAction::ShutdownSessions;
                    if i < so_far.len() {
                        assert(so_far[i] == ShutdownAction::Abort);
                        assert(so_far[i].rank() <= so_far[so_far.len() - 1].rank());
                        assert(false);
                    } else {
                        assert(next is Abort);
                        assert(j < so_far.len());
                        assert(so_far[j] == ShutdownAction::ShutdownSessions);
                        assert(so_far[j].rank() <= so_far[so_far.len() - 1].rank());
                        assert(false);
                    }
                }
            }
        } else {
            assert(start.asked(events) == so_far);
            assert(start.after_all(events) == before);
        }
    }
}

/// The order of a shutdown. Whatever events come in, the effects are asked for in
/// this order and in no other: discard what is pending, request the retrigger, wait
/// for the settled view, send the terminate message, tear the sessions down.
pub proof fn law_shutdown_order(events: Seq<ShutdownEvent>, earlier: int, later: int)
    requires
        0 <= earlier <= later < Shutdown::begun().asked(events).len(),
    ensures
        Shutdown::begun().asked(events)[earlier].rank() <= Shutdown::begun().asked(
            events,
        )[later].rank(),
{
    lemma_asked_in_order(events);
}

/// A shutdown skips nothing. Whatever events come in, an effect is asked for only
/// after each effect that precedes it in the order was asked for: the terminate
/// message is never sent before the view was awaited, the view is never awaited
/// before the retrigger was requested, and the retrigger is never requested before
/// the queue was drained.
pub proof fn law_shutdown_skips_nothing(
    events: Seq<ShutdownEvent>,
    later: int,
    before: ShutdownAction,
)
    requires
        0 <= later < Shutdown::begun().asked(events).len(),
        before.rank() < Shutdown::begun().asked(events)[later].rank(),
        before.rank() <= 3,
    ensures
        exists|earlier: int|
            0 <= earlier < later && #[trigger] Shutdown::begun().asked(events)[earlier] == before,
{
    let asked = Shutdown::begun().asked(events);
    lemma_asked_in_order(events);
    assert(asked[later].rank() <= asked[asked.len() - 1].rank());
    assert(asked.contains(before));
    let i = choose|i: int| 0 <= i < asked.len() && asked[i] == before;
    if i >= later {
        assert(asked[later].rank() <= asked[i].rank());
    }
    assert(0 <= i < later && asked[i] == before);
}

/// A shutdown that could not send the terminate message tears down no session and
/// does not report success.
pub proof fn law_abort_tears_nothing_down(events: Seq<ShutdownEvent>)
    requires
        Shutdown::begun().asked(events).contains(ShutdownAction::Abort),
    ensures
        !Shutdown::begun().asked(events).contains(ShutdownAction::ShutdownSessions),
        !Shutdown::begun().asked(events).contains(ShutdownAction::Finish),
{
    let asked = Shutdown::begun().asked(events);
    lemma_asked_in_order(events);
    if asked.contains(ShutdownAction::Finish) {
        let i = choose|i: int| 0 <= i < asked.len() && asked[i] == ShutdownAction::Finish;
        assert(asked[i].rank() <= asked[asked.len() - 1].rank());
        assert(asked.last() is Finish);
    }
}

} // verus!
