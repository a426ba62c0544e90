use lsp_server_state::request::{CompilationContext, TaskMessage};
use lsp_server_state::signals::{CompilationState, LastCompilationState};
use lsp_server_state::worker::{CompilationWorker, WorkerAction, WorkerEvent};
use lsp_types::Url;

fn uri() -> Url {
    Url::parse("file:///project/src/main.src").unwrap()
}

fn request(session: u32, version: Option<i32>) -> TaskMessage<u32> {
    TaskMessage::CompilationContext(CompilationContext::new(session, uri(), version))
}

/// A stand-in for the engine: one number per session, and a script of answers.
struct Rig {
    worker: CompilationWorker<u32>,
    signals: CompilationState,
    published: Vec<u64>,
    working: Option<u64>,
    gc_ok: bool,
    parse_ok: bool,
    queue_empty: bool,
    trace: Vec<WorkerAction>,
}

impl Rig {
    fn new(gc_ok: bool, parse_ok: bool) -> Rig {
        Rig {
            worker: CompilationWorker::new(),
            signals: CompilationState::new(),
            published: vec![100, 200],
            working: None,
            gc_ok,
            parse_ok,
            queue_empty: true,
            trace: Vec::new(),
        }
    }

    /// Performs the pending effect on the stand-in and hands the answer to the worker.
    fn perform(&mut self) -> Option<WorkerAction> {
        let action = self.worker.pending();
        self.trace.push(action);
        self.signals.apply(action);
        let session = self.worker.request().map(|ctx| ctx.session.unwrap() as usize);
        let event = match action {
            WorkerAction::SnapshotEngines => {
                self.working = Some(self.published[session.unwrap()]);
                WorkerEvent::Completed
            }
            WorkerAction::CollectGarbage => {
                if self.gc_ok {
                    self.working = self.working.map(|e| e + 1);
                }
                WorkerEvent::GarbageCollected { ok: self.gc_ok }
            }
            WorkerAction::Parse => {
                assert!(self.signals.is_compiling);
                if self.parse_ok {
                    self.working = self.working.map(|e| e + 10);
                }
                WorkerEvent::Parsed { ok: self.parse_ok }
            }
            WorkerAction::PublishSnapshot => {
                self.published[session.unwrap()] = self.working.take().unwrap();
                WorkerEvent::Completed
            }
            WorkerAction::RecordFailure => {
                self.working = None;
                WorkerEvent::Completed
            }
            WorkerAction::CheckQueue => WorkerEvent::QueueChecked { empty: self.queue_empty },
            WorkerAction::Receive | WorkerAction::Exit => panic!("not performed by the rig"),
            _ => WorkerEvent::Completed,
        };
        self.worker.step(event)
    }

    /// Hands `message` to the waiting worker and runs it until it waits again.
    fn serve(&mut self, message: TaskMessage<u32>) {
        assert_eq!(self.worker.pending(), WorkerAction::Receive);
        let mut next = self.worker.step(WorkerEvent::Received(message));
        while let Some(action) = next {
            if action == WorkerAction::Receive || action == WorkerAction::Exit {
                break;
            }
            next = self.perform();
        }
    }

    fn count(&self, action: WorkerAction) -> usize {
        self.trace.iter().filter(|a| **a == action).count()
    }
}

#[test]
fn new_worker_waits_for_a_message() {
    let worker: CompilationWorker<u32> = CompilationWorker::new();
    assert_eq!(worker.pending(), WorkerAction::Receive);
    assert!(worker.request().is_none());
    assert!(!worker.has_exited());
}

#[test]
fn version_five_skips_gc_and_publishes() {
    let mut rig = Rig::new(true, true);
    rig.serve(request(0, Some(5)));
    assert_eq!(rig.count(WorkerAction::CollectGarbage), 0);
    assert_eq!(rig.count(WorkerAction::Parse), 1);
    assert_eq!(rig.signals.last_outcome, LastCompilationState::Success);
    assert_eq!(rig.published, vec![110, 200]);
    assert!(!rig.signals.is_compiling);
    assert!(!rig.signals.retrigger_requested);
    assert_eq!(rig.worker.pending(), WorkerAction::Receive);
}

#[test]
fn successful_compile_runs_its_effects_in_order() {
    let mut rig = Rig::new(true, true);
    rig.serve(request(1, Some(20)));
    assert_eq!(
        rig.trace,
        vec![
            WorkerAction::SnapshotEngines,
            WorkerAction::CollectGarbage,
            WorkerAction::SetCompiling,
            WorkerAction::Parse,
            WorkerAction::PublishSnapshot,
            WorkerAction::WriteParseResult,
            WorkerAction::RecordSuccess,
            WorkerAction::ClearCompiling,
            WorkerAction::ClearRetrigger,
            WorkerAction::CheckQueue,
            WorkerAction::NotifyIdle,
        ]
    );
    assert_eq!(rig.published, vec![100, 211]);
}

#[test]
fn version_ten_with_failing_gc_still_parses() {
    let mut rig = Rig::new(false, true);
    rig.serve(request(0, Some(10)));
    assert_eq!(rig.count(WorkerAction::CollectGarbage), 1);
    assert_eq!(rig.count(WorkerAction::Parse), 1);
    assert_eq!(rig.signals.last_outcome, LastCompilationState::Success);
    // the uncollected copy was parsed and published
    assert_eq!(rig.published, vec![110, 200]);
}

#[test]
fn gc_runs_only_for_every_tenth_version() {
    for version in 1..=9 {
        let mut rig = Rig::new(true, true);
        rig.serve(request(0, Some(version)));
        assert_eq!(rig.count(WorkerAction::CollectGarbage), 0, "version {}", version);
    }
    for version in [0, 10, 20, 1000] {
        let mut rig = Rig::new(true, true);
        rig.serve(request(0, Some(version)));
        assert_eq!(rig.count(WorkerAction::CollectGarbage), 1, "version {}", version);
    }
    for version in [-10, -1, 11, 15, 99] {
        let mut rig = Rig::new(true, true);
        rig.serve(request(0, Some(version)));
        assert_eq!(rig.count(WorkerAction::CollectGarbage), 0, "version {}", version);
    }
    let mut rig = Rig::new(true, true);
    rig.serve(request(0, None));
    assert_eq!(rig.count(WorkerAction::CollectGarbage), 0);
}

#[test]
fn needs_garbage_collection_follows_the_version() {
    let ctx = |version| CompilationContext::new(0u32, uri(), version);
    assert!(ctx(Some(0)).needs_garbage_collection());
    assert!(ctx(Some(10)).needs_garbage_collection());
    assert!(ctx(Some(2_147_483_640)).needs_garbage_collection());
    assert!(!ctx(Some(5)).needs_garbage_collection());
    assert!(!ctx(Some(-10)).needs_garbage_collection());
    assert!(!ctx(Some(i32::MIN)).needs_garbage_collection());
    assert!(!ctx(None).needs_garbage_collection());
}

#[test]
fn failed_compile_leaves_engines_untouched() {
    let mut rig = Rig::new(true, false);
    rig.serve(request(0, Some(10)));
    assert_eq!(rig.published, vec![100, 200]);
    assert_eq!(rig.working, None);
    assert_eq!(rig.signals.last_outcome, LastCompilationState::Failed);
    assert_eq!(rig.count(WorkerAction::PublishSnapshot), 0);
    assert_eq!(rig.count(WorkerAction::WriteParseResult), 0);
    assert_eq!(
        rig.trace,
        vec![
            WorkerAction::SnapshotEngines,
            WorkerAction::CollectGarbage,
            WorkerAction::SetCompiling,
            WorkerAction::Parse,
            WorkerAction::RecordFailure,
            WorkerAction::ClearCompiling,
            WorkerAction::ClearRetrigger,
            WorkerAction::CheckQueue,
            WorkerAction::NotifyIdle,
        ]
    );
}

#[test]
fn failure_after_success_keeps_the_published_engines() {
    let mut rig = Rig::new(true, true);
    rig.serve(request(0, Some(1)));
    assert_eq!(rig.published, vec![110, 200]);
    rig.parse_ok = false;
    rig.serve(request(0, Some(2)));
    assert_eq!(rig.published, vec![110, 200]);
    assert_eq!(rig.signals.last_outcome, LastCompilationState::Failed);
}

#[test]
fn is_compiling_is_set_from_parse_to_reset() {
    let mut rig = Rig::new(true, true);
    assert_eq!(
        rig.worker.step(WorkerEvent::Received(request(0, Some(10)))),
        Some(WorkerAction::SnapshotEngines)
    );
    let mut seen = Vec::new();
    loop {
        let pending = rig.worker.pending();
        if pending == WorkerAction::Receive {
            break;
        }
        seen.push((pending, rig.signals.is_compiling));
        rig.perform();
    }
    for (pending, compiling) in seen {
        let expected = matches!(
            pending,
            WorkerAction::Parse
                | WorkerAction::PublishSnapshot
                | WorkerAction::WriteParseResult
                | WorkerAction::RecordSuccess
                | WorkerAction::ClearCompiling
        );
        assert_eq!(compiling, expected, "while {:?} is pending", pending);
    }
}

#[test]
fn no_notification_while_the_queue_holds_a_message() {
    let mut rig = Rig::new(true, true);
    rig.queue_empty = false;
    rig.serve(request(0, Some(3)));
    assert_eq!(rig.count(WorkerAction::NotifyIdle), 0);
    assert_eq!(rig.worker.pending(), WorkerAction::Receive);
    rig.queue_empty = true;
    rig.serve(request(0, Some(4)));
    assert_eq!(rig.count(WorkerAction::NotifyIdle), 1);
}

#[test]
fn terminate_ends_the_loop_for_good() {
    let mut worker: CompilationWorker<u32> = CompilationWorker::new();
    assert_eq!(
        worker.step(WorkerEvent::Received(TaskMessage::Terminate)),
        Some(WorkerAction::Exit)
    );
    assert!(worker.has_exited());
    assert_eq!(worker.step(WorkerEvent::Received(request(0, Some(1)))), None);
    assert_eq!(worker.step(WorkerEvent::Completed), None);
    assert_eq!(worker.step(WorkerEvent::Disconnected), None);
    assert_eq!(worker.pending(), WorkerAction::Exit);
}

#[test]
fn closed_queue_ends_the_loop() {
    let mut worker: CompilationWorker<u32> = CompilationWorker::new();
    assert_eq!(worker.step(WorkerEvent::Disconnected), Some(WorkerAction::Exit));
    assert!(worker.has_exited());
}

#[test]
fn incomplete_request_is_refused() {
    let mut worker: CompilationWorker<u32> = CompilationWorker::new();
    let empty: CompilationContext<u32> = CompilationContext::default();
    assert!(!empty.complete());
    assert_eq!(
        worker.step(WorkerEvent::Received(TaskMessage::CompilationContext(empty))),
        None
    );
    let no_uri = CompilationContext { session: Some(1u32), uri: None, version: Some(1) };
    assert_eq!(
        worker.step(WorkerEvent::Received(TaskMessage::CompilationContext(no_uri))),
        None
    );
    let no_session = CompilationContext { session: None, uri: Some(uri()), version: Some(1) };
    assert_eq!(
        worker.step(WorkerEvent::Received(TaskMessage::CompilationContext(no_session))),
        None
    );
    assert_eq!(worker.pending(), WorkerAction::Receive);
    assert!(worker.request().is_none());
}

#[test]
fn events_that_answer_nothing_are_refused() {
    let mut worker: CompilationWorker<u32> = CompilationWorker::new();
    assert_eq!(worker.step(WorkerEvent::Completed), None);
    assert_eq!(worker.step(WorkerEvent::Parsed { ok: true }), None);
    assert_eq!(worker.step(WorkerEvent::QueueChecked { empty: true }), None);
    assert_eq!(worker.step(WorkerEvent::GarbageCollected { ok: true }), None);
    assert_eq!(worker.pending(), WorkerAction::Receive);

    worker.step(WorkerEvent::Received(request(7, Some(10))));
    assert_eq!(worker.pending(), WorkerAction::SnapshotEngines);
    assert_eq!(worker.step(WorkerEvent::Parsed { ok: true }), None);
    assert_eq!(worker.step(WorkerEvent::Received(request(8, Some(1)))), None);
    assert_eq!(worker.pending(), WorkerAction::SnapshotEngines);
    assert_eq!(worker.request().unwrap().session, Some(7));

    assert_eq!(worker.step(WorkerEvent::Completed), Some(WorkerAction::CollectGarbage));
    assert_eq!(worker.step(WorkerEvent::Completed), None);
    assert_eq!(
        worker.step(WorkerEvent::GarbageCollected { ok: false }),
        Some(WorkerAction::SetCompiling)
    );
    assert_eq!(worker.step(WorkerEvent::Completed), Some(WorkerAction::Parse));
    assert_eq!(worker.step(WorkerEvent::Completed), None);
    assert_eq!(worker.step(WorkerEvent::Received(request(8, Some(1)))), None);
    assert_eq!(worker.pending(), WorkerAction::Parse);
}

#[test]
fn worker_holds_the_request_until_is_compiling_is_reset() {
    let mut worker: CompilationWorker<u32> = CompilationWorker::new();
    worker.step(WorkerEvent::Received(request(3, Some(7))));
    let held = worker.request().unwrap();
    assert_eq!(held.session, Some(3));
    assert_eq!(held.uri, Some(uri()));
    assert_eq!(held.version, Some(7));
    assert_eq!(worker.step(WorkerEvent::Completed), Some(WorkerAction::SetCompiling));
    assert_eq!(worker.step(WorkerEvent::Completed), Some(WorkerAction::Parse));
    assert_eq!(worker.step(WorkerEvent::Parsed { ok: false }), Some(WorkerAction::RecordFailure));
    assert_eq!(worker.step(WorkerEvent::Completed), Some(WorkerAction::ClearCompiling));
    assert!(worker.request().is_some());
    assert_eq!(worker.step(WorkerEvent::Completed), Some(WorkerAction::ClearRetrigger));
    assert!(worker.request().is_none());
    assert_eq!(worker.step(WorkerEvent::Completed), Some(WorkerAction::CheckQueue));
    assert_eq!(
        worker.step(WorkerEvent::QueueChecked { empty: false }),
        Some(WorkerAction::Receive)
    );
}

#[test]
fn signals_start_unset() {
    let signals = CompilationState::new();
    assert!(!signals.is_compiling);
    assert!(!signals.retrigger_requested);
    assert_eq!(signals.last_outcome, LastCompilationState::Uninitialized);
    assert_eq!(CompilationState::default(), signals);
}

#[test]
fn each_effect_touches_its_own_signal() {
    let mut signals = CompilationState::new();
    signals.request_retrigger();
    assert!(signals.retrigger_requested);
    signals.apply(WorkerAction::SetCompiling);
    assert!(signals.is_compiling && signals.retrigger_requested);
    signals.apply(WorkerAction::RecordFailure);
    assert_eq!(signals.last_outcome, LastCompilationState::Failed);
    signals.apply(WorkerAction::RecordSuccess);
    assert_eq!(signals.last_outcome, LastCompilationState::Success);
    signals.apply(WorkerAction::ClearCompiling);
    assert!(!signals.is_compiling && signals.retrigger_requested);
    signals.apply(WorkerAction::ClearRetrigger);
    assert!(!signals.retrigger_requested);
    let before = signals;
    for action in [
        WorkerAction::Receive,
        WorkerAction::SnapshotEngines,
        WorkerAction::CollectGarbage,
        WorkerAction::Parse,
        WorkerAction::PublishSnapshot,
        WorkerAction::WriteParseResult,
        WorkerAction::CheckQueue,
        WorkerAction::NotifyIdle,
        WorkerAction::Exit,
    ] {
        signals.apply(action);
        assert_eq!(signals, before);
    }
}
