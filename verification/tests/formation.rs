use anda_brain::cognitive::{self, plan, RuntimeArgs, RuntimeStep, RuntimeToolError};
use anda_brain::formation::{
    after_turn, attempted, high_water, instructions, observation_key, person_write, plan_review,
    predecessor_failed, queue_read, queue_reread, resume, review_prompt, scan_page, shows_history,
    source_status, start_process, turn_is_done, AfterAttempt, Flow, HistoryScan, PageScan,
    ProcessingGate, QueueRead, QueuedConversation, Resume, SourceVerdict, StartError, WorkerStep,
    CREATE_PERSON, NAME, UPSERT_PERSON,
};
use anda_brain::formation::counterparty::{self, Counterparty};
use anda_brain::formation::{attempt, worker};
use anda_brain::json::{Json, Member};
use anda_brain::recall::session::ConversationStatus;

const REVIEW: &str = "Review the pass.";

// Reviews

#[test]
fn formation_agent_name_matches_registered_agent_name() {
    assert_eq!(NAME, "formation_memory");
}

#[test]
fn review_scope_identifies_the_actual_captured_message_window() {
    let prompt = review_prompt(REVIEW, 42, 20);
    assert!(prompt.contains("formation conversation 42, 20 input messages"));
    assert!(prompt.contains(":msg1 through :msg16 refer to input messages 5 through 20"));
    assert!(review_prompt(REVIEW, 43, 0).contains("No input-message Evidence bindings"));
}

#[test]
fn the_review_window_covers_the_last_messages() {
    assert!(review_prompt(REVIEW, 1, 3).contains(":msg1 through :msg3 refer to input messages 1 through 3 "));
    assert!(review_prompt(REVIEW, 1, 17).contains(":msg16 refer to input messages 2 through 17 "));
}

#[test]
fn long_inputs_are_reviewed_once() {
    assert!(plan_review(9_999, REVIEW, 1, 2).is_none());
    let mut review = plan_review(10_000, REVIEW, 1, 2);
    assert!(review.is_some());
    assert!(!turn_is_done(false, true, true));
    assert!(turn_is_done(false, true, false));
    assert!(turn_is_done(true, false, true));
    assert!(matches!(after_turn(&mut review, false, false), Flow::Continue));
    assert!(matches!(after_turn(&mut review, true, false), Flow::FollowUp(p) if p == review_prompt(REVIEW, 1, 2)));
    assert!(matches!(after_turn(&mut review, true, false), Flow::Continue));
    assert!(matches!(after_turn(&mut review, true, true), Flow::Break));
}

// The slot and the queue

#[test]
fn one_conversation_is_processed_at_a_time() {
    let mut gate = ProcessingGate::new();
    assert!(!gate.is_processing());
    assert!(!gate.enter(5, true));
    assert!(gate.enter(5, false));
    assert!(!gate.enter(6, false));
    assert_eq!(start_process(&gate, false, 6), Err(StartError::Busy(5)));
    assert_eq!(
        StartError::Busy(5).message(),
        "FormationAgent is already processing conversation 5"
    );
    assert!(!gate.hand_over(4, 6));
    assert!(gate.hand_over(5, 6));
    gate.release();
    assert!(!gate.is_processing());
    assert_eq!(start_process(&gate, true, 6), Err(StartError::Maintenance));
    assert_eq!(start_process(&gate, false, 6), Ok(5));
    assert_eq!(start_process(&gate, false, 0), Ok(0));
    assert!(StartError::Maintenance.message().contains("formation will resume"));
    assert_eq!(
        StartError::NothingPending(9).message(),
        "No pending formation conversation found starting from 9"
    );
}

#[test]
fn submissions_never_overtake_earlier_ones() {
    assert_eq!(resume(false, false, None, 3), Resume::Queued);
    assert_eq!(resume(true, true, None, 3), Resume::Queued);
    assert_eq!(resume(true, false, Some(1), 3), Resume::FromQueue(1));
    assert_eq!(resume(true, false, Some(2), 3), Resume::Own);
    assert_eq!(resume(true, false, None, 1), Resume::Own);
    assert_eq!(resume(true, false, Some(9), 3), Resume::Own);
}

fn queued(id: u64, status: ConversationStatus, label: Option<&str>) -> QueuedConversation {
    QueuedConversation { id, status, label: label.map(str::to_string) }
}

#[test]
fn the_queue_skips_what_has_ended_or_is_not_formation() {
    let page = vec![
        queued(1, ConversationStatus::Completed, Some("formation")),
        queued(2, ConversationStatus::Submitted, Some("maintenance")),
        queued(3, ConversationStatus::Cancelled, None),
        queued(4, ConversationStatus::Failed, None),
        queued(5, ConversationStatus::Submitted, Some("formation")),
    ];
    assert_eq!(scan_page(&page), PageScan::Found(3));
    assert_eq!(
        scan_page(&vec![queued(7, ConversationStatus::Completed, None)]),
        PageScan::After(7)
    );
    assert_eq!(scan_page(&vec![]), PageScan::End);
}

#[test]
fn failures_are_retried_once_and_then_stop_the_queue() {
    let mut gate = ProcessingGate::new();
    assert!(gate.enter(5, false));
    assert_eq!(attempted(&mut gate, ConversationStatus::Failed, true), AfterAttempt::Retry);
    assert!(gate.is_processing());
    assert_eq!(attempted(&mut gate, ConversationStatus::Completed, false), AfterAttempt::Advance);
    assert_eq!(attempted(&mut gate, ConversationStatus::Cancelled, true), AfterAttempt::Advance);
    assert_eq!(attempted(&mut gate, ConversationStatus::Failed, false), AfterAttempt::Stop);
    assert!(!gate.is_processing());
    assert_eq!(high_water(Some(9), 4), 9);
    assert_eq!(high_water(Some(3), 4), 4);
    assert_eq!(high_water(None, 4), 4);
}

#[test]
fn the_worker_reads_the_queue_again_after_giving_the_slot_back() {
    let mut gate = ProcessingGate::new();
    gate.enter(5, false);
    assert_eq!(queue_read(&mut gate, 5, QueueRead::Next(6)), WorkerStep::Process(6));
    assert_eq!(queue_read(&mut gate, 5, QueueRead::Next(7)), WorkerStep::End);
    assert!(gate.is_processing());
    assert_eq!(queue_read(&mut gate, 6, QueueRead::Empty), WorkerStep::ReadAgain);
    assert!(!gate.is_processing());
    assert_eq!(queue_reread(&mut gate, true, QueueRead::Next(8)), WorkerStep::End);
    assert_eq!(queue_reread(&mut gate, false, QueueRead::Next(8)), WorkerStep::Process(8));
    assert_eq!(queue_reread(&mut gate, false, QueueRead::Empty), WorkerStep::End);
    assert_eq!(queue_read(&mut gate, 8, QueueRead::Failed), WorkerStep::End);
    assert!(!gate.is_processing());
}

#[test]
fn the_history_holds_the_newest_completed_formations() {
    let mut scan = HistoryScan::new(4);
    let status = |id| match id {
        4 => queued(4, ConversationStatus::Failed, None),
        3 => queued(3, ConversationStatus::Completed, Some("formation")),
        2 => queued(2, ConversationStatus::Completed, Some("recall")),
        _ => queued(1, ConversationStatus::Completed, None),
    };
    while scan.wants_more() {
        let next = Some(status(scan.next));
        scan.take(&next, 0);
    }
    assert_eq!(scan.kept, [3, 1]);
    let mut bounded = HistoryScan::new(4);
    while bounded.wants_more() {
        let next = Some(status(bounded.next));
        bounded.take(&next, 1);
    }
    assert_eq!(bounded.kept, [3]);
    let mut missing = HistoryScan::new(100);
    while missing.wants_more() {
        missing.take(&None, 0);
    }
    assert_eq!(missing.scanned, 32);
    assert!(shows_history(None) && shows_history(Some(0)) && !shows_history(Some(1)));
}

// One pass

#[test]
fn passes_start_from_an_open_source() {
    assert_eq!(source_status(SourceVerdict::Open), None);
    assert_eq!(source_status(SourceVerdict::Busy), Some(ConversationStatus::Submitted));
    assert_eq!(source_status(SourceVerdict::Suppressed), Some(ConversationStatus::Cancelled));
    assert_eq!(
        predecessor_failed("c-1"),
        (ConversationStatus::Cancelled, "predecessor_failed:c-1".to_string())
    );
    assert_eq!(observation_key(7), "formation:conversation:7");
    let text = instructions("S", "{}", "[]", "null", None, None, "now");
    assert!(text.starts_with("S\n\n---\n\n# `DESCRIBE PRIMER` Result:\n{}"));
    assert!(text.contains("\n\n# Captured Evidence:\nnone\n\n# Memory Interface Intent:\nnone (an ordinary Formation submission)\n\n"));
    assert!(text.ends_with("\n\n# Current Datetime: now"));
}

#[test]
fn counterparties_keep_their_names_unless_told_otherwise() {
    let created = person_write("did:x", None);
    assert_eq!((created.command, created.name.as_str()), (CREATE_PERSON, "did:x"));
    assert!(created.tolerates_conflict);
    let renamed = person_write("did:x", Some("Ada".to_string()));
    assert_eq!((renamed.command, renamed.name.as_str()), (UPSERT_PERSON, "Ada"));
    assert_eq!(renamed.key, "did:x");
    assert!(!renamed.tolerates_conflict);
    for command in [CREATE_PERSON, UPSERT_PERSON] {
        assert!(anda_kip::parse_kip(&format!("MUTATE {{ {command} }}")).is_ok(), "{command}");
    }
}

#[test]
fn counterparties_are_looked_up_before_they_are_created() {
    let person = |name: &str| Json::object().with("name", Json::text(name));
    // Somebody has the key: nothing is written.
    let (mut work, ask) = Counterparty::begin("alice", None);
    assert!(matches!(ask, counterparty::Ask::Read { key } if key == "alice"));
    match work.step(counterparty::Told::Found(person("Alice Smith"))) {
        Ok(counterparty::Ask::Give(found)) => {
            assert_eq!(found.to_text(), r#"{"name":"Alice Smith"}"#)
        }
        other => panic!("{other:?}"),
    }
    assert!(work.step(counterparty::Told::Written).is_err());
    // Nobody has it: the person is created, and another caller's creation stands.
    let created = [
        counterparty::Told::Written,
        counterparty::Told::Conflict("taken".to_string()),
    ];
    for told in created {
        let (mut work, _ask) = Counterparty::begin("new_person", None);
        match work.step(counterparty::Told::NotFound) {
            Ok(counterparty::Ask::Write(write)) => {
                assert_eq!((write.command, write.key.as_str()), (CREATE_PERSON, "new_person"));
                assert_eq!(write.name, "new_person");
            }
            other => panic!("{other:?}"),
        }
        assert!(matches!(work.step(told), Ok(counterparty::Ask::Read { .. })));
        assert!(matches!(
            work.step(counterparty::Told::NotFound),
            Ok(counterparty::Ask::Give(Json::Null))
        ));
    }
    // A name is written at once, and a conflict is then an error.
    let (mut work, ask) = Counterparty::begin("alice", Some("Alice Jones".to_string()));
    match ask {
        counterparty::Ask::Write(write) => {
            assert_eq!((write.command, write.name.as_str()), (UPSERT_PERSON, "Alice Jones"))
        }
        other => panic!("{other:?}"),
    }
    match work.step(counterparty::Told::Conflict("taken".to_string())) {
        Ok(counterparty::Ask::Fail(error)) => assert_eq!(error, "taken"),
        other => panic!("{other:?}"),
    }
    let (mut work, _ask) = Counterparty::begin("alice", None);
    assert!(matches!(
        work.step(counterparty::Told::Failed("down".to_string())),
        Ok(counterparty::Ask::Fail(error)) if error == "down"
    ));
}

// The runtime tool

fn args(operation: &str, target: Option<&str>, version: Option<u64>) -> RuntimeArgs {
    RuntimeArgs {
        operation: operation.to_string(),
        target_ref: target.map(str::to_string),
        expected_version: version,
        content: None,
    }
}

#[test]
fn only_maintenance_manages_watches_and_leases() {
    assert_eq!(cognitive::NAME, "memory_runtime");
    let denied = |a| plan(a, false, 0).unwrap_err();
    assert_eq!(denied(args("arm_watch", Some("C-1"), Some(1))), RuntimeToolError::MaintenanceOnly);
    let refused = |a| plan(a, true, 0).unwrap_err();
    assert_eq!(refused(args("arm_watch", None, Some(1))), RuntimeToolError::TargetRequired);
    assert_eq!(refused(args("arm_watch", Some("C-1"), Some(0))), RuntimeToolError::VersionRequired);
    assert_eq!(refused(args("arm_watch", Some("C-1"), None)), RuntimeToolError::VersionRequired);
    assert_eq!(refused(args("drop", Some("C-1"), Some(1))), RuntimeToolError::UnknownOperation);
    match plan(args("arm_watch", Some("C-1"), Some(3)), true, 0).unwrap() {
        RuntimeStep::ArmWatch { target, expected } => {
            assert_eq!((target.as_str(), expected), ("C-1", 3));
        }
        other => panic!("{other:?}"),
    }
    match plan(args("lease_task", Some("C-1"), Some(3)), true, 1_000).unwrap() {
        RuntimeStep::LeaseTask { until_ms, .. } => assert_eq!(until_ms, 301_000),
        other => panic!("{other:?}"),
    }
}

#[test]
fn every_mode_reads_the_syntax_and_digests_content() {
    match plan(args("syntax", None, None), false, 0).unwrap() {
        RuntimeStep::Answer(answer) => {
            assert!(answer.text_at("syntax").unwrap().len() > 100);
        }
        other => panic!("{other:?}"),
    }
    let mut digest = args("content_digest", None, None);
    assert_eq!(plan(digest, false, 0).unwrap_err(), RuntimeToolError::ContentRequired);
    digest = args("content_digest", None, None);
    digest.content = Some(Json::Object(vec![Member {
        name: "a".to_string(),
        value: Json::Bool(true),
    }]));
    let value: serde_json::Value = serde_json::from_str(r#"{"a":true}"#).unwrap();
    match plan(digest, false, 0).unwrap() {
        RuntimeStep::Answer(answer) => assert_eq!(
            answer.text_at("content_digest").unwrap(),
            anda_cognitive_nexus::content_digest(&value).unwrap()
        ),
        other => panic!("{other:?}"),
    }
    let mut large = args("content_digest", None, None);
    large.content = Some(Json::Text("x".repeat(65_535)));
    assert_eq!(plan(large, false, 0).unwrap_err(), RuntimeToolError::ContentTooLarge);
    let mut odd = args("content_digest", None, None);
    odd.content = Some(Json::unsigned(u64::MAX));
    match plan(odd, false, 0).unwrap_err() {
        RuntimeToolError::Undigestible(why) => {
            let value = serde_json::Value::from(u64::MAX);
            let outside = anda_cognitive_nexus::content_digest(&value).unwrap_err();
            assert_eq!(why, outside.to_string());
        }
        other => panic!("{other:?}"),
    }
    assert_eq!(
        RuntimeToolError::UnknownOperation.message(),
        anda_kip::KipError::unsupported_capability("unknown memory runtime operation").to_string()
    );
    assert_eq!(RuntimeToolError::ContentTooLarge.message(), "content exceeds 64 KiB");
}

// Whole walks

#[test]
fn a_worker_takes_the_queue_and_gives_the_slot_back() {
    let mut gate = ProcessingGate::new();
    let (mut w, first) = worker::Worker::begin(&mut gate, 5, false).unwrap();
    assert_eq!(first, worker::Ask::Form(5));
    assert!(worker::Worker::begin(&mut gate, 6, false).is_none());
    let done = worker::Told::Formed(ConversationStatus::Completed);
    assert_eq!(w.step(&mut gate, done, Some(9), false), Ok(worker::Ask::SaveMarker(9)));
    let next = w.step(&mut gate, worker::Told::Marked, Some(9), false);
    assert_eq!(next, Ok(worker::Ask::OfferMaintenance(5)));
    let none = worker::Told::Maintenance { started: false };
    assert_eq!(w.step(&mut gate, none, Some(9), false), Ok(worker::Ask::ReadQueue(5)));
    let more = worker::Told::Queue(QueueRead::Next(7));
    assert_eq!(w.step(&mut gate, more, Some(9), false), Ok(worker::Ask::Form(7)));
    assert_eq!(gate.formation, 7);
    let done = worker::Told::Formed(ConversationStatus::Completed);
    w.step(&mut gate, done, None, false).unwrap();
    w.step(&mut gate, worker::Told::Marked, None, false).unwrap();
    let none = worker::Told::Maintenance { started: false };
    w.step(&mut gate, none, None, false).unwrap();
    let empty = worker::Told::Queue(QueueRead::Empty);
    assert_eq!(w.step(&mut gate, empty, None, false), Ok(worker::Ask::ReadQueue(7)));
    assert_eq!(gate.formation, 0);
    let late = worker::Told::Queue(QueueRead::Next(8));
    assert_eq!(w.step(&mut gate, late, None, true), Ok(worker::Ask::End));
    assert_eq!(gate.formation, 0);
    let stray = w.step(&mut gate, worker::Told::Waited, None, false);
    assert_eq!(stray, Err(worker::OutOfTurn));
}

#[test]
fn a_failure_is_tried_once_more() {
    let mut gate = ProcessingGate::new();
    let (mut w, _) = worker::Worker::begin(&mut gate, 5, false).unwrap();
    let failed = || worker::Told::Formed(ConversationStatus::Failed);
    assert_eq!(w.step(&mut gate, failed(), None, false), Ok(worker::Ask::Wait));
    let again = w.step(&mut gate, worker::Told::Waited, None, false);
    assert_eq!(again, Ok(worker::Ask::Form(5)));
    // What failed twice is not marked, and the slot is free.
    assert_eq!(w.step(&mut gate, failed(), None, false), Ok(worker::Ask::End));
    assert_eq!(gate.formation, 0);

    let mut gate = ProcessingGate::new();
    let (mut w, _) = worker::Worker::begin(&mut gate, 5, false).unwrap();
    w.step(&mut gate, failed(), None, false).unwrap();
    w.step(&mut gate, worker::Told::Waited, None, false).unwrap();
    let done = worker::Told::Formed(ConversationStatus::Completed);
    assert_eq!(w.step(&mut gate, done, None, false), Ok(worker::Ask::SaveMarker(5)));
    w.step(&mut gate, worker::Told::Marked, None, false).unwrap();
    let started = worker::Told::Maintenance { started: true };
    assert_eq!(w.step(&mut gate, started, None, false), Ok(worker::Ask::End));

    let mut gate = ProcessingGate::new();
    let (mut w, _) = worker::Worker::begin(&mut gate, 5, false).unwrap();
    let put_off = worker::Told::Formed(ConversationStatus::Submitted);
    assert_eq!(w.step(&mut gate, put_off, None, false), Ok(worker::Ask::End));
    assert_eq!(gate.formation, 0);
}

fn surroundings() -> attempt::Told {
    attempt::Told::Context {
        system: "s".to_string(),
        primer: "p".to_string(),
        notes: "n".to_string(),
        counterparty: "c".to_string(),
        evidence: None,
        intent: None,
        datetime: "d".to_string(),
        review_instructions: REVIEW.to_string(),
    }
}

#[test]
fn an_attempt_reaches_the_model_last() {
    let (mut a, first) = attempt::Attempt::begin(42, true, Some(1));
    assert!(matches!(first, attempt::Ask::CheckSource));
    let open = attempt::Told::Source { verdict: SourceVerdict::Open, reason: String::new() };
    assert!(matches!(a.step(open), Ok(attempt::Ask::CheckPredecessor)));
    assert!(matches!(a.step(attempt::Told::Predecessor(None)), Ok(attempt::Ask::ReadInput)));
    match a.step(attempt::Told::Input(Some((10_000, 20)))) {
        Ok(attempt::Ask::ReadContext { observation_key, history }) => {
            assert_eq!(observation_key, "formation:conversation:42");
            assert!(!history);
        }
        other => panic!("{other:?}"),
    }
    match a.step(surroundings()) {
        Ok(attempt::Ask::Run { instructions: text, review }) => {
            assert_eq!(text, instructions("s", "p", "n", "c", None, None, "d"));
            assert!(text.contains("none (an ordinary Formation submission)"));
            assert_eq!(review, Some(review_prompt(REVIEW, 42, 20)));
        }
        other => panic!("{other:?}"),
    }
    assert!(matches!(a.step(attempt::Told::Ran), Ok(attempt::Ask::Stop)));
    assert!(matches!(a.step(attempt::Told::Ran), Err(attempt::OutOfTurn)));
}

#[test]
fn verdicts_end_an_attempt_before_the_model() {
    let settled = |told: attempt::Told, controlled: bool| {
        let (mut a, _) = attempt::Attempt::begin(1, controlled, None);
        match a.step(told) {
            Ok(attempt::Ask::Persist { status, reason }) => {
                assert!(matches!(a.step(attempt::Told::Saved), Ok(attempt::Ask::Stop)));
                (status, reason)
            }
            other => panic!("{other:?}"),
        }
    };
    let source = |verdict| attempt::Told::Source { verdict, reason: "r".to_string() };
    assert_eq!(
        settled(source(SourceVerdict::Busy), true),
        (ConversationStatus::Submitted, "r".to_string())
    );
    assert_eq!(
        settled(source(SourceVerdict::Suppressed), true),
        (ConversationStatus::Cancelled, "r".to_string())
    );
    assert_eq!(
        settled(attempt::Told::Predecessor(Some("9".to_string())), false),
        (ConversationStatus::Cancelled, "predecessor_failed:9".to_string())
    );
    let (mut a, _) = attempt::Attempt::begin(1, false, None);
    a.step(attempt::Told::Predecessor(None)).unwrap();
    assert!(matches!(
        a.step(attempt::Told::Input(None)),
        Ok(attempt::Ask::Persist { status: ConversationStatus::Failed, .. })
    ));
}
