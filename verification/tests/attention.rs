use anda_brain::attention::catalog::{check_slot, entry_key, Index, Root};
use anda_brain::attention::scan::{
    action_ran, backed_off, begin_scan, blocked_key, finish_scan, inspection_started, next_wake,
    resume_ended, runnable_page_ended, scan_failed, wake_done, wake_page_failed, wake_page_read,
    wake_read, wake_reread, wakes_ended, watch_inspected, watch_visited, ActionOutcome,
    BlockedWatch, NextWake, ScanStart, WakePage, WakeStep, WatchAdvance, WatchOutcome, WatchRow,
};
use anda_brain::attention::semantic::runtime::SemanticPass;
use anda_brain::attention::sweep;
use anda_brain::attention::status::{
    archive_parameters, is_busy, may_notice, no_evaluator, runtime_status, watch_query,
    work_identity, ActionFacts, WorkIdentity, ARCHIVE_COMMAND,
};
use anda_brain::attention::work::{
    acknowledge_recheck, basis_due, cancellation_key, fresh_instance, may_enable,
    migration_confirmed, observe_basis, plan_migration, plan_registration, provision_step,
    schedule_recheck, Installed, Provision, Scheduling,
};
use anda_brain::attention::{
    min_due, next, valid_id, AttentionError, AttentionPolicy, AttentionReport, Entry, Recheck,
    RecheckSource, DIRECTORY_FORMAT, MAX_COUNTER,
};
use anda_brain::json::Json;
use anda_brain::runtime::{AttentionConfig, RuntimePin, RuntimePins, RuntimeScope};
use anda_brain::wake::{WakeLease, WakeResume, WakeState, DEFAULT_SPACE};

fn digits(text: &str) -> String {
    let value = serde_json::Value::String(text.to_string());
    anda_cognitive_nexus::content_digest(&value).unwrap()[7..].to_string()
}

fn pin(id: &str) -> RuntimePin {
    RuntimePin { id: id.to_string(), digest: format!("sha256:{}", "0f".repeat(32)) }
}

fn pins(evaluator: Option<&str>) -> RuntimePins {
    RuntimePins { policy: pin("policy"), evaluator: evaluator.map(pin), binding: None }
}

fn config() -> AttentionConfig {
    AttentionConfig {
        scope: RuntimeScope {
            space_id: DEFAULT_SPACE.to_string(),
            space_instance: "instance".to_string(),
        },
        pins: pins(None),
    }
}

fn policy() -> AttentionPolicy {
    AttentionPolicy::with_changes_page(200)
}

fn entry() -> Entry {
    Entry::register_new("space", &config(), true, 7, 1)
}

fn recheck(key: &str, due_at_ms: u64) -> Recheck {
    Recheck { key: key.to_string(), source: RecheckSource::Defer, due_at_ms, notified: true }
}

// Policies and identities

#[test]
fn policies_are_bounded() {
    assert_eq!(policy().validate(), Ok(()));
    let broken = |edit: fn(&mut AttentionPolicy)| {
        let mut p = policy();
        edit(&mut p);
        p.validate()
    };
    let invalid = Err(AttentionError::InvalidPolicy);
    assert_eq!(broken(|p| p.tick_ms = 0), invalid);
    assert_eq!(broken(|p| p.tick_ms = 60_001), invalid);
    assert_eq!(broken(|p| p.spaces_per_tick = 21), invalid);
    assert_eq!(broken(|p| p.watches_per_space = 0), invalid);
    assert_eq!(broken(|p| p.changes_per_watch = 201), invalid);
    assert_eq!(broken(|p| p.wakes_per_space = 201), invalid);
    assert_eq!(broken(|p| p.wall_time_ms = 30_001), invalid);
    assert_eq!(broken(|p| p.reconcile_ms = 4_999), invalid);
    assert_eq!(broken(|p| p.blocked_retry_ms = 3_600_001), invalid);
    assert_eq!(AttentionPolicy::with_changes_page(0).validate(), invalid);
}

#[test]
fn space_identities_are_safe_paths() {
    assert_eq!(valid_id("my space"), Ok(()));
    for bad in ["", " x", "x ", "a/b", "a\\b", ".", "..", "__brain_runtime__x"] {
        assert_eq!(valid_id(bad), Err(AttentionError::InvalidSpaceId), "{bad}");
    }
    assert_eq!(valid_id(&"x".repeat(128)), Ok(()));
    assert_eq!(valid_id(&"x".repeat(129)), Err(AttentionError::InvalidSpaceId));
    assert_eq!(entry_key("space").unwrap(), format!("spaces/{}", digits("space")));
    assert_eq!(entry_key("."), Err(AttentionError::InvalidSpaceId));
    assert_eq!(blocked_key("space", "C-1"), format!("blocked/{}/C-1", digits("space")));
    assert_eq!(next(1), Ok(2));
    assert_eq!(next(MAX_COUNTER), Err(AttentionError::CounterExhausted));
    let mut due = None;
    min_due(&mut due, 9);
    min_due(&mut due, 4);
    min_due(&mut due, 6);
    assert_eq!(due, Some(4));
    assert_eq!(DEFAULT_SPACE, anda_cognitive_nexus::nexus::DEFAULT_SPACE);
}

// The directory

#[test]
fn every_slot_is_visited_in_turn() {
    let mut root = Root::new();
    for slot in 1..=5 {
        assert_eq!(root.allocate(), Ok(slot));
    }
    assert_eq!(root.page(2), [1, 2]);
    assert_eq!(root.advance_cursor(2), Ok(()));
    assert_eq!(root.page(2), [3, 4]);
    assert_eq!(root.advance_cursor(4), Ok(()));
    assert_eq!(root.page(2), [5]);
    assert_eq!(root.advance_cursor(5), Ok(()));
    assert_eq!(root.page(20).len(), 5);
    assert!(root.advance_cursor(6).is_err());
    assert_eq!(root.validate(), Ok(()));
    root.cursor = 6;
    assert_eq!(root.validate(), Err(AttentionError::InvalidRoot));
    let mut full = Root::new();
    full.allocated = 1_000_000;
    assert!(full.allocate().is_err());
    assert!(Root::new().page(20).is_empty());
}

#[test]
fn a_scan_does_not_clear_newer_work() {
    let first = entry();
    assert_eq!(first.registration.dirty_generation, 1);
    assert_eq!(first.registration.reconciled_generation, 0);
    assert_eq!(first.validate("space", 7), Ok(()));
    let mut scanned = entry();
    scanned.last_report.scan_complete = true;
    let newer = first.touch().unwrap();
    assert_eq!(newer.registration.dirty_generation, 2);
    assert!(scanned.finish(&newer).unwrap().is_none());

    let mut scanned = entry();
    scanned.last_report.scan_complete = true;
    let done = scanned.finish(&entry()).unwrap().unwrap();
    assert_eq!(done.registration.reconciled_generation, 1);
    assert_eq!(done.registration.version, 2);
    let again = done.register_again(&config()).unwrap();
    assert_eq!(again.registration.dirty_generation, 2);
    let mut other = config();
    other.scope.space_instance = "another".to_string();
    assert_eq!(entry().register_again(&other).unwrap_err(), AttentionError::InstanceMismatch);
    let mut worn = entry();
    worn.registration.version = MAX_COUNTER;
    assert_eq!(worn.touch().unwrap_err(), AttentionError::CounterExhausted);
}

#[test]
fn entries_belong_to_their_slot_and_shard() {
    let index = |shard| Index {
        format: DIRECTORY_FORMAT.to_string(),
        scope: entry().registration.scope,
        shard,
    };
    let e = entry();
    assert_eq!(check_slot(1, &index(7), Some(&e), 7), Ok(()));
    assert!(check_slot(2, &index(7), Some(&e), 7).is_err());
    assert!(check_slot(1, &index(8), Some(&e), 7).is_err());
    assert!(check_slot(1, &index(7), None, 7).is_err());
    assert!(e.validate("space", 8).is_err());
    assert!(e.validate("other", 7).is_err());
}

// Rechecks

#[test]
fn rechecks_are_kept_once_and_bounded() {
    let mut e = entry();
    assert_eq!(schedule_recheck(&mut e, recheck("k", 10)), Ok(Scheduling::Changed));
    assert!(!e.rechecks[0].notified);
    assert_eq!(schedule_recheck(&mut e, recheck("k", 10)), Ok(Scheduling::Kept));
    assert_eq!(schedule_recheck(&mut e, recheck("k", 12)), Ok(Scheduling::Changed));
    assert_eq!(e.rechecks.len(), 1);
    assert_eq!(schedule_recheck(&mut e, recheck("", 1)), Err(AttentionError::InvalidRecheck));
    for i in 1..128 {
        schedule_recheck(&mut e, recheck(&format!("k{i}"), 1)).unwrap();
    }
    assert_eq!(schedule_recheck(&mut e, recheck("more", 1)), Err(AttentionError::RecheckQueueFull));
    assert_eq!(acknowledge_recheck(&mut e, "k", 10), Err(AttentionError::RecheckUnavailable));
    assert_eq!(acknowledge_recheck(&mut e, "k", 12), Ok(()));
    assert_eq!(e.rechecks.len(), 127);
}

#[test]
fn the_earliest_expiry_stays_noted() {
    let mut e = entry();
    assert_eq!(observe_basis(&mut e, 50), Ok(Scheduling::Changed));
    assert_eq!(observe_basis(&mut e, 60), Ok(Scheduling::Kept));
    assert_eq!(observe_basis(&mut e, 40), Ok(Scheduling::Changed));
    assert_eq!((e.rechecks.len(), e.rechecks[0].due_at_ms), (1, 40));
    assert_eq!(basis_due("other", None), Err(AttentionError::BasisSpaceMismatch));
    assert_eq!(basis_due(DEFAULT_SPACE, None), Ok(None));
    assert_eq!(
        basis_due(DEFAULT_SPACE, Some("1970-01-01T00:00:01.500Z")),
        Ok(Some(1_500))
    );
    assert_eq!(
        basis_due(DEFAULT_SPACE, Some("tomorrow")),
        Err(AttentionError::InvalidTimestamp)
    );
}

// Registration

fn installed(actions: Option<RuntimePins>, evaluator: Option<&str>) -> Installed {
    Installed {
        actions,
        action_principal: "a".to_string(),
        evaluator: evaluator.map(pin),
        semantic_principal: "a".to_string(),
    }
}

#[test]
fn registrations_match_what_is_installed() {
    let fresh = || "fresh".to_string();
    let none = installed(None, None);
    let plan = plan_registration("space", None, None, fresh(), &none).unwrap();
    assert!(plan.save_instance && plan.install_native);
    assert_eq!(plan.config.scope.space_instance, "fresh");
    assert_eq!(plan.config.pins.policy.id, "nexus:structured-watch-v1");
    let engine: serde_json::Value =
        serde_json::from_str(r#"{"engine":"nexus:structured-watch-v1"}"#).unwrap();
    assert_eq!(
        plan.config.pins.policy.digest,
        anda_cognitive_nexus::content_digest(&engine).unwrap()
    );
    let plan =
        plan_registration("space", Some(config()), Some("instance".to_string()), fresh(), &none)
            .unwrap();
    assert!(!plan.save_instance && !plan.install_native);
    let refused = |saved: &str, i: &Installed| {
        plan_registration("space", Some(config()), Some(saved.to_string()), fresh(), i)
            .unwrap_err()
    };
    assert_eq!(refused("other", &none), AttentionError::DatabaseInstanceMismatch);
    assert_eq!(
        refused("instance", &installed(Some(pins(Some("e"))), None)),
        AttentionError::ActionConfigurationChanged
    );
    assert_eq!(
        refused("instance", &installed(None, Some("e"))),
        AttentionError::EvaluatorChanged
    );
    let mut two = installed(Some(pins(None)), Some("e"));
    two.semantic_principal = "b".to_string();
    assert_eq!(refused("instance", &two), AttentionError::ControllerMismatch);

    let nonce: serde_json::Value = serde_json::from_str(r#"{"nonce":[1,255]}"#).unwrap();
    assert_eq!(
        fresh_instance(&vec![1, 255]),
        anda_cognitive_nexus::content_digest(&nonce).unwrap()
    );
    assert_eq!(may_enable(true, false), Err(AttentionError::IsolatedHost));
    assert_eq!(may_enable(false, false), Ok(()));
}

#[test]
fn migrations_replace_the_evaluator_only() {
    let plan = plan_migration(3, 3, config(), Some(pin("e")), None).unwrap();
    assert!(plan.changed);
    assert_eq!(plan.config.pins.evaluator.as_ref().unwrap().id, "e");
    let replayed = plan_migration(4, 3, plan.config, Some(pin("e")), None).unwrap();
    assert!(!replayed.changed);
    assert!(migration_confirmed(4, &replayed.config, 3, &replayed.config));
    assert!(!migration_confirmed(3, &replayed.config, 3, &replayed.config));
    assert_eq!(
        plan_migration(4, 3, config(), Some(pin("e")), None).unwrap_err(),
        AttentionError::ConfigurationConflict
    );
    assert_eq!(
        plan_migration(3, 3, config(), Some(pin("e")), Some(&pins(None))).unwrap_err(),
        AttentionError::MigrationChangesActions
    );
    assert_eq!(provision_step(Some(true), false), Provision::Done);
    assert_eq!(provision_step(Some(false), true), Provision::Mark);
    assert_eq!(provision_step(Some(false), false), Provision::Refuse);
    assert_eq!(provision_step(None, false), Provision::Grant);
    let parts: serde_json::Value =
        serde_json::from_str(r#"{"watch":"C-1","principal":"p"}"#).unwrap();
    assert_eq!(
        cancellation_key("C-1", "p"),
        format!(
            "watch-cancellation/{}",
            &anda_cognitive_nexus::content_digest(&parts).unwrap()[7..]
        )
    );
}

// Scans

#[test]
fn scans_begin_under_the_registered_configuration() {
    let p = policy();
    let mut e = entry();
    e.rechecks = vec![recheck("a", 10), recheck("b", 30), recheck("c", 20)];
    let mut report = AttentionReport::new();
    assert_eq!(begin_scan(&mut e, &mut report, &p, Some(&config()), 10), Ok(ScanStart::Running));
    assert_eq!(report.rechecks_due, 1);
    assert_eq!(e.checkpoint.next_due_ms, Some(20));
    assert_eq!(e.checkpoint.generation, 1);
    let mut report = AttentionReport::new();
    assert_eq!(
        begin_scan(&mut e, &mut report, &p, None, 10),
        Err(AttentionError::ConfigurationMissing)
    );
    let mut changed = config();
    changed.pins = pins(Some("e"));
    assert_eq!(
        begin_scan(&mut e, &mut report, &p, Some(&changed), 10),
        Err(AttentionError::ConfigurationChanged)
    );
    e.registration.enabled = false;
    assert_eq!(begin_scan(&mut e, &mut report, &p, None, 10), Ok(ScanStart::Disabled));
    assert_eq!(report.blocked_reasons.count_of("attention_disabled"), 1);
    assert_eq!((report.blocked, report.blocked_wakes), (1, 1));
}

#[test]
fn watches_are_counted_and_backed_off() {
    let p = policy();
    let mut e = entry();
    let mut r = AttentionReport::new();
    let visit = |e: &mut Entry, r: &mut AttentionReport, id: &str, o| {
        watch_visited(e, r, id.to_string(), o, &p, 1_000)
    };
    visit(&mut e, &mut r, "C-1", WatchOutcome::Advanced(WatchAdvance::Fired));
    visit(&mut e, &mut r, "C-2", WatchOutcome::Advanced(WatchAdvance::Expired));
    visit(&mut e, &mut r, "C-3", WatchOutcome::BackedOff);
    visit(
        &mut e,
        &mut r,
        "C-4",
        WatchOutcome::Failed { conflict: true, message: "m".to_string() },
    );
    assert_eq!((r.watches_scanned, r.advanced, r.fired, r.expired), (4, 2, 1, 1));
    assert_eq!((r.blocked, r.conflicted), (2, 1));
    assert_eq!(r.error.as_deref(), Some("m"));
    assert_eq!(e.checkpoint.runnable_after, "C-4");
    assert_eq!(e.checkpoint.next_due_ms, Some(6_000));
    runnable_page_ended(&mut e, 20, false, &p);
    assert!(!e.checkpoint.runnable_done);
    runnable_page_ended(&mut e, 19, true, &p);
    assert!(!e.checkpoint.runnable_done);
    runnable_page_ended(&mut e, 19, false, &p);
    assert!(e.checkpoint.runnable_done);
    assert_eq!(e.checkpoint.runnable_after, "");

    let blocked = BlockedWatch::new(3, 2, &"é".repeat(2_000), &p, 1_000);
    assert_eq!(blocked.retry_at_ms, 61_000);
    assert_eq!(blocked.reason.chars().count(), 1024);
    assert!(backed_off(Some(&blocked), 3, 2, 60_999));
    assert!(!backed_off(Some(&blocked), 3, 2, 61_000));
    assert!(!backed_off(Some(&blocked), 4, 2, 1_000));
    assert!(!backed_off(None, 3, 2, 1_000));
}

#[test]
fn armed_watches_are_inspected() {
    let p = policy();
    let mut e = entry();
    let mut r = AttentionReport::new();
    inspection_started(&mut e, 20, &p);
    assert!(!e.checkpoint.all_done);
    inspection_started(&mut e, 3, &p);
    assert!(e.checkpoint.all_done);
    let row = |id: &str, structured, generation, due_at: &str| WatchRow {
        id: id.to_string(),
        structured,
        generation,
        due_at: due_at.to_string(),
    };
    watch_inspected(&mut e, &mut r, row("C-1", true, Some(1), ""), false, &p, 0);
    assert_eq!(r.blocked, 0);
    watch_inspected(&mut e, &mut r, row("C-2", true, None, ""), false, &p, 0);
    watch_inspected(&mut e, &mut r, row("C-3", false, Some(1), ""), false, &p, 0);
    assert_eq!(e.checkpoint.next_due_ms, None);
    watch_inspected(&mut e, &mut r, row("C-4", false, Some(1), ""), true, &p, 0);
    assert_eq!(e.checkpoint.next_due_ms, Some(5_000));
    let soon = row("C-5", true, Some(1), "1970-01-01T00:00:02.000Z");
    watch_inspected(&mut e, &mut r, soon, true, &p, 0);
    assert_eq!(e.checkpoint.next_due_ms, Some(2_000));
    assert_eq!(e.checkpoint.all_after, "C-5");
    for reason in [
        "legacy_watch_requires_replacement",
        "semantic_evaluator_unavailable",
        "semantic_evaluation_separate_pass",
    ] {
        assert_eq!(r.blocked_reasons.count_of(reason), 1, "{reason}");
    }
}

#[test]
fn wakes_are_read_page_by_page() {
    let mut e = entry();
    let mut r = AttentionReport::new();
    let page = WakePage {
        references: vec!["w1".to_string(), "w2".to_string()],
        scanned: 2,
        next_cursor: Some("c".to_string()),
        complete: false,
    };
    wake_page_read(&mut e, &mut r, page);
    assert_eq!(r.wakes_scanned, 2);
    assert!(matches!(next_wake(&e, &mut r, Some(1)), NextWake::Process(w) if w == "w1"));
    wake_done(&mut e);
    r.actions_processed = 1;
    assert!(matches!(next_wake(&e, &mut r, Some(1)), NextWake::BudgetExhausted));
    assert!(r.budget_exhausted);
    wakes_ended(&mut e);
    assert_eq!(e.checkpoint.wake_cursor, None);
    wake_done(&mut e);
    assert!(matches!(next_wake(&e, &mut r, None), NextWake::PageDone));
    wakes_ended(&mut e);
    assert_eq!(e.checkpoint.wake_cursor.as_deref(), Some("c"));
    assert!(!e.checkpoint.wakes_done);
    wake_page_failed(&mut e, false);
    assert!(e.checkpoint.wake_cursor.is_some());
    wake_page_failed(&mut e, true);
    assert!(e.checkpoint.wake_cursor.is_none());
}

#[test]
fn only_runnable_wakes_run() {
    let p = policy();
    let read = |state: WakeState, blocked: Option<&BlockedWatch>, per_pass, processed| {
        let mut e = entry();
        let mut r = AttentionReport::new();
        r.actions_processed = processed;
        let step = wake_read(&mut e, &mut r, &state, 3, 2, blocked, per_pass, &p, 1_000);
        (step, e, r)
    };
    let pending = |at| WakeState::Pending { not_before_ms: at };
    let (step, e, r) = read(pending(0), None, None, 0);
    assert_eq!(step, WakeStep::Recorded);
    assert_eq!(r.blocked_reasons.count_of("action_bindings_not_installed"), 1);
    assert_eq!(e.checkpoint.next_due_ms, Some(6_000));
    assert_eq!(read(pending(0), None, Some(2), 0).0, WakeStep::RunAction);
    assert_eq!(read(pending(0), None, Some(2), 2).0, WakeStep::OverBudget);
    let (step, e, r) = read(pending(9_000), None, Some(2), 0);
    assert_eq!((step, r.pending, r.blocked), (WakeStep::Recorded, 1, 0));
    assert_eq!(e.checkpoint.next_due_ms, Some(9_000));
    let running =
        || WakeState::Running { lease: WakeLease { owner: "o".to_string(), expires_at_ms: 8_000 } };
    let (step, mut e, _) = read(running(), None, None, 0);
    assert_eq!((step, e.checkpoint.running_until_ms), (WakeStep::Recorded, 8_000));
    wake_reread(
        &mut e,
        &WakeState::Running { lease: WakeLease { owner: "o".to_string(), expires_at_ms: 9_000 } },
    );
    assert_eq!(e.checkpoint.running_until_ms, 9_000);
    let blocked = |resume| WakeState::Blocked { reason: "r".to_string(), resume };
    assert_eq!(
        read(blocked(WakeResume::At { not_before_ms: 1_000 }), None, None, 0).0,
        WakeStep::Resume
    );
    assert_eq!(
        read(blocked(WakeResume::At { not_before_ms: 1_001 }), None, None, 0).0,
        WakeStep::Recorded
    );
    let on_change = || blocked(WakeResume::OnChange { condition_digest: "d".to_string() });
    assert_eq!(read(on_change(), None, None, 0).0, WakeStep::Resume);
    let recent = BlockedWatch::new(3, 2, "r", &p, 1_000);
    let (step, _, r) = read(on_change(), Some(&recent), None, 0);
    assert_eq!(step, WakeStep::Recorded);
    assert_eq!(r.blocked_reasons.count_of("wake_resume_backoff"), 1);
    let done = WakeState::Completed { receipt_ref: "x".to_string() };
    assert_eq!(read(done, None, Some(2), 0).0, WakeStep::Recorded);
}

#[test]
fn what_became_of_a_wake_is_reported() {
    let p = policy();
    let mut e = entry();
    let mut r = AttentionReport::new();
    r.actions_processed = 2;
    let processed = |reason, next_run_ms| ActionOutcome::Processed {
        state: "committed".to_string(),
        reason,
        next_run_ms,
    };
    action_ran(&mut e, &mut r, processed(false, None), &p, 1_000);
    assert_eq!(e.checkpoint.next_due_ms, Some(61_000));
    action_ran(&mut e, &mut r, processed(true, Some(7_000)), &p, 1_000);
    assert_eq!(e.checkpoint.next_due_ms, Some(7_000));
    assert_eq!(r.action_states.count_of("committed"), 2);
    assert_eq!(r.blocked_reasons.count_of("action_blocked"), 1);
    action_ran(&mut e, &mut r, ActionOutcome::Failed { message: "m".to_string() }, &p, 1_000);
    assert_eq!(r.error.as_deref(), Some("m"));
    resume_ended(&mut e, &mut r, true, &p, 1_000);
    assert_eq!((r.resumed, e.checkpoint.next_due_ms), (1, Some(6_000)));
    resume_ended(&mut e, &mut r, false, &p, 1_000);
    assert_eq!(r.blocked_reasons.count_of("wake_resume_unverified"), 1);
}

#[test]
fn spaces_are_checked_again_in_time() {
    let p = policy();
    let mut e = entry();
    let mut r = AttentionReport::new();
    finish_scan(&mut e, &mut r, &p, 1_000, false);
    assert!(!r.scan_complete && r.budget_exhausted);
    assert_eq!((e.registration.next_check_ms, e.last_scan_ms), (6_000, 0));
    e.checkpoint.runnable_done = true;
    e.checkpoint.all_done = true;
    e.checkpoint.wakes_done = true;
    r.rechecks_due = 1;
    finish_scan(&mut e, &mut r, &p, 1_000, false);
    assert!(r.scan_complete && !r.budget_exhausted);
    assert_eq!((e.registration.next_check_ms, e.last_scan_ms), (61_000, 1_000));
    assert_eq!(r.error.as_deref(), Some("recheck retained for its trusted consumer"));
    e.checkpoint.next_due_ms = Some(2_000);
    finish_scan(&mut e, &mut r, &p, 1_000, true);
    assert!(r.budget_exhausted);
    assert_eq!(e.registration.next_check_ms, 2_000);

    let waits: Vec<u64> = (0..5)
        .map(|_| {
            scan_failed(&mut e, &p, 0, "m".to_string());
            e.registration.next_check_ms
        })
        .collect();
    assert_eq!(waits, [10_000, 20_000, 40_000, 60_000, 60_000]);
    assert_eq!(e.failures, 5);
}

// Status

#[test]
fn attention_works_as_whoever_is_installed() {
    assert!(matches!(work_identity(true, Some("c".to_string())), WorkIdentity::Actions));
    assert!(matches!(
        work_identity(false, Some("c".to_string())),
        WorkIdentity::Controller { principal, .. } if principal == "c"
    ));
    assert!(matches!(work_identity(false, None), WorkIdentity::System));
    assert!(may_notice(true, true) && !may_notice(true, false) && !may_notice(false, true));
    assert!(is_busy(false, false, false, 2, 1) && !is_busy(false, false, false, 1, 1));
    for query in [watch_query(true, 20), watch_query(false, 3)] {
        assert!(anda_kip::parse_kip(&query).is_ok(), "{query}");
    }
    assert!(watch_query(false, 3).ends_with("LIMIT 3"));
    assert!(anda_kip::parse_kip(ARCHIVE_COMMAND).is_ok());
    assert_eq!(archive_parameters("C-1", 4).u64_at("version"), Some(4));
}

#[test]
fn isolated_hosts_run_nothing() {
    let facts = Some(ActionFacts { enabled: true, pins: pins(None) });
    let show = |automatic, registered, facts: &Option<ActionFacts>| {
        let text = runtime_status(automatic, true, registered, &no_evaluator(), facts, Json::Null)
            .to_text();
        serde_json::from_str::<serde_json::Value>(&text).unwrap()
    };
    let on = show(true, Some(true), &facts);
    assert_eq!(on["structured_attention"]["enabled"], true);
    assert_eq!(on["actions"]["enabled"], true);
    assert_eq!(on["actions"]["pins"]["policy"]["id"], "policy");
    assert_eq!(on["semantic_attention"]["reason"], "semantic_evaluator_unavailable");
    let isolated = show(false, Some(true), &facts);
    assert_eq!(isolated["structured_attention"]["enabled"], false);
    assert_eq!(isolated["actions"]["enabled"], false);
    let bare = show(true, None, &None);
    assert_eq!(bare["structured_attention"]["registered"], false);
    assert_eq!(bare["actions"]["blocked_reason"], "action_bindings_not_installed");
    let mut semantic = no_evaluator();
    semantic.last_pass = Some(SemanticPass::new());
    let text = runtime_status(true, true, None, &semantic, &None, Json::Null).to_text();
    assert!(text.contains(r#""last_pass":{"#));
}

// A whole scan

fn tick(now: u64) -> sweep::Tick {
    sweep::Tick { now, in_time: true }
}

fn sweeping(per_pass: Option<usize>) -> sweep::Sweep {
    let (mut s, first) =
        sweep::Sweep::begin("space".to_string(), entry(), policy(), false, per_pass, 1_000);
    assert!(matches!(first, sweep::Ask::ReadConfiguration));
    let told = sweep::Told::Configuration(Some(config()));
    assert!(matches!(s.step(told, tick(1_000)), Ok(sweep::Ask::ReadRunnable(after)) if after.is_empty()));
    s
}

#[test]
fn a_scan_goes_through_watches_and_wakes() {
    let mut s = sweeping(Some(1));
    let row = sweep::RunnableRow { id: "C-1".to_string(), version: 3, generation: Some(2) };
    let r = s.step(sweep::Told::Runnable(vec![row]), tick(1_000));
    assert!(matches!(r, Ok(sweep::Ask::ReadFailure(key)) if key == blocked_key("space", "C-1")));
    let r = s.step(sweep::Told::Failure(None), tick(1_000));
    assert!(matches!(r, Ok(sweep::Ask::Advance { version: 3, generation: 2, .. })));
    let r = s.step(sweep::Told::Advanced(WatchAdvance::Fired), tick(1_000));
    assert!(matches!(r, Ok(sweep::Ask::ReadAll(after)) if after.is_empty()));
    assert_eq!((s.report.watches_scanned, s.report.fired), (1, 1));
    let r = s.step(sweep::Told::All(vec![]), tick(1_000));
    assert!(matches!(r, Ok(sweep::Ask::ListWakes(None))));
    let page = WakePage {
        references: vec!["w1".to_string(), "w2".to_string()],
        scanned: 2,
        next_cursor: None,
        complete: true,
    };
    let r = s.step(sweep::Told::Wakes(page), tick(1_000));
    assert!(matches!(r, Ok(sweep::Ask::ReadWake(w)) if w == "w1"));
    let due = sweep::Told::Wake {
        state: WakeState::Pending { not_before_ms: 0 },
        version: 1,
        fence: 1,
    };
    let r = s.step(due, tick(1_000));
    assert!(matches!(r, Ok(sweep::Ask::Process(w)) if w == "w1"));
    let outcome = ActionOutcome::Processed {
        state: "committed".to_string(),
        reason: false,
        next_run_ms: None,
    };
    let r = s.step(sweep::Told::Processed(outcome), tick(1_000));
    assert!(matches!(r, Ok(sweep::Ask::ReadAgain(w)) if w == "w1"));
    let over = WakeState::Completed { receipt_ref: "r".to_string() };
    // One action was run, and one is all that a pass may run.
    let r = s.step(sweep::Told::Again(Some(over)), tick(1_000));
    assert!(matches!(r, Ok(sweep::Ask::Stop)));
    assert_eq!(s.report.actions_processed, 1);
    assert!(s.report.budget_exhausted);
    assert_eq!(s.entry.checkpoint.wake_pending, ["w2"]);
    let r = s.step(sweep::Told::Saved, tick(1_000));
    assert!(matches!(r, Err(sweep::SweepError::OutOfTurn)));
    let closed = s.close();
    assert_eq!(closed.failures, 0);
    assert_eq!(closed.last_report.actions_processed, 1);
}

#[test]
fn failures_are_written_and_then_left_alone() {
    let row = || sweep::RunnableRow { id: "C-1".to_string(), version: 3, generation: Some(2) };
    let mut s = sweeping(None);
    s.step(sweep::Told::Runnable(vec![row()]), tick(1_000)).unwrap();
    s.step(sweep::Told::Failure(None), tick(1_000)).unwrap();
    let refused = sweep::FailedAdvance { conflict: true, message: "m".to_string() };
    let saved = match s.step(sweep::Told::Refused(refused), tick(1_000)) {
        Ok(sweep::Ask::SaveFailure(failure)) => failure,
        other => panic!("{other:?}"),
    };
    assert_eq!((saved.version, saved.generation, saved.reason.as_str()), (3, 2, "m"));
    assert!(saved.retry_at_ms > 1_000);
    let r = s.step(sweep::Told::Saved, tick(1_000));
    assert!(matches!(r, Ok(sweep::Ask::ReadAll(_))));
    assert_eq!(s.report.conflicted, 1);

    let mut s = sweeping(None);
    s.step(sweep::Told::Runnable(vec![row()]), tick(1_000)).unwrap();
    let r = s.step(sweep::Told::Failure(Some(saved)), tick(1_000));
    assert!(matches!(r, Ok(sweep::Ask::ReadAll(_))));
    assert_eq!(s.report.advanced, 0);
}

#[test]
fn nothing_begins_after_the_time_of_a_scan() {
    let mut s = sweeping(None);
    let row = sweep::RunnableRow { id: "C-1".to_string(), version: 3, generation: Some(2) };
    let late = sweep::Tick { now: 9_000, in_time: false };
    let r = s.step(sweep::Told::Runnable(vec![row]), late);
    assert!(matches!(r, Ok(sweep::Ask::Stop)));
    assert_eq!(s.report.watches_scanned, 0);
    assert!(!s.report.scan_complete);

    let mut off = policy();
    off.enabled = false;
    let (s, first) = sweep::Sweep::begin("space".to_string(), entry(), off, false, None, 1_000);
    assert!(matches!(first, sweep::Ask::Stop));
    let failed = s.fail("m".to_string(), 1_000);
    assert_eq!(failed.failures, 1);
    assert_eq!(failed.last_report.error.as_deref(), Some("m"));
}

#[test]
fn reasons_account_for_everything_that_is_put_off() {
    let mut report = AttentionReport::new();
    for (reason, wake) in [("b", true), ("a", false), ("b", false), ("c", true), ("a", false)] {
        report.defer(reason, wake);
    }
    let total: usize = report.blocked_reasons.counts.iter().map(|c| c.count).sum();
    assert_eq!((total, report.blocked, report.blocked_wakes), (5, 5, 2));
    assert_eq!(report.blocked_reasons.count_of("b"), 2);
}
