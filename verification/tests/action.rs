use anda_brain::action::context::{
    anchor_basis, belief_query, check_context, check_read, commitment_query, element_query, gather,
    plan_reads, projection_source, read_belief, read_element, Capture, ContextRow,
    ProjectionSource, CONTEXT_TOO_LARGE, COVERAGE_INCOMPLETE, DEPENDENCY_UNVERIFIED,
    PREMISE_UNKNOWN, REVISION_UNVERIFIED,
};
use anda_brain::action::dispatch::{
    check_committed, completed, count_attempt, delivered, delivery_terms, dispatch_step, exhausted,
    executor, fixed_request, held, lookup_observed, permitted, recover_dispatch, DispatchStep,
    LookupStatus, Permission,
};
use anda_brain::action::gate::{
    answer_step, clarification_context, clarification_proposal, delivery_unauthorized,
    duplicate_proposal, early_proposal, enter, hold_delivery, inherit_rounds, must_revalidate,
    question_terms, refence, route, silence_decided, vet_proposal, waits_for_operator, Answer,
    Entry, Route,
};
use anda_brain::action::inbox::{inspect, owner, receipt_outputs, sources, InboxError};
use anda_brain::action::journal::{answered, Job, Reply, Switch};
use anda_brain::action::native::{
    check_receipt, commit, confirm_parent, is_activity, plan_gate, read_receipt, seal_gate,
    selection_material, DeliveredMemory, DeliveryReceipt, OutputRow, UsedMemory,
};
use anda_brain::action::request::{
    dispatch_reference, key, ActionKind, ActionRequest, ClarificationResponse, ContextRequest,
    DeliveryStatus, Proposal, ToolVersion,
};
use anda_brain::action::service::{
    check_host, check_response, enabled, failed, install_observer, judge_owner, lease_step,
    may_resume, observer_key, operation_digest, ownership, record_response, resume_condition,
    retry, running_pins, set_enabled, start, Caller, LeaseStep, Ownership, Recorded, Start,
};
use anda_brain::action::{drive, preparing, reading, send};
use anda_brain::action::{
    ActionBindings, ActionError, ActionLimits, ClarificationBinding, LookupObserver,
};
use anda_brain::json::{Json, Member, Number};
use anda_brain::recall::material::PROFILE;
use anda_brain::recall::packet::{read_packet, PacketFormat};
use anda_brain::recall::{RecallBudget, TOKENIZER};
use anda_brain::runtime::{RuntimePin, RuntimePins, RuntimeScope};
use anda_brain::wake::{WakeLease, WakeRecord, WakeResume, WakeState};

fn convert(value: serde_json::Value) -> Json {
    match value {
        serde_json::Value::Null => Json::Null,
        serde_json::Value::Bool(b) => Json::Bool(b),
        serde_json::Value::Number(n) => Json::Number(match (n.as_u64(), n.as_i64()) {
            (Some(u), _) => Number::Unsigned(u),
            (_, Some(i)) => Number::Negative(i),
            _ => Number::Decimal(n.to_string()),
        }),
        serde_json::Value::String(s) => Json::Text(s),
        serde_json::Value::Array(items) => Json::Array(items.into_iter().map(convert).collect()),
        serde_json::Value::Object(members) => Json::Object(
            members.into_iter().map(|(name, value)| Member { name, value: convert(value) }).collect(),
        ),
    }
}

fn json(text: &str) -> Json {
    convert(serde_json::from_str(text).unwrap())
}

fn digest() -> String {
    format!("sha256:{}", "a1".repeat(32))
}

fn pin(id: &str) -> RuntimePin {
    RuntimePin { id: id.to_string(), digest: digest() }
}

fn budget() -> RecallBudget {
    RecallBudget { tokenizer: TOKENIZER.to_string(), max_tokens: 2048, context_tokens: 8192 }
}

fn bindings() -> ActionBindings {
    ActionBindings {
        policy_pin: pin("policy-1"),
        binding_pin: pin("binding-1"),
        business: Some(false),
        clarification: Some(ClarificationBinding {
            recipient_principal: "kip:principal:owner".to_string(),
            reply_timeout_ms: 60_000,
            idempotency: true,
        }),
        lookup: Some(LookupObserver {
            binding: pin("binding-1"),
            principal_id: "kip:principal:observer".to_string(),
            configuration_digest: digest(),
        }),
        limits: ActionLimits::with_recall(budget()),
    }
}

fn scope() -> RuntimeScope {
    RuntimeScope { space_id: "space".to_string(), space_instance: "instance".to_string() }
}

fn wake(key: Option<&str>, state: WakeState) -> WakeRecord {
    WakeRecord {
        scope: scope(),
        wake_ref: "wake/1".to_string(),
        watch_ref: "C-7".to_string(),
        fire_activity_ref: "X-8".to_string(),
        pins: bindings().pins(),
        version: 3,
        fence: 5,
        state,
        parent_ref: Some("wake/0".to_string()),
        continuation_key: key.map(str::to_string),
    }
}

fn pending() -> WakeState {
    WakeState::Pending { not_before_ms: 0 }
}

fn running(owner: &str, expires_at_ms: u64) -> WakeState {
    WakeState::Running { lease: WakeLease { owner: owner.to_string(), expires_at_ms } }
}

fn context() -> ContextRequest {
    ContextRequest {
        recall_receipt: None,
        anchor: "P-1".to_string(),
        required_refs: vec!["C-2".to_string()],
        premises: vec!["P-3".to_string()],
        applied_revisions: vec!["C-4".to_string()],
        task_family: "mail.send".to_string(),
        environment_digest: digest(),
        tool_versions: vec![ToolVersion { tool: "smtp".to_string(), version: "1".to_string() }],
        deduplication_key: Some("order-9".to_string()),
    }
}

fn capture(insufficient: Option<&str>) -> Capture {
    Capture {
        receipt: None,
        request: context(),
        basis: json(r#"{"snapshot_seq":12,"policy":"p1"}"#),
        pins: vec![],
        retrieved: vec!["C-2".to_string(), "P-1".to_string()],
        packet: json(r#"{"items":[{"id":"C-2"},{"id":"C-4"},{"id":"P-1"}]}"#),
        insufficient: insufficient.map(str::to_string),
    }
}

fn act(used: &[&str]) -> Proposal {
    Proposal::Act {
        rationale: "the order is due".to_string(),
        used_refs: used.iter().map(|s| s.to_string()).collect(),
        payload: json(r#"{"to":"x"}"#),
    }
}

fn reason(p: &Proposal) -> &str {
    match p {
        Proposal::Defer { reason } => reason,
        other => panic!("{other:?}"),
    }
}

fn prepared_job(proposal: Proposal) -> Job {
    let wake = wake(None, pending());
    let capture = capture(None);
    let plan = plan_gate(&bindings(), &wake, 0, &capture.request, proposal, 1_000).unwrap();
    let mut job = Job::new(&wake, 0);
    job.prepared = Some(
        seal_gate(plan, &bindings(), &wake, capture, &json(r#"{"artifact":"a"}"#), "now").unwrap(),
    );
    job
}

// Limits and bindings

#[test]
fn limits_are_checked_one_by_one() {
    assert_eq!(ActionLimits::with_recall(budget()).validate(), Ok(()));
    let invalid = Err(ActionError::InvalidLimits);
    let mut l = ActionLimits::with_recall(budget());
    l.callbacks_ms = 0;
    assert_eq!(l.validate(), invalid);
    let mut l = ActionLimits::with_recall(budget());
    l.lease_ms = 20_000;
    assert_eq!(l.validate(), invalid);
    l.lease_ms = 20_001;
    assert_eq!(l.validate(), Ok(()));
    let mut l = ActionLimits::with_recall(budget());
    l.max_retries = 17;
    assert_eq!(l.validate(), invalid);
    let mut l = ActionLimits::with_recall(budget());
    l.per_pass = 21;
    assert_eq!(l.validate(), invalid);
    let mut l = ActionLimits::with_recall(budget());
    l.recall.max_tokens = 0;
    assert_eq!(l.validate(), Err(ActionError::InvalidBudget));
}

#[test]
fn bindings_are_checked_and_pinned_by_their_manifest() {
    assert_eq!(bindings().validate(), Ok(()));
    let mut b = bindings();
    b.policy_pin.digest = "sha256:short".to_string();
    assert_eq!(b.validate(), Err(ActionError::InvalidPins));
    let mut b = bindings();
    b.clarification.as_mut().unwrap().recipient_principal = "kip:principal:system".to_string();
    assert_eq!(b.validate(), Err(ActionError::InvalidClarification));
    let mut b = bindings();
    b.lookup.as_mut().unwrap().binding = pin("another");
    assert_eq!(b.validate(), Err(ActionError::InvalidLookup));

    let own = bindings().pins();
    let manifest = serde_json::from_str::<serde_json::Value>(&bindings().manifest().to_text()).unwrap();
    assert_eq!(manifest["format"], "anda-brain:action-v1");
    assert_eq!(manifest["limits"]["max_retries"], 3);
    assert_eq!(own.policy.digest, anda_cognitive_nexus::content_digest(&manifest).unwrap());
    assert_eq!(own.binding.unwrap().id, "binding-1");
    let mut changed = bindings();
    changed.limits.max_retries = 4;
    assert_ne!(changed.pins().policy.digest, own.policy.digest);
    let pinned = running_pins(&bindings(), Some(pin("evaluator")));
    assert_eq!(pinned.evaluator.unwrap().id, "evaluator");
}

#[test]
fn derived_identities_are_digests_of_their_parts() {
    let parts: serde_json::Value = serde_json::from_str(
        r#"{"scope":{"space_id":"space","space_instance":"instance"},"attempt_id":"a-1"}"#,
    )
    .unwrap();
    let digits = anda_cognitive_nexus::content_digest(&parts).unwrap()[7..].to_string();
    assert_eq!(dispatch_reference(&scope(), "a-1"), format!("dispatch/v1/{digits}"));
    assert_ne!(dispatch_reference(&scope(), "a-2"), dispatch_reference(&scope(), "a-1"));
    let stored = key(&scope(), "jobs", "wake/1");
    assert!(stored.starts_with("actions/jobs/"));
    assert_eq!(stored.len(), "actions/jobs/".len() + 64);
    assert!(observer_key(&pin("binding-1")).starts_with("attention-lookup-observer/v1/"));
}

// Context

#[test]
fn contexts_are_bounded() {
    assert_eq!(check_context(&context()), Ok(()));
    let bad = Err(ActionError::InvalidContext);
    let mut c = context();
    c.required_refs = vec!["C-1".to_string(); 33];
    assert_eq!(check_context(&c), bad);
    let mut c = context();
    c.task_family = String::new();
    assert_eq!(check_context(&c), bad);
    let mut c = context();
    c.environment_digest = "none".to_string();
    assert_eq!(check_context(&c), bad);
    let mut c = context();
    c.tool_versions.push(ToolVersion { tool: "x".to_string(), version: String::new() });
    assert_eq!(check_context(&c), bad);
    let mut c = context();
    c.deduplication_key = Some(String::new());
    assert_eq!(check_context(&c), bad);
}

#[test]
fn elements_are_read_by_their_kind_and_checked() {
    assert_eq!(
        element_query("C-12", None).unwrap(),
        "FIND(?e) WHERE {?e CONCEPT {id: :id}} LIMIT 1"
    );
    assert_eq!(
        element_query("P-3", Some(9)).unwrap(),
        "FIND(?e) WHERE {?e PROPOSITION(id: :id)} AS OF SEQ 9 LIMIT 1"
    );
    assert_eq!(element_query("C-012", None), Err(ActionError::InvalidReferenceIdentity));
    assert_eq!(element_query("Q-1", None), Err(ActionError::InvalidReferenceIdentity));
    for query in [
        element_query("C-12", Some(4)).unwrap(),
        element_query("P-3", None).unwrap(),
        element_query("A-1", None).unwrap(),
        element_query("E-1", None).unwrap(),
        element_query("X-1", None).unwrap(),
        belief_query("P-1", Some(2)).unwrap(),
        commitment_query(5),
    ] {
        assert!(anda_kip::parse_kip(&query).is_ok(), "{query}");
    }
    assert_eq!(belief_query("C-1", None), Err(ActionError::BeliefNeedsProposition));

    let rows = json(r#"[{"id":"C-12","_system":{"version":4}}]"#);
    let (row, version) = read_element(&rows, "C-12").unwrap();
    assert!(row.member_is("id", "C-12"));
    assert_eq!(version, 4);
    assert_eq!(read_element(&rows, "C-13").unwrap_err(), ActionError::ReferenceUnreadable);
    assert_eq!(
        read_element(&json("[]"), "C-12").unwrap_err(),
        ActionError::ReferenceUnavailable
    );
    assert!(read_belief(&json(r#"[{"status":"accepted"}]"#)).unwrap().member_is("status", "accepted"));
    assert_eq!(read_belief(&json("{}")).unwrap_err(), ActionError::BeliefUnavailable);
    assert_eq!(check_read(&json("[]"), true), Err(ActionError::IncompletePage));
    let long = Json::Text("x".repeat(262_143));
    assert_eq!(check_read(&long, false), Err(ActionError::ByteBudget));
    assert_eq!(check_read(&Json::Text("x".repeat(262_142)), false), Ok(()));
}

#[test]
fn a_full_page_of_commitments_is_never_taken_for_all() {
    let wake = wake(None, pending());
    let page = |n: usize| {
        Json::Array((0..n).map(|i| json(&format!(r#"{{"id":"C-{}"}}"#, 100 + i))).collect())
    };
    let (refs, problem) = plan_reads(&context(), &wake, &page(2)).unwrap();
    assert_eq!(refs, ["C-100", "C-101", "C-2", "C-4", "C-7", "P-1", "P-3", "X-8"]);
    assert_eq!(problem, None);
    let (refs, problem) = plan_reads(&context(), &wake, &page(33)).unwrap();
    assert_eq!(refs.len(), 6 + 32);
    assert!(!refs.contains(&"C-132".to_string()));
    assert_eq!(problem.as_deref(), Some(COVERAGE_INCOMPLETE));
    assert_eq!(
        plan_reads(&context(), &wake, &json(r#"[{"name":"x"}]"#)).unwrap_err(),
        ActionError::CommitmentReferenceMissing
    );
    assert_eq!(
        plan_reads(&context(), &wake, &json("{}")).unwrap_err(),
        ActionError::InvalidCommitmentPage
    );
    assert_eq!(projection_source("P-1", "P-1"), ProjectionSource::Anchor);
    assert_eq!(projection_source("P-3", "P-1"), ProjectionSource::Native);
    assert_eq!(projection_source("C-3", "P-1"), ProjectionSource::Absent);
    let (basis, seq) = anchor_basis(&json(r#"{"basis":{"snapshot_seq":7}}"#)).unwrap();
    assert!(basis.is_object());
    assert_eq!(seq, 7);
    assert_eq!(anchor_basis(&json("{}")).unwrap_err(), ActionError::BasisSequenceMissing);
}

fn row(text: &str, belief: Option<&str>) -> ContextRow {
    ContextRow { row: json(text), version: 1, belief: belief.map(json) }
}

#[test]
fn the_first_problem_of_a_context_is_kept() {
    let refs = |ids: &[&str]| ids.iter().map(|s| s.to_string()).collect::<Vec<_>>();
    let fine = row(r#"{"id":"C-2","_system":{"version":1}}"#, None);
    let good = gather(&context(), &refs(&["C-2"]), &vec![fine], None);
    assert_eq!(good.insufficient, None);
    assert_eq!(good.pins[0].id, "C-2");
    assert!(good.items[0].content.has("element"));
    assert!(good.items[0].content.get("belief").unwrap().is_null());

    let ineligible =
        || row(r#"{"_system":{"dependency_validity":{"action_eligible":false}}}"#, None);
    let bad = gather(&context(), &refs(&["C-2"]), &vec![ineligible()], None);
    assert_eq!(bad.insufficient.as_deref(), Some(DEPENDENCY_UNVERIFIED));

    let unproven = gather(&context(), &refs(&["C-4"]), &vec![row("{}", None)], None);
    assert_eq!(unproven.insufficient.as_deref(), Some(REVISION_UNVERIFIED));
    let proven = row(
        &format!(
            r#"{{"schema_ref":"{PROFILE}SkillRevision","attributes":{{"task_family":"mail.send"}},"_system":{{"dependency_validity":{{"action_eligible":true}}}}}}"#
        ),
        None,
    );
    assert_eq!(gather(&context(), &refs(&["C-4"]), &vec![proven], None).insufficient, None);

    let unknown = gather(&context(), &refs(&["P-3"]), &vec![row("{}", None)], None);
    assert_eq!(unknown.insufficient.as_deref(), Some(PREMISE_UNKNOWN));
    let accepted = row("{}", Some(r#"{"status":"accepted"}"#));
    assert_eq!(gather(&context(), &refs(&["P-3"]), &vec![accepted], None).insufficient, None);

    let first = gather(
        &context(),
        &refs(&["C-2", "P-3"]),
        &vec![ineligible(), row("{}", None)],
        Some(COVERAGE_INCOMPLETE.to_string()),
    );
    assert_eq!(first.insufficient.as_deref(), Some(COVERAGE_INCOMPLETE));

    let packed = Capture::packed(
        context(),
        json("{}"),
        vec![],
        gather(&context(), &vec![], &vec![], None),
        Json::Null,
        true,
    );
    assert_eq!(packed.insufficient.as_deref(), Some(CONTEXT_TOO_LARGE));
}

#[test]
fn changed_contexts_are_not_current() {
    assert_eq!(capture(None).revalidate(&capture(None), false), Ok(()));
    assert_eq!(
        capture(None).revalidate(&capture(Some(PREMISE_UNKNOWN)), false),
        Err(ActionError::PrerequisitesInsufficient)
    );
    assert_eq!(capture(None).revalidate(&capture(Some(PREMISE_UNKNOWN)), true), Ok(()));
    assert_eq!(
        capture(None).revalidate(&capture(Some(REVISION_UNVERIFIED)), true),
        Err(ActionError::PrerequisitesInsufficient)
    );
    let mut moved = capture(None);
    moved.basis = json(r#"{"snapshot_seq":99,"policy":"p1"}"#);
    assert_eq!(capture(None).revalidate(&moved, false), Ok(()));
    moved.basis = json(r#"{"snapshot_seq":12,"policy":"p2"}"#);
    assert_eq!(capture(None).revalidate(&moved, false), Err(ActionError::BasisChanged));
    let mut moved = capture(None);
    moved.pins = gather(
        &context(),
        &vec!["C-2".to_string()],
        &vec![row("{}", None)],
        None,
    )
    .pins;
    assert_eq!(capture(None).revalidate(&moved, false), Err(ActionError::ContextChanged));
}

// Proposals

#[test]
fn suggestions_are_held_against_what_was_delivered() {
    let b = bindings();
    let c = capture(None);
    assert!(matches!(vet_proposal(act(&["C-2", "C-4"]), 10, &b, &c), Proposal::Act { .. }));
    assert_eq!(reason(&vet_proposal(act(&["C-4"]), 2_049, &b, &c)), "proposal_budget_exhausted");
    assert_eq!(
        reason(&vet_proposal(act(&["C-4", "C-9"]), 10, &b, &c)),
        "used_reference_not_delivered"
    );
    assert_eq!(reason(&vet_proposal(act(&["C-2"]), 10, &b, &c)), "applied_revision_not_used");
    assert_eq!(
        reason(&vet_proposal(act(&["C-4"]), 10, &b, &capture(Some(PREMISE_UNKNOWN)))),
        PREMISE_UNKNOWN
    );
    let mut none = bindings();
    none.business = None;
    assert_eq!(
        reason(&vet_proposal(act(&["C-4"]), 10, &none, &c)),
        "business_binding_unavailable"
    );
    let blank = Proposal::Silence { rationale: " \n".to_string(), used_refs: vec![] };
    assert_eq!(reason(&vet_proposal(blank, 10, &b, &c)), "proposal_rationale_missing");
    let ask = |question: &str| Proposal::Ask {
        rationale: "unclear".to_string(),
        used_refs: vec![],
        question: question.to_string(),
    };
    assert!(matches!(
        vet_proposal(ask("when?"), 10, &b, &capture(Some(PREMISE_UNKNOWN))),
        Proposal::Ask { .. }
    ));
    assert_eq!(
        reason(&vet_proposal(ask(" "), 10, &b, &c)),
        "clarification_binding_or_question_unavailable"
    );
    let quiet = || Proposal::Silence { rationale: "done".to_string(), used_refs: vec![] };
    assert!(matches!(silence_decided(quiet(), true), Proposal::Silence { .. }));
    assert_eq!(
        reason(&silence_decided(quiet(), false)),
        "silence_not_authorized_by_policy"
    );
}

#[test]
fn some_decisions_need_no_suggestion() {
    let l = ActionLimits::with_recall(budget());
    assert!(early_proposal(10, &l, false, &capture(None)).is_none());
    assert!(early_proposal(10, &l, false, &capture(Some(PREMISE_UNKNOWN))).is_none());
    assert_eq!(
        reason(&early_proposal(8_193, &l, false, &capture(None)).unwrap()),
        "gate_input_budget_exhausted"
    );
    assert_eq!(
        reason(&early_proposal(10, &l, true, &capture(None)).unwrap()),
        "clarification_timeout_no_consent"
    );
    assert_eq!(
        reason(&early_proposal(10, &l, false, &capture(Some("dependency_unverified"))).unwrap()),
        "dependency_unverified"
    );
    assert!(matches!(
        duplicate_proposal("duplicate_committed_operation:w".to_string()),
        Proposal::Silence { .. }
    ));
    assert_eq!(
        reason(&duplicate_proposal("deduplication_identity_conflict".to_string())),
        "deduplication_identity_conflict"
    );
}

// Plans and commits

#[test]
fn plans_carry_their_decision_out() {
    let w = wake(None, pending());
    let c = context();
    let plan = plan_gate(&bindings(), &w, 0, &c, act(&["C-4"]), 1_000).unwrap();
    let request = plan.request.as_ref().unwrap();
    assert_eq!(request.kind, ActionKind::Business);
    assert!(request.attempt_id.starts_with("brain-action:"));
    assert_eq!(plan.continuations[0].key, "dispatch");
    let again = plan_gate(&bindings(), &w, 2, &c, act(&[]), 9_000).unwrap();
    assert_eq!(again.request.unwrap().attempt_id, request.attempt_id);
    let delivery = plan_gate(
        &bindings(),
        &wake(Some("clarification"), pending()),
        0,
        &c,
        act(&[]),
        1_000,
    )
    .unwrap();
    assert_eq!(delivery.request.unwrap().kind, ActionKind::DeliverClarification);

    let ask = || Proposal::Ask {
        rationale: "r".to_string(),
        used_refs: vec![],
        question: "when?".to_string(),
    };
    let plan = plan_gate(&bindings(), &w, 0, &c, ask(), 1_000).unwrap();
    assert_eq!(plan.reply_deadline_ms, Some(61_000));
    assert_eq!(plan.recipient.as_deref(), Some("kip:principal:owner"));
    let keys: Vec<_> = plan.continuations.iter().map(|c| c.key.as_str()).collect();
    assert_eq!(keys, ["answer", "clarification"]);
    assert!(plan.clarification_payload.unwrap().same(&json(
        r#"{"question":"when?","recipient":"kip:principal:owner","correlation":"wake/1","reply_deadline_ms":61000}"#
    )));
    let mut none = bindings();
    none.clarification = None;
    assert_eq!(
        plan_gate(&none, &w, 0, &c, ask(), 1_000).unwrap_err(),
        ActionError::ClarificationBindingMissing
    );

    let defer = |rounds| {
        plan_gate(&bindings(), &w, rounds, &c, Proposal::defer("later"), 1_000).unwrap()
    };
    assert_eq!(defer(2).continuations[0].key, "retry");
    assert_eq!(defer(2).continuations[0].not_before_ms, 61_000);
    assert_eq!(defer(3).continuations[0].key, "manual");
    let quiet = Proposal::Silence { rationale: "done".to_string(), used_refs: vec![] };
    assert!(plan_gate(&bindings(), &w, 0, &c, quiet, 0).unwrap().continuations.is_empty());
}

#[test]
fn sealed_decisions_are_native_commands() {
    let job = prepared_job(act(&["C-4"]));
    let prepared = job.prepared.as_ref().unwrap();
    let command = &prepared.command;
    assert!(command.starts_with("MUTATE { CREATE ACTIVITY ?decision {SET FIELDS {activity_class:\"action_gate\",status:\"completed\"} SET FACET \"DecisionRecord\" {"));
    assert!(command.contains(r#""decision":"act""#));
    assert!(command.contains(r#"SET STRUCTURAL {("inputs","C-2") ("inputs","P-1")}}"#));
    assert!(command.contains(r#","decision_ref":?decision} SET STRUCTURAL {("inputs",?decision)}} }"#));
    assert!(command.contains(r#""selection_policy":{"artifact":"a"}"#));
    assert_eq!((prepared.expected, prepared.fence), (3, 5));
    assert!(anda_kip::parse_kip(command).is_ok(), "{command}");

    let quiet = prepared_job(Proposal::Silence { rationale: "done".to_string(), used_refs: vec![] });
    let command = &quiet.prepared.as_ref().unwrap().command;
    assert!(!command.contains("AttemptRecord"));
    assert!(anda_kip::parse_kip(command).is_ok(), "{command}");

    let long = Proposal::Silence { rationale: "x".repeat(70_000), used_refs: vec![] };
    let w = wake(None, pending());
    let c = capture(None);
    let plan = plan_gate(&bindings(), &w, 0, &c.request, long, 0).unwrap();
    assert_eq!(
        seal_gate(plan, &bindings(), &w, c, &Json::Null, "now").unwrap_err(),
        ActionError::CommitTooLarge
    );
    let mut odd = capture(None);
    odd.request.tool_versions = vec![];
    let mut plan = plan_gate(&bindings(), &w, 0, &odd.request, act(&[]), 0).unwrap();
    plan.request.as_mut().unwrap().payload = json("{\"n\":9007199254740993}");
    assert_eq!(
        seal_gate(plan, &bindings(), &w, odd, &Json::Null, "now").unwrap_err(),
        ActionError::Undigestible
    );
}

#[test]
fn commits_are_read_back_and_can_be_replayed() {
    let mut job = prepared_job(act(&["C-4"]));
    let attempt_id =
        job.prepared.as_ref().unwrap().request.as_ref().unwrap().attempt_id.clone();
    let rows = vec![
        OutputRow {
            id: "X-20".to_string(),
            row: json(&format!(
                r#"{{"facets":{{"{PROFILE}DecisionRecord":{{"decision":"act"}}}}}}"#
            )),
        },
        OutputRow {
            id: "X-21".to_string(),
            row: json(&format!(
                r#"{{"facets":{{"{PROFILE}AttemptRecord":{{"attempt_id":"{attempt_id}"}}}}}}"#
            )),
        },
    ];
    let outputs = || vec!["X-20".to_string(), "X-21".to_string()];
    assert_eq!(commit(&mut job, outputs(), &rows), Ok(()));
    assert_eq!(job.status.state, "committed");
    assert_eq!(job.status.decision_ref.as_deref(), Some("X-20"));
    assert_eq!(job.status.attempt_ref.as_deref(), Some("X-21"));
    assert_eq!(job.status.dispatch_ref, Some(dispatch_reference(&scope(), &attempt_id)));
    let first = format!("{:?}", job.status);
    assert_eq!(commit(&mut job, outputs(), &rows), Ok(()));
    assert_eq!(format!("{:?}", job.status), first);

    let mut short = prepared_job(act(&["C-4"]));
    let only = vec![OutputRow { id: "X-20".to_string(), row: rows[0].row.copy() }];
    assert_eq!(
        commit(&mut short, vec!["X-20".to_string()], &only),
        Err(ActionError::OutputsIncomplete)
    );
    let mut bare = Job::new(&wake(None, pending()), 0);
    assert_eq!(commit(&mut bare, vec![], &vec![]), Err(ActionError::NoPreparedCommit));

    assert_eq!(read_receipt(&json(r#"{"outputs":["X-1","C-2"]}"#)).unwrap(), ["X-1", "C-2"]);
    assert_eq!(read_receipt(&json(r#"{"outputs":[1]}"#)), Err(ActionError::InvalidOutput));
    assert_eq!(read_receipt(&json("{}")), Err(ActionError::ReceiptLacksOutputs));
    assert!(is_activity("X-1") && !is_activity("C-1"));

    let done = wake(None, WakeState::Completed { receipt_ref: "r".to_string() });
    assert_eq!(confirm_parent(&None, &done), Err(ActionError::NoPreparedParent));
    assert_eq!(
        confirm_parent(&Some(prepared_job(act(&[]))), &wake(None, pending())),
        Err(ActionError::ParentNotCommitted)
    );
    assert_eq!(confirm_parent(&Some(prepared_job(act(&[]))), &done), Ok(true));
    assert_eq!(confirm_parent(&Some(job), &done), Ok(false));
}

#[test]
fn used_memory_must_have_been_delivered_unchanged() {
    let receipt = |complete| DeliveryReceipt {
        complete_inventory: complete,
        delivery: "bounded_packet".to_string(),
        pins: vec![DeliveredMemory { id: "C-2".to_string(), content_digest: "d".to_string() }],
    };
    let used = |digest: Option<&str>| {
        vec![UsedMemory { id: "C-2".to_string(), content_digest: digest.map(str::to_string) }]
    };
    assert_eq!(check_receipt(&receipt(true), &used(Some("d"))), Ok(()));
    assert_eq!(
        check_receipt(&receipt(true), &used(Some("e"))),
        Err(ActionError::UsedMemoryChanged)
    );
    assert_eq!(check_receipt(&receipt(true), &used(None)), Err(ActionError::UsedMemoryChanged));
    assert_eq!(
        check_receipt(&receipt(false), &vec![]),
        Err(ActionError::ReceiptUnverified)
    );
}

// Entering and routing wakes

#[test]
fn wakes_are_entered_and_routed_by_their_state() {
    let mut job = Job::new(&wake(None, pending()), 0);
    let cancelled = wake(None, WakeState::Cancelled { receipt_ref: "r".to_string() });
    assert_eq!(enter(&cancelled, &mut job), Entry::Cancelled);
    assert_eq!(job.status.state, "cancelled");
    let done = wake(None, WakeState::Completed { receipt_ref: "r".to_string() });
    assert_eq!(enter(&done, &mut Job::new(&done, 0)), Entry::Done);
    assert_eq!(enter(&done, &mut prepared_job(act(&[]))), Entry::Replay);
    assert_eq!(enter(&wake(None, pending()), &mut prepared_job(act(&[]))), Entry::Work);

    let job = Job::new(&wake(None, pending()), 0);
    assert_eq!(route(&wake(Some("dispatch"), pending()), &job, true), Ok(Route::Dispatch));
    assert_eq!(
        route(&wake(Some("dispatch"), pending()), &job, false),
        Err(ActionError::DispatchParentMissing)
    );
    assert_eq!(route(&wake(Some("answer"), pending()), &job, true), Ok(Route::Answer));
    assert_eq!(route(&wake(None, pending()), &job, false), Ok(Route::Gate));
    let mut blocked = Job::new(&wake(None, pending()), 0);
    blocked.status.state = "blocked".to_string();
    assert_eq!(route(&wake(None, pending()), &blocked, false), Ok(Route::Idle));

    let parent = Job::new(&wake(None, pending()), 2);
    let mut child = Job::new(&wake(Some("retry"), pending()), 0);
    inherit_rounds(&mut child, &Some(parent), &wake(Some("retry"), pending()));
    assert_eq!(child.rounds, 3);

    let mut manual = Job::new(&wake(Some("manual"), pending()), 0);
    assert!(waits_for_operator(&mut manual, &wake(Some("manual"), pending())));
    assert_eq!(manual.status.reason.as_deref(), Some("retry_limit_requires_operator"));
    manual.status.operator_retries = 1;
    assert!(!waits_for_operator(&mut manual, &wake(Some("manual"), pending())));
}

fn asking() -> Job {
    let mut job = prepared_job(Proposal::Ask {
        rationale: "r".to_string(),
        used_refs: vec![],
        question: "when?".to_string(),
    });
    job.status.decision_ref = Some("X-30".to_string());
    job
}

fn reply(principal: &str, received_ms: u64) -> Reply {
    Reply {
        scope: scope(),
        gate_wake_ref: "wake/1".to_string(),
        principal: principal.to_string(),
        received_ms,
        response: ClarificationResponse {
            event_key: "e".to_string(),
            answer: "tomorrow".to_string(),
        },
    }
}

#[test]
fn an_answer_must_correlate_and_silence_is_no_consent() {
    let limits = ActionLimits::with_recall(budget());
    let w = wake(Some("answer"), pending());
    let step = |saved: Option<Reply>, now: u64| {
        let mut job = Job::new(&w, 0);
        let r = answer_step(&mut job, &Some(asking()), &w, saved, now, &limits);
        (r, job)
    };
    let (r, _) = step(Some(reply("kip:principal:owner", 60_999)), 0);
    assert!(matches!(r, Ok(Answer::Reply(a)) if a.answer == "tomorrow"));
    let (r, _) = step(Some(reply("kip:principal:owner", 61_000)), 0);
    assert_eq!(r.unwrap_err(), ActionError::ReplyCorrelation);
    let (r, _) = step(Some(reply("kip:principal:other", 1)), 0);
    assert_eq!(r.unwrap_err(), ActionError::ReplyCorrelation);
    let (r, job) = step(None, 60_000);
    assert!(matches!(r, Ok(Answer::Waiting)));
    assert_eq!(job.status.state, "awaiting_reply");
    assert_eq!(job.status.next_run_ms, Some(65_000));
    let (r, job) = step(None, 61_000);
    assert!(matches!(r, Ok(Answer::TimedOut)));
    assert_eq!(job.rounds, 3);
    let mut job = Job::new(&w, 0);
    assert_eq!(
        answer_step(&mut job, &None, &w, None, 0, &limits).unwrap_err(),
        ActionError::AnswerParentMissing
    );
    assert_eq!(
        answer_step(&mut job, &Some(Job::new(&w, 0)), &w, None, 0, &limits).unwrap_err(),
        ActionError::AnswerPreparationMissing
    );
    assert_eq!(answered(&None, &scope(), "wake/1", "kip:principal:owner", 5), Ok(false));
    assert_eq!(
        answered(&Some(reply("kip:principal:owner", 4)), &scope(), "wake/1", "kip:principal:owner", 5),
        Ok(true)
    );
    assert_eq!(
        answered(&Some(reply("kip:principal:owner", 5)), &scope(), "wake/1", "kip:principal:owner", 5),
        Err(ActionError::ReplyMismatch)
    );
}

#[test]
fn questions_are_delivered_once_and_grant_nothing() {
    let parent = asking();
    let context = clarification_context(&Some(asking())).unwrap();
    assert_eq!(context.required_refs, ["C-2", "X-30"]);
    assert!(context.premises.is_empty() && context.applied_revisions.is_empty());
    assert_eq!(context.task_family, "brain.deliver_clarification");
    assert_eq!(
        clarification_context(&None).unwrap_err(),
        ActionError::ClarificationParentMissing
    );
    assert_eq!(
        clarification_context(&Some(prepared_job(act(&[])))).unwrap_err(),
        ActionError::NotAnAsk
    );
    let mut unknown = asking();
    unknown.status.decision_ref = None;
    assert_eq!(
        clarification_context(&Some(unknown)).unwrap_err(),
        ActionError::AskDecisionUnavailable
    );
    let p = parent.prepared.as_ref().unwrap();
    assert_eq!(question_terms(p).unwrap(), ("kip:principal:owner".to_string(), 61_000));
    assert!(matches!(
        clarification_proposal(p, "X-30", true, 0, &capture(None)),
        Ok(Proposal::Silence { .. })
    ));
    assert_eq!(
        reason(&clarification_proposal(p, "X-30", false, 61_000, &capture(None)).unwrap()),
        "clarification_expired_before_delivery"
    );
    assert_eq!(
        reason(&clarification_proposal(p, "X-30", false, 0, &capture(Some("x"))).unwrap()),
        "x"
    );
    assert!(matches!(
        clarification_proposal(p, "X-30", false, 0, &capture(None)),
        Ok(Proposal::Act { .. })
    ));
    let mut blank = asking().prepared.unwrap();
    blank.clarification_payload = None;
    assert_eq!(
        clarification_proposal(&blank, "X-30", false, 0, &capture(None)).unwrap_err(),
        ActionError::QuestionUnavailable
    );
    let mut job = Job::new(&wake(None, pending()), 0);
    let put_off = delivery_unauthorized(&mut job, &ActionLimits::with_recall(budget()), &"e".repeat(900));
    assert_eq!(reason(&put_off).chars().count(), 512);
    assert_eq!(job.rounds, 3);
    let mut deferred = prepared_job(Proposal::defer("later")).prepared.unwrap();
    hold_delivery(&mut deferred);
    assert_eq!(deferred.continuations[0].key, "manual");
    let mut moved = asking().prepared.unwrap();
    let mut w = wake(None, pending());
    assert!(!must_revalidate(&moved, &w));
    w.fence = 6;
    assert!(must_revalidate(&moved, &w));
    refence(&mut moved, &w);
    assert!(!must_revalidate(&moved, &w));
}

// Dispatch

fn state(s: &str) -> Json {
    json(&format!(r#"{{"state":"{s}"}}"#))
}

#[test]
fn dispatches_are_never_repeated_on_a_guess() {
    let w = wake(Some("dispatch"), pending());
    let job = || {
        let mut job = Job::new(&w, 0);
        job.status.dispatch_ref = Some("d".to_string());
        job
    };
    let mut b = bindings();
    let business = ActionKind::Business;
    let question = ActionKind::DeliverClarification;
    let step = |j: &Job, k, prior: Option<&Json>, answered, b: &ActionBindings| {
        dispatch_step(j, k, prior, answered, b)
    };
    assert_eq!(step(&job(), business, None, false, &b), Ok(DispatchStep::Begin));
    assert_eq!(step(&job(), question, None, true, &b), Ok(DispatchStep::Cancel));
    assert_eq!(step(&job(), question, Some(&state("ready")), true, &b), Ok(DispatchStep::Cancel));
    assert_eq!(step(&job(), business, Some(&state("completed")), false, &b), Ok(DispatchStep::Finish));
    assert_eq!(step(&job(), business, Some(&state("started")), false, &b), Ok(DispatchStep::Lookup));
    let mut lost = job();
    lost.status.dispatch_ref = None;
    assert_eq!(
        step(&lost, business, Some(&state("started")), false, &b),
        Err(ActionError::DispatchReferenceMissing)
    );
    b.lookup = None;
    assert_eq!(step(&job(), business, Some(&state("started")), false, &b), Ok(DispatchStep::Hold));
    b.business = Some(true);
    assert_eq!(step(&job(), business, Some(&state("started")), false, &b), Ok(DispatchStep::Begin));
    assert_eq!(
        step(&job(), business, Some(&state("outcome_unknown")), false, &b),
        Ok(DispatchStep::Hold)
    );
    let mut accepted = job();
    accepted.delivery = Some(DeliveryStatus::Accepted);
    assert_eq!(step(&accepted, business, Some(&state("started")), false, &b), Ok(DispatchStep::Hold));
    let mut tired = job();
    tired.status.attempts = 4;
    assert_eq!(step(&tired, business, None, false, &b), Ok(DispatchStep::Exhausted));
    let mut stuck = job();
    stuck.failures = 4;
    stuck.status.state = "blocked".to_string();
    assert_eq!(step(&stuck, business, None, false, &b), Ok(DispatchStep::Idle));
    assert_eq!(step(&stuck, business, Some(&state("ready")), false, &b), Ok(DispatchStep::Begin));
    b.business = None;
    assert_eq!(
        step(&job(), business, Some(&state("started")), false, &b),
        Err(ActionError::BindingUnavailable)
    );
    assert_eq!(executor(&b, business), Err(ActionError::BindingUnavailable));
    assert_eq!(executor(&b, question), Ok(true));
}

#[test]
fn the_engine_must_have_committed_the_request() {
    let job = prepared_job(act(&["C-4"]));
    assert_eq!(fixed_request(&job).unwrap_err(), ActionError::NoCommittedAttempt);
    let mut parent = prepared_job(act(&["C-4"]));
    parent.status.attempt_ref = Some("X-21".to_string());
    let (request, attempt) = fixed_request(&parent).unwrap();
    assert_eq!(attempt, "X-21");
    assert_eq!(
        fixed_request(&Job::new(&wake(None, pending()), 0)).unwrap_err(),
        ActionError::DispatchPreparationMissing
    );
    assert_eq!(fixed_request(&asking()).unwrap_err(), ActionError::NoFixedRequest);

    let value: serde_json::Value = serde_json::from_str(&request.to_json().to_text()).unwrap();
    let digest = anda_cognitive_nexus::content_digest(&value).unwrap();
    let row = |id: &str, digest: &str| {
        json(&format!(
            r#"{{"facets":{{"{PROFILE}AttemptRecord":{{"attempt_id":"{id}","context":{{"request_digest":"{digest}"}}}}}}}}"#
        ))
    };
    let good = row(&request.attempt_id, &digest);
    let material = selection_material(&bindings(), request);
    assert_eq!(check_committed(&good, &material, request, &bindings()), Ok(()));
    let differs = Err(ActionError::RequestDiffers);
    assert_eq!(check_committed(&row("other", &digest), &material, request, &bindings()), differs);
    assert_eq!(
        check_committed(&row(&request.attempt_id, "other"), &material, request, &bindings()),
        differs
    );
    let mut changed = bindings();
    changed.limits.retry_ms = 1;
    assert_eq!(check_committed(&good, &material, request, &changed), differs);
    assert_eq!(check_committed(&good, &Json::Null, request, &bindings()), differs);
}

#[test]
fn permits_are_checked_before_an_adapter_is_called() {
    let mut parent = prepared_job(act(&["C-4"]));
    let request: ActionRequest = parent.prepared.take().unwrap().request.unwrap();
    let limits = ActionLimits::with_recall(budget());
    let held_wake = wake(Some("dispatch"), running("kip:principal:host", 77));
    let permit = |action: &str, attempt: &str| {
        json(&format!(
            r#"{{"dispatch_ref":"dispatch/v1/x","idempotency_key":"{attempt}","action":"{action}"}}"#
        ))
    };
    let try_permit = |w: &WakeRecord, p: &Json| {
        let mut job = Job::new(w, 0);
        let r = permitted(&mut job, p, &request, "X-21", w, 1_000, &limits);
        (r, job)
    };
    let (r, job) = try_permit(&held_wake, &permit("dispatch", &request.attempt_id));
    match r.unwrap() {
        Permission::Dispatch(p) => {
            assert_eq!((p.fence, p.expires_at_ms), (5, 77));
            assert_eq!(p.attempt_ref, "X-21");
        }
        other => panic!("{other:?}"),
    }
    assert_eq!(job.status.dispatch_ref.as_deref(), Some("dispatch/v1/x"));
    let (r, job) = try_permit(&held_wake, &permit("lookup", &request.attempt_id));
    assert!(matches!(r, Ok(Permission::Settled)));
    assert_eq!(job.status.state, "outcome_unknown");
    assert_eq!(job.status.next_run_ms, Some(61_000));
    let (_, job) = try_permit(&held_wake, &permit("done", &request.attempt_id));
    assert_eq!(job.status.state, "awaiting_completion");
    let error = |w: &WakeRecord, p: &Json| try_permit(w, p).0.unwrap_err();
    assert_eq!(error(&held_wake, &permit("dispatch", "x")), ActionError::AttemptChanged);
    assert_eq!(error(&held_wake, &json("{}")), ActionError::NativeReferenceMissing);
    assert_eq!(
        error(&held_wake, &permit("other", &request.attempt_id)),
        ActionError::UnsupportedResult
    );
    assert_eq!(
        error(&wake(None, pending()), &permit("dispatch", &request.attempt_id)),
        ActionError::NoLiveLease
    );
    assert_eq!(
        delivery_terms(&json(r#"{"correlation":"g","recipient":"r","reply_deadline_ms":4}"#)).unwrap(),
        ("g".to_string(), "r".to_string(), 4)
    );
    assert_eq!(delivery_terms(&json("{}")), Err(ActionError::CorrelationMissing));
    assert_eq!(
        delivery_terms(&json(r#"{"correlation":"g"}"#)),
        Err(ActionError::RecipientMissing)
    );
    assert_eq!(
        delivery_terms(&json(r#"{"correlation":"g","recipient":"r"}"#)),
        Err(ActionError::DeadlineMissing)
    );
    let mut found = Job::new(&held_wake, 0);
    recover_dispatch(&mut found, &held_wake, &request);
    assert_eq!(
        found.status.dispatch_ref,
        Some(dispatch_reference(&scope(), &request.attempt_id))
    );
}

#[test]
fn deliveries_and_lookups_leave_their_status() {
    let limits = ActionLimits::with_recall(budget());
    let fresh = || Job::new(&wake(None, pending()), 0);
    let mut job = fresh();
    count_attempt(&mut job);
    assert_eq!(job.status.attempts, 1);
    delivered(&mut job, None, 1_000, &limits);
    assert_eq!(job.delivery, Some(DeliveryStatus::Unknown));
    assert_eq!(job.status.state, "outcome_unknown");
    delivered(&mut job, Some(DeliveryStatus::Finished), 1_000, &limits);
    assert_eq!(job.status.state, "awaiting_outcome");
    assert_eq!(job.status.next_run_ms, Some(61_000));
    lookup_observed(&mut job, LookupStatus::Unknown, 0, &limits);
    assert_eq!(job.delivery, Some(DeliveryStatus::Finished));
    lookup_observed(&mut job, LookupStatus::Running, 0, &limits);
    assert_eq!(job.delivery, Some(DeliveryStatus::Accepted));
    lookup_observed(&mut job, LookupStatus::NotStarted, 0, &limits);
    assert_eq!((job.delivery, job.status.state.as_str()), (None, "ready"));
    completed(&mut job);
    assert_eq!((job.status.state.as_str(), job.status.next_run_ms), ("completed", None));
    let blocked = wake(
        None,
        WakeState::Blocked {
            reason: "r".to_string(),
            resume: WakeResume::At { not_before_ms: 0 },
        },
    );
    assert!(held(&mut fresh(), &wake(None, pending())));
    let mut job = fresh();
    assert!(!held(&mut job, &blocked));
    assert_eq!(job.status.state, "blocked");
    assert!(!exhausted(&mut fresh(), &blocked));
}

// The service

fn caller(principal: &str) -> Caller {
    Caller {
        principal_id: principal.to_string(),
        auth_method: "token".to_string(),
        auth_strength: "strong".to_string(),
        delegation_chain: vec![],
    }
}

#[test]
fn only_direct_principals_run_actions() {
    assert_eq!(check_host(&caller("kip:principal:host")), Ok(()));
    let refused = Err(ActionError::Unauthenticated);
    assert_eq!(check_host(&caller("kip:principal:system")), refused);
    let mut weak = caller("kip:principal:host");
    weak.auth_strength = "none".to_string();
    assert_eq!(check_host(&weak), refused);
    let mut delegated = caller("kip:principal:host");
    delegated.delegation_chain = vec!["d".to_string()];
    assert_eq!(check_host(&delegated), refused);

    assert_eq!(enabled(false, &None, &scope()), Ok(false));
    assert_eq!(enabled(true, &None, &scope()), Ok(true));
    assert_eq!(enabled(true, &Some(Switch { scope: scope(), enabled: false }), &scope()), Ok(false));
    let elsewhere =
        RuntimeScope { space_id: "other".to_string(), space_instance: "i".to_string() };
    assert_eq!(
        enabled(true, &Some(Switch { scope: elsewhere, enabled: true }), &scope()),
        Err(ActionError::SwitchScope)
    );
    assert_eq!(set_enabled(false, true, scope()).unwrap_err(), ActionError::IsolatedEnable);
    assert!(!set_enabled(false, false, scope()).unwrap().enabled);
    assert_eq!(install_observer(&bindings(), None), Ok(true));
    let own = bindings().lookup.unwrap().to_json();
    assert_eq!(install_observer(&bindings(), Some(&own)), Ok(false));
    assert_eq!(install_observer(&bindings(), Some(&Json::Null)), Err(ActionError::ObserverDiffers));
}

#[test]
fn work_runs_only_under_its_own_configuration() {
    let w = wake(None, pending());
    let job = Job::new(&w, 0);
    let pins = bindings().pins();
    assert!(matches!(start(true, true, &w, &pins, &job, 0), Ok(Start::Run)));
    assert_eq!(start(false, true, &w, &pins, &job, 0).unwrap_err(), ActionError::IsolatedRun);
    match start(true, false, &w, &pins, &job, 0).unwrap() {
        Start::Disabled(s) => {
            assert_eq!(s.state, "disabled");
            assert_eq!(s.reason.as_deref(), Some("actions_disabled_by_host"));
        }
        other => panic!("{other:?}"),
    }
    let other = RuntimePins { policy: pin("x"), evaluator: None, binding: None };
    assert_eq!(start(true, true, &w, &other, &job, 0).unwrap_err(), ActionError::PinsChanged);
    let mut foreign = Job::new(&w, 0);
    foreign.pins = RuntimePins { policy: pin("x"), evaluator: None, binding: None };
    assert_eq!(
        start(true, true, &w, &pins, &foreign, 0).unwrap_err(),
        ActionError::JournalConfiguration
    );
    let mut later = Job::new(&w, 0);
    later.status.next_run_ms = Some(10);
    assert!(matches!(start(true, true, &w, &pins, &later, 9), Ok(Start::Later)));
    assert!(matches!(start(true, true, &w, &pins, &later, 10), Ok(Start::Run)));
}

#[test]
fn failures_back_off_and_then_block() {
    let limits = ActionLimits::with_recall(budget());
    let mut job = Job::new(&wake(None, pending()), 0);
    assert!(!failed(&mut job, &"e".repeat(2_000), 1_000, &limits));
    assert_eq!(job.status.next_run_ms, Some(1_000 + 120_000));
    assert_eq!(job.status.reason.as_ref().unwrap().len(), 1024);
    assert!(!failed(&mut job, "e", 1_000, &limits));
    assert_eq!(job.status.next_run_ms, Some(1_000 + 240_000));
    assert_eq!(job.status.state, "retrying");
    assert!(!failed(&mut job, "e", 1_000, &limits));
    assert!(failed(&mut job, "e", 1_000, &limits));
    assert_eq!(job.status.state, "blocked");
    assert_eq!(job.status.next_run_ms, None);

    let pins = bindings().pins();
    let w = wake(None, pending());
    assert_eq!(retry(&mut job, true, &w, &pins), Ok(()));
    assert_eq!((job.failures, job.rounds, job.status.operator_retries), (0, 0, 1));
    assert_eq!(job.status.state, "pending");
    assert_eq!(retry(&mut job, false, &w, &pins), Err(ActionError::IsolatedRetry));
    let done = wake(None, WakeState::Completed { receipt_ref: "r".to_string() });
    assert_eq!(retry(&mut job, true, &done, &pins), Err(ActionError::CannotRetry));
    job.status.operator_retries = u32::MAX;
    assert_eq!(retry(&mut job, true, &w, &pins), Err(ActionError::RetryCounter));
}

#[test]
fn leases_cover_the_callbacks_to_come() {
    let limits = ActionLimits::with_recall(budget());
    let me = "kip:principal:host";
    let at = |expires| wake(None, running(me, expires));
    assert_eq!(lease_step(&at(21_001), me, 1_000, &limits), LeaseStep::Keep);
    assert_eq!(lease_step(&at(21_000), me, 1_000, &limits), LeaseStep::Renew);
    assert_eq!(lease_step(&at(1_000), me, 1_000, &limits), LeaseStep::Claim);
    assert_eq!(lease_step(&at(99_999), "other", 1_000, &limits), LeaseStep::Claim);
    assert_eq!(lease_step(&wake(None, pending()), me, 0, &limits), LeaseStep::Claim);

    let mut job = Job::new(&at(0), 0);
    assert!(may_resume(&job, None));
    job.status.state = "blocked".to_string();
    assert!(!may_resume(&job, Some(&state("ready"))));
    job.status.dispatch_ref = Some("d".to_string());
    assert!(may_resume(&job, Some(&state("ready"))));
    assert!(!may_resume(&job, Some(&state("started"))));
    assert!(resume_condition(&at(0)).member_is("wake", "wake/1"));
}

#[test]
fn only_the_recipient_answers_and_only_once() {
    let response = || ClarificationResponse {
        event_key: "e".to_string(),
        answer: "yes".to_string(),
    };
    let owner = caller("kip:principal:owner");
    assert_eq!(check_response(&asking(), &owner, &response()), Ok(()));
    let invalid = Err(ActionError::InvalidResponse);
    assert_eq!(check_response(&asking(), &caller("kip:principal:other"), &response()), invalid);
    let mut blank = response();
    blank.answer = " \t".to_string();
    assert_eq!(check_response(&asking(), &owner, &blank), invalid);
    assert_eq!(
        check_response(&Job::new(&wake(None, pending()), 0), &owner, &response()),
        Err(ActionError::ClarificationUnavailable)
    );
    let mut lost = asking();
    lost.status.decision_ref = None;
    assert_eq!(
        check_response(&lost, &owner, &response()),
        Err(ActionError::AskDecisionMissing)
    );
    let record = |stored, response, now| {
        record_response(
            stored,
            scope(),
            "wake/1".to_string(),
            "kip:principal:owner".to_string(),
            response,
            Some(100),
            now,
        )
    };
    let stored = match record(None, response(), 99).unwrap() {
        Recorded::Store(reply) => reply,
        other => panic!("{other:?}"),
    };
    assert_eq!(stored.received_ms, 99);
    assert!(matches!(record(Some(stored), response(), 500), Ok(Recorded::Already)));
    let mut another = response();
    another.answer = "no".to_string();
    assert_eq!(
        record(Some(reply("kip:principal:owner", 1)), another, 50).unwrap_err(),
        ActionError::ResponseConflict
    );
    assert_eq!(record(None, response(), 100).unwrap_err(), ActionError::DeadlinePassed);
}

#[test]
fn one_operation_has_one_owner() {
    let request = || prepared_job(act(&["C-4"])).prepared.unwrap().request.unwrap();
    let digest = operation_digest(&request()).unwrap();
    let claim = match ownership(None, &request(), digest.clone()) {
        Ownership::Claim(claim) => claim,
        other => panic!("{other:?}"),
    };
    assert_eq!(claim.owner, "wake/1");
    assert!(matches!(ownership(Some(claim), &request(), digest.clone()), Ownership::Own));
    let mut other = request();
    other.gate_wake_ref = "wake/2".to_string();
    let claim = match ownership(None, &other, digest.clone()) {
        Ownership::Claim(claim) => claim,
        other => panic!("{other:?}"),
    };
    assert!(matches!(
        ownership(Some(claim), &request(), digest.clone()),
        Ownership::Other(owner) if owner == "wake/2"
    ));
    let claim = match ownership(None, &request(), "another".to_string()) {
        Ownership::Claim(claim) => claim,
        other => panic!("{other:?}"),
    };
    assert!(matches!(ownership(Some(claim), &request(), digest), Ownership::Conflict));

    let source = |generation: u64| {
        json(&format!(
            r#"{{"attributes":{{"status":"fired"}},"facets":{{"{PROFILE}WatchState":{{"arm_generation":{generation}}}}}}}"#
        ))
    };
    let acted = Some(prepared_job(act(&[])));
    assert_eq!(judge_owner("w", &acted, &source(2), 2), "duplicate_committed_operation:w");
    assert_eq!(
        judge_owner("w", &acted, &source(3), 2),
        "deduplication_owner_generation_changed:w"
    );
    assert_eq!(judge_owner("w", &None, &source(2), 2), "deduplication_owner_unresolved:w");
}

// The inbox

#[test]
fn everything_a_decision_rested_on_is_verified() {
    let packet = json(r#"{"items":[{"id":"C-2","content":{"deep":["P-9","not an id","E-01"]}}]}"#);
    assert_eq!(
        sources(&packet, &vec!["X-8".to_string(), "C-2".to_string()]).unwrap(),
        ["C-2", "P-9", "X-8"]
    );
    let wide = Json::Array((0..300).map(|i| Json::Text(format!("C-{i}"))).collect());
    assert_eq!(sources(&wide, &vec![]), Err(InboxError::Unavailable));
    let huge = Json::Array((0..16_384).map(|_| Json::Null).collect());
    assert_eq!(sources(&huge, &vec![]), Err(InboxError::Unavailable));

    assert_eq!(owner(&wake(Some("dispatch"), pending())).unwrap(), "wake/0");
    assert_eq!(owner(&wake(None, pending())).unwrap(), "wake/1");
    let mut orphan = wake(Some("dispatch"), pending());
    orphan.parent_ref = None;
    assert_eq!(owner(&orphan), Err(InboxError::NotFound));
    let receipt = |status: &str| {
        json(&format!(
            r#"{{"format":"anda-brain:attention-v1","identity":{{"scope":{{"space_id":"space","space_instance":"instance"}}}},"state":{{"status":"{status}","outputs":["X-1",2,"X-3"]}}}}"#
        ))
    };
    assert_eq!(receipt_outputs(&receipt("committed"), &scope()).unwrap(), ["X-1", "X-3"]);
    assert_eq!(receipt_outputs(&receipt("open"), &scope()), Err(InboxError::NotFound));
}

#[test]
fn inspections_show_what_is_committed() {
    let w = wake(None, pending());
    let shown = inspect(None, &w, false, &vec![], &vec![]).unwrap();
    assert!(shown.status.is_none());
    let mut foreign = Job::new(&w, 0);
    foreign.pins = RuntimePins { policy: pin("x"), evaluator: None, binding: None };
    assert_eq!(
        inspect(Some(foreign), &w, false, &vec![], &vec![]).unwrap_err(),
        InboxError::NotFound
    );
    let question = inspect(Some(asking()), &w, false, &vec![], &vec![]).unwrap();
    assert!(question.clarification.is_none());
    assert_eq!(question.recipient.as_deref(), Some("kip:principal:owner"));
    let question = inspect(Some(asking()), &w, true, &vec![], &vec![]).unwrap();
    assert!(question.clarification.is_some());
    assert_eq!(question.status.unwrap().state, "committed");

    let job = prepared_job(act(&["C-4"]));
    let request = job.prepared.as_ref().unwrap().request.as_ref().unwrap();
    let rows = vec![OutputRow {
        id: "X-21".to_string(),
        row: json(&format!(
            r#"{{"facets":{{"{PROFILE}AttemptRecord":{{"attempt_id":"{}"}},"{PROFILE}DecisionRecord":{{"decision":"act","rationale":"r"}}}}}}"#,
            request.attempt_id
        )),
    }];
    let material = vec![selection_material(&bindings(), request)];
    let shown = inspect(Some(job), &w, true, &rows, &material).unwrap();
    let status = shown.status.unwrap();
    assert_eq!(status.attempt_ref.as_deref(), Some("X-21"));
    assert_eq!(status.decision_ref.as_deref(), Some("X-21"));
    assert!(shown.decision.unwrap().member_is("rationale", "r"));
    assert!(shown.request.is_some());
    assert_eq!(
        inspect(Some(prepared_job(act(&["C-4"]))), &w, true, &rows, &vec![Json::Null]).unwrap_err(),
        InboxError::NotFound
    );
}

// Whole walks

fn root() -> WakeRecord {
    let mut w = wake(None, running("kip:principal:host", 99_999));
    w.parent_ref = None;
    w
}

fn prepared(proposal: Proposal) -> anda_brain::action::journal::PreparedGate {
    prepared_job(proposal).prepared.unwrap()
}

/// Walks up to the suggestion of the policy.
fn up_to_suggestion(w: &WakeRecord, job: &mut Job) -> drive::Drive {
    let b = bindings();
    let (mut d, first) = drive::Drive::begin(w, job);
    assert!(matches!(first, Ok(drive::Ask::Acquire)));
    assert!(matches!(d.step(job, drive::Told::Leased, w, 0, &b), Ok(drive::Ask::Consult)));
    match d.step(job, drive::Told::Needs(context()), w, 0, &b) {
        Ok(drive::Ask::ReadContext(request)) => assert_eq!(request.anchor, "P-1"),
        other => panic!("{other:?}"),
    }
    assert!(matches!(
        d.step(job, drive::Told::Context(capture(None)), w, 0, &b),
        Ok(drive::Ask::CountInput)
    ));
    assert!(matches!(
        d.step(job, drive::Told::Tokens(10), w, 0, &b),
        Ok(drive::Ask::Suggest)
    ));
    d
}

#[test]
fn an_action_is_authorized_journaled_and_committed() {
    let b = bindings();
    let w = root();
    let mut job = Job::new(&w, 0);
    let mut d = up_to_suggestion(&w, &mut job);
    let r = d.step(&mut job, drive::Told::Suggestion(act(&["C-2", "C-4"])), &w, 0, &b);
    assert!(matches!(r, Ok(drive::Ask::CountProposal)));
    let r = d.step(&mut job, drive::Told::Tokens(10), &w, 0, &b);
    let proposal = match r {
        Ok(drive::Ask::Prepare(p @ Proposal::Act { .. })) => p,
        other => panic!("{other:?}"),
    };
    let r = d.step(&mut job, drive::Told::Prepared(prepared(proposal)), &w, 0, &b);
    assert!(matches!(r, Ok(drive::Ask::Authorize)));
    assert!(job.prepared.is_none());
    let r = d.step(&mut job, drive::Told::Authorization(None), &w, 0, &b);
    assert!(matches!(r, Ok(drive::Ask::Deduplicate)));
    assert!(job.prepared.is_none());
    let r = d.step(&mut job, drive::Told::Duplicate(None), &w, 0, &b);
    assert!(matches!(r, Ok(drive::Ask::Save)));
    assert_eq!(job.prepared.as_ref().unwrap().decision, "act");
    let r = d.step(&mut job, drive::Told::Saved, &w, 0, &b);
    assert!(matches!(r, Ok(drive::Ask::Commit)));
    assert_eq!(d.phase, drive::Phase::Over);
    let r = d.step(&mut job, drive::Told::Saved, &w, 0, &b);
    assert_eq!(r.unwrap_err(), ActionError::OutOfTurn);
}

#[test]
fn refused_and_repeated_actions_are_replaced() {
    let b = bindings();
    let w = root();
    let up_to_authorization = |job: &mut Job| {
        let mut d = up_to_suggestion(&w, job);
        d.step(job, drive::Told::Suggestion(act(&["C-4"])), &w, 0, &b).unwrap();
        d.step(job, drive::Told::Tokens(10), &w, 0, &b).unwrap();
        d.step(job, drive::Told::Prepared(prepared(act(&["C-4"]))), &w, 0, &b).unwrap();
        d
    };
    let mut job = Job::new(&w, 0);
    let mut d = up_to_authorization(&mut job);
    let r = d.step(&mut job, drive::Told::Authorization(Some("no".to_string())), &w, 0, &b);
    match r {
        Ok(drive::Ask::Prepare(p)) => assert_eq!(reason(&p), "authorization_unavailable: no"),
        other => panic!("{other:?}"),
    }
    // An action cannot take the place of the one that was refused.
    let r = d.step(&mut job, drive::Told::Prepared(prepared(act(&["C-4"]))), &w, 0, &b);
    assert_eq!(r.unwrap_err(), ActionError::OutOfTurn);

    let mut job = Job::new(&w, 0);
    let mut d = up_to_authorization(&mut job);
    d.step(&mut job, drive::Told::Authorization(None), &w, 0, &b).unwrap();
    let owner = "deduplication_owner_unresolved:w".to_string();
    let r = d.step(&mut job, drive::Told::Duplicate(Some(owner)), &w, 0, &b);
    match r {
        Ok(drive::Ask::Prepare(p)) => assert_eq!(reason(&p), "deduplication_owner_unresolved:w"),
        other => panic!("{other:?}"),
    }
    let r = d.step(&mut job, drive::Told::Prepared(prepared(Proposal::defer("x"))), &w, 0, &b);
    assert!(matches!(r, Ok(drive::Ask::Save)));
    assert_eq!(job.prepared.as_ref().unwrap().decision, "defer");
}

#[test]
fn silence_needs_the_leave_of_the_policy() {
    let b = bindings();
    let w = root();
    let quiet = || Proposal::Silence { rationale: "done".to_string(), used_refs: vec![] };
    let ask_leave = |allowed: bool| {
        let mut job = Job::new(&w, 0);
        let mut d = up_to_suggestion(&w, &mut job);
        d.step(&mut job, drive::Told::Suggestion(quiet()), &w, 0, &b).unwrap();
        let r = d.step(&mut job, drive::Told::Tokens(10), &w, 0, &b);
        assert!(matches!(r, Ok(drive::Ask::AllowSilence)));
        d.step(&mut job, drive::Told::Silence(allowed), &w, 0, &b).unwrap()
    };
    assert!(matches!(ask_leave(true), drive::Ask::Prepare(Proposal::Silence { .. })));
    match ask_leave(false) {
        drive::Ask::Prepare(p) => assert_eq!(reason(&p), "silence_not_authorized_by_policy"),
        other => panic!("{other:?}"),
    }
}

#[test]
fn a_missing_answer_is_waited_for_and_then_timed_out() {
    let b = bindings();
    let w = wake(Some("answer"), pending());
    let start = |job: &mut Job| {
        let (mut d, first) = drive::Drive::begin(&w, job);
        assert!(matches!(first, Ok(drive::Ask::ReadParent(p)) if p == "wake/0"));
        let r = d.step(job, drive::Told::Parent(asking()), &w, 0, &b);
        assert!(matches!(r, Ok(drive::Ask::ReadReply(p)) if p == "wake/1"));
        d
    };
    let mut job = Job::new(&w, 0);
    let mut d = start(&mut job);
    let r = d.step(&mut job, drive::Told::Reply(None), &w, 60_000, &b);
    assert!(matches!(r, Ok(drive::Ask::Stop)));
    assert_eq!(job.status.state, "awaiting_reply");

    let mut job = Job::new(&w, 0);
    let mut d = start(&mut job);
    let r = d.step(&mut job, drive::Told::Reply(None), &w, 61_000, &b);
    assert!(matches!(r, Ok(drive::Ask::Acquire)));
    assert!(d.timed_out);
    d.step(&mut job, drive::Told::Leased, &w, 61_000, &b).unwrap();
    d.step(&mut job, drive::Told::Needs(context()), &w, 61_000, &b).unwrap();
    d.step(&mut job, drive::Told::Context(capture(None)), &w, 61_000, &b).unwrap();
    // The policy is not asked: the silence of the other side is no consent.
    let r = d.step(&mut job, drive::Told::Tokens(10), &w, 61_000, &b);
    assert!(matches!(r, Ok(drive::Ask::CountProposal)));
    assert_eq!(reason(d.proposal.as_ref().unwrap()), "clarification_timeout_no_consent");
}

#[test]
fn a_moved_wake_is_looked_at_again_before_its_commit() {
    let b = bindings();
    let mut w = root();
    let mut job = prepared_job(Proposal::defer("later"));
    w.fence = 6;
    let (mut d, first) = drive::Drive::begin(&w, &mut job);
    assert!(matches!(first, Ok(drive::Ask::Acquire)));
    let r = d.step(&mut job, drive::Told::Leased, &w, 0, &b);
    assert!(matches!(r, Ok(drive::Ask::Revalidate)));
    let r = d.step(&mut job, drive::Told::Context(capture(None)), &w, 0, &b);
    assert!(matches!(r, Ok(drive::Ask::Save)));
    assert_eq!(job.prepared.as_ref().unwrap().fence, 6);
    let r = d.step(&mut job, drive::Told::Saved, &w, 0, &b);
    assert!(matches!(r, Ok(drive::Ask::Commit)));

    let mut job = prepared_job(Proposal::defer("later"));
    let (mut d, _) = drive::Drive::begin(&w, &mut job);
    d.step(&mut job, drive::Told::Leased, &w, 0, &b).unwrap();
    let mut moved = capture(None);
    moved.basis = json(r#"{"snapshot_seq":12,"policy":"p2"}"#);
    let r = d.step(&mut job, drive::Told::Context(moved), &w, 0, &b);
    assert_eq!(r.unwrap_err(), ActionError::BasisChanged);
    assert_eq!(job.prepared.as_ref().unwrap().fence, 5);

    let mut cancelled = root();
    cancelled.state = WakeState::Cancelled { receipt_ref: "r".to_string() };
    let mut job = Job::new(&cancelled, 0);
    let (_, first) = drive::Drive::begin(&cancelled, &mut job);
    assert!(matches!(first, Ok(drive::Ask::Stop)));
    assert_eq!(job.status.state, "cancelled");
}

fn committed() -> (Job, Json, Json) {
    let mut parent = prepared_job(act(&["C-4"]));
    parent.status.attempt_ref = Some("X-21".to_string());
    let (row, material) = {
        let (request, _) = fixed_request(&parent).unwrap();
        let value: serde_json::Value = serde_json::from_str(&request.to_json().to_text()).unwrap();
        let digest = anda_cognitive_nexus::content_digest(&value).unwrap();
        (
            json(&format!(
                r#"{{"facets":{{"{PROFILE}AttemptRecord":{{"attempt_id":"{}","context":{{"request_digest":"{digest}"}}}}}}}}"#,
                request.attempt_id
            )),
            selection_material(&bindings(), request),
        )
    };
    (parent, row, material)
}

#[test]
fn an_adapter_is_called_once_and_after_everything_else() {
    let b = bindings();
    let w = wake(Some("dispatch"), running("kip:principal:host", 77));
    let mut job = Job::new(&w, 0);
    let (parent, row, material) = committed();
    let (mut s, first) = send::Sending::begin(parent).unwrap();
    assert!(matches!(first, send::Do::ReadAttempt(id) if id == "X-21"));
    let r = s.step(&mut job, send::Heard::Attempt { row, material }, &w, 0, &b);
    assert!(matches!(r, Ok(send::Do::ReadDispatch(id)) if id.starts_with("dispatch/v1/")));
    let r = s.step(&mut job, send::Heard::Dispatch(None), &w, 0, &b);
    assert!(matches!(r, Ok(send::Do::Acquire)));
    let r = s.step(&mut job, send::Heard::Leased, &w, 0, &b);
    assert!(matches!(r, Ok(send::Do::Authorize)));
    let r = s.step(&mut job, send::Heard::Authorized, &w, 0, &b);
    assert!(matches!(r, Ok(send::Do::Revalidate)));
    let r = s.step(&mut job, send::Heard::Context(capture(None)), &w, 0, &b);
    assert!(matches!(r, Ok(send::Do::Save)));
    assert_eq!(job.status.attempts, 1);
    let r = s.step(&mut job, send::Heard::Saved, &w, 0, &b);
    assert!(matches!(r, Ok(send::Do::Begin { idempotent: false, lookup: true })));
    let attempt = fixed_request(&s.parent).unwrap().0.attempt_id.clone();
    let permit = json(&format!(
        r#"{{"dispatch_ref":"dispatch/v1/x","idempotency_key":"{attempt}","action":"dispatch"}}"#
    ));
    let r = s.step(&mut job, send::Heard::Permit(permit), &w, 0, &b);
    assert!(matches!(r, Ok(send::Do::Deliver(p)) if p.attempt_ref == "X-21"));
    let finished = Some(DeliveryStatus::Finished);
    let r = s.step(&mut job, send::Heard::Delivery(finished), &w, 1_000, &b);
    assert!(matches!(r, Ok(send::Do::Stop)));
    assert_eq!(job.status.state, "awaiting_outcome");
    let r = s.step(&mut job, send::Heard::Delivery(finished), &w, 1_000, &b);
    assert_eq!(r.unwrap_err(), ActionError::OutOfTurn);
}

#[test]
fn what_was_started_is_looked_up_and_not_repeated() {
    let b = bindings();
    let w = wake(Some("dispatch"), running("kip:principal:host", 77));
    let up_to_prior = |job: &mut Job| {
        let (parent, row, material) = committed();
        let (mut s, _) = send::Sending::begin(parent).unwrap();
        s.step(job, send::Heard::Attempt { row, material }, &w, 0, &b).unwrap();
        s
    };
    let mut job = Job::new(&w, 0);
    let mut s = up_to_prior(&mut job);
    let r = s.step(&mut job, send::Heard::Dispatch(Some(state("started"))), &w, 0, &b);
    assert!(matches!(r, Ok(send::Do::Save)));
    let r = s.step(&mut job, send::Heard::Saved, &w, 0, &b);
    assert!(matches!(r, Ok(send::Do::LookUp(id)) if id.starts_with("dispatch/v1/")));
    let r = s.step(&mut job, send::Heard::Observed(LookupStatus::Running), &w, 0, &b);
    assert!(matches!(r, Ok(send::Do::Stop)));
    assert_eq!(job.delivery, Some(DeliveryStatus::Accepted));

    let mut job = Job::new(&w, 0);
    let mut s = up_to_prior(&mut job);
    let r = s.step(&mut job, send::Heard::Dispatch(Some(state("completed"))), &w, 0, &b);
    assert!(matches!(r, Ok(send::Do::Acquire)));
    let r = s.step(&mut job, send::Heard::Leased, &w, 0, &b);
    assert!(matches!(r, Ok(send::Do::FinishWake)));
    let r = s.step(&mut job, send::Heard::Done, &w, 0, &b);
    assert!(matches!(r, Ok(send::Do::Stop)));
    assert_eq!(job.status.state, "completed");

    let (parent, row, _) = committed();
    let (mut s, _) = send::Sending::begin(parent).unwrap();
    let mut job = Job::new(&w, 0);
    let other = send::Heard::Attempt { row, material: Json::Null };
    assert_eq!(s.step(&mut job, other, &w, 0, &b).unwrap_err(), ActionError::RequestDiffers);
    assert_eq!(
        send::Sending::begin(asking()).unwrap_err(),
        ActionError::NoFixedRequest
    );
}

fn rows(text: &str) -> reading::Told {
    reading::Told::Rows { result: json(text), more: false }
}

fn packets() -> PacketFormat {
    let named = |name: &str| name.to_string();
    PacketFormat {
        name: named("packet/1"),
        primer: named("primer"),
        notes: named("notes"),
        counterparty: named("counterparty"),
        history: named("history"),
        kip: named("kip"),
        wiki: named("wiki"),
        procedures: named("procedures"),
        required: named("required"),
        warning: named("warning"),
        verified_procedure: named("verified"),
        relevant: named("relevant"),
        unproven_procedure: named("unproven"),
    }
}

#[test]
fn null_deliveries_become_insufficient_packets() {
    let packet = read_packet(Json::Null, &packets(), &budget());
    let value: serde_json::Value = serde_json::from_str(&packet.to_text()).unwrap();
    let expected: serde_json::Value = serde_json::from_str(&format!(
        r#"{{"format":"packet/1","status":"budget_insufficient","failed_reason":null,"tokenizer":"{TOKENIZER}","token_limit":2048,"items":[],"coverage":{{"queried":[],"partial":[],"omitted":["kip"],"unchecked":[]}},"semantic_complete":false,"action_ready":false}}"#
    ))
    .unwrap();
    assert_eq!(value, expected);
    let own = read_packet(json(r#"{"items":[]}"#), &packets(), &budget());
    assert_eq!(own.to_text(), r#"{"items":[]}"#);
}

#[test]
fn everything_is_read_at_the_coordinate_of_the_anchor() {
    let mut request = context();
    request.required_refs = vec![];
    request.premises = vec!["P-3".to_string()];
    request.applied_revisions = vec![];
    let w = root();
    let (mut reading, first) = reading::Reading::begin(request).unwrap();
    match first {
        reading::Ask::Read { query, id } => {
            assert_eq!(query, belief_query("P-1", None).unwrap());
            assert_eq!(id.as_deref(), Some("P-1"));
        }
        other => panic!("{other:?}"),
    }
    let r = reading.step(rows(r#"[{"status":"accepted","basis":{"snapshot_seq":7}}]"#), &w, &packets(), &budget());
    match r {
        Ok(reading::Ask::Read { query, id: None }) => assert_eq!(query, commitment_query(7)),
        other => panic!("{other:?}"),
    }
    let mut asked = vec![];
    let mut next = reading.step(rows("[]"), &w, &packets(), &budget());
    loop {
        match next {
            Ok(reading::Ask::Read { query, id: Some(id) }) => {
                if reading.stage == reading::Stage::Belief {
                    assert_eq!(query, belief_query(&id, Some(7)).unwrap());
                    next = reading.step(rows(r#"[{"status":"accepted"}]"#), &w, &packets(), &budget());
                } else {
                    assert_eq!(query, element_query(&id, Some(7)).unwrap());
                    let row = format!(r#"[{{"id":"{id}","_system":{{"version":4}}}}]"#);
                    asked.push(id);
                    next = reading.step(rows(&row), &w, &packets(), &budget());
                }
            }
            Ok(reading::Ask::Pack(items)) => {
                assert_eq!(items.len(), asked.len());
                break;
            }
            other => panic!("{other:?}"),
        }
    }
    assert!(asked.contains(&"P-1".to_string()) && asked.contains(&"P-3".to_string()));
    let packed = reading::Told::Packed { packet: json(r#"{"items":[]}"#), insufficient: false };
    assert!(matches!(reading.step(packed, &w, &packets(), &budget()), Ok(reading::Ask::Stop)));
    let capture = reading.capture.unwrap();
    assert_eq!(capture.retrieved, asked);
    assert_eq!(capture.pins.len(), asked.len());
    assert_eq!(capture.pins[0].version, 4);
    assert!(capture.insufficient.is_none());
}

#[test]
fn reads_that_do_not_count_end_the_reading() {
    let w = root();
    let begin = || reading::Reading::begin(context()).unwrap().0;
    let more = reading::Told::Rows { result: json("[]"), more: true };
    assert_eq!(begin().step(more, &w, &packets(), &budget()).unwrap_err(), ActionError::IncompletePage);
    assert_eq!(begin().step(rows("[]"), &w, &packets(), &budget()).unwrap_err(), ActionError::BeliefUnavailable);
    assert_eq!(begin().step(rows("[{}]"), &w, &packets(), &budget()).unwrap_err(), ActionError::BasisSequenceMissing);
    let early = reading::Told::Packed { packet: Json::Null, insufficient: false };
    assert_eq!(begin().step(early, &w, &packets(), &budget()).unwrap_err(), ActionError::OutOfTurn);
    let mut concept = context();
    concept.anchor = "C-1".to_string();
    assert!(reading::Reading::begin(concept).is_err());
}

fn delivery(pins: &[(&str, &str)]) -> DeliveryReceipt {
    DeliveryReceipt {
        complete_inventory: true,
        delivery: "bounded_packet".to_string(),
        pins: pins
            .iter()
            .map(|(id, digest)| DeliveredMemory {
                id: id.to_string(),
                content_digest: digest.to_string(),
            })
            .collect(),
    }
}

fn used(id: &str, digest: &str) -> UsedMemory {
    UsedMemory { id: id.to_string(), content_digest: Some(digest.to_string()) }
}

#[test]
fn requests_are_stored_before_they_are_sealed() {
    let b = bindings();
    let w = root();
    let (mut p, first) =
        preparing::Preparing::begin(capture(None), act(&["C-4"]), 2, true, &b, &w, 1_000, "now");
    assert!(matches!(first, Ok(preparing::Ask::Issue(label)) if label == "gate:wake/1:2"));
    let issued = preparing::Told::Issued(json(r#"{"artifact":"receipt"}"#));
    match p.step(issued, &b, &w, 1_000, "now") {
        Ok(preparing::Ask::Store { material, sources }) => {
            assert!(material.has("configuration") && material.has("request"));
            assert_eq!(sources, ["C-2", "P-1"]);
        }
        other => panic!("{other:?}"),
    }
    assert!(p.prepared.is_none());
    let stored = preparing::Told::Stored {
        selection: json(r#"{"artifact":"a"}"#),
        started_at: "later".to_string(),
    };
    assert!(matches!(p.step(stored, &b, &w, 1_000, "now"), Ok(preparing::Ask::Stop)));
    let sealed = p.prepared.unwrap();
    assert_eq!(sealed.decision, "act");
    assert_eq!((sealed.expected, sealed.fence), (3, 5));
    assert!(sealed.capture.receipt.unwrap().has("artifact"));
    assert!(sealed.command.starts_with("MUTATE { "));
    assert!(sealed.command.contains("\"started_at\":\"later\""));

    let quiet = Proposal::Silence { rationale: "done".to_string(), used_refs: vec![] };
    let (p, first) =
        preparing::Preparing::begin(capture(None), quiet, 0, false, &b, &w, 1_000, "now");
    assert!(matches!(first, Ok(preparing::Ask::Stop)));
    assert_eq!(p.prepared.unwrap().decision, "silence");
}

#[test]
fn decisions_rest_on_what_was_delivered() {
    let b = bindings();
    let w = root();
    let begin = || {
        let mut c = capture(None);
        c.request.recall_receipt = Some(json(r#"{"artifact":"named"}"#));
        let (p, first) =
            preparing::Preparing::begin(c, act(&["C-2"]), 0, true, &b, &w, 1_000, "now");
        assert!(matches!(first, Ok(preparing::Ask::ReadReceipt)));
        p
    };
    let mut p = begin();
    let receipt = preparing::Told::Receipt(delivery(&[("C-2", "x"), ("C-4", "y")]));
    match p.step(receipt, &b, &w, 1_000, "now") {
        Ok(preparing::Ask::ReadUsed(ids)) => assert_eq!(ids, ["C-2", "C-4"]),
        other => panic!("{other:?}"),
    }
    let same = preparing::Told::Used(vec![used("C-2", "x"), used("C-4", "y")]);
    assert!(matches!(
        p.step(same, &b, &w, 1_000, "now"),
        Ok(preparing::Ask::Store { .. })
    ));
    assert!(p.capture.as_ref().unwrap().receipt.as_ref().unwrap().member_is("artifact", "named"));

    let mut p = begin();
    p.step(preparing::Told::Receipt(delivery(&[("C-2", "x")])), &b, &w, 1_000, "now").unwrap();
    let changed = preparing::Told::Used(vec![used("C-2", "x"), used("C-4", "y")]);
    assert_eq!(
        p.step(changed, &b, &w, 1_000, "now").unwrap_err(),
        ActionError::UsedMemoryChanged
    );
    let mut partial = delivery(&[]);
    partial.complete_inventory = false;
    assert_eq!(
        begin().step(preparing::Told::Receipt(partial), &b, &w, 1_000, "now").unwrap_err(),
        ActionError::ReceiptUnverified
    );
    let stray = preparing::Told::Issued(Json::Null);
    assert_eq!(begin().step(stray, &b, &w, 1_000, "now").unwrap_err(), ActionError::OutOfTurn);
}
