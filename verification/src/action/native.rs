//! The native commit of a decision, and what is read back from it.

use vstd::prelude::*;

use super::context::{Capture, VersionPin};
use super::journal::{Job, PreparedGate, WakeContinuation};
use super::request::{ActionKind, ActionRequest, ContextRequest, Proposal, Status};
use super::{ActionBindings, ActionError};
use crate::json::{Datum, Json};
use crate::nexus;
use crate::recall::material::PROFILE;
use crate::text;
use crate::wake::{WakeRecord, WakeState, MAX_DELAY_MS};

verus! {

// ---------------------------------------------------------------------------
// The command that records a decision
// ---------------------------------------------------------------------------

/// The rationale as it is recorded: with the receipt of what was recalled, where
/// there is one.
pub open spec fn rationale_text(receipt: Option<Json>, rationale: Seq<char>) -> Seq<char> {
    match receipt {
        Some(own) => Datum::empty().with("rationale"@, Datum::Text(rationale)).with(
            "recall_receipt"@,
            own@,
        ).written(),
        None => rationale,
    }
}

/// The record of a decision.
pub open spec fn decision_value(
    kind: Seq<char>,
    rationale: Seq<char>,
    capture: Capture,
    used: Seq<Seq<char>>,
    revisions: Seq<Seq<char>>,
) -> Datum {
    Datum::empty().with("decision"@, Datum::Text(kind)).with(
        "rationale"@,
        Datum::Text(rationale_text(capture.receipt, rationale)),
    ).with("retrieved_refs"@, crate::json::text_list(text::views(capture.retrieved@))).with(
        "used_refs"@,
        crate::json::text_list(used),
    ).with("applied_revisions"@, crate::json::text_list(revisions)).with(
        "basis"@,
        capture.basis@,
    )
}

pub open spec fn pins_value(pins: Seq<VersionPin>) -> Datum {
    Datum::Array(pins.map_values(|p: VersionPin| p.value()))
}

/// A pin of something that the request names itself.
pub open spec fn asked_for(request: ContextRequest) -> spec_fn(VersionPin) -> bool {
    |p: VersionPin|
        text::views(request.premises@).contains(p.id@) || text::views(
            request.required_refs@,
        ).contains(p.id@) || text::views(request.applied_revisions@).contains(p.id@)
}

/// What a decision depends on: everything as its context and, for an action,
/// everything that the request names as a condition.
pub open spec fn groups_value(capture: Capture, kind: Seq<char>) -> Datum {
    let context = Datum::empty().with("role"@, Datum::Text("context"@)).with(
        "pins"@,
        pins_value(capture.pins@),
    );
    let required = capture.pins@.filter(asked_for(capture.request));
    if required.len() > 0 && kind == "act"@ {
        Datum::Array(
            seq![
                context,
                Datum::empty().with("role"@, Datum::Text("all_of"@)).with(
                    "pins"@,
                    pins_value(required),
                ),
            ],
        )
    } else {
        Datum::Array(seq![context])
    }
}

pub open spec fn dependency_value(capture: Capture, kind: Seq<char>) -> Datum {
    Datum::empty().with("basis_seq"@, capture.basis@.at("snapshot_seq"@)).with(
        "policy_basis"@,
        capture.basis@,
    ).with("groups"@, groups_value(capture, kind))
}

/// The structural inputs of an activity.
pub open spec fn inputs_text(refs: Seq<Seq<char>>) -> Seq<char>
    decreases refs.len(),
{
    if refs.len() == 0 {
        Seq::empty()
    } else {
        let before = if refs.len() == 1 {
            Seq::empty()
        } else {
            inputs_text(refs.drop_last()) + " "@
        };
        before + "(\"inputs\","@ + crate::json::quoted(refs.last()) + ")"@
    }
}

/// The command that records a decision.
pub open spec fn decision_command_of(
    kind: Seq<char>,
    rationale: Seq<char>,
    capture: Capture,
    used: Seq<Seq<char>>,
    revisions: Seq<Seq<char>>,
) -> Seq<char> {
    "CREATE ACTIVITY ?decision {SET FIELDS {activity_class:\"action_gate\",status:\"completed\"} SET FACET \"DecisionRecord\" "@
        + decision_value(kind, rationale, capture, used, revisions).written()
        + " SET FACET \"DependencyBasis\" "@ + dependency_value(capture, kind).written()
        + " SET STRUCTURAL {"@ + inputs_text(text::views(capture.retrieved@)) + "}}"@
}

fn pins_json(pins: &Vec<VersionPin>) -> (r: Json)
    ensures
        r@ == pins_value(pins@),
{
    let mut out: Vec<Json> = Vec::new();
    let mut i: usize = 0;
    while i < pins.len()
        invariant
            i <= pins.len(),
            out.len() == i,
            forall|k: int| 0 <= k < i ==> (#[trigger] out@[k])@ == pins@[k].value(),
        decreases pins.len() - i,
    {
        out.push(pins[i].to_json());
        i = i + 1;
    }
    let r = Json::Array(out);
    proof {
        r.view_of_parts();
        assert(crate::json::items_view(out@) =~= pins@.map_values(|p: VersionPin| p.value()));
    }
    r
}

fn required_pins(capture: &Capture) -> (r: Vec<VersionPin>)
    ensures
        r@ == capture.pins@.filter(asked_for(capture.request)),
{
    let ghost keep = asked_for(capture.request);
    let mut out: Vec<VersionPin> = Vec::new();
    let mut i: usize = 0;
    proof {
        reveal(Seq::filter);
        assert(capture.pins@.take(0) =~= Seq::empty());
        assert(out@ =~= capture.pins@.take(0).filter(keep));
    }
    while i < capture.pins.len()
        invariant
            i <= capture.pins.len(),
            keep == asked_for(capture.request),
            out@ == capture.pins@.take(i as int).filter(keep),
        decreases capture.pins.len() - i,
    {
        proof {
            reveal(Seq::filter);
            assert(capture.pins@.take(i + 1).drop_last() =~= capture.pins@.take(i as int));
            assert(capture.pins@.take(i + 1).last() == capture.pins@[i as int]);
        }
        let p = &capture.pins[i];
        if text::contains(&capture.request.premises, p.id.as_str()) || text::contains(
            &capture.request.required_refs,
            p.id.as_str(),
        ) || text::contains(&capture.request.applied_revisions, p.id.as_str()) {
            out.push(VersionPin { id: p.id.clone(), version: p.version });
        }
        i = i + 1;
    }
    assert(capture.pins@.take(i as int) =~= capture.pins@);
    out
}

fn groups_json(capture: &Capture, act: bool, Ghost(kind): Ghost<Seq<char>>) -> (r: Json)
    requires
        act == (kind == "act"@),
    ensures
        r@ == groups_value(*capture, kind),
{
    let mut groups: Vec<Json> = Vec::new();
    groups.push(
        Json::object().with("role", Json::text("context")).with("pins", pins_json(&capture.pins)),
    );
    let required = required_pins(capture);
    if required.len() > 0 && act {
        groups.push(
            Json::object().with("role", Json::text("all_of")).with("pins", pins_json(&required)),
        );
    }
    let r = Json::Array(groups);
    proof {
        r.view_of_parts();
        assert(crate::json::items_view(groups@) =~= groups_value(*capture, kind)->Array_0);
    }
    r
}

fn append_inputs(out: &mut String, refs: &Vec<String>)
    ensures
        final(out)@ == old(out)@ + inputs_text(text::views(refs@)),
{
    let ghost before = out@;
    let ghost all = text::views(refs@);
    let mut i: usize = 0;
    proof {
        assert(all.take(0) =~= Seq::empty());
        assert(out@ =~= before + inputs_text(all.take(0)));
    }
    while i < refs.len()
        invariant
            i <= refs.len(),
            all == text::views(refs@),
            out@ == before + inputs_text(all.take(i as int)),
        decreases refs.len() - i,
    {
        proof {
            assert(all.take(i + 1).drop_last() =~= all.take(i as int));
            assert(all.take(i + 1).last() == refs@[i as int]@);
        }
        if i > 0 {
            out.append(" ");
        }
        out.append("(\"inputs\",");
        crate::json::write_quoted(refs[i].as_str(), out);
        out.append(")");
        proof {
            assert(out@ =~= before + inputs_text(all.take(i + 1)));
        }
        i = i + 1;
    }
    assert(all.take(i as int) =~= all);
}

/// Appends the command that records a decision.
fn append_decision(
    out: &mut String,
    kind: &str,
    rationale: &str,
    capture: &Capture,
    used: &Vec<String>,
    revisions: &Vec<String>,
)
    ensures
        final(out)@ == old(out)@ + decision_command_of(
            kind@,
            rationale@,
            *capture,
            text::views(used@),
            text::views(revisions@),
        ),
{
    let ghost before = out@;
    let recorded = match &capture.receipt {
        Some(own) => Json::object().with("rationale", Json::text(rationale)).with(
            "recall_receipt",
            own.copy(),
        ).to_text(),
        None => rationale.to_owned(),
    };
    let decision = Json::object().with("decision", Json::text(kind)).with(
        "rationale",
        Json::text(recorded.as_str()),
    ).with("retrieved_refs", Json::texts(&capture.retrieved)).with(
        "used_refs",
        Json::texts(used),
    ).with("applied_revisions", Json::texts(revisions)).with("basis", capture.basis.copy());
    let act = text::same(kind, "act");
    let dependency = Json::object().with(
        "basis_seq",
        capture.basis.copy_at("snapshot_seq"),
    ).with("policy_basis", capture.basis.copy()).with(
        "groups",
        groups_json(capture, act, Ghost(kind@)),
    );
    out.append(
        "CREATE ACTIVITY ?decision {SET FIELDS {activity_class:\"action_gate\",status:\"completed\"} SET FACET \"DecisionRecord\" ",
    );
    out.append(decision.to_text().as_str());
    out.append(" SET FACET \"DependencyBasis\" ");
    out.append(dependency.to_text().as_str());
    out.append(" SET STRUCTURAL {");
    append_inputs(out, &capture.retrieved);
    out.append("}}");
    proof {
        assert(out@ =~= before + decision_command_of(
            kind@,
            rationale@,
            *capture,
            text::views(used@),
            text::views(revisions@),
        ));
    }
}

// ---------------------------------------------------------------------------
// The plan of a gate
// ---------------------------------------------------------------------------

/// The identity of the one attempt of a wake.
pub open spec fn attempt_value(wake: WakeRecord, kind: ActionKind) -> Datum {
    Datum::empty().with("scope"@, wake.scope.value()).with(
        "wake"@,
        Datum::Text(wake.wake_ref@),
    ).with("kind"@, Datum::Text(kind.name()))
}

pub open spec fn attempt_id_of(wake: WakeRecord, kind: ActionKind) -> Option<Seq<char>> {
    match nexus::digits_of(attempt_value(wake, kind)) {
        Some(digits) => Some("brain-action:"@ + digits),
        None => None,
    }
}

fn attempt_id(wake: &WakeRecord, kind: ActionKind) -> (r: String)
    ensures
        attempt_id_of(*wake, kind) == Some(r@),
{
    let scope = wake.scope.to_json();
    let value = Json::object().with("scope", scope).with(
        "wake",
        Json::text(wake.wake_ref.as_str()),
    ).with("kind", Json::text(kind.as_str()));
    proof {
        let s = wake.scope;
        let a = Datum::empty();
        nexus::a_member_keeps_portable(a, "space_id"@, Datum::Text(s.space_id@), 99);
        nexus::a_member_keeps_portable(
            a.with("space_id"@, Datum::Text(s.space_id@)),
            "space_instance"@,
            Datum::Text(s.space_instance@),
            99,
        );
        nexus::a_member_keeps_portable(a, "scope"@, s.value(), 100);
        let b = a.with("scope"@, s.value());
        nexus::a_member_keeps_portable(b, "wake"@, Datum::Text(wake.wake_ref@), 100);
        let c = b.with("wake"@, Datum::Text(wake.wake_ref@));
        nexus::a_member_keeps_portable(c, "kind"@, Datum::Text(kind.name()), 100);
    }
    let mut out = "brain-action:".to_owned();
    out.append(nexus::json_digits(&value).as_str());
    out
}

/// A decision before its request is stored.
#[derive(Debug)]
pub struct GatePlan {
    pub decision: &'static str,
    pub rationale: String,
    pub used: Vec<String>,
    pub continuations: Vec<WakeContinuation>,
    pub request: Option<ActionRequest>,
    pub recipient: Option<String>,
    pub reply_deadline_ms: Option<u64>,
    pub clarification_payload: Option<Json>,
}

/// The payload that a question is delivered with.
pub open spec fn question_value(
    question: Seq<char>,
    recipient: Seq<char>,
    correlation: Seq<char>,
    due: u64,
) -> Datum {
    Datum::empty().with("question"@, Datum::Text(question)).with(
        "recipient"@,
        Datum::Text(recipient),
    ).with("correlation"@, Datum::Text(correlation)).with(
        "reply_deadline_ms"@,
        Datum::Unsigned(due),
    )
}

/// What kind of action a wake stands for.
pub open spec fn action_kind(wake: WakeRecord) -> ActionKind {
    if wake.continuation_key matches Some(k) && k@ == "clarification"@ {
        ActionKind::DeliverClarification
    } else {
        ActionKind::Business
    }
}

/// The fixed request of an action.
pub open spec fn is_request(
    request: ActionRequest,
    wake: WakeRecord,
    context: ContextRequest,
    payload: Datum,
) -> bool {
    &&& request.scope == wake.scope
    &&& request.pins == wake.pins
    &&& request.gate_wake_ref == wake.wake_ref
    &&& request.kind == action_kind(wake)
    &&& attempt_id_of(wake, action_kind(wake)) == Some(request.attempt_id@)
    &&& request.payload@ == payload
    &&& request.context.same_as(context)
    &&& request.context.value() == context.value()
}

impl GatePlan {
    /// What a proposal comes to.
    pub open spec fn carries_out(
        self,
        proposal: Proposal,
        bindings: ActionBindings,
        wake: WakeRecord,
        rounds: u32,
        context: ContextRequest,
        now: u64,
    ) -> bool {
        &&& self.decision@ == proposal.decision()
        &&& self.rationale@ == proposal.why()
        &&& text::views(self.used@) == proposal.used()
        &&& match proposal {
            Proposal::Act { payload, .. } => {
                &&& self.request matches Some(request) && is_request(
                    request,
                    wake,
                    context,
                    payload@,
                )
                &&& super::journal::continuations(self.continuations@) =~= seq![
                    ("dispatch"@, now),
                ]
                &&& self.asks_nobody()
            },
            Proposal::Ask { question, .. } => {
                &&& bindings.clarification matches Some(channel) && {
                    let due = (now + channel.reply_timeout_ms) as u64;
                    &&& self.recipient == Some(channel.recipient_principal)
                    &&& self.reply_deadline_ms == Some(due)
                    &&& self.clarification_payload matches Some(payload) && payload@
                        == question_value(
                        question@,
                        channel.recipient_principal@,
                        wake.wake_ref@,
                        due,
                    )
                }
                &&& super::journal::continuations(self.continuations@) =~= seq![
                    ("answer"@, now),
                    ("clarification"@, now),
                ]
                &&& self.request is None
            },
            Proposal::Defer { .. } => {
                &&& super::journal::continuations(self.continuations@) =~= seq![
                    (
                        if rounds >= bindings.limits.max_retries {
                            "manual"@
                        } else {
                            "retry"@
                        },
                        (now + bindings.limits.retry_ms) as u64,
                    ),
                ]
                &&& self.request is None
                &&& self.asks_nobody()
            },
            Proposal::Silence { .. } => {
                &&& self.continuations@.len() == 0
                &&& self.request is None
                &&& self.asks_nobody()
            },
        }
    }

    pub open spec fn asks_nobody(self) -> bool {
        &&& self.recipient is None
        &&& self.reply_deadline_ms is None
        &&& self.clarification_payload is None
    }
}

/// Turns a proposal into a plan: an action gets its fixed request, a question
/// its recipient and deadline, deferred work its next round.
pub fn plan_gate(
    bindings: &ActionBindings,
    wake: &WakeRecord,
    rounds: u32,
    context: &ContextRequest,
    proposal: Proposal,
    now: u64,
) -> (r: Result<GatePlan, ActionError>)
    requires
        bindings.refused() is None,
        now <= u64::MAX - MAX_DELAY_MS,
    ensures
        match r {
            Ok(plan) => plan.carries_out(proposal, *bindings, *wake, rounds, *context, now),
            Err(e) => proposal is Ask && bindings.clarification is None && e
                == ActionError::ClarificationBindingMissing,
        },
{
    let mut continuations: Vec<WakeContinuation> = Vec::new();
    match proposal {
        Proposal::Act { rationale, used_refs, payload } => {
            let clarifies = match &wake.continuation_key {
                Some(k) => text::same(k.as_str(), "clarification"),
                None => false,
            };
            let kind = if clarifies {
                ActionKind::DeliverClarification
            } else {
                ActionKind::Business
            };
            let request = ActionRequest {
                scope: wake.scope.copy(),
                pins: wake.pins.copy(),
                gate_wake_ref: wake.wake_ref.clone(),
                kind,
                attempt_id: attempt_id(wake, kind),
                payload,
                context: context.copy(),
            };
            continuations.push(
                WakeContinuation { key: "dispatch".to_owned(), not_before_ms: now },
            );
            Ok(
                GatePlan {
                    decision: "act",
                    rationale,
                    used: used_refs,
                    continuations,
                    request: Some(request),
                    recipient: None,
                    reply_deadline_ms: None,
                    clarification_payload: None,
                },
            )
        },
        Proposal::Ask { rationale, used_refs, question } => {
            let channel = match &bindings.clarification {
                Some(channel) => channel,
                None => return Err(ActionError::ClarificationBindingMissing),
            };
            let due: u64 = now + channel.reply_timeout_ms;
            continuations.push(WakeContinuation { key: "answer".to_owned(), not_before_ms: now });
            continuations.push(
                WakeContinuation { key: "clarification".to_owned(), not_before_ms: now },
            );
            let payload = Json::object().with("question", Json::text(question.as_str())).with(
                "recipient",
                Json::text(channel.recipient_principal.as_str()),
            ).with("correlation", Json::text(wake.wake_ref.as_str())).with(
                "reply_deadline_ms",
                Json::unsigned(due),
            );
            Ok(
                GatePlan {
                    decision: "ask",
                    rationale,
                    used: used_refs,
                    continuations,
                    request: None,
                    recipient: Some(channel.recipient_principal.clone()),
                    reply_deadline_ms: Some(due),
                    clarification_payload: Some(payload),
                },
            )
        },
        Proposal::Defer { reason } => {
            let next = if rounds >= bindings.limits.max_retries {
                "manual"
            } else {
                "retry"
            };
            continuations.push(
                WakeContinuation {
                    key: next.to_owned(),
                    not_before_ms: now + bindings.limits.retry_ms,
                },
            );
            let used: Vec<String> = Vec::new();
            assert(text::views(used@) =~= Seq::empty());
            Ok(
                GatePlan {
                    decision: "defer",
                    rationale: reason,
                    used,
                    continuations,
                    request: None,
                    recipient: None,
                    reply_deadline_ms: None,
                    clarification_payload: None,
                },
            )
        },
        Proposal::Silence { rationale, used_refs } => Ok(
            GatePlan {
                decision: "silence",
                rationale,
                used: used_refs,
                continuations,
                request: None,
                recipient: None,
                reply_deadline_ms: None,
                clarification_payload: None,
            },
        ),
    }
}

/// What is stored before a request can be committed: a crash may leave it
/// unused, but no attempt is ever without it.
pub open spec fn selection_value(bindings: ActionBindings, request: ActionRequest) -> Datum {
    Datum::empty().with("configuration"@, bindings.manifest_value()).with(
        "request"@,
        request.value(),
    )
}

pub fn selection_material(bindings: &ActionBindings, request: &ActionRequest) -> (r: Json)
    ensures
        r@ == selection_value(*bindings, *request),
{
    Json::object().with("configuration", bindings.manifest()).with("request", request.to_json())
}

// ---------------------------------------------------------------------------
// The commit
// ---------------------------------------------------------------------------

/// The most bytes of one commit.
pub const MAX_COMMIT_BYTES: usize = 65_536;

/// The record of an attempt, but for its decision.
pub open spec fn attempt_record(
    bindings: ActionBindings,
    wake: WakeRecord,
    capture: Capture,
    request: ActionRequest,
    request_digest: Seq<char>,
    selection: Datum,
    started_at: Seq<char>,
) -> Datum {
    let context = Datum::empty().with(
        "task_family"@,
        Datum::Text(capture.request.task_family@),
    ).with("gate_wake_ref"@, Datum::Text(wake.wake_ref@)).with(
        "binding"@,
        bindings.binding_pin.value(),
    ).with("request_digest"@, Datum::Text(request_digest));
    Datum::empty().with("attempt_id"@, Datum::Text(request.attempt_id@)).with(
        "applied_revisions"@,
        crate::json::text_list(text::views(capture.request.applied_revisions@)),
    ).with("trial_ref"@, Datum::Null).with("context"@, context).with(
        "environment_digest"@,
        Datum::Text(capture.request.environment_digest@),
    ).with("tool_versions"@, super::request::tools_value(capture.request.tool_versions@)).with(
        "selection_policy"@,
        selection,
    ).with("preconditions_satisfied"@, Datum::Text("yes"@)).with(
        "started_at"@,
        Datum::Text(started_at),
    )
}

/// The command that records an attempt of the decision.
pub open spec fn attempt_command_of(record: Datum) -> Seq<char> {
    " CREATE ACTIVITY ?attempt {SET FIELDS {activity_class:\"action_attempt\",status:\"completed\"} SET FACET \"AttemptRecord\" "@
        + record.written().drop_last() + ",\"decision_ref\":?decision}"@
        + " SET STRUCTURAL {(\"inputs\",?decision)}}"@
}

/// The command of a plan.
pub open spec fn command_of(
    plan: GatePlan,
    bindings: ActionBindings,
    wake: WakeRecord,
    capture: Capture,
    request_digest: Seq<char>,
    selection: Datum,
    started_at: Seq<char>,
) -> Seq<char> {
    let revisions = if plan.decision@ == "act"@ {
        text::views(capture.request.applied_revisions@)
    } else {
        Seq::empty()
    };
    let decision = decision_command_of(
        plan.decision@,
        plan.rationale@,
        capture,
        text::views(plan.used@),
        revisions,
    );
    let attempt = match plan.request {
        Some(request) => attempt_command_of(
            attempt_record(
                bindings,
                wake,
                capture,
                request,
                request_digest,
                selection,
                started_at,
            ),
        ),
        None => Seq::empty(),
    };
    "MUTATE { "@ + decision + attempt + " }"@
}

/// The digest of the plan's request.
pub open spec fn request_digest_of(plan: GatePlan) -> Option<Seq<char>> {
    match plan.request {
        Some(request) => nexus::digest_of(request.value()),
        None => Some(Seq::empty()),
    }
}

/// A written object ends in its bracket.
proof fn written_objects_are_not_empty(v: Datum)
    requires
        v is Object,
    ensures
        v.written().len() > 0,
{
}

fn attempt_json(
    bindings: &ActionBindings,
    wake: &WakeRecord,
    capture: &Capture,
    request: &ActionRequest,
    request_digest: &str,
    selection: &Json,
    started_at: &str,
) -> (r: Json)
    ensures
        r@ == attempt_record(
            *bindings,
            *wake,
            *capture,
            *request,
            request_digest@,
            selection@,
            started_at@,
        ),
        r@ is Object,
{
    let context = Json::object().with(
        "task_family",
        Json::text(capture.request.task_family.as_str()),
    ).with("gate_wake_ref", Json::text(wake.wake_ref.as_str())).with(
        "binding",
        bindings.binding_pin.to_json(),
    ).with("request_digest", Json::text(request_digest));
    Json::object().with("attempt_id", Json::text(request.attempt_id.as_str())).with(
        "applied_revisions",
        Json::texts(&capture.request.applied_revisions),
    ).with("trial_ref", Json::Null).with("context", context).with(
        "environment_digest",
        Json::text(capture.request.environment_digest.as_str()),
    ).with("tool_versions", super::request::tools_json(&capture.request.tool_versions)).with(
        "selection_policy",
        selection.copy(),
    ).with("preconditions_satisfied", Json::text("yes")).with(
        "started_at",
        Json::text(started_at),
    )
}

impl PreparedGate {
    /// The plan, sealed for the wake as it stands.
    pub open spec fn seals(self, plan: GatePlan, wake: WakeRecord, capture: Capture) -> bool {
        &&& self.continuations == plan.continuations
        &&& self.expected == wake.version
        &&& self.fence == wake.fence
        &&& self.decision@ == plan.decision@
        &&& self.capture == capture
        &&& self.request == plan.request
        &&& self.recipient == plan.recipient
        &&& self.reply_deadline_ms == plan.reply_deadline_ms
        &&& self.clarification_payload == plan.clarification_payload
    }
}

/// Seals a plan: writes the one command that records the decision and, for an
/// action, its attempt.
pub fn seal_gate(
    plan: GatePlan,
    bindings: &ActionBindings,
    wake: &WakeRecord,
    capture: Capture,
    selection: &Json,
    started_at: &str,
) -> (r: Result<PreparedGate, ActionError>)
    ensures
        match (r, request_digest_of(plan)) {
            (Ok(prepared), Some(digest)) => {
                &&& prepared.seals(plan, *wake, capture)
                &&& prepared.command@ == command_of(
                    plan,
                    *bindings,
                    *wake,
                    capture,
                    digest,
                    selection@,
                    started_at@,
                )
                &&& text::utf8_len(prepared.command@) <= MAX_COMMIT_BYTES
            },
            (Err(e), Some(digest)) => e == ActionError::CommitTooLarge && text::utf8_len(
                command_of(plan, *bindings, *wake, capture, digest, selection@, started_at@),
            ) > MAX_COMMIT_BYTES,
            (Err(e), None) => e == ActionError::Undigestible,
            (Ok(_), None) => false,
        },
{
    let act = text::same(plan.decision, "act");
    let revisions = if act {
        text::copy_list(&capture.request.applied_revisions)
    } else {
        let none: Vec<String> = Vec::new();
        assert(text::views(none@) =~= Seq::empty());
        none
    };
    let mut command = "MUTATE { ".to_owned();
    append_decision(
        &mut command,
        plan.decision,
        plan.rationale.as_str(),
        &capture,
        &plan.used,
        &revisions,
    );
    let ghost head = command@;
    if let Some(request) = &plan.request {
        let digest = match super::request::digest_or(&request.to_json()) {
            Ok(digest) => digest,
            Err(e) => return Err(e),
        };
        let record = attempt_json(
            bindings,
            wake,
            &capture,
            request,
            digest.as_str(),
            selection,
            started_at,
        );
        let written = record.to_text();
        proof {
            written_objects_are_not_empty(record@);
        }
        let n: usize = written.as_str().unicode_len();
        let open = written.as_str().substring_char(0, n - 1);
        assert(open@ =~= record@.written().drop_last());
        command.append(
            " CREATE ACTIVITY ?attempt {SET FIELDS {activity_class:\"action_attempt\",status:\"completed\"} SET FACET \"AttemptRecord\" ",
        );
        command.append(open);
        command.append(",\"decision_ref\":?decision}");
        command.append(" SET STRUCTURAL {(\"inputs\",?decision)}}");
        proof {
            assert(command@ =~= head + attempt_command_of(record@));
        }
    }
    command.append(" }");
    proof {
        let digest = request_digest_of(plan)->0;
        assert(command@ =~= command_of(
            plan,
            *bindings,
            *wake,
            capture,
            digest,
            selection@,
            started_at@,
        ));
    }
    if text::byte_len(command.as_str()) > MAX_COMMIT_BYTES {
        return Err(ActionError::CommitTooLarge);
    }
    Ok(
        PreparedGate {
            command,
            continuations: plan.continuations,
            expected: wake.version,
            fence: wake.fence,
            decision: plan.decision.to_owned(),
            capture,
            request: plan.request,
            recipient: plan.recipient,
            reply_deadline_ms: plan.reply_deadline_ms,
            clarification_payload: plan.clarification_payload,
        },
    )
}

// ---------------------------------------------------------------------------
// What was committed
// ---------------------------------------------------------------------------

/// The outputs that a receipt of the engine lists.
pub open spec fn outputs_of(result: Datum) -> Result<Seq<Seq<char>>, ActionError> {
    match result.at("outputs"@) {
        Datum::Array(list) => if forall|i: int| 0 <= i < list.len() ==> (#[trigger] list[i]) is Text {
            Ok(list.map_values(|v: Datum| v->Text_0))
        } else {
            Err(ActionError::InvalidOutput)
        },
        _ => Err(ActionError::ReceiptLacksOutputs),
    }
}

pub fn read_receipt(result: &Json) -> (r: Result<Vec<String>, ActionError>)
    ensures
        match (r, outputs_of(result@)) {
            (Ok(outputs), Ok(views)) => text::views(outputs@) == views,
            (Err(e), Err(f)) => e == f,
            _ => false,
        },
{
    let list = match result.get("outputs") {
        Some(value) => match value.as_array() {
            Some(list) => list,
            None => return Err(ActionError::ReceiptLacksOutputs),
        },
        None => return Err(ActionError::ReceiptLacksOutputs),
    };
    let ghost all = crate::json::items_view(list@);
    let mut out: Vec<String> = Vec::new();
    let mut i: usize = 0;
    while i < list.len()
        invariant
            i <= list.len(),
            all == crate::json::items_view(list@),
            result@.at("outputs"@) == Datum::Array(all),
            out.len() == i,
            forall|k: int| 0 <= k < i ==> (#[trigger] all[k]) == Datum::Text(out@[k]@),
        decreases list.len() - i,
    {
        assert(all[i as int] == list@[i as int]@);
        match list[i].as_text() {
            Some(s) => out.push(s.to_owned()),
            None => {
                assert(!(all[i as int] is Text));
                return Err(ActionError::InvalidOutput);
            },
        }
        i = i + 1;
    }
    assert(text::views(out@) =~= all.map_values(|v: Datum| v->Text_0));
    Ok(out)
}

/// Whether an output is an activity, and so to be read.
pub fn is_activity(id: &str) -> (r: bool)
    ensures
        r == text::is_prefix("X-"@, id@),
{
    text::starts_with(id, "X-")
}

/// One activity of a commit, as the caller's own authority reads it.
#[derive(Debug)]
pub struct OutputRow {
    pub id: String,
    pub row: Json,
}

/// The activity records that decision.
pub open spec fn decides(row: Datum, kind: Seq<char>) -> bool {
    row.at("facets"@).at(PROFILE@ + "DecisionRecord"@).at("decision"@) == Datum::Text(kind)
}

/// The activity records that attempt.
pub open spec fn attempts(row: Datum, attempt_id: Seq<char>) -> bool {
    row.at("facets"@).at(PROFILE@ + "AttemptRecord"@).at("attempt_id"@) == Datum::Text(attempt_id)
}

/// Whether a member of one of the element's records is that text.
pub(crate) fn facet_is(row: &Json, facet: &str, name: &str, s: &str) -> (r: bool)
    ensures
        r == (row@.at("facets"@).at(PROFILE@ + facet@).at(name@) == Datum::Text(s@)),
{
    let mut symbol = PROFILE.to_owned();
    symbol.append(facet);
    match row.get("facets") {
        Some(facets) => match facets.get(symbol.as_str()) {
            Some(record) => record.member_is(name, s),
            None => false,
        },
        None => false,
    }
}

/// The last activity that records the decision.
pub open spec fn decision_among(
    rows: Seq<OutputRow>,
    kind: Seq<char>,
    before: Option<Seq<char>>,
) -> Option<Seq<char>>
    decreases rows.len(),
{
    if rows.len() == 0 {
        before
    } else if decides(rows.last().row@, kind) {
        Some(rows.last().id@)
    } else {
        decision_among(rows.drop_last(), kind, before)
    }
}

/// The last activity that records the attempt of a request.
pub open spec fn attempt_among(
    rows: Seq<OutputRow>,
    request: Option<ActionRequest>,
    before: Option<Seq<char>>,
) -> Option<Seq<char>>
    decreases rows.len(),
{
    if rows.len() == 0 {
        before
    } else if request matches Some(own) && attempts(rows.last().row@, own.attempt_id@) {
        Some(rows.last().id@)
    } else {
        attempt_among(rows.drop_last(), request, before)
    }
}

impl Job {
    /// The references that a commit is known by.
    pub open spec fn with_refs(self, rows: Seq<OutputRow>) -> Status {
        let p = self.prepared->0;
        Status {
            decision_ref: decision_among(rows, p.decision@, self.status@.decision_ref),
            attempt_ref: attempt_among(rows, p.request, self.status@.attempt_ref),
            ..self.status@
        }
    }

    /// Every reference that the prepared decision must have left is there.
    pub open spec fn refs_complete(self, rows: Seq<OutputRow>) -> bool {
        let after = self.with_refs(rows);
        after.decision_ref is Some && (self.prepared->0.request is Some ==> after.attempt_ref
            is Some)
    }
}

fn read_refs(job: &mut Job, rows: &Vec<OutputRow>)
    requires
        old(job).prepared is Some,
    ensures
        final(job).status@ == old(job).with_refs(rows@),
        *final(job) == (Job { status: final(job).status, ..*old(job) }),
{
    let mut i: usize = 0;
    assert(rows@.take(0) =~= Seq::empty());
    while i < rows.len()
        invariant
            i <= rows.len(),
            old(job).prepared is Some,
            job.status@ == old(job).with_refs(rows@.take(i as int)),
            *job == (Job { status: job.status, ..*old(job) }),
        decreases rows.len() - i,
    {
        proof {
            assert(rows@.take(i + 1).drop_last() =~= rows@.take(i as int));
            assert(rows@.take(i + 1).last() == rows@[i as int]);
        }
        let mut decision_ref: Option<String> = None;
        let mut attempt_ref: Option<String> = None;
        if let Some(p) = &job.prepared {
            if facet_is(&rows[i].row, "DecisionRecord", "decision", p.decision.as_str()) {
                decision_ref = Some(rows[i].id.clone());
            }
            if let Some(request) = &p.request {
                if facet_is(
                    &rows[i].row,
                    "AttemptRecord",
                    "attempt_id",
                    request.attempt_id.as_str(),
                ) {
                    attempt_ref = Some(rows[i].id.clone());
                }
            }
        }
        if decision_ref.is_some() {
            job.status.decision_ref = decision_ref;
        }
        if attempt_ref.is_some() {
            job.status.attempt_ref = attempt_ref;
        }
        i = i + 1;
    }
    assert(rows@.take(i as int) =~= rows@);
}

/// The status after a commit that left everything it had to.
pub open spec fn committed_status(job: Job, rows: Seq<OutputRow>) -> Status {
    let p = job.prepared->0;
    Status {
        dispatch_ref: match p.request {
            Some(request) => super::request::dispatch_reference_of(
                request.scope,
                request.attempt_id@,
            ),
            None => job.status@.dispatch_ref,
        },
        state: "committed"@,
        decision: Some(p.decision@),
        next_run_ms: None,
        reason: None,
        ..job.with_refs(rows)
    }
}

/// Takes over what a commit left: the outputs, the decision and the attempt. A
/// receipt that does not show them all is an error.
pub fn commit(job: &mut Job, outputs: Vec<String>, rows: &Vec<OutputRow>) -> (r: Result<
    (),
    ActionError,
>)
    ensures
        match old(job).prepared {
            None => r == Err::<(), ActionError>(ActionError::NoPreparedCommit) && *final(job)
                == *old(job),
            Some(p) => {
                &&& *final(job) == (Job {
                    status: final(job).status,
                    outputs: final(job).outputs,
                    ..*old(job)
                })
                &&& final(job).outputs == outputs
                &&& if old(job).refs_complete(rows@) {
                    r == Ok::<(), ActionError>(()) && final(job).status@ == committed_status(
                        *old(job),
                        rows@,
                    )
                } else {
                    r == Err::<(), ActionError>(ActionError::OutputsIncomplete)
                        && final(job).status@ == old(job).with_refs(rows@)
                }
            },
        },
{
    if job.prepared.is_none() {
        return Err(ActionError::NoPreparedCommit);
    }
    read_refs(job, rows);
    job.outputs = outputs;
    let mut dispatch_ref: Option<String> = None;
    let mut decision: Option<String> = None;
    if let Some(p) = &job.prepared {
        if job.status.decision_ref.is_none() || p.request.is_some()
            && job.status.attempt_ref.is_none() {
            return Err(ActionError::OutputsIncomplete);
        }
        if let Some(request) = &p.request {
            dispatch_ref = Some(
                super::request::dispatch_reference(&request.scope, request.attempt_id.as_str()),
            );
        }
        decision = Some(p.decision.clone());
    }
    if dispatch_ref.is_some() {
        job.status.dispatch_ref = dispatch_ref;
    }
    job.status.state = "committed".to_owned();
    job.status.decision = decision;
    job.status.next_run_ms = None;
    job.status.reason = None;
    Ok(())
}

/// Whether a continuation may follow its parent, and whether the parent's
/// journal lost the acknowledgement of its commit.
pub fn confirm_parent(job: &Option<Job>, wake: &WakeRecord) -> (r: Result<bool, ActionError>)
    ensures
        r == match job {
            None => Err::<bool, ActionError>(ActionError::NoPreparedParent),
            Some(own) => if !own.pins.same_as(wake.pins) {
                Err::<bool, ActionError>(ActionError::ParentConfiguration)
            } else if !(wake.state is Completed) {
                Err::<bool, ActionError>(ActionError::ParentNotCommitted)
            } else {
                Ok::<bool, ActionError>(
                    own.status.state@ != "committed"@ || own.outputs@.len() == 0,
                )
            },
        },
{
    match job {
        None => Err(ActionError::NoPreparedParent),
        Some(own) => {
            if !own.pins.same(&wake.pins) {
                return Err(ActionError::ParentConfiguration);
            }
            match &wake.state {
                WakeState::Completed { .. } => Ok(
                    !text::same(own.status.state.as_str(), "committed") || own.outputs.len() == 0,
                ),
                _ => Err(ActionError::ParentNotCommitted),
            }
        },
    }
}

// ---------------------------------------------------------------------------
// Receipts of recalls
// ---------------------------------------------------------------------------

/// A memory that a recall delivered, and its content at that time.
#[derive(Debug)]
pub struct DeliveredMemory {
    pub id: String,
    pub content_digest: String,
}

/// A memory that an action uses, and its content now, where that has a digest.
#[derive(Debug)]
pub struct UsedMemory {
    pub id: String,
    pub content_digest: Option<String>,
}

/// The receipt of a recall.
#[derive(Debug)]
pub struct DeliveryReceipt {
    pub complete_inventory: bool,
    pub delivery: String,
    pub pins: Vec<DeliveredMemory>,
}

impl DeliveryReceipt {
    /// The memory was delivered, and has not changed since.
    pub open spec fn covers(self, used: UsedMemory) -> bool {
        used.content_digest matches Some(d) && exists|i: int|
            0 <= i < self.pins@.len() && (#[trigger] self.pins@[i]).id@ == used.id@
                && self.pins@[i].content_digest@ == d@
    }

    pub open spec fn verified(self) -> bool {
        self.complete_inventory && self.delivery@ == "bounded_packet"@
    }

    fn covered(&self, used: &UsedMemory) -> (r: bool)
        ensures
            r == self.covers(*used),
    {
        let digest = match &used.content_digest {
            Some(d) => d,
            None => return false,
        };
        let mut i: usize = 0;
        while i < self.pins.len()
            invariant
                i <= self.pins.len(),
                used.content_digest == Some(*digest),
                forall|k: int|
                    0 <= k < i ==> !((#[trigger] self.pins@[k]).id@ == used.id@
                        && self.pins@[k].content_digest@ == digest@),
            decreases self.pins.len() - i,
        {
            if text::same(self.pins[i].id.as_str(), used.id.as_str()) && text::same(
                self.pins[i].content_digest.as_str(),
                digest.as_str(),
            ) {
                return true;
            }
            i = i + 1;
        }
        false
    }
}

/// An action may rest on a recall only if the recall was complete and bounded,
/// and everything that is used was delivered by it and is unchanged.
pub fn check_receipt(receipt: &DeliveryReceipt, used: &Vec<UsedMemory>) -> (r: Result<
    (),
    ActionError,
>)
    ensures
        r == if !receipt.verified() {
            Err::<(), ActionError>(ActionError::ReceiptUnverified)
        } else if forall|i: int| 0 <= i < used@.len() ==> receipt.covers(#[trigger] used@[i]) {
            Ok::<(), ActionError>(())
        } else {
            Err::<(), ActionError>(ActionError::UsedMemoryChanged)
        },
{
    if !receipt.complete_inventory || !text::same(receipt.delivery.as_str(), "bounded_packet") {
        return Err(ActionError::ReceiptUnverified);
    }
    let mut i: usize = 0;
    while i < used.len()
        invariant
            i <= used.len(),
            receipt.verified(),
            forall|k: int| 0 <= k < i ==> receipt.covers(#[trigger] used@[k]),
        decreases used.len() - i,
    {
        if !receipt.covered(&used[i]) {
            assert(!receipt.covers(used@[i as int]));
            return Err(ActionError::UsedMemoryChanged);
        }
        i = i + 1;
    }
    Ok(())
}

// ---------------------------------------------------------------------------
// Laws
// ---------------------------------------------------------------------------

/// The attempt of a wake has one identity: preparing the wake again, at whatever
/// time and in whatever round, gives the same attempt.
pub proof fn preparing_again_keeps_the_attempt(
    first: GatePlan,
    second: GatePlan,
    a: Proposal,
    b: Proposal,
    bindings: ActionBindings,
    wake: WakeRecord,
    rounds: u32,
    later_rounds: u32,
    context: ContextRequest,
    now: u64,
    later: u64,
)
    requires
        a is Act,
        b is Act,
        first.carries_out(a, bindings, wake, rounds, context, now),
        second.carries_out(b, bindings, wake, later_rounds, context, later),
    ensures
        first.request->0.attempt_id@ == second.request->0.attempt_id@,
        super::request::dispatch_reference_of(
            first.request->0.scope,
            first.request->0.attempt_id@,
        ) == super::request::dispatch_reference_of(
            second.request->0.scope,
            second.request->0.attempt_id@,
        ),
{
}

/// Only an action carries a request, and no work is lost: an action, a question
/// and a deferral each leave a continuation, silence leaves none.
pub proof fn only_silence_ends_the_work(
    plan: GatePlan,
    proposal: Proposal,
    bindings: ActionBindings,
    wake: WakeRecord,
    rounds: u32,
    context: ContextRequest,
    now: u64,
)
    requires
        plan.carries_out(proposal, bindings, wake, rounds, context, now),
    ensures
        plan.request is Some <==> proposal is Act,
        plan.continuations@.len() == 0 <==> proposal is Silence,
        plan.reply_deadline_ms is Some <==> proposal is Ask,
{
    let list = super::journal::continuations(plan.continuations@);
    assert(list.len() == plan.continuations@.len());
}

/// Committing again gives the same status: replay repairs a lost
/// acknowledgement and adds nothing.
pub proof fn committing_again_changes_nothing(job: Job, again: Job, rows: Seq<OutputRow>)
    requires
        job.prepared is Some,
        job.refs_complete(rows),
        again.prepared == job.prepared,
        again.status@ == committed_status(job, rows),
    ensures
        again.refs_complete(rows),
        committed_status(again, rows) == committed_status(job, rows),
{
    let p = job.prepared->0;
    found_again(rows, p.decision@, job.status@.decision_ref);
    attempt_found_again(rows, p.request, job.status@.attempt_ref);
}

proof fn found_again(rows: Seq<OutputRow>, kind: Seq<char>, before: Option<Seq<char>>)
    ensures
        decision_among(rows, kind, decision_among(rows, kind, before)) == decision_among(
            rows,
            kind,
            before,
        ),
    decreases rows.len(),
{
    if rows.len() > 0 && !decides(rows.last().row@, kind) {
        found_again(rows.drop_last(), kind, before);
    }
}

proof fn attempt_found_again(
    rows: Seq<OutputRow>,
    request: Option<ActionRequest>,
    before: Option<Seq<char>>,
)
    ensures
        attempt_among(rows, request, attempt_among(rows, request, before)) == attempt_among(
            rows,
            request,
            before,
        ),
    decreases rows.len(),
{
    if rows.len() > 0 && !(request matches Some(own) && attempts(
        rows.last().row@,
        own.attempt_id@,
    )) {
        attempt_found_again(rows.drop_last(), request, before);
    }
}

} // verus!
