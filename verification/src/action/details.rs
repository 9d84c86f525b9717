//! What holds of the parts that actions are made from.

use vstd::prelude::*;

use super::context;
use super::dispatch;
use super::drive::{self, Drive};
use super::gate;
use super::inbox::{self, Inspection};
use super::journal::{Dedup, Job, PreparedGate};
use super::native::{self, GatePlan, OutputRow};
use super::request::{self, ActionRequest, ContextRequest, Proposal};
use super::send::{self, Sending};
use super::service::{self, Caller};
use super::{ActionBindings, ActionError};
use crate::json::{self, Datum, Json};
use crate::nexus;
use crate::runtime::RuntimeScope;
use crate::text;
use crate::wake::WakeRecord;

verus! {

// ---------------------------------------------------------------------------
// What is read
// ---------------------------------------------------------------------------

proof fn gathered_holds(names: Seq<Seq<char>>, more: Seq<Seq<char>>, x: Seq<char>)
    ensures
        text::gathered(names, more).contains(x) <==> names.contains(x) || more.contains(x),
    decreases more.len(),
{
    if more.len() > 0 {
        let rest = more.drop_last();
        gathered_holds(names, rest, x);
        text::inserted_holds(text::gathered(names, rest), more.last(), x);
        if rest.contains(x) {
            let k = choose|k: int| 0 <= k < rest.len() && rest[k] == x;
            assert(more[k] == x);
        }
        if more.contains(x) && x != more.last() {
            let k = choose|k: int| 0 <= k < more.len() && more[k] == x;
            assert(rest[k] == x);
        }
        assert(more.contains(more.last())) by {
            assert(more[more.len() - 1] == more.last());
        }
    }
}

/// One of the first commitments has that identity.
pub open spec fn is_commitment(commitments: Seq<Datum>, x: Seq<char>) -> bool {
    exists|i: int|
        0 <= i < commitments.len() && i < 32 && (#[trigger] commitments[i]).at("id"@)->Text_0 == x
}

/// Everything is read that the request requires, presumes or applies, its anchor, the wake's
/// Watch and firing, and the first thirty-two commitments; and nothing else.
pub proof fn every_reference_is_read(
    request: ContextRequest,
    wake: WakeRecord,
    commitments: Seq<Datum>,
    x: Seq<char>,
)
    ensures
        context::context_refs(request, wake, commitments).contains(x) <==> {
            ||| text::views(request.required_refs@).contains(x)
            ||| text::views(request.premises@).contains(x)
            ||| text::views(request.applied_revisions@).contains(x)
            ||| x == request.anchor@
            ||| x == wake.watch_ref@
            ||| x == wake.fire_activity_ref@
            ||| is_commitment(commitments, x)
        },
{
    let a = text::gathered(Seq::empty(), text::views(request.required_refs@));
    let b = text::gathered(a, text::views(request.premises@));
    let c = text::gathered(b, text::views(request.applied_revisions@));
    gathered_holds(Seq::empty(), text::views(request.required_refs@), x);
    gathered_holds(a, text::views(request.premises@), x);
    gathered_holds(b, text::views(request.applied_revisions@), x);
    let d = text::inserted(c, request.anchor@);
    let e = text::inserted(d, wake.watch_ref@);
    let f = text::inserted(e, wake.fire_activity_ref@);
    text::inserted_holds(c, request.anchor@, x);
    text::inserted_holds(d, wake.watch_ref@, x);
    text::inserted_holds(e, wake.fire_activity_ref@, x);
    let ids = context::commitment_ids(commitments);
    gathered_holds(f, ids, x);
    let some = context::constraining(commitments);
    assert(ids.len() == some.len());
    if ids.contains(x) {
        let k = choose|k: int| 0 <= k < ids.len() && ids[k] == x;
        assert(some[k] == commitments[k]);
    }
    if is_commitment(commitments, x) {
        let k = choose|k: int|
            0 <= k < commitments.len() && k < 32 && (#[trigger] commitments[k]).at("id"@)->Text_0
                == x;
        assert(some[k] == commitments[k]);
        assert(ids[k] == x);
    }
}

// ---------------------------------------------------------------------------
// What is written
// ---------------------------------------------------------------------------

/// The command records the decision, and with it the attempt where something is to be done.
/// Only an action applies revisions.
pub proof fn commands_record_decision_and_attempt(
    plan: GatePlan,
    bindings: ActionBindings,
    wake: WakeRecord,
    capture: context::Capture,
    digest: Seq<char>,
    selection: Datum,
    started_at: Seq<char>,
)
    ensures
        ({
            let command = native::command_of(
                plan,
                bindings,
                wake,
                capture,
                digest,
                selection,
                started_at,
            );
            let applied = text::views(capture.request.applied_revisions@);
            let used = text::views(plan.used@);
            let none = Seq::<Seq<char>>::empty();
            &&& plan.request is None && plan.decision@ == "act"@ ==> command == "MUTATE { "@
                + native::decision_command_of("act"@, plan.rationale@, capture, used, applied)
                + " }"@
            &&& plan.request is None && plan.decision@ != "act"@ ==> command == "MUTATE { "@
                + native::decision_command_of(
                plan.decision@,
                plan.rationale@,
                capture,
                used,
                none,
            ) + " }"@
            &&& plan.request matches Some(request) ==> command == "MUTATE { "@
                + native::decision_command_of(
                plan.decision@,
                plan.rationale@,
                capture,
                used,
                if plan.decision@ == "act"@ {
                    applied
                } else {
                    none
                },
            ) + native::attempt_command_of(
                native::attempt_record(
                    bindings,
                    wake,
                    capture,
                    request,
                    digest,
                    selection,
                    started_at,
                ),
            ) + " }"@
        }),
{
    let command = native::command_of(plan, bindings, wake, capture, digest, selection, started_at);
    let applied = text::views(capture.request.applied_revisions@);
    let used = text::views(plan.used@);
    if plan.request is None {
        let revisions = if plan.decision@ == "act"@ {
            applied
        } else {
            Seq::empty()
        };
        let decision = native::decision_command_of(
            plan.decision@,
            plan.rationale@,
            capture,
            used,
            revisions,
        );
        assert("MUTATE { "@ + decision + Seq::<char>::empty() + " }"@ =~= "MUTATE { "@ + decision
            + " }"@);
    }
}

/// Each input is named, quoted and in order, with a space between two.
pub proof fn inputs_are_listed(refs: Seq<Seq<char>>, more: Seq<char>)
    ensures
        native::inputs_text(Seq::empty()).len() == 0,
        native::inputs_text(seq![more]) == "(\"inputs\","@ + json::quoted(more) + ")"@,
        refs.len() > 0 ==> native::inputs_text(refs.push(more)) == native::inputs_text(refs) + " "@
            + "(\"inputs\","@ + json::quoted(more) + ")"@,
{
    reveal_with_fuel(native::inputs_text, 2);
    assert(refs.push(more).drop_last() =~= refs);
    let one = seq![more];
    assert(one.last() == more);
    assert(Seq::<char>::empty() + "(\"inputs\","@ + json::quoted(more) + ")"@ =~= "(\"inputs\","@
        + json::quoted(more) + ")"@);
}

/// A question is asked of its recipient, under its correlation, until its deadline.
pub proof fn questions_read_back(
    question: Seq<char>,
    recipient: Seq<char>,
    correlation: Seq<char>,
    due: u64,
)
    ensures
        ({
            let v = native::question_value(question, recipient, correlation, due);
            &&& v.at("question"@) == Datum::Text(question)
            &&& v.at("recipient"@) == Datum::Text(recipient)
            &&& v.at("correlation"@) == Datum::Text(correlation)
            &&& v.at("reply_deadline_ms"@) == Datum::Unsigned(due)
        }),
{
    broadcast use json::with_is_read_back;

    reveal_strlit("question");
    reveal_strlit("recipient");
    reveal_strlit("correlation");
    reveal_strlit("reply_deadline_ms");
    assert("question"@.len() == 8 && "recipient"@.len() == 9 && "correlation"@.len() == 11 && "reply_deadline_ms"@.len() == 17);
    let v = native::question_value(question, recipient, correlation, due);
    assert(v.get("question"@) == Some(Datum::Text(question)));
    assert(v.get("recipient"@) == Some(Datum::Text(recipient)));
    assert(v.get("correlation"@) == Some(Datum::Text(correlation)));
    assert(v.get("reply_deadline_ms"@) == Some(Datum::Unsigned(due)));
}

/// A selection holds the configuration and the request.
pub proof fn selections_read_back(bindings: ActionBindings, request: ActionRequest)
    ensures
        native::selection_value(bindings, request).at("configuration"@)
            == bindings.manifest_value(),
        native::selection_value(bindings, request).at("request"@) == request.value(),
{
    broadcast use json::with_is_read_back;

    reveal_strlit("configuration");
    reveal_strlit("request");
    assert("configuration"@.len() == 13 && "request"@.len() == 7);
    let v = native::selection_value(bindings, request);
    assert(v.get("configuration"@) == Some(bindings.manifest_value()));
    assert(v.get("request"@) == Some(request.value()));
}

/// The manifest says whether business and clarification can be repeated, whom a question
/// goes to, and for how long.
pub proof fn bindings_read_back(bindings: ActionBindings)
    ensures
        bindings.business matches Some(idempotent) ==> bindings.idempotency_value() == Datum::Bool(
            idempotent,
        ),
        bindings.business is None ==> bindings.idempotency_value() is Null,
        bindings.clarification matches Some(c) ==> {
            let v = bindings.clarification_value();
            &&& v.at("recipient"@) == Datum::Text(c.recipient_principal@)
            &&& v.at("timeout_ms"@) == Datum::Unsigned(c.reply_timeout_ms)
            &&& v.at("idempotency"@) == Datum::Bool(c.idempotency)
        },
        bindings.clarification is None ==> bindings.clarification_value() is Null,
        bindings.lookup is None ==> bindings.lookup_value() is Null,
        bindings.lookup matches Some(l) ==> bindings.lookup_value() == l.value(),
{
    broadcast use json::with_is_read_back;

    reveal_strlit("recipient");
    reveal_strlit("timeout_ms");
    reveal_strlit("idempotency");
    assert("recipient"@.len() == 9 && "timeout_ms"@.len() == 10 && "idempotency"@.len() == 11);
    if bindings.clarification is Some {
        let v = bindings.clarification_value();
        assert(v.get("recipient"@) is Some);
        assert(v.get("timeout_ms"@) is Some);
        assert(v.get("idempotency"@) is Some);
    }
}

/// Work of one kind is kept under that kind.
pub proof fn work_is_kept_under_its_kind(scope: RuntimeScope, kind: Seq<char>, id: Seq<char>)
    ensures
        request::key_of(scope, kind, id) matches Some(key) ==> text::is_prefix(
            "actions/"@ + kind + "/"@,
            key,
        ),
{
    if let Some(key) = request::key_of(scope, kind, id) {
        let head = "actions/"@ + kind + "/"@;
        assert(key.subrange(0, head.len() as int) =~= head);
    }
}

/// What resumes a wake names its scope and the wake, and that an operator or a dispatch
/// settled it.
pub proof fn resumptions_read_back(wake: WakeRecord)
    ensures
        ({
            let v = service::resume_value(wake);
            &&& v.at("format"@) == Datum::Text("anda-brain:action-v1"@)
            &&& v.at("kind"@) == Datum::Text("operator_or_dispatch_reconciled"@)
            &&& v.at("scope"@) == wake.scope.value()
            &&& v.at("wake"@) == Datum::Text(wake.wake_ref@)
        }),
{
    broadcast use json::with_is_read_back;

    reveal_strlit("format");
    reveal_strlit("kind");
    reveal_strlit("scope");
    reveal_strlit("wake");
    assert("format"@.len() == 6 && "kind"@.len() == 4 && "scope"@.len() == 5 && "wake"@.len() == 4);
    assert("kind"@[0] == 'k' && "wake"@[0] == 'w');
    let v = service::resume_value(wake);
    assert(v.get("format"@) is Some);
    assert(v.get("kind"@) is Some);
    assert(v.get("scope"@) is Some);
    assert(v.get("wake"@) is Some);
}

// ---------------------------------------------------------------------------
// Who acts
// ---------------------------------------------------------------------------

/// A caller is direct where it is somebody who authenticated itself, with some strength, and
/// not through anyone else.
pub proof fn direct_callers_authenticated_themselves(caller: Caller)
    ensures
        caller.direct() <==> nexus::is_principal(caller.principal_id@) && caller.auth_method@.len()
            > 0 && caller.auth_strength@ != "none"@ && caller.delegation_chain@.len() == 0,
{
}

/// An operation is the same where scope, pins and request are.
pub proof fn operations_are_the_same_by_their_request(
    stored: Dedup,
    request: ActionRequest,
    digest: Seq<char>,
)
    ensures
        service::same_operation(stored, request, digest) <==> stored.scope.same_as(request.scope)
            && stored.pins.same_as(request.pins) && stored.request_digest@ == digest,
{
}

/// A Watch is of the generation that fired where it stands as fired, armed at that
/// generation.
pub proof fn fired_watches_keep_their_generation(source: Datum, generation: u64)
    ensures
        service::same_generation(source, generation) <==> source.at("attributes"@).at("status"@)
            == Datum::Text("fired"@) && source.at("facets"@).at(
            "kip://profiles/cognitive-memory@2.0.0/"@ + "WatchState"@,
        ).at("arm_generation"@) == Datum::Unsigned(generation),
{
}

// ---------------------------------------------------------------------------
// The journal and the inbox
// ---------------------------------------------------------------------------

/// New work is of its wake: nothing was tried, prepared or delivered.
pub proof fn new_work_has_done_nothing(job: Job, wake: WakeRecord, rounds: u32)
    requires
        job.is_new(wake, rounds),
    ensures
        job.wake_ref@ == wake.wake_ref@,
        job.scope == wake.scope && job.pins == wake.pins,
        job.rounds == rounds,
        job.failures == 0,
        job.prepared is None && job.delivery is None && job.outputs@.len() == 0,
        job.status.state@ == "pending"@,
        job.status.attempts == 0,
{
}

/// Stored work is that of its scope and wake, within seventeen rounds and a hundred and
/// twenty-eight outputs.
pub proof fn stored_work_is_bounded(job: Job, scope: RuntimeScope, reference: Seq<char>)
    ensures
        job.belongs_to(scope, reference) <==> {
            &&& job.format@ == "anda-brain:action-v1"@
            &&& job.scope.space_id@ == scope.space_id@
            &&& job.scope.space_instance@ == scope.space_instance@
            &&& job.wake_ref@ == reference
            &&& job.rounds < 18
            &&& job.outputs@.len() < 129
        },
{
}

/// The decision that is shown is one that was recorded, of that kind; where none is, none is
/// shown.
pub proof fn shown_decisions_were_recorded(rows: Seq<OutputRow>, kind: Seq<char>)
    ensures
        inbox::record_among(rows, kind) matches Some(v) ==> v.at("decision"@) == Datum::Text(kind)
            && exists|i: int|
            0 <= i < rows.len() && (#[trigger] rows[i]).row@.at("facets"@).at(
                "kip://profiles/cognitive-memory@2.0.0/"@ + "DecisionRecord"@,
            ) == v,
        inbox::record_among(rows, kind) is None ==> forall|i: int|
            0 <= i < rows.len() ==> (#[trigger] rows[i]).row@.at("facets"@).at(
                "kip://profiles/cognitive-memory@2.0.0/"@ + "DecisionRecord"@,
            ).at("decision"@) != Datum::Text(kind),
    decreases rows.len(),
{
    if rows.len() > 0 {
        let rest = rows.drop_last();
        shown_decisions_were_recorded(rest, kind);
        assert(rows[rows.len() - 1] == rows.last());
        if native::decides(rows.last().row@, kind) {
        } else {
            if let Some(v) = inbox::record_among(rest, kind) {
                let i = choose|i: int|
                    0 <= i < rest.len() && (#[trigger] rest[i]).row@.at("facets"@).at(
                        "kip://profiles/cognitive-memory@2.0.0/"@ + "DecisionRecord"@,
                    ) == v;
                assert(rows[i] == rest[i]);
            } else {
                assert forall|i: int| 0 <= i < rows.len() implies (#[trigger] rows[i]).row@.at(
                    "facets"@,
                ).at("kip://profiles/cognitive-memory@2.0.0/"@ + "DecisionRecord"@).at(
                    "decision"@,
                ) != Datum::Text(kind) by {
                    if i < rest.len() {
                        assert(rest[i] == rows[i]);
                    }
                }
            }
        }
    }
}

/// Only an element's identity is taken for a source.
pub proof fn sources_are_elements(found: Seq<Seq<char>>, v: Datum, x: Seq<char>)
    ensures
        inbox::with_source(found, v).contains(x) <==> found.contains(x) || (v == Datum::Text(x)
            && nexus::is_element(x)),
{
    if v is Text {
        text::inserted_holds(found, v->Text_0, x);
        assert(v == Datum::Text(v->Text_0));
    }
}

/// Nothing is shown where neither recipient, question, decision nor request is.
pub proof fn nothing_is_shown_by_nothing(i: Inspection)
    ensures
        i.shows_nothing() <==> i.recipient is None && i.clarification is None && i.decision is None
            && i.request is None,
{
}

/// The materials of an attempt hold the request that was made.
pub proof fn materials_hold_the_request(
    rows: Seq<OutputRow>,
    materials: Seq<Json>,
    request: Option<ActionRequest>,
    i: int,
)
    requires
        inbox::materials_agree(rows, materials, request),
        0 <= i < rows.len(),
        request is Some,
        native::attempts(rows[i].row@, request->0.attempt_id@),
    ensures
        json::alike(materials[i]@.at("request"@), request->0.value()),
{
}

// ---------------------------------------------------------------------------
// Decisions
// ---------------------------------------------------------------------------

/// A question is missing where nobody answered, its time has not run out, nothing else is
/// lacking, and no question was prepared.
pub proof fn questions_are_missed_in_time(
    prepared: PreparedGate,
    answered: bool,
    now: u64,
    capture: context::Capture,
)
    ensures
        gate::question_missing(prepared, answered, now, capture) <==> !answered
            && prepared.reply_deadline_ms is Some && prepared.reply_deadline_ms->0 > now
            && capture.insufficient is None && prepared.clarification_payload is None,
{
}

/// What was done before is not done again, and says so; any other duplicate waits.
pub proof fn duplicates_are_silent(proposal: Proposal, reason: Seq<char>)
    requires
        gate::duplicate_as(proposal, reason),
    ensures
        text::is_prefix("duplicate_committed_operation:"@, reason) ==> proposal is Silence
            && proposal->Silence_rationale@ == reason && proposal->Silence_used_refs@.len() == 0,
        !text::is_prefix("duplicate_committed_operation:"@, reason) ==> proposal is Defer
            && proposal->reason@ == reason,
{
}

/// A reason is cut to five hundred and twelve characters.
pub proof fn reasons_are_cut(prefix: Seq<char>, error: Seq<char>)
    ensures
        gate::cut_reason(prefix, error).len() <= 512,
        (prefix + error).len() <= 512 ==> gate::cut_reason(prefix, error) == prefix + error,
        (prefix + error).len() > 512 ==> gate::cut_reason(prefix, error) == (prefix + error).take(
            512,
        ),
{
}

/// Authorization that is unavailable puts the action off, and a question under its own
/// reason.
pub proof fn unauthorized_actions_wait(drive: Drive, proposal: Proposal, error: Seq<char>)
    requires
        drive.unauthorized(proposal, error),
    ensures
        proposal is Defer,
        drive.delivering ==> proposal->reason@ == gate::cut_reason(
            "clarification_authorization_unavailable: "@,
            error,
        ),
        !drive.delivering ==> proposal->reason@ == gate::cut_reason(
            "authorization_unavailable: "@,
            error,
        ),
{
}

/// A dispatch is repeated only where the target can tell a repetition, it is open what became
/// of it, and attempts are left; it is looked up only where somebody can be asked and it has
/// not ended.
pub proof fn dispatches_are_repeated_within_bounds(
    job: Job,
    prior: Option<Datum>,
    idempotent: bool,
    limits: super::ActionLimits,
    bindings: ActionBindings,
)
    ensures
        dispatch::may_replay(job, prior, idempotent, limits) ==> idempotent && job.status.attempts
            <= limits.max_retries && !dispatch::stands(prior, "outcome_unknown"@) && (job.delivery
            is None || job.delivery->0 is Unknown),
        idempotent && job.delivery is None && job.status.attempts <= limits.max_retries
            && !dispatch::stands(prior, "outcome_unknown"@) ==> dispatch::may_replay(
            job,
            prior,
            idempotent,
            limits,
        ),
        dispatch::may_look_up(job, bindings) <==> bindings.lookup is Some && job.status.attempts
            <= bindings.limits.max_retries && !(job.delivery is Some && job.delivery->0
            is Finished),
{
}

/// A response is a repetition where the same person gave the same response to the same
/// question.
pub proof fn repetitions_are_of_the_same_response(
    stored: super::journal::Reply,
    scope: RuntimeScope,
    gate: Seq<char>,
    principal: Seq<char>,
    response: request::ClarificationResponse,
)
    ensures
        service::is_repeat(stored, scope, gate, principal, response) <==> {
            &&& stored.scope.space_id@ == scope.space_id@
            &&& stored.scope.space_instance@ == scope.space_instance@
            &&& stored.gate_wake_ref@ == gate
            &&& stored.principal@ == principal
            &&& stored.response.event_key@ == response.event_key@
            &&& stored.response.answer@ == response.answer@
        },
{
}

/// A request is digested whole; where nothing is to be done there is nothing to digest.
pub proof fn requests_are_digested_whole(plan: GatePlan)
    ensures
        plan.request matches Some(request) ==> native::request_digest_of(plan) == nexus::digest_of(
            request.value(),
        ),
        plan.request is None ==> native::request_digest_of(plan) == Some(Seq::<char>::empty()),
{
}

/// Committed work says so and what was decided, waits for nothing, and names the dispatch of
/// its attempt.
pub proof fn committed_work_waits_for_nothing(job: Job, rows: Seq<OutputRow>)
    requires
        job.prepared is Some,
    ensures
        ({
            let s = native::committed_status(job, rows);
            &&& s.state == "committed"@
            &&& s.decision == Some(job.prepared->0.decision@)
            &&& s.next_run_ms is None
            &&& s.reason is None
            &&& s.wake_ref == job.status@.wake_ref
            &&& s.attempts == job.status@.attempts
            &&& job.prepared->0.request is None ==> s.dispatch_ref == job.status@.dispatch_ref
            &&& job.prepared->0.request matches Some(own) ==> s.dispatch_ref
                == request::dispatch_reference_of(own.scope, own.attempt_id@)
        }),
{
}

/// The recipient is whoever a question was prepared for, or whom its delivery goes to;
/// business has none.
pub proof fn recipients_are_asked(job: Job)
    requires
        job.prepared is Some,
    ensures
        ({
            let p = job.prepared->0;
            let r = inbox::recipient_of(job);
            &&& p.recipient is Some ==> r == Some(p.recipient->0@)
            &&& p.recipient is None && p.request is None ==> r is None
            &&& p.recipient is None && p.request is Some && p.request->0.kind is Business ==> r
                is None
            &&& p.recipient is None && p.request is Some && p.request->0.kind
                is DeliverClarification && p.request->0.payload@.at("recipient"@) is Text ==> r
                == Some(p.request->0.payload@.at("recipient"@)->Text_0)
        }),
{
}

/// A dispatch is referred to under its own prefix, and an attempt under the action's.
pub proof fn references_have_their_prefix(
    scope: RuntimeScope,
    attempt_id: Seq<char>,
    wake: WakeRecord,
)
    ensures
        request::dispatch_reference_of(scope, attempt_id) matches Some(r) ==> text::is_prefix(
            "dispatch/v1/"@,
            r,
        ),
        native::attempt_id_of(wake, request::ActionKind::Business) matches Some(r)
            ==> text::is_prefix("brain-action:"@, r),
        request::ActionKind::Business.name() == "business"@,
        request::ActionKind::DeliverClarification.name() == "deliver_clarification"@,
{
    if let Some(r) = request::dispatch_reference_of(scope, attempt_id) {
        let head = "dispatch/v1/"@;
        assert(r.subrange(0, head.len() as int) =~= head);
    }
    if let Some(r) = native::attempt_id_of(wake, request::ActionKind::Business) {
        let head = "brain-action:"@;
        assert(r.subrange(0, head.len() as int) =~= head);
    }
}

/// The status of a wake that was not dealt with names the wake and its state, and nothing
/// else.
pub proof fn bare_statuses_say_nothing_else(wake_ref: Seq<char>, state: Seq<char>)
    ensures
        ({
            let s = request::Status::bare(wake_ref, state);
            &&& s.wake_ref == wake_ref && s.state == state
            &&& s.decision is None && s.decision_ref is None && s.attempt_ref is None
            &&& s.dispatch_ref is None && s.reason is None && s.next_run_ms is None
            &&& s.attempts == 0 && s.operator_retries == 0
        }),
{
}

// ---------------------------------------------------------------------------
// Steps
// ---------------------------------------------------------------------------

/// Before a question is delivered its answer is looked for: of its own recipient, under its
/// own wake, until its own deadline.
pub proof fn answers_are_looked_for_before_delivery(
    before: Drive,
    after: Drive,
    capture: context::Capture,
    r: Result<drive::Ask, ActionError>,
)
    requires
        before.delivery_context_moves(after, capture, r),
    ensures
        before.parent is None ==> r == Err::<drive::Ask, ActionError>(
            ActionError::ClarificationParentMissing,
        ),
        before.parent matches Some(own) ==> (own.prepared matches Some(p) ==> {
            &&& p.recipient is None ==> r == Err::<drive::Ask, ActionError>(
                ActionError::RecipientMissing,
            )
            &&& p.recipient is Some && p.reply_deadline_ms is None ==> r == Err::<
                drive::Ask,
                ActionError,
            >(ActionError::DeadlineMissing)
            &&& p.recipient is Some && p.reply_deadline_ms is Some ==> {
                &&& r is Ok && r->Ok_0 is CheckAnswer
                &&& (r->Ok_0)->CheckAnswer_gate@ == own.wake_ref@
                &&& (r->Ok_0)->CheckAnswer_recipient@ == p.recipient->0@
                &&& (r->Ok_0)->CheckAnswer_deadline == p.reply_deadline_ms->0
                &&& after.capture == Some(capture)
            }
        }),
{
}

/// What replaces an action that was not authorized does nothing itself.
pub proof fn replacements_do_nothing(
    before: Drive,
    after: Drive,
    old_job: Job,
    job: Job,
    prepared: PreparedGate,
    r: Result<drive::Ask, ActionError>,
)
    requires
        before.replacement_moves(after, old_job, job, prepared, r),
    ensures
        r is Ok ==> prepared.request is None && r->Ok_0 is Save && job.prepared is Some,
        prepared.request is Some ==> r is Err && job == old_job,
        r is Ok && !before.delivering ==> job.prepared == Some(prepared),
{
}

/// A delivery whose wake moved on while it was written is held against a fresh read; anything
/// else is committed.
pub proof fn deliveries_that_moved_on_are_read_afresh(
    before: Drive,
    after: Drive,
    job: Job,
    wake: WakeRecord,
    r: Result<drive::Ask, ActionError>,
)
    requires
        before.saved_moves(after, job, wake, r),
    ensures
        ({
            let moved = before.delivering && job.prepared is Some && (job.prepared->0.expected
                != wake.version || job.prepared->0.fence != wake.fence);
            &&& moved ==> r == Ok::<drive::Ask, ActionError>(drive::Ask::Revalidate)
            &&& !moved ==> r == Ok::<drive::Ask, ActionError>(drive::Ask::Commit)
        }),
{
}

/// A question that is about to go out is held against its answer; business is decided at
/// once.
pub proof fn dispatched_questions_are_checked(
    before: Sending,
    after: Sending,
    job: Job,
    prior: Option<Json>,
    wake: WakeRecord,
    bindings: ActionBindings,
    r: Result<send::Do, ActionError>,
    left: Job,
)
    requires
        before.prior_moves(after, job, prior, wake, bindings, r, left),
        before.request().kind is DeliverClarification,
    ensures
        ({
            let v = before.request().payload@;
            let gate = v.at("correlation"@);
            let recipient = v.at("recipient"@);
            let due = v.at("reply_deadline_ms"@);
            &&& !(gate is Text) ==> r == Err::<send::Do, ActionError>(
                ActionError::CorrelationMissing,
            )
            &&& gate is Text && !(recipient is Text) ==> r == Err::<send::Do, ActionError>(
                ActionError::RecipientMissing,
            )
            &&& gate is Text && recipient is Text && !(due is Unsigned) ==> r == Err::<
                send::Do,
                ActionError,
            >(ActionError::DeadlineMissing)
            &&& gate is Text && recipient is Text && due is Unsigned ==> {
                &&& r is Ok && r->Ok_0 is CheckAnswer
                &&& (r->Ok_0)->gate@ == gate->Text_0
                &&& (r->Ok_0)->recipient@ == recipient->Text_0
                &&& (r->Ok_0)->deadline == due->Unsigned_0
                &&& after.prior == prior
            }
            &&& left == job
        }),
{
}

/// An attempt that was committed is looked for under the dispatch that is known, and else
/// under the one that follows from it; one that was not is not dispatched.
pub proof fn committed_attempts_are_looked_for(
    before: Sending,
    after: Sending,
    old_job: Job,
    job: Job,
    row: Datum,
    material: Datum,
    wake: WakeRecord,
    bindings: ActionBindings,
    r: Result<send::Do, ActionError>,
)
    requires
        before.attempt_moves(after, old_job, job, row, material, wake, bindings, r),
    ensures
        r is Ok ==> {
            &&& r->Ok_0 is ReadDispatch
            &&& old_job.status.dispatch_ref is Some ==> (r->Ok_0)->ReadDispatch_0@
                == old_job.status.dispatch_ref->0@
            &&& old_job.status.dispatch_ref is None ==> request::dispatch_reference_of(
                wake.scope,
                before.request().attempt_id@,
            ) == Some((r->Ok_0)->ReadDispatch_0@)
            &&& json::alike(material.at("request"@), before.request().value())
            &&& json::alike(material.at("configuration"@), bindings.manifest_value())
            &&& job.status@.attempt_ref == before.parent.status@.attempt_ref
            &&& job.status@.decision_ref == before.parent.status@.decision_ref
            &&& job.status@.attempts == old_job.status@.attempts
            &&& job.prepared == old_job.prepared && job.rounds == old_job.rounds
            &&& job.failures == old_job.failures && job.delivery == old_job.delivery
        },
        r is Err ==> job == old_job,
{
}

/// Work that is held back keeps everything but its reason; where its wake is blocked it is
/// blocked too, and waits for nothing.
pub proof fn held_work_keeps_its_state(before: Job, job: Job, reason: Seq<char>, blocked: bool)
    requires
        send::held_back(before, job, reason, blocked),
    ensures
        job.status@.reason == Some(reason),
        blocked ==> job.status@.state == "blocked"@ && job.status@.next_run_ms is None,
        !blocked ==> job.status@.state == before.status@.state && job.status@.next_run_ms
            == before.status@.next_run_ms,
        job.status@.attempts == before.status@.attempts,
        job.prepared == before.prepared && job.rounds == before.rounds && job.delivery
            == before.delivery,
{
}

/// An attempt is counted before it is made, and nothing else changes.
pub proof fn attempts_are_counted_first(before: Job, job: Job)
    requires
        send::one_more_attempt(before, job),
        before.status.attempts < u32::MAX,
    ensures
        job.status@.attempts == before.status@.attempts + 1,
        job.status@.state == before.status@.state,
        job.prepared == before.prepared && job.failures == before.failures,
{
}

/// Context requests are the same exactly where every part of them is.
pub proof fn context_requests_are_the_same_by_their_parts(a: ContextRequest, b: ContextRequest)
    ensures
        a.same_as(b) <==> {
            &&& a.recall_receipt is Some <==> b.recall_receipt is Some
            &&& a.recall_receipt is Some && b.recall_receipt is Some ==> a.recall_receipt->0@
                == b.recall_receipt->0@
            &&& a.anchor@ == b.anchor@
            &&& text::views(a.required_refs@) == text::views(b.required_refs@)
            &&& text::views(a.premises@) == text::views(b.premises@)
            &&& text::views(a.applied_revisions@) == text::views(b.applied_revisions@)
            &&& a.task_family@ == b.task_family@
            &&& a.environment_digest@ == b.environment_digest@
            &&& a.tool_versions@ == b.tool_versions@
            &&& a.deduplication_key == b.deduplication_key
        },
{
}

/// A pin has a name of at most two hundred and fifty-six bytes, and a digest.
pub proof fn pins_are_bounded(pin: crate::runtime::RuntimePin)
    ensures
        super::is_bounded_pin(pin) <==> 0 < pin.id@.len() && text::utf8_len(pin.id@) < 257
            && nexus::is_digest(pin.digest@),
{
}

/// What is known to be in the way is put off at once, and weighed like a suggestion; else
/// the policy is asked for one.
pub proof fn inputs_are_weighed(
    before: Drive,
    after: Drive,
    tokens: usize,
    bindings: ActionBindings,
    r: Result<drive::Ask, ActionError>,
)
    requires
        before.input_moves(after, tokens, bindings, r),
        before.capture is Some,
    ensures
        tokens > bindings.limits.recall.context_tokens ==> r == Ok::<drive::Ask, ActionError>(
            drive::Ask::CountProposal,
        ) && after.proposal is Some && after.proposal->0 is Defer && after.proposal->0->reason@
            == "gate_input_budget_exhausted"@ && after.phase is Weight,
        tokens <= bindings.limits.recall.context_tokens && before.timed_out ==> r == Ok::<
            drive::Ask,
            ActionError,
        >(drive::Ask::CountProposal) && after.proposal is Some && after.proposal->0 is Defer
            && after.proposal->0->reason@ == "clarification_timeout_no_consent"@,
        tokens <= bindings.limits.recall.context_tokens && !before.timed_out
            && before.capture->0.insufficient is None ==> r == Ok::<drive::Ask, ActionError>(
            drive::Ask::Suggest,
        ) && after.phase is Suggestion,
        after.capture == before.capture && after.parent == before.parent,
{
}

/// Work is put off for its reason, whatever else was suggested.
pub proof fn deferred_work_says_why(proposal: Proposal, reason: Seq<char>)
    ensures
        proposal.defers(reason) ==> proposal is Defer && proposal.why() == reason
            && proposal.used().len() == 0 && proposal.decision() == "defer"@,
{
}

} // verus!
