//! What a context holds, what a dispatch does next, and what the host answers for.

use vstd::prelude::*;

use super::context::{self, Capture, ContextRow};
use super::dispatch::{self, DispatchStep, LookupStatus};
use super::gate;
use super::inbox;
use super::journal::{Job, PreparedGate};
use super::laws::{names, says_something};
use super::native::OutputRow;
use super::request::{ActionKind, ActionRequest, ClarificationResponse, ContextRequest, DeliveryStatus, Status};
use super::service::{self, Caller};
use super::{ActionBindings, ActionError, ActionLimits};
use crate::json::{self, Datum};
use crate::nexus;
use crate::runtime::{RuntimePins, RuntimeScope};
use crate::text;
use crate::wake::WakeRecord;

verus! {

// ---------------------------------------------------------------------------
// Contexts
// ---------------------------------------------------------------------------

/// A context asks for at most thirty-two references, sixteen premises, eight revisions
/// and sixteen tools, for a task and in an environment, each of bounded size.
pub proof fn contexts_are_bounded(request: ContextRequest)
    ensures
        request.bounded() <==> {
            &&& request.required_refs@.len() < 33
            &&& request.premises@.len() < 17
            &&& request.applied_revisions@.len() < 9
            &&& request.tool_versions@.len() < 17
            &&& request.task_family@.len() > 0
            &&& text::utf8_len(request.task_family@) < 257
            &&& nexus::is_digest(request.environment_digest@)
            &&& request.deduplication_key is Some ==> request.deduplication_key->0@.len() > 0
                && text::utf8_len(request.deduplication_key->0@) < 257
            &&& forall|i: int|
                0 <= i < request.tool_versions@.len() ==> (
                #[trigger] request.tool_versions@[i]).tool@.len() > 0 && text::utf8_len(
                    request.tool_versions@[i].tool@,
                ) < 129 && request.tool_versions@[i].version@.len() > 0 && text::utf8_len(
                    request.tool_versions@[i].version@,
                ) < 257
        },
{
    if request.bounded() {
        assert forall|i: int| 0 <= i < request.tool_versions@.len() implies (
        #[trigger] request.tool_versions@[i]).tool@.len() > 0 && text::utf8_len(
            request.tool_versions@[i].tool@,
        ) < 129 && request.tool_versions@[i].version@.len() > 0 && text::utf8_len(
            request.tool_versions@[i].version@,
        ) < 257 by {
            assert(context::bounded_tool(request.tool_versions@[i]));
        }
    }
}

/// What the element says that it depends on allows action.
pub open spec fn allows_action(row: Datum) -> bool {
    row.at("_system"@).at("dependency_validity"@).at("action_eligible"@) == Datum::Bool(true)
}

/// The element is a revision of a skill for that task, and allows action.
pub open spec fn may_be_applied(row: Datum, task_family: Seq<char>) -> bool {
    &&& row.at("schema_ref"@) == Datum::Text(
        "kip://profiles/cognitive-memory@2.0.0/"@ + "SkillRevision"@,
    )
    &&& row.at("attributes"@).at("task_family"@) == Datum::Text(task_family)
    &&& allows_action(row)
}

/// Nothing about the reference speaks against an action: what it depends on allows it, a
/// revision may be applied, and a premise is accepted.
pub open spec fn carries_action(request: ContextRequest, id: Seq<char>, row: ContextRow) -> bool {
    &&& row.row@.at("_system"@).at("dependency_validity"@) is Object ==> allows_action(row.row@)
    &&& names(request.applied_revisions@, id) ==> may_be_applied(row.row@, request.task_family@)
    &&& names(request.premises@, id) ==> row.belief is Some && row.belief->0@.at("status"@)
        == Datum::Text("accepted"@)
}

proof fn named_views(list: Seq<String>, id: Seq<char>)
    ensures
        names(list, id) <==> text::views(list).contains(id),
{
    let all = text::views(list);
    if names(list, id) {
        let k = choose|k: int| 0 <= k < list.len() && (#[trigger] list[k])@ == id;
        assert(all[k] == id);
    }
    if all.contains(id) {
        let k = choose|k: int| 0 <= k < all.len() && all[k] == id;
        assert(list[k]@ == id);
    }
}

proof fn one_row(request: ContextRequest, id: Seq<char>, row: ContextRow)
    ensures
        context::row_problem(request, id, row) is None <==> carries_action(request, id, row),
        ({
            let r = context::row_problem(request, id, row);
            let denied = row.row@.at("_system"@).at("dependency_validity"@) is Object
                && !allows_action(row.row@);
            let misapplied = names(request.applied_revisions@, id) && !may_be_applied(
                row.row@,
                request.task_family@,
            );
            &&& denied ==> r == Some("dependency_unverified"@)
            &&& !denied && misapplied ==> r == Some("revision_unverified"@)
            &&& r is Some && !denied && !misapplied ==> r == Some(
                "premise_unknown_or_not_accepted"@,
            )
        }),
{
    named_views(request.applied_revisions@, id);
    named_views(request.premises@, id);
}

/// A context is sufficient exactly where nothing was wrong before it was read and every
/// reference carries action; else the first reference that does not, names the problem.
pub proof fn contexts_suffice_exactly(
    request: ContextRequest,
    refs: Seq<Seq<char>>,
    rows: Seq<ContextRow>,
    before: Option<Seq<char>>,
)
    requires
        refs.len() == rows.len(),
    ensures
        context::rows_problem(request, refs, rows, before) is None <==> before is None && forall|
            i: int,
        |
            0 <= i < rows.len() ==> carries_action(request, #[trigger] refs[i], rows[i]),
        before is Some ==> context::rows_problem(request, refs, rows, before) == before,
        forall|i: int|
            before is None && 0 <= i < rows.len() && !carries_action(
                request,
                #[trigger] refs[i],
                rows[i],
            ) && (forall|k: int| 0 <= k < i ==> carries_action(request, #[trigger] refs[k], rows[k]))
                ==> context::rows_problem(request, refs, rows, before) == context::row_problem(
                request,
                refs[i],
                rows[i],
            ),
    decreases rows.len(),
{
    if rows.len() > 0 {
        let r = refs.drop_last();
        let w = rows.drop_last();
        contexts_suffice_exactly(request, r, w, before);
        one_row(request, refs.last(), rows.last());
        assert(refs[refs.len() - 1] == refs.last() && rows[rows.len() - 1] == rows.last());
        assert forall|i: int| 0 <= i < w.len() implies r[i] == #[trigger] refs[i] && w[i]
            == rows[i] by {}
        let now = context::rows_problem(request, refs, rows, before);
        if now is None {
            assert forall|i: int| 0 <= i < rows.len() implies carries_action(
                request,
                #[trigger] refs[i],
                rows[i],
            ) by {
                if i < w.len() {
                    assert(carries_action(request, r[i], w[i]));
                }
            }
        }
        assert forall|i: int|
            before is None && 0 <= i < rows.len() && !carries_action(
                request,
                #[trigger] refs[i],
                rows[i],
            ) && (forall|k: int|
                0 <= k < i ==> carries_action(
                    request,
                    #[trigger] refs[k],
                    rows[k],
                )) implies now == context::row_problem(request, refs[i], rows[i]) by {
            one_row(request, refs[i], rows[i]);
            if i < w.len() {
                assert(!carries_action(request, r[i], w[i]));
                assert forall|k: int| 0 <= k < i implies carries_action(
                    request,
                    #[trigger] r[k],
                    w[k],
                ) by {
                    assert(carries_action(request, refs[k], rows[k]));
                }
            } else {
                assert forall|k: int| 0 <= k < w.len() implies carries_action(
                    request,
                    #[trigger] r[k],
                    w[k],
                ) by {
                    assert(carries_action(request, refs[k], rows[k]));
                }
            }
        }
    }
}

/// Each reference becomes a required item of its own identity, with the whole element and
/// its whole projection.
pub proof fn references_are_required(id: Seq<char>, row: ContextRow)
    ensures
        context::context_item(id, row).id == id,
        context::context_item(id, row).channel is Kip,
        context::context_item(id, row).priority is Required,
        context::context_item(id, row).content.at("element"@) == row.row@,
        row.belief matches Some(belief) ==> context::context_item(id, row).content.at("belief"@)
            == belief@,
        row.belief is None ==> context::context_item(id, row).content.at("belief"@) == Datum::Null,
{
    broadcast use json::with_is_read_back;

    reveal_strlit("element");
    reveal_strlit("belief");
    assert("element"@.len() == 7 && "belief"@.len() == 6);
    let v = context::context_item(id, row).content;
    assert(v.get("element"@) == Some(row.row@));
    assert(v.get("belief"@) == Some(context::belief_of(row)));
}

/// A read returns the element that was asked for, with its version, or nothing: never
/// another one.
pub proof fn reads_return_what_was_asked(rows: Datum, id: Seq<char>)
    ensures
        context::element_of(rows, id) is Ok <==> {
            &&& rows is Array
            &&& rows->Array_0.len() > 0
            &&& rows->Array_0[0].at("id"@) == Datum::Text(id)
            &&& rows->Array_0[0].at("_system"@).at("version"@).as_u64() is Some
        },
        context::element_of(rows, id) matches Ok((row, version)) ==> row == rows->Array_0[0] && Some(
            version,
        ) == row.at("_system"@).at("version"@).as_u64(),
        !(rows is Array) || rows->Array_0.len() == 0 ==> context::element_of(rows, id) == Err::<
            (Datum, u64),
            ActionError,
        >(ActionError::ReferenceUnavailable),
{
}

/// That part of both bases reads alike.
pub open spec fn same_part(a: Capture, b: Capture, name: Seq<char>) -> bool {
    json::alike(a.basis@.at(name), b.basis@.at(name))
}

/// A fresh read bears an earlier one out exactly where it lacks nothing (but a premise, for
/// a question), schema, identity, policy, trust, authorization, context, purpose and risk
/// are the same, and every element stands at the version that was read before.
pub proof fn contexts_are_borne_out(earlier: Capture, fresh: Capture, clarification: bool)
    ensures
        earlier.stale(fresh, clarification) is None <==> {
            &&& fresh.insufficient is None || (clarification && fresh.insufficient->0@
                == "premise_unknown_or_not_accepted"@)
            &&& same_part(earlier, fresh, "schema_environment_version"@)
            &&& same_part(earlier, fresh, "identity_version"@)
            &&& same_part(earlier, fresh, "policy"@)
            &&& same_part(earlier, fresh, "trust_version"@)
            &&& same_part(earlier, fresh, "authorization_view"@)
            &&& same_part(earlier, fresh, "context_refs"@)
            &&& same_part(earlier, fresh, "purpose"@)
            &&& same_part(earlier, fresh, "risk"@)
            &&& earlier.pins@.len() == fresh.pins@.len()
            &&& forall|i: int|
                0 <= i < earlier.pins@.len() ==> (#[trigger] earlier.pins@[i]).id@
                    == fresh.pins@[i].id@ && earlier.pins@[i].version == fresh.pins@[i].version
        },
        fresh.insufficient is Some && !(clarification && fresh.insufficient->0@
            == "premise_unknown_or_not_accepted"@) ==> earlier.stale(fresh, clarification) == Some(
            ActionError::PrerequisitesInsufficient,
        ),
{
    let a = context::pin_views(earlier.pins@);
    let b = context::pin_views(fresh.pins@);
    assert(a.len() == earlier.pins@.len() && b.len() == fresh.pins@.len());
    if a == b {
        assert forall|i: int| 0 <= i < earlier.pins@.len() implies (
        #[trigger] earlier.pins@[i]).id@ == fresh.pins@[i].id@ && earlier.pins@[i].version
            == fresh.pins@[i].version by {
            assert(a[i] == (earlier.pins@[i].id@, earlier.pins@[i].version));
            assert(b[i] == (fresh.pins@[i].id@, fresh.pins@[i].version));
        }
    }
    if earlier.pins@.len() == fresh.pins@.len() && (forall|i: int|
        0 <= i < earlier.pins@.len() ==> (#[trigger] earlier.pins@[i]).id@ == fresh.pins@[i].id@
            && earlier.pins@[i].version == fresh.pins@[i].version) {
        assert forall|i: int| 0 <= i < a.len() implies a[i] == b[i] by {
            assert(earlier.pins@[i].id@ == fresh.pins@[i].id@);
        }
        assert(a =~= b);
    }
}

// ---------------------------------------------------------------------------
// Questions
// ---------------------------------------------------------------------------

/// A question can be delivered exactly where it was decided to ask, and the decision is
/// known.
pub proof fn only_questions_are_delivered(parent: Option<Job>)
    ensures
        gate::clarification_refused(parent) is None <==> parent is Some && parent->0.prepared is Some
            && parent->0.prepared->0.decision@ == "ask"@ && parent->0.status.decision_ref is Some,
{
}

/// A delivery rests on what its question rested on and on the decision to ask, and on no
/// premise, revision, recall or operation of its own.
pub proof fn deliveries_have_no_business(
    delivery: ContextRequest,
    asked: ContextRequest,
    decision_ref: Seq<char>,
    id: Seq<char>,
)
    requires
        gate::is_delivery_context(delivery, asked, decision_ref),
    ensures
        delivery.premises@.len() == 0,
        delivery.applied_revisions@.len() == 0,
        delivery.recall_receipt is None,
        delivery.deduplication_key is None,
        delivery.task_family@ == "brain.deliver_clarification"@,
        delivery.anchor@ == asked.anchor@,
        delivery.environment_digest@ == asked.environment_digest@,
        names(delivery.required_refs@, id) <==> names(asked.required_refs@, id) || id
            == decision_ref,
{
    named_views(delivery.required_refs@, id);
    named_views(asked.required_refs@, id);
    let all = text::views(asked.required_refs@);
    let more = all.push(decision_ref);
    assert(more[all.len() as int] == decision_ref);
    if all.contains(id) {
        let k = choose|k: int| 0 <= k < all.len() && all[k] == id;
        assert(more[k] == id);
    }
    if more.contains(id) {
        let k = choose|k: int| 0 <= k < more.len() && more[k] == id;
        if k < all.len() {
            assert(all[k] == id);
        }
    }
}

/// A continuation goes on with its parent's rounds, one more for a retry; an operator's
/// retry counts anew, and so does work without a parent.
pub proof fn rounds_are_inherited(job: Job, parent: Option<Job>, wake: WakeRecord)
    ensures
        ({
            let r = gate::inherited_rounds(job, parent, wake);
            let retry = wake.continuation_key is Some && wake.continuation_key->0@ == "retry"@;
            &&& parent is None || job.status.operator_retries > 0 ==> r == job.rounds
            &&& parent is Some && job.status.operator_retries == 0 && retry ==> r
                == parent->0.rounds + 1
            &&& parent is Some && job.status.operator_retries == 0 && !retry ==> r
                == parent->0.rounds
        }),
{
}

/// An answer counts only where it was given in this Space, to this question, by its
/// recipient, and before its deadline.
pub proof fn answers_come_in_time(
    reply: super::journal::Reply,
    wake: WakeRecord,
    parent: Job,
    prepared: PreparedGate,
)
    ensures
        gate::reply_correlates(reply, wake, parent, prepared) <==> {
            &&& prepared.recipient is Some
            &&& prepared.reply_deadline_ms is Some
            &&& reply.principal@ == prepared.recipient->0@
            &&& reply.received_ms < prepared.reply_deadline_ms->0
            &&& reply.gate_wake_ref@ == parent.wake_ref@
            &&& reply.scope.space_id@ == wake.scope.space_id@
            &&& reply.scope.space_instance@ == wake.scope.space_instance@
        },
{
}

/// A delivery that was put off waits for an operator; any other continues as it was
/// planned. No time and nothing else of it changes.
pub proof fn deferred_deliveries_wait(before: PreparedGate, after: PreparedGate, i: int)
    requires
        gate::held_as(before, after),
        0 <= i < before.continuations@.len(),
    ensures
        after.continuations@.len() == before.continuations@.len(),
        after.continuations@[i].not_before_ms == before.continuations@[i].not_before_ms,
        before.decision@ == "defer"@ ==> after.continuations@[i].key@ == "manual"@,
        before.decision@ != "defer"@ ==> after.continuations@[i].key@
            == before.continuations@[i].key@,
        after.decision == before.decision && after.request == before.request && after.command
            == before.command && after.capture == before.capture && after.expected
            == before.expected && after.fence == before.fence,
{
}

// ---------------------------------------------------------------------------
// Dispatches
// ---------------------------------------------------------------------------

/// The engine has a record of the dispatch, in that state.
pub open spec fn recorded_as(prior: Option<Datum>, state: Seq<char>) -> bool {
    prior is Some && prior->0.at("state"@) == Datum::Text(state)
}

/// What a dispatch does next. A question that was answered and is not under way is called
/// off; what is complete is finished. What is under way is looked up while there is an
/// observer and the target has not confirmed it; it is sent again only where its target
/// takes it for the same one, nothing was confirmed, and its outcome is not held for
/// unknown. What is not under way begins. Neither is tried more often than permitted.
pub proof fn dispatches_go_on_safely(
    job: Job,
    kind: ActionKind,
    prior: Option<Datum>,
    answered: bool,
    bindings: ActionBindings,
)
    ensures
        ({
            let r = dispatch::next_step(job, kind, prior, answered, bindings);
            let most = bindings.limits.max_retries;
            let under_way = prior is Some && !recorded_as(prior, "ready"@);
            let cancelled = kind is DeliverClarification && answered && !under_way;
            let complete = recorded_as(prior, "completed"@);
            let blocked = job.failures > most && job.status.state@ == "blocked"@ && !recorded_as(
                prior,
                "ready"@,
            );
            let open = !cancelled && !complete && !blocked;
            let observed = bindings.lookup is Some && job.status.attempts <= most && job.delivery
                != Some(DeliveryStatus::Finished);
            let installed = if kind is Business {
                bindings.business is Some
            } else {
                bindings.clarification is Some
            };
            let same = if kind is Business {
                bindings.business == Some(true)
            } else {
                bindings.clarification is Some && bindings.clarification->0.idempotency
            };
            let unconfirmed = job.delivery is None || job.delivery == Some(
                DeliveryStatus::Unknown,
            );
            let again = same && unconfirmed && job.status.attempts <= most && !recorded_as(
                prior,
                "outcome_unknown"@,
            );
            &&& cancelled ==> r == Ok::<DispatchStep, ActionError>(DispatchStep::Cancel)
            &&& !cancelled && complete ==> r == Ok::<DispatchStep, ActionError>(
                DispatchStep::Finish,
            )
            &&& !cancelled && !complete && blocked ==> r == Ok::<DispatchStep, ActionError>(
                DispatchStep::Idle,
            )
            &&& open && under_way && observed && job.status.dispatch_ref is Some ==> r == Ok::<
                DispatchStep,
                ActionError,
            >(DispatchStep::Lookup)
            &&& open && under_way && observed && job.status.dispatch_ref is None ==> r == Err::<
                DispatchStep,
                ActionError,
            >(ActionError::DispatchReferenceMissing)
            &&& open && under_way && !observed && !installed ==> r == Err::<
                DispatchStep,
                ActionError,
            >(ActionError::BindingUnavailable)
            &&& open && under_way && !observed && installed && !again ==> r == Ok::<
                DispatchStep,
                ActionError,
            >(DispatchStep::Hold)
            &&& open && under_way && !observed && installed && again ==> r == Ok::<
                DispatchStep,
                ActionError,
            >(DispatchStep::Begin)
            &&& open && !under_way && job.status.attempts > most ==> r == Ok::<
                DispatchStep,
                ActionError,
            >(DispatchStep::Exhausted)
            &&& open && !under_way && job.status.attempts <= most ==> r == Ok::<
                DispatchStep,
                ActionError,
            >(DispatchStep::Begin)
        }),
{
    reveal_strlit("ready");
    reveal_strlit("completed");
    assert("ready"@.len() == 5 && "completed"@.len() == 9);
}

/// What a lookup shows: what was not started is ready again, with nothing confirmed; what
/// runs or has finished is waited for; and of the unknown nothing new is known.
pub proof fn lookups_show_the_delivery(observed: LookupStatus, before: Option<DeliveryStatus>)
    ensures
        dispatch::looked_up(observed, before) == match observed {
            LookupStatus::NotStarted => None::<DeliveryStatus>,
            LookupStatus::Running => Some(DeliveryStatus::Accepted),
            LookupStatus::Finished => Some(DeliveryStatus::Finished),
            LookupStatus::Unknown => before,
        },
        dispatch::lookup_state(observed) == "ready"@ <==> observed is NotStarted,
        dispatch::lookup_state(observed) == "awaiting_outcome"@ <==> observed is Running
            || observed is Finished,
        dispatch::lookup_state(observed) == "outcome_unknown"@ <==> observed is Unknown,
{
    reveal_strlit("ready");
    reveal_strlit("awaiting_outcome");
    reveal_strlit("outcome_unknown");
    assert("ready"@.len() == 5 && "awaiting_outcome"@.len() == 16 && "outcome_unknown"@.len() == 15);
}

/// The engine lets a dispatch go out exactly where its answer says so, names the dispatch
/// and this attempt, and the wake is held; any other answer sends nothing, and the work
/// waits for its completion or for a known outcome.
pub proof fn permits_are_exact(
    permit: Datum,
    attempt_id: Seq<char>,
    wake: WakeRecord,
    before: Status,
    now: u64,
    limits: ActionLimits,
)
    ensures
        ({
            let refused = dispatch::permit_refused(permit, attempt_id, wake);
            let status = dispatch::permitted_status(before, permit, refused, now, limits);
            let named = permit.at("dispatch_ref"@) is Text && permit.at("idempotency_key"@)
                == Datum::Text(attempt_id);
            let go = permit.at("action"@) == Datum::Text("dispatch"@);
            let done = permit.at("action"@) == Datum::Text("done"@);
            let unknown = permit.at("action"@) == Datum::Text("lookup"@) || permit.at("action"@)
                == Datum::Text("outcome_unknown"@);
            &&& go ==> (refused is None <==> named && wake.state is Running)
            &&& !go ==> (refused is None <==> named && (done || unknown))
            &&& !(permit.at("dispatch_ref"@) is Text) ==> refused == Some(
                ActionError::NativeReferenceMissing,
            )
            &&& go || refused is Some ==> status.state == before.state && status.next_run_ms
                == before.next_run_ms
            &&& refused is None && done ==> status.state == "awaiting_completion"@
            &&& refused is None && unknown ==> status.state == "outcome_unknown"@
            &&& refused is None && !go && now + limits.retry_ms <= u64::MAX ==> status.next_run_ms
                is Some && status.next_run_ms->0 == now + limits.retry_ms
            &&& permit.at("dispatch_ref"@) is Text ==> status.dispatch_ref == Some(
                permit.at("dispatch_ref"@)->Text_0,
            )
        }),
{
    reveal_strlit("dispatch");
    reveal_strlit("lookup");
    reveal_strlit("outcome_unknown");
    reveal_strlit("done");
    assert("dispatch"@.len() == 8 && "lookup"@.len() == 6 && "outcome_unknown"@.len() == 15 && "done"@.len() == 4);
}

/// What is dispatched was committed: under this attempt, with this digest, and stored with
/// this very request under this very configuration.
pub proof fn dispatched_requests_were_committed(
    row: Datum,
    material: Datum,
    request: ActionRequest,
    bindings: ActionBindings,
    digest: Seq<char>,
)
    ensures
        dispatch::is_committed(row, material, request, bindings, digest) <==> {
            let record = row.at("facets"@).at(
                "kip://profiles/cognitive-memory@2.0.0/"@ + "AttemptRecord"@,
            );
            &&& record.at("attempt_id"@) == Datum::Text(request.attempt_id@)
            &&& record.at("context"@).at("request_digest"@) == Datum::Text(digest)
            &&& json::alike(material.at("request"@), request.value())
            &&& json::alike(material.at("configuration"@), bindings.manifest_value())
        },
{
}

/// A parent has something to dispatch exactly where a fixed request was prepared and its
/// attempt is known to be committed.
pub proof fn only_committed_attempts_go_out(parent: Job)
    ensures
        dispatch::dispatch_refused(parent) is None <==> parent.prepared is Some
            && parent.prepared->0.request is Some && parent.status.attempt_ref is Some,
        parent.prepared is None ==> dispatch::dispatch_refused(parent) == Some(
            ActionError::DispatchPreparationMissing,
        ),
{
}

// ---------------------------------------------------------------------------
// The host
// ---------------------------------------------------------------------------

/// Work starts only on a host that runs by itself, and under the one configuration that
/// its wake, its journal and the host share; where actions are switched off it is not
/// refused, and does not run.
pub proof fn work_starts_under_its_configuration(
    automatic: bool,
    enabled: bool,
    wake: WakeRecord,
    pins: RuntimePins,
    job: Job,
)
    ensures
        ({
            let r = service::start_refused(automatic, enabled, wake, pins, job);
            &&& !automatic ==> r == Some(ActionError::IsolatedRun)
            &&& automatic && !enabled ==> r is None
            &&& automatic && enabled ==> (r is None <==> wake.pins.same_as(pins)
                && job.pins.same_as(wake.pins))
            &&& automatic && enabled && !wake.pins.same_as(pins) ==> r == Some(
                ActionError::PinsChanged,
            )
        }),
{
}

/// The wait after a failure starts at the installed one, doubles with each of the first six
/// failures, and grows no further.
pub proof fn waits_double(limits: ActionLimits, failures: nat)
    ensures
        service::backoff(limits, 0) == limits.retry_ms,
        failures < 6 ==> service::backoff(limits, failures + 1) == 2 * service::backoff(
            limits,
            failures,
        ),
        failures >= 6 ==> service::backoff(limits, failures) == 64 * limits.retry_ms,
{
    vstd::arithmetic::power2::lemma2_to64();
    vstd::arithmetic::power2::lemma_pow2_unfold((failures + 1) as nat);
    let p = vstd::arithmetic::power2::pow2(failures);
    let zero = vstd::arithmetic::power2::pow2(0);
    let six = vstd::arithmetic::power2::pow2(6);
    assert(zero == 1 && six == 64);
    assert(limits.retry_ms as nat * zero == limits.retry_ms) by (nonlinear_arith)
        requires
            zero == 1,
    ;
    assert(limits.retry_ms as nat * six == 64 * limits.retry_ms) by (nonlinear_arith)
        requires
            six == 64,
    ;
    assert(limits.retry_ms as nat * (2 * p) == 2 * (limits.retry_ms as nat * p)) by (nonlinear_arith);
}

/// Work that failed too often is blocked and waits for no time; any other is retried after
/// its wait. Either way its error is kept, cut to what is recorded, and nothing else
/// changes.
pub proof fn failures_are_retried(
    before: Status,
    failures: u32,
    error: Seq<char>,
    now: u64,
    limits: ActionLimits,
)
    ensures
        ({
            let after = service::failed_status(before, failures, error, now, limits);
            &&& failures > limits.max_retries ==> after.state == "blocked"@ && after.next_run_ms
                is None
            &&& failures <= limits.max_retries ==> after.state == "retrying"@ && after.next_run_ms
                is Some
            &&& failures <= limits.max_retries && now + service::backoff(limits, failures as nat)
                <= u64::MAX ==> after.next_run_ms->0 == now + service::backoff(
                limits,
                failures as nat,
            )
            &&& after.reason is Some
            &&& error.len() <= 1024 ==> after.reason == Some(error)
            &&& error.len() > 1024 ==> after.reason == Some(error.take(1024))
            &&& after.decision == before.decision && after.decision_ref == before.decision_ref
                && after.attempt_ref == before.attempt_ref && after.dispatch_ref
                == before.dispatch_ref && after.attempts == before.attempts
                && after.operator_retries == before.operator_retries && after.wake_ref
                == before.wake_ref
        }),
{
}

/// A response is taken exactly where something was asked, of this caller, who is
/// authenticated directly and says something of bounded size, and the decision to ask is
/// known.
pub proof fn responses_come_from_the_recipient(
    job: Job,
    caller: Caller,
    response: ClarificationResponse,
)
    ensures
        service::response_refused(job, caller, response) is None <==> {
            &&& job.prepared is Some
            &&& job.prepared->0.decision@ == "ask"@
            &&& job.prepared->0.recipient is Some
            &&& job.prepared->0.recipient->0@ == caller.principal_id@
            &&& nexus::is_principal(caller.principal_id@)
            &&& caller.auth_method@.len() > 0
            &&& caller.auth_strength@ != "none"@
            &&& caller.delegation_chain@.len() == 0
            &&& 0 < response.event_key@.len()
            &&& text::utf8_len(response.event_key@) < 257
            &&& says_something(response.answer@)
            &&& text::utf8_len(response.answer@) < 16_385
            &&& job.status.decision_ref is Some
        },
        job.prepared is None ==> service::response_refused(job, caller, response) == Some(
            ActionError::ClarificationUnavailable,
        ),
{
    super::laws::something_is_said(response.answer@);
}

/// Two requests are one operation only where kind, payload and context are the same: what
/// is written for the operation tells them apart.
pub proof fn operations_tell_apart(a: ActionRequest, b: ActionRequest)
    requires
        service::operation_value(a) == service::operation_value(b),
    ensures
        a.kind == b.kind,
        a.payload@ == b.payload@,
        a.context.value() == b.context.value(),
{
    broadcast use json::with_is_read_back;

    reveal_strlit("kind");
    reveal_strlit("payload");
    reveal_strlit("context");
    reveal_strlit("business");
    reveal_strlit("deliver_clarification");
    assert("kind"@.len() == 4 && "payload"@.len() == 7 && "context"@.len() == 7 && "business"@.len() == 8);
    assert("deliver_clarification"@.len() == 21 && "context"@[0] == 'c' && "payload"@[0] == 'p');
    let v = service::operation_value(a);
    let w = service::operation_value(b);
    assert(v.get("kind"@) == Some(Datum::Text(a.kind.name())));
    assert(w.get("kind"@) == Some(Datum::Text(b.kind.name())));
    assert(v.get("payload"@) == Some(a.payload@));
    assert(w.get("payload"@) == Some(b.payload@));
    assert(v.get("context"@) == Some(a.context.value()));
    assert(w.get("context"@) == Some(b.context.value()));
}

/// What is said of an operation that another wake owns: that it was committed, only where
/// that wake acted and the watch behind it is still the one that fired.
pub proof fn duplicates_are_vouched_for(
    owner: Seq<char>,
    parent: Option<Job>,
    source: Datum,
    arm_generation: u64,
)
    ensures
        ({
            let r = service::owner_reason(owner, parent, source, arm_generation);
            let kept = source.at("attributes"@).at("status"@) == Datum::Text("fired"@) && source.at(
                "facets"@,
            ).at("kip://profiles/cognitive-memory@2.0.0/"@ + "WatchState"@).at("arm_generation"@)
                == Datum::Unsigned(arm_generation);
            let acted = parent is Some && parent->0.prepared is Some
                && parent->0.prepared->0.decision@ == "act"@;
            &&& kept && acted ==> r == "duplicate_committed_operation:"@ + owner
            &&& kept && !acted ==> r == "deduplication_owner_unresolved:"@ + owner
            &&& !kept ==> r == "deduplication_owner_generation_changed:"@ + owner
        }),
{
}

/// A lease is held exactly by its owner, while the wake runs, and until it expires.
pub proof fn leases_are_held(wake: WakeRecord, principal: Seq<char>, until: int)
    ensures
        service::holds_lease(wake, principal, until) <==> {
            &&& wake.state is Running
            &&& wake.state->lease.owner@ == principal
            &&& until < wake.state->lease.expires_at_ms
        },
{
}

// ---------------------------------------------------------------------------
// The inbox
// ---------------------------------------------------------------------------

/// The outputs of a receipt are shown only where it is of the right format, of this very
/// Space, and committed.
pub proof fn receipts_are_of_their_space(receipt: Datum, scope: RuntimeScope)
    ensures
        inbox::receipt_outputs_of(receipt, scope) is Some <==> {
            &&& receipt.at("format"@) == Datum::Text(crate::attention::FORMAT@)
            &&& receipt.at("identity"@).at("scope"@) == scope.value()
            &&& receipt.at("state"@).at("status"@) == Datum::Text("committed"@)
            &&& receipt.at("state"@).at("outputs"@) is Array
        },
        inbox::receipt_outputs_of(receipt, scope) matches Some(list) ==> receipt.at("state"@).at(
            "outputs"@,
        ) == Datum::Array(list),
{
}

/// The texts of a list are all its texts, and nothing else.
pub proof fn outputs_are_the_texts(list: Seq<Datum>, s: Seq<char>)
    ensures
        inbox::texts_among(list).contains(s) <==> list.contains(Datum::Text(s)),
    decreases list.len(),
{
    if list.len() > 0 {
        let rest = list.drop_last();
        outputs_are_the_texts(rest, s);
        let before = inbox::texts_among(rest);
        let after = inbox::texts_among(list);
        assert(list[list.len() - 1] == list.last());
        if before.contains(s) {
            let k = choose|k: int| 0 <= k < before.len() && before[k] == s;
            assert(after[k] == s);
        }
        if after.contains(s) {
            let k = choose|k: int| 0 <= k < after.len() && after[k] == s;
            if k < before.len() {
                assert(before[k] == s);
            }
        }
        if rest.contains(Datum::Text(s)) {
            let k = choose|k: int| 0 <= k < rest.len() && rest[k] == Datum::Text(s);
            assert(list[k] == Datum::Text(s));
        }
        if list.contains(Datum::Text(s)) {
            let k = choose|k: int| 0 <= k < list.len() && list[k] == Datum::Text(s);
            if k < rest.len() {
                assert(rest[k] == Datum::Text(s));
            } else {
                assert(after[before.len() as int] == s);
            }
        }
    }
}

/// Work is shown as committed, with its decision, only once it is; its dispatch is shown by
/// the reference that its attempt always has.
pub proof fn work_is_shown_as_it_stands(job: Job, committed: bool, rows: Seq<OutputRow>)
    requires
        job.prepared is Some,
    ensures
        ({
            let shown = inbox::shown_status(job, committed, rows);
            let p = job.prepared->0;
            &&& committed ==> shown.state == "committed"@ && shown.decision == Some(p.decision@)
            &&& !committed ==> shown.state == job.status@.state && shown.decision
                == job.status@.decision
            &&& p.request is None ==> shown.dispatch_ref == job.status@.dispatch_ref
            &&& p.request matches Some(own) ==> shown.dispatch_ref
                == super::request::dispatch_reference_of(own.scope, own.attempt_id@)
            &&& shown.wake_ref == job.status@.wake_ref
            &&& shown.attempts == job.status@.attempts
        }),
        ({
            let p = job.prepared->0;
            let r = inbox::recipient_of(job);
            &&& p.recipient is Some ==> r == Some(p.recipient->0@)
            &&& p.recipient is None && (p.request is None || p.request->0.kind is Business) ==> r
                is None
            &&& p.recipient is None && p.request is Some && p.request->0.kind is DeliverClarification
                ==> r == p.request->0.payload@.text_at("recipient"@)
        }),
{
}

} // verus!
