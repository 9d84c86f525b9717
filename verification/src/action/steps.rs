//! Where each report leads the work of a wake, and where it leads a dispatch.

use vstd::prelude::*;

use super::drive::{Ask, Drive, Phase, Told};
use super::gate;
use super::journal::Job;
use super::request::{DeliveryStatus, Status};
use super::send::{Do, Heard, Sending, Stage};
use super::{ActionBindings, ActionError};
use crate::json::Datum;
use crate::text;
use crate::wake::WakeRecord;

verus! {

/// The wake is the continuation of that name.
pub open spec fn is_called(wake: WakeRecord, key: Seq<char>) -> bool {
    wake.continuation_key is Some && wake.continuation_key->0@ == key
}

// ---------------------------------------------------------------------------
// The work of a wake
// ---------------------------------------------------------------------------

/// Work that has ended is never done again: a cancelled wake stops, and a completed one at
/// most replays its commit. A wake with a parent looks at it first; without one, nothing is
/// dispatched or answered.
pub proof fn ended_work_is_not_repeated(
    after: Drive,
    before: Job,
    job: Job,
    wake: WakeRecord,
    r: Result<Ask, ActionError>,
)
    requires
        Drive::begins(after, before, job, wake, r),
    ensures
        wake.state is Cancelled ==> r == Ok::<Ask, ActionError>(Ask::Stop) && job.status@.state
            == "cancelled"@,
        wake.state is Completed && before.prepared is Some ==> r == Ok::<Ask, ActionError>(
            Ask::Commit,
        ),
        wake.state is Completed && before.prepared is None ==> r == Ok::<Ask, ActionError>(
            Ask::Stop,
        ),
        !(wake.state is Cancelled) && !(wake.state is Completed) ==> {
            &&& job.status@ == before.status@
            &&& wake.parent_ref is Some ==> r is Ok && r->Ok_0 is ReadParent
                && r->Ok_0->ReadParent_0@ == wake.parent_ref->0@
            &&& wake.parent_ref is None && is_called(wake, "dispatch"@) ==> r == Err::<
                Ask,
                ActionError,
            >(ActionError::DispatchParentMissing)
            &&& wake.parent_ref is None && !is_called(wake, "dispatch"@)
                && job.status.state@ == "blocked"@ ==> r == Ok::<Ask, ActionError>(Ask::Stop)
            &&& wake.parent_ref is None && !is_called(wake, "dispatch"@) && !is_called(
                wake,
                "answer"@,
            ) && job.status.state@ != "blocked"@ ==> r == Ok::<Ask, ActionError>(Ask::Acquire)
        },
{
}

/// Once its parent is known, a wake goes where its name says: to the dispatch, to the
/// answer, or to the work itself; blocked work only ever goes to its dispatch.
pub proof fn wakes_go_where_they_are_called(
    before: Drive,
    after: Drive,
    old_job: Job,
    job: Job,
    parent: Job,
    wake: WakeRecord,
    now: u64,
    bindings: ActionBindings,
    r: Result<Ask, ActionError>,
)
    requires
        before.phase == Phase::Parent,
        before.moves(after, old_job, job, Told::Parent(parent), wake, now, bindings, r),
        parent.rounds <= 17,
    ensures
        is_called(wake, "dispatch"@) ==> r == Ok::<Ask, ActionError>(Ask::Dispatch),
        !is_called(wake, "dispatch"@) && old_job.status.state@ == "blocked"@ ==> r == Ok::<
            Ask,
            ActionError,
        >(Ask::Stop),
        is_called(wake, "answer"@) && old_job.status.state@ != "blocked"@ && parent.prepared is Some
            ==> r is Ok && r->Ok_0 is ReadReply && r->Ok_0->ReadReply_0@ == parent.wake_ref@,
        !is_called(wake, "dispatch"@) && !is_called(wake, "answer"@) && old_job.status.state@
            != "blocked"@ ==> r == Ok::<Ask, ActionError>(Ask::Acquire),
        r is Ok ==> after.parent == Some(parent),
        old_job.status.operator_retries == 0 ==> job.rounds == parent.rounds + (if is_called(
            wake,
            "retry"@,
        ) {
            1int
        } else {
            0
        }),
        old_job.status.operator_retries > 0 ==> job.rounds == old_job.rounds,
        job.prepared == old_job.prepared && job.status == old_job.status,
{
    reveal_strlit("dispatch");
    reveal_strlit("answer");
    assert("dispatch"@.len() == 8 && "answer"@.len() == 6);
}

/// An answer that belongs to its question is handed on; one that does not is an error. While
/// there is time, the work waits, at most five seconds; once there is none, it goes on
/// without an answer and without another round.
pub proof fn answers_are_waited_for(
    before: Drive,
    after: Drive,
    old_job: Job,
    job: Job,
    saved: Option<super::journal::Reply>,
    wake: WakeRecord,
    now: u64,
    bindings: ActionBindings,
    r: Result<Ask, ActionError>,
)
    requires
        before.phase == Phase::Reply,
        before.moves(after, old_job, job, Told::Reply(saved), wake, now, bindings, r),
        before.parent is Some,
        before.parent->0.prepared is Some,
        now + 5_000 <= u64::MAX,
    ensures
        ({
            let prepared = before.parent->0.prepared->0;
            let due = prepared.reply_deadline_ms;
            let open = due is Some && due->0 > now;
            let own = saved is Some && prepared.recipient is Some && due is Some
                && saved->0.principal@ == prepared.recipient->0@ && saved->0.received_ms < due->0
                && saved->0.gate_wake_ref@ == before.parent->0.wake_ref@
                && saved->0.scope.same_as(wake.scope);
            &&& own ==> r == Ok::<Ask, ActionError>(Ask::Acquire) && after.reply == Some(
                saved->0.response,
            ) && !(after.timed_out && !before.timed_out) && job.rounds == old_job.rounds
            &&& saved is Some && !own ==> r == Err::<Ask, ActionError>(
                ActionError::ReplyCorrelation,
            )
            &&& saved is None && open ==> {
                &&& r == Ok::<Ask, ActionError>(Ask::Stop)
                &&& job.status@.state == "awaiting_reply"@
                &&& job.status@.next_run_ms is Some
                &&& job.status@.next_run_ms->0 == now + (if bindings.limits.retry_ms < 5_000 {
                    bindings.limits.retry_ms as int
                } else {
                    5_000
                })
                &&& job.rounds == old_job.rounds
            }
            &&& saved is None && !open ==> {
                &&& r == Ok::<Ask, ActionError>(Ask::Acquire)
                &&& after.timed_out
                &&& job.rounds == bindings.limits.max_retries
                &&& after.reply == before.reply
            }
            &&& job.prepared == old_job.prepared
        }),
{
}

/// Under the lease: work that waits for its operator blocks; a decision that is prepared is
/// committed where its wake has not moved on, and read afresh where it has; a question is
/// delivered; and for all else the policy is consulted.
pub proof fn leased_work_goes_on(
    before: Drive,
    after: Drive,
    old_job: Job,
    job: Job,
    wake: WakeRecord,
    now: u64,
    bindings: ActionBindings,
    r: Result<Ask, ActionError>,
)
    requires
        before.phase == Phase::Lease,
        before.moves(after, old_job, job, Told::Leased, wake, now, bindings, r),
    ensures
        ({
            let waits = is_called(wake, "manual"@) && old_job.status.operator_retries == 0;
            let kept = old_job.prepared is Some && old_job.prepared->0.expected == wake.version
                && old_job.prepared->0.fence == wake.fence;
            &&& waits ==> r == Ok::<Ask, ActionError>(Ask::Block) && job.status@.reason == Some(
                "retry_limit_requires_operator"@,
            )
            &&& !waits && kept ==> r == Ok::<Ask, ActionError>(Ask::Commit)
            &&& !waits && old_job.prepared is Some && !kept ==> r == Ok::<Ask, ActionError>(
                Ask::Revalidate,
            )
            &&& !waits && old_job.prepared is None && !is_called(wake, "clarification"@) ==> r
                == Ok::<Ask, ActionError>(Ask::Consult) && after.delivering == before.delivering
            &&& !waits && old_job.prepared is None && is_called(wake, "clarification"@) && r is Ok
                ==> r->Ok_0 is ReadContext && after.delivering
            &&& job.prepared == old_job.prepared && job.rounds == old_job.rounds
        }),
{
}

/// A suggestion that nothing speaks against is prepared as it is, silence once the policy
/// allows it; any other becomes a deferral. A decision that carries no request is saved; one
/// that does is authorised first.
pub proof fn suggestions_are_prepared(
    before: Drive,
    after: Drive,
    old_job: Job,
    job: Job,
    told: Told,
    wake: WakeRecord,
    now: u64,
    bindings: ActionBindings,
    r: Result<Ask, ActionError>,
)
    requires
        before.moves(after, old_job, job, told, wake, now, bindings, r),
        r is Ok,
    ensures
        before.phase == Phase::Suggestion ==> told is Suggestion && after.proposal == Some(
            told->Suggestion_0,
        ) && r->Ok_0 == Ask::CountProposal,
        before.phase == Phase::Weight ==> told is Tokens && before.proposal is Some
            && before.capture is Some && {
            let p = before.proposal->0;
            let objection = gate::objection(p, told->Tokens_0, bindings, before.capture->0);
            &&& objection is None && !(p is Silence) ==> r->Ok_0 == Ask::Prepare(p)
            &&& objection is None && p is Silence ==> r->Ok_0 == Ask::AllowSilence
                && after.proposal == Some(p)
            &&& objection is Some ==> r->Ok_0 is Prepare && r->Ok_0->Prepare_0 is Defer
                && r->Ok_0->Prepare_0->reason@ == objection->0
        },
        before.phase == Phase::Silence ==> told is Silence && before.proposal is Some && (
        before.proposal->0 is Silence ==> if told->Silence_0 {
            r->Ok_0 == Ask::Prepare(before.proposal->0)
        } else {
            r->Ok_0 is Prepare && r->Ok_0->Prepare_0 is Defer && r->Ok_0->Prepare_0->reason@
                == "silence_not_authorized_by_policy"@
        }),
        before.phase == Phase::Prepared ==> told is Prepared && if told->Prepared_0.request is Some {
            r->Ok_0 == Ask::Authorize && after.prepared == Some(told->Prepared_0) && job == old_job
        } else {
            r->Ok_0 == Ask::Save && job.prepared is Some && job.prepared->0.decision
                == told->Prepared_0.decision && job.prepared->0.command
                == told->Prepared_0.command && job.prepared->0.request is None
        },
{
}

/// An action that is authorised is looked up as a duplicate where it is business, and kept
/// where it is a question's delivery. One that is refused becomes a deferral that says so; a
/// delivery that is refused has used up its rounds. One that another wake owns is not kept.
pub proof fn authorized_actions_are_kept(
    before: Drive,
    after: Drive,
    old_job: Job,
    job: Job,
    told: Told,
    wake: WakeRecord,
    now: u64,
    bindings: ActionBindings,
    r: Result<Ask, ActionError>,
)
    requires
        before.moves(after, old_job, job, told, wake, now, bindings, r),
        before.prepared is Some,
        before.prepared->0.request is Some,
        r is Ok,
    ensures
        before.phase == Phase::Authorization ==> told is Authorization && {
            let business = before.prepared->0.request->0.kind is Business;
            match told->Authorization_0 {
                None => if business && !before.delivering {
                    r->Ok_0 == Ask::Deduplicate && job == old_job && after.prepared
                        == before.prepared
                } else {
                    r->Ok_0 == Ask::Save && job.prepared is Some && job.prepared->0.request
                        == before.prepared->0.request
                },
                Some(e) => {
                    &&& r->Ok_0 is Prepare
                    &&& r->Ok_0->Prepare_0 is Defer
                    &&& job.prepared == old_job.prepared
                    &&& before.delivering ==> job.rounds == bindings.limits.max_retries
                    &&& !before.delivering ==> job.rounds == old_job.rounds
                    &&& !before.delivering && e@.len() + 27 <= 512 ==> r->Ok_0->Prepare_0->reason@
                        == "authorization_unavailable: "@ + e@
                },
            }
        },
        before.phase == Phase::Duplicate ==> told is Duplicate && match told->Duplicate_0 {
            None => r->Ok_0 == Ask::Save && job.prepared is Some && job.prepared->0.request
                == before.prepared->0.request,
            Some(reason) => {
                &&& r->Ok_0 is Prepare
                &&& job == old_job
                &&& after.prepared is None
                &&& text::is_prefix("duplicate_committed_operation:"@, reason@) ==> {
                    &&& r->Ok_0->Prepare_0 is Silence
                    &&& r->Ok_0->Prepare_0->Silence_rationale@ == reason@
                }
                &&& !text::is_prefix("duplicate_committed_operation:"@, reason@) ==> {
                    &&& r->Ok_0->Prepare_0 is Defer
                    &&& r->Ok_0->Prepare_0->reason@ == reason@
                }
            },
        },
{
    reveal_strlit("authorization_unavailable: ");
}

/// A decision that was read afresh is bound to the wake as it stands only where its context
/// is borne out, and is then saved before it is committed; nothing else of it changes.
pub proof fn fresh_decisions_are_refenced(
    before: Drive,
    after: Drive,
    old_job: Job,
    job: Job,
    fresh: super::context::Capture,
    wake: WakeRecord,
    now: u64,
    bindings: ActionBindings,
    r: Result<Ask, ActionError>,
)
    requires
        before.phase == Phase::Fresh,
        before.moves(after, old_job, job, Told::Context(fresh), wake, now, bindings, r),
        old_job.prepared is Some,
    ensures
        ({
            let p = old_job.prepared->0;
            let stale = p.capture.stale(fresh, p.decision@ == "ask"@);
            &&& stale is Some ==> r == Err::<Ask, ActionError>(stale->0) && job == old_job
            &&& stale is None ==> {
                &&& r == Ok::<Ask, ActionError>(Ask::Save)
                &&& job.prepared is Some
                &&& job.prepared->0.expected == wake.version
                &&& job.prepared->0.fence == wake.fence
                &&& job.prepared->0.command == p.command
                &&& job.prepared->0.request == p.request
                &&& job.prepared->0.decision == p.decision
                &&& job.prepared->0.continuations == p.continuations
                &&& job.rounds == old_job.rounds
            }
        }),
{
}

// ---------------------------------------------------------------------------
// A dispatch
// ---------------------------------------------------------------------------

/// What a dispatch leaves of the work: a question that was answered is cancelled, what the
/// engine completed is completed, and what was looked up waits for its outcome.
pub proof fn dispatches_settle_their_work(
    before: Sending,
    after: Sending,
    old_job: Job,
    job: Job,
    heard: Heard,
    wake: WakeRecord,
    now: u64,
    bindings: ActionBindings,
    r: Result<Do, ActionError>,
)
    requires
        before.moves(after, old_job, job, heard, wake, now, bindings, r),
        r is Ok,
    ensures
        before.stage == Stage::Cancelled ==> r->Ok_0 == Do::Stop && job.status@.state
            == "cancelled"@ && job.status@.reason == Some(
            "clarification_answered_before_delivery"@,
        ) && job.status@.next_run_ms is None && job.delivery == old_job.delivery,
        before.stage == Stage::Finished ==> r->Ok_0 == Do::Stop && job.status@.state
            == "completed"@ && job.status@.next_run_ms is None,
        before.stage == Stage::FinishLease ==> r->Ok_0 == Do::FinishWake && job == old_job,
        before.stage == Stage::LookupSaved ==> r->Ok_0 is LookUp && old_job.status.dispatch_ref
            is Some && r->Ok_0->LookUp_0@ == old_job.status.dispatch_ref->0@,
        before.stage == Stage::LookedUp ==> heard is Observed && r->Ok_0 == Do::Stop && {
            let o = heard->Observed_0;
            &&& o is NotStarted ==> job.status@.state == "ready"@ && job.delivery is None
            &&& o is Running ==> job.status@.state == "awaiting_outcome"@ && job.delivery == Some(
                DeliveryStatus::Accepted,
            )
            &&& o is Finished ==> job.status@.state == "awaiting_outcome"@ && job.delivery == Some(
                DeliveryStatus::Finished,
            )
            &&& o is Unknown ==> job.status@.state == "outcome_unknown"@ && job.delivery
                == old_job.delivery
        },
        before.stage == Stage::HoldLease ==> r->Ok_0 is Block && r->Ok_0->Block_0@
            == "outcome_unknown"@,
        before.stage == Stage::ExhaustedLease ==> r->Ok_0 is Block && r->Ok_0->Block_0@
            == "budget_exhausted"@,
        before.stage == Stage::Lease ==> r->Ok_0 == Do::Authorize && job == old_job,
        before.stage == Stage::Authorization ==> r->Ok_0 == Do::Revalidate && job == old_job,
        before.stage == Stage::Saved ==> r->Ok_0 is Begin && r->Ok_0->lookup == bindings.lookup is Some
            && (before.request().kind is Business ==> bindings.business == Some(
            r->Ok_0->idempotent,
        )) && (before.request().kind is DeliverClarification ==> bindings.clarification is Some
            && bindings.clarification->0.idempotency == r->Ok_0->idempotent),
        before.stage == Stage::Delivery ==> heard is Delivery && r->Ok_0 == Do::Stop && {
            let report = heard->Delivery_0;
            let known = report is Some && !(report->0 is Unknown);
            &&& known ==> job.status@.state == "awaiting_outcome"@ && job.delivery == report
            &&& !known ==> job.status@.state == "outcome_unknown"@ && job.delivery == Some(
                DeliveryStatus::Unknown,
            )
            &&& now + bindings.limits.retry_ms <= u64::MAX ==> job.status@.next_run_ms is Some
                && job.status@.next_run_ms->0 == now + bindings.limits.retry_ms
        },
        before.stage == Stage::Permit ==> heard is Permit && (r->Ok_0 is Deliver
            <==> heard->Permit_0@.at("action"@) == Datum::Text("dispatch"@)),
        before.stage == Stage::Permit && r->Ok_0 is Deliver ==> {
            let p = r->Ok_0->Deliver_0;
            &&& wake.state is Running
            &&& p.wake_ref@ == wake.wake_ref@
            &&& p.attempt_ref@ == before.parent.status.attempt_ref->0@
            &&& Datum::Text(p.dispatch_ref@) == heard->Permit_0@.at("dispatch_ref"@)
            &&& p.fence == wake.fence
            &&& p.expires_at_ms == wake.state->lease.expires_at_ms
        },
{
}

/// A dispatch looks for what it started before: under the reference that the journal knows,
/// and else under the one that its attempt always has. A question is looked at once more
/// for an answer, with the terms that it was sent under.
pub proof fn earlier_dispatches_are_looked_for(
    before: Sending,
    after: Sending,
    old_job: Job,
    job: Job,
    heard: Heard,
    wake: WakeRecord,
    now: u64,
    bindings: ActionBindings,
    r: Result<Do, ActionError>,
)
    requires
        before.moves(after, old_job, job, heard, wake, now, bindings, r),
        r is Ok,
    ensures
        before.stage == Stage::Attempt ==> {
            &&& r->Ok_0 is ReadDispatch
            &&& old_job.status.dispatch_ref is Some ==> r->Ok_0->ReadDispatch_0@
                == old_job.status.dispatch_ref->0@
            &&& old_job.status.dispatch_ref is None ==> Some(r->Ok_0->ReadDispatch_0@)
                == super::request::dispatch_reference_of(
                wake.scope,
                before.request().attempt_id@,
            )
            &&& job.status@.attempt_ref == before.parent.status@.attempt_ref
            &&& job.status@.decision_ref == before.parent.status@.decision_ref
        },
        before.stage == Stage::Known && heard == Heard::Dispatch(None) ==> r->Ok_0 is ReadDispatch
            && Some(r->Ok_0->ReadDispatch_0@) == super::request::dispatch_reference_of(
            wake.scope,
            before.request().attempt_id@,
        ),
        (before.stage == Stage::Derived || (before.stage == Stage::Known && heard is Dispatch
            && heard->Dispatch_0 is Some)) && before.request().kind is DeliverClarification ==> {
            &&& r->Ok_0 is CheckAnswer
            &&& before.request().payload@.at("correlation"@) == Datum::Text(r->Ok_0->gate@)
            &&& before.request().payload@.at("recipient"@) == Datum::Text(r->Ok_0->recipient@)
            &&& before.request().payload@.at("reply_deadline_ms"@).as_u64() == Some(
                r->Ok_0->deadline,
            )
        },
{
    if before.stage == Stage::Derived && heard is Dispatch && heard->Dispatch_0 is Some {
        let found = heard->Dispatch_0;
        let known = choose|known: Job|
            known == (Job { status: known.status, ..old_job }) && known.status@ == (Status {
                dispatch_ref: before.derived(wake),
                ..old_job.status@
            }) && #[trigger] before.prior_moves(after, known, found, wake, bindings, r, job);
        assert(before.prior_moves(after, known, found, wake, bindings, r, job));
    }
}

/// What is held back says why, and counts no attempt; what is looked up counts one.
pub proof fn held_dispatches_say_why(before: Job, job: Job, reason: Seq<char>, blocked: bool)
    ensures
        super::send::held_back(before, job, reason, blocked) ==> job.status@.reason == Some(reason)
            && job.status@.attempts == before.status@.attempts && (blocked ==> job.status@.state
            == "blocked"@ && job.status@.next_run_ms is None) && (!blocked ==> job.status@.state
            == before.status@.state) && job.delivery == before.delivery && job.prepared
            == before.prepared,
        super::send::one_more_attempt(before, job) && before.status.attempts < u32::MAX
            ==> job.status@.attempts == before.status@.attempts + 1 && job.status@.state
            == before.status@.state && job.delivery == before.delivery,
{
}

} // verus!
