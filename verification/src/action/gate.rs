//! The action gate: what a wake asks for, what the policy suggests, and what becomes of
//! it. Every suggestion is held against the context that was delivered.

use vstd::prelude::*;

use super::context::{Capture, PREMISE_UNKNOWN};
use super::journal::{Job, PreparedGate, Reply};
use super::request::{ClarificationResponse, ContextRequest, Proposal, Status};
use super::{ActionBindings, ActionError, ActionLimits};
use crate::assess::take_chars;
use crate::text;
use crate::wake::{WakeRecord, WakeState, MAX_DELAY_MS};

verus! {

/// The wake is the continuation of that name.
pub open spec fn continues_as(wake: WakeRecord, key: Seq<char>) -> bool {
    wake.continuation_key matches Some(k) && k@ == key
}

pub(crate) fn is_continuation(wake: &WakeRecord, key: &str) -> (r: bool)
    ensures
        r == continues_as(*wake, key@),
{
    match &wake.continuation_key {
        Some(k) => text::same(k.as_str(), key),
        None => false,
    }
}

// ---------------------------------------------------------------------------
// Entering
// ---------------------------------------------------------------------------

/// How a piece of work starts.
#[derive(Clone, Copy, Debug, PartialEq, Eq, Structural)]
pub enum Entry {
    /// The wake was cancelled.
    Cancelled,
    /// The wake was completed; its prepared commit is replayed.
    Replay,
    /// The wake was completed, and nothing is prepared.
    Done,
    Work,
}

/// How the work of a wake starts. Work that has ended is never done again.
pub fn enter(wake: &WakeRecord, job: &mut Job) -> (r: Entry)
    ensures
        r == match wake.state {
            WakeState::Cancelled { .. } => Entry::Cancelled,
            WakeState::Completed { .. } => if old(job).prepared is Some {
                Entry::Replay
            } else {
                Entry::Done
            },
            _ => Entry::Work,
        },
        *final(job) == (Job { status: final(job).status, ..*old(job) }),
        final(job).status@ == if r == Entry::Cancelled {
            (Status { state: "cancelled"@, ..old(job).status@ })
        } else {
            old(job).status@
        },
{
    match &wake.state {
        WakeState::Cancelled { .. } => {
            job.status.state = "cancelled".to_owned();
            Entry::Cancelled
        },
        WakeState::Completed { .. } => if job.prepared.is_some() {
            Entry::Replay
        } else {
            Entry::Done
        },
        _ => Entry::Work,
    }
}

/// The rounds that a continuation starts with: those of its parent, one more for
/// a retry. An operator's retry starts anew.
pub open spec fn inherited_rounds(job: Job, parent: Option<Job>, wake: WakeRecord) -> int {
    match parent {
        Some(own) => if job.status.operator_retries == 0 {
            own.rounds + if continues_as(wake, "retry"@) {
                1int
            } else {
                0
            }
        } else {
            job.rounds as int
        },
        None => job.rounds as int,
    }
}

pub fn inherit_rounds(job: &mut Job, parent: &Option<Job>, wake: &WakeRecord)
    requires
        parent matches Some(own) ==> own.rounds <= super::journal::MAX_ROUNDS,
    ensures
        *final(job) == (Job { rounds: final(job).rounds, ..*old(job) }),
        final(job).rounds == inherited_rounds(*old(job), *parent, *wake),
{
    if let Some(own) = parent {
        if job.status.operator_retries == 0 {
            let more: u32 = if is_continuation(wake, "retry") {
                1
            } else {
                0
            };
            job.rounds = own.rounds + more;
        }
    }
}

/// What a wake is there for.
#[derive(Clone, Copy, Debug, PartialEq, Eq, Structural)]
pub enum Route {
    Dispatch,
    /// The work is blocked: only an operator moves it.
    Idle,
    Answer,
    Gate,
}

/// What a wake is there for.
pub fn route(wake: &WakeRecord, job: &Job, parent: bool) -> (r: Result<Route, ActionError>)
    ensures
        r == if continues_as(*wake, "dispatch"@) {
            if parent {
                Ok::<Route, ActionError>(Route::Dispatch)
            } else {
                Err::<Route, ActionError>(ActionError::DispatchParentMissing)
            }
        } else if job.status.state@ == "blocked"@ {
            Ok::<Route, ActionError>(Route::Idle)
        } else if continues_as(*wake, "answer"@) {
            Ok::<Route, ActionError>(Route::Answer)
        } else {
            Ok::<Route, ActionError>(Route::Gate)
        },
{
    if is_continuation(wake, "dispatch") {
        return if parent {
            Ok(Route::Dispatch)
        } else {
            Err(ActionError::DispatchParentMissing)
        };
    }
    if text::same(job.status.state.as_str(), "blocked") {
        return Ok(Route::Idle);
    }
    if is_continuation(wake, "answer") {
        return Ok(Route::Answer);
    }
    Ok(Route::Gate)
}

// ---------------------------------------------------------------------------
// Answers
// ---------------------------------------------------------------------------

/// What became of a question.
#[derive(Debug)]
pub enum Answer {
    Reply(ClarificationResponse),
    Waiting,
    TimedOut,
}

/// The reply belongs to the question of a parent.
pub open spec fn reply_correlates(
    reply: Reply,
    wake: WakeRecord,
    parent: Job,
    prepared: PreparedGate,
) -> bool {
    prepared.recipient matches Some(recipient) && prepared.reply_deadline_ms matches Some(deadline)
        && reply.answers(wake.scope, parent.wake_ref@, recipient@, deadline)
}

/// How long a question is left alone before it is looked at again.
pub const ANSWER_POLL_MS: u64 = 5_000;

pub open spec fn answer_poll(limits: ActionLimits) -> u64 {
    if limits.retry_ms < ANSWER_POLL_MS {
        limits.retry_ms
    } else {
        ANSWER_POLL_MS
    }
}

/// Looks for the answer to a question. A deadline that has passed is no consent:
/// the work goes on without an answer, and without another round.
pub fn answer_step(
    job: &mut Job,
    parent: &Option<Job>,
    wake: &WakeRecord,
    saved: Option<Reply>,
    now: u64,
    limits: &ActionLimits,
) -> (r: Result<Answer, ActionError>)
    requires
        now <= u64::MAX - MAX_DELAY_MS,
    ensures
        *final(job) == (Job {
            status: final(job).status,
            rounds: final(job).rounds,
            ..*old(job)
        }),
        match parent {
            None => r is Err && r->Err_0 == ActionError::AnswerParentMissing,
            Some(own) => match own.prepared {
                None => r is Err && r->Err_0 == ActionError::AnswerPreparationMissing,
                Some(prepared) => match saved {
                    Some(reply) => if reply_correlates(reply, *wake, *own, prepared) {
                        r matches Ok(Answer::Reply(response)) && response == reply.response
                    } else {
                        r is Err && r->Err_0 == ActionError::ReplyCorrelation
                    },
                    None => if prepared.reply_deadline_ms matches Some(t) && t > now {
                        r matches Ok(Answer::Waiting)
                    } else {
                        r matches Ok(Answer::TimedOut)
                    },
                },
            },
        },
        final(job).rounds == if r matches Ok(Answer::TimedOut) {
            limits.max_retries
        } else {
            old(job).rounds
        },
        final(job).status@ == if r matches Ok(Answer::Waiting) {
            (Status {
                state: "awaiting_reply"@,
                next_run_ms: Some((now + answer_poll(*limits)) as u64),
                ..old(job).status@
            })
        } else {
            old(job).status@
        },
{
    let own = match parent {
        Some(own) => own,
        None => return Err(ActionError::AnswerParentMissing),
    };
    let prepared = match &own.prepared {
        Some(prepared) => prepared,
        None => return Err(ActionError::AnswerPreparationMissing),
    };
    match saved {
        Some(reply) => {
            let correlates = match (&prepared.recipient, prepared.reply_deadline_ms) {
                (Some(recipient), Some(deadline)) => reply.is_answer(
                    &wake.scope,
                    own.wake_ref.as_str(),
                    recipient.as_str(),
                    deadline,
                ),
                _ => false,
            };
            if correlates {
                Ok(Answer::Reply(reply.response))
            } else {
                Err(ActionError::ReplyCorrelation)
            }
        },
        None => {
            let open = match prepared.reply_deadline_ms {
                Some(t) => t > now,
                None => false,
            };
            if open {
                job.status.state = "awaiting_reply".to_owned();
                let poll: u64 = if limits.retry_ms < ANSWER_POLL_MS {
                    limits.retry_ms
                } else {
                    ANSWER_POLL_MS
                };
                job.status.next_run_ms = Some(now + poll);
                Ok(Answer::Waiting)
            } else {
                job.rounds = limits.max_retries;
                Ok(Answer::TimedOut)
            }
        },
    }
}

/// Whether the work has used up its rounds and waits for an operator.
pub fn waits_for_operator(job: &mut Job, wake: &WakeRecord) -> (r: bool)
    ensures
        r == (continues_as(*wake, "manual"@) && old(job).status.operator_retries == 0),
        *final(job) == (Job { status: final(job).status, ..*old(job) }),
        final(job).status@ == if r {
            (Status { reason: Some("retry_limit_requires_operator"@), ..old(job).status@ })
        } else {
            old(job).status@
        },
{
    if is_continuation(wake, "manual") && job.status.operator_retries == 0 {
        job.status.reason = Some("retry_limit_requires_operator".to_owned());
        true
    } else {
        false
    }
}

// ---------------------------------------------------------------------------
// Delivering a question
// ---------------------------------------------------------------------------

/// Why a question cannot be delivered.
pub open spec fn clarification_refused(parent: Option<Job>) -> Option<ActionError> {
    match parent {
        None => Some(ActionError::ClarificationParentMissing),
        Some(own) => match own.prepared {
            None => Some(ActionError::ClarificationPreparationMissing),
            Some(p) => if p.decision@ != "ask"@ {
                Some(ActionError::NotAnAsk)
            } else if own.status.decision_ref is None {
                Some(ActionError::AskDecisionUnavailable)
            } else {
                None
            },
        },
    }
}

/// The task of delivering a question.
pub const DELIVERY_TASK: &'static str = "brain.deliver_clarification";

/// The context of a delivery: that of the question, which is required itself, and
/// no business of its own.
pub open spec fn is_delivery_context(
    context: ContextRequest,
    asked: ContextRequest,
    decision_ref: Seq<char>,
) -> bool {
    &&& context.recall_receipt is None
    &&& context.anchor@ == asked.anchor@
    &&& text::views(context.required_refs@) == text::views(asked.required_refs@).push(decision_ref)
    &&& context.premises@.len() == 0
    &&& context.applied_revisions@.len() == 0
    &&& context.task_family@ == DELIVERY_TASK@
    &&& context.environment_digest@ == asked.environment_digest@
    &&& context.tool_versions@ == asked.tool_versions@
    &&& context.deduplication_key is None
}

pub fn clarification_context(parent: &Option<Job>) -> (r: Result<ContextRequest, ActionError>)
    ensures
        match r {
            Ok(context) => clarification_refused(*parent) is None && is_delivery_context(
                context,
                parent->0.prepared->0.capture.request,
                parent->0.status.decision_ref->0@,
            ),
            Err(e) => clarification_refused(*parent) == Some(e),
        },
{
    let own = match parent {
        Some(own) => own,
        None => return Err(ActionError::ClarificationParentMissing),
    };
    let p = match &own.prepared {
        Some(p) => p,
        None => return Err(ActionError::ClarificationPreparationMissing),
    };
    if !text::same(p.decision.as_str(), "ask") {
        return Err(ActionError::NotAnAsk);
    }
    let decision_ref = match &own.status.decision_ref {
        Some(decision_ref) => decision_ref,
        None => return Err(ActionError::AskDecisionUnavailable),
    };
    let mut context = p.capture.request.copy();
    let ghost asked = text::views(context.required_refs@);
    context.recall_receipt = None;
    context.required_refs.push(decision_ref.clone());
    assert(text::views(context.required_refs@) =~= asked.push(decision_ref@));
    context.premises = Vec::new();
    context.applied_revisions = Vec::new();
    context.task_family = DELIVERY_TASK.to_owned();
    context.deduplication_key = None;
    Ok(context)
}

/// Who was asked, and until when.
pub fn question_terms(prepared: &PreparedGate) -> (r: Result<(String, u64), ActionError>)
    ensures
        match (prepared.recipient, prepared.reply_deadline_ms) {
            (None, _) => r is Err && r->Err_0 == ActionError::RecipientMissing,
            (Some(_), None) => r is Err && r->Err_0 == ActionError::DeadlineMissing,
            (Some(recipient), Some(deadline)) => r matches Ok((a, b)) && a@ == recipient@ && b
                == deadline,
        },
{
    match &prepared.recipient {
        None => Err(ActionError::RecipientMissing),
        Some(recipient) => match prepared.reply_deadline_ms {
            None => Err(ActionError::DeadlineMissing),
            Some(deadline) => Ok((recipient.clone(), deadline)),
        },
    }
}

/// What becomes of a delivery: a question that was answered is not asked again,
/// one that is out of time or out of context is put off, any other is delivered,
/// and grants nothing.
pub open spec fn delivers_as(
    proposal: Proposal,
    prepared: PreparedGate,
    decision_ref: Seq<char>,
    answered: bool,
    now: u64,
    capture: Capture,
) -> bool {
    if answered {
        proposal matches Proposal::Silence { rationale, used_refs } && rationale@
            == "clarification_already_answered"@ && text::views(used_refs@) == seq![decision_ref]
    } else if !(prepared.reply_deadline_ms matches Some(t) && t > now) {
        proposal.defers("clarification_expired_before_delivery"@)
    } else if capture.insufficient is Some {
        proposal.defers(capture.insufficient->0@)
    } else {
        proposal matches Proposal::Act { rationale, used_refs, payload }
            && prepared.clarification_payload is Some && payload@
            == prepared.clarification_payload->0@ && text::views(used_refs@) == seq![decision_ref]
            && rationale@
            == "Deliver the parent question only; this grants no business permission"@
    }
}

/// The question is to be delivered, and is not there.
pub open spec fn question_missing(
    prepared: PreparedGate,
    answered: bool,
    now: u64,
    capture: Capture,
) -> bool {
    !answered && (prepared.reply_deadline_ms matches Some(t) && t > now) && capture.insufficient
        is None && prepared.clarification_payload is None
}

pub fn clarification_proposal(
    prepared: &PreparedGate,
    decision_ref: &str,
    answered: bool,
    now: u64,
    capture: &Capture,
) -> (r: Result<Proposal, ActionError>)
    ensures
        match r {
            Ok(p) => delivers_as(p, *prepared, decision_ref@, answered, now, *capture)
                && !question_missing(*prepared, answered, now, *capture),
            Err(e) => e == ActionError::QuestionUnavailable && question_missing(
                *prepared,
                answered,
                now,
                *capture,
            ),
        },
{
    let mut used_refs: Vec<String> = Vec::new();
    used_refs.push(decision_ref.to_owned());
    assert(text::views(used_refs@) =~= seq![decision_ref@]);
    if answered {
        return Ok(
            Proposal::Silence {
                rationale: "clarification_already_answered".to_owned(),
                used_refs,
            },
        );
    }
    let open = match prepared.reply_deadline_ms {
        Some(t) => t > now,
        None => false,
    };
    if !open {
        return Ok(Proposal::defer("clarification_expired_before_delivery"));
    }
    if let Some(reason) = &capture.insufficient {
        return Ok(Proposal::defer(reason.as_str()));
    }
    match &prepared.clarification_payload {
        None => Err(ActionError::QuestionUnavailable),
        Some(payload) => Ok(
            Proposal::Act {
                rationale:
                    "Deliver the parent question only; this grants no business permission".to_owned(),
                used_refs,
                payload: payload.copy(),
            },
        ),
    }
}

/// A reason with the error that it came from, cut to what is recorded.
pub open spec fn cut_reason(prefix: Seq<char>, error: Seq<char>) -> Seq<char> {
    crate::assess::head(prefix + error, 512)
}

fn reason_with(prefix: &str, error: &str) -> (r: String)
    ensures
        r@ == cut_reason(prefix@, error@),
{
    let mut whole = prefix.to_owned();
    whole.append(error);
    take_chars(whole.as_str(), 512)
}

/// A delivery that is not authorised is put off for an operator.
pub fn delivery_unauthorized(job: &mut Job, limits: &ActionLimits, error: &str) -> (r: Proposal)
    ensures
        r.defers(cut_reason("clarification_authorization_unavailable: "@, error@)),
        *final(job) == (Job { rounds: limits.max_retries, ..*old(job) }),
{
    job.rounds = limits.max_retries;
    Proposal::Defer { reason: reason_with("clarification_authorization_unavailable: ", error) }
}

/// A delivery that was put off waits for an operator: that is who its
/// continuations wait for.
pub open spec fn held_as(before: PreparedGate, after: PreparedGate) -> bool {
    &&& after == (PreparedGate { continuations: after.continuations, ..before })
    &&& after.continuations@.len() == before.continuations@.len()
    &&& forall|i: int|
        0 <= i < before.continuations@.len() ==> {
            &&& (#[trigger] after.continuations@[i]).not_before_ms
                == before.continuations@[i].not_before_ms
            &&& after.continuations@[i].key@ == if before.decision@ == "defer"@ {
                "manual"@
            } else {
                before.continuations@[i].key@
            }
        }
}

/// A delivery that was put off waits for an operator.
pub fn hold_delivery(prepared: &mut PreparedGate)
    ensures
        held_as(*old(prepared), *final(prepared)),
{
    if !text::same(prepared.decision.as_str(), "defer") {
        return;
    }
    let ghost before = prepared.continuations@;
    let mut i: usize = 0;
    while i < prepared.continuations.len()
        invariant
            i <= prepared.continuations.len(),
            prepared.continuations@.len() == before.len(),
            before == old(prepared).continuations@,
            *prepared == (PreparedGate {
                continuations: prepared.continuations,
                ..*old(prepared)
            }),
            forall|k: int|
                0 <= k < i ==> (#[trigger] prepared.continuations@[k]).not_before_ms
                    == before[k].not_before_ms && prepared.continuations@[k].key@ == "manual"@,
            forall|k: int|
                i <= k < before.len() ==> (#[trigger] prepared.continuations@[k]) == before[k],
        decreases prepared.continuations.len() - i,
    {
        let at: u64 = prepared.continuations[i].not_before_ms;
        prepared.continuations.set(
            i,
            super::journal::WakeContinuation { key: "manual".to_owned(), not_before_ms: at },
        );
        i = i + 1;
    }
}

// ---------------------------------------------------------------------------
// A prepared decision
// ---------------------------------------------------------------------------

/// Whether the wake moved on since the decision was prepared.
pub fn must_revalidate(prepared: &PreparedGate, wake: &WakeRecord) -> (r: bool)
    ensures
        r == (prepared.expected != wake.version || prepared.fence != wake.fence),
{
    prepared.expected != wake.version || prepared.fence != wake.fence
}

/// Binds a prepared decision to the wake as it stands.
pub fn refence(prepared: &mut PreparedGate, wake: &WakeRecord)
    ensures
        *final(prepared) == (PreparedGate {
            expected: wake.version,
            fence: wake.fence,
            ..*old(prepared)
        }),
{
    prepared.expected = wake.version;
    prepared.fence = wake.fence;
}

// ---------------------------------------------------------------------------
// Proposals
// ---------------------------------------------------------------------------

/// Why the policy is not asked at all.
pub open spec fn early_reason(
    input_tokens: usize,
    limits: ActionLimits,
    timed_out: bool,
    capture: Capture,
) -> Option<Seq<char>> {
    if input_tokens > limits.recall.context_tokens {
        Some("gate_input_budget_exhausted"@)
    } else if timed_out {
        Some("clarification_timeout_no_consent"@)
    } else if capture.insufficient matches Some(p) && p@ != PREMISE_UNKNOWN@ {
        Some(capture.insufficient->0@)
    } else {
        None
    }
}

/// The decision that needs no suggestion; none, where the policy is to be asked.
pub fn early_proposal(
    input_tokens: usize,
    limits: &ActionLimits,
    timed_out: bool,
    capture: &Capture,
) -> (r: Option<Proposal>)
    ensures
        match early_reason(input_tokens, *limits, timed_out, *capture) {
            Some(reason) => r matches Some(p) && p.defers(reason),
            None => r is None,
        },
{
    if input_tokens > limits.recall.context_tokens as usize {
        return Some(Proposal::defer("gate_input_budget_exhausted"));
    }
    if timed_out {
        return Some(Proposal::defer("clarification_timeout_no_consent"));
    }
    if let Some(p) = &capture.insufficient {
        if !text::same(p.as_str(), PREMISE_UNKNOWN) {
            return Some(Proposal::defer(p.as_str()));
        }
    }
    None
}

/// The most memories that a proposal names as used.
pub const MAX_USED: usize = 64;

/// Everything that is named as used was delivered.
pub open spec fn all_delivered(capture: Capture, used: Seq<Seq<char>>) -> bool {
    forall|i: int| 0 <= i < used.len() ==> capture.delivers(#[trigger] used[i])
}

/// Every revision that is applied is named as used.
pub open spec fn all_applied(revisions: Seq<Seq<char>>, used: Seq<Seq<char>>) -> bool {
    forall|i: int| 0 <= i < revisions.len() ==> used.contains(#[trigger] revisions[i])
}

/// What speaks against a suggestion.
pub open spec fn objection(
    proposal: Proposal,
    tokens: usize,
    bindings: ActionBindings,
    capture: Capture,
) -> Option<Seq<char>> {
    if tokens > bindings.limits.proposal_tokens {
        Some("proposal_budget_exhausted"@)
    } else if text::trimmed(proposal.why()).len() == 0 {
        Some("proposal_rationale_missing"@)
    } else if proposal.used().len() > MAX_USED || !all_delivered(capture, proposal.used()) {
        Some("used_reference_not_delivered"@)
    } else {
        match proposal {
            Proposal::Act { .. } => if !all_applied(
                text::views(capture.request.applied_revisions@),
                proposal.used(),
            ) {
                Some("applied_revision_not_used"@)
            } else if capture.insufficient is Some {
                Some(capture.insufficient->0@)
            } else if bindings.business is None {
                Some("business_binding_unavailable"@)
            } else {
                None
            },
            Proposal::Ask { question, .. } => if bindings.clarification is None || text::trimmed(
                question@,
            ).len() == 0 {
                Some("clarification_binding_or_question_unavailable"@)
            } else {
                None
            },
            _ => None,
        }
    }
}

fn used_delivered(capture: &Capture, used: &Vec<String>) -> (r: bool)
    ensures
        r == (used@.len() <= MAX_USED && all_delivered(*capture, text::views(used@))),
{
    if used.len() > MAX_USED {
        return false;
    }
    let ghost all = text::views(used@);
    let mut i: usize = 0;
    while i < used.len()
        invariant
            i <= used.len(),
            all == text::views(used@),
            forall|k: int| 0 <= k < i ==> capture.delivers(#[trigger] all[k]),
        decreases used.len() - i,
    {
        assert(all[i as int] == used@[i as int]@);
        if !capture.delivered(used[i].as_str()) {
            assert(!capture.delivers(all[i as int]));
            return false;
        }
        i = i + 1;
    }
    true
}

fn revisions_used(revisions: &Vec<String>, used: &Vec<String>) -> (r: bool)
    ensures
        r == all_applied(text::views(revisions@), text::views(used@)),
{
    let ghost all = text::views(revisions@);
    let mut i: usize = 0;
    while i < revisions.len()
        invariant
            i <= revisions.len(),
            all == text::views(revisions@),
            forall|k: int| 0 <= k < i ==> text::views(used@).contains(#[trigger] all[k]),
        decreases revisions.len() - i,
    {
        assert(all[i as int] == revisions@[i as int]@);
        if !text::contains(used, revisions[i].as_str()) {
            assert(!text::views(used@).contains(all[i as int]));
            return false;
        }
        i = i + 1;
    }
    true
}

fn is_blank(s: &str) -> (r: bool)
    ensures
        r == (text::trimmed(s@).len() == 0),
{
    text::trim(s).unicode_len() == 0
}

/// Holds a suggestion against what was delivered and what is installed. What
/// something speaks against is put off; nothing is acted on in its place.
pub fn vet_proposal(
    proposal: Proposal,
    tokens: usize,
    bindings: &ActionBindings,
    capture: &Capture,
) -> (r: Proposal)
    ensures
        match objection(proposal, tokens, *bindings, *capture) {
            Some(reason) => r.defers(reason),
            None => r == proposal,
        },
{
    if tokens > bindings.limits.proposal_tokens {
        return Proposal::defer("proposal_budget_exhausted");
    }
    if is_blank(proposal.reason_text()) {
        return Proposal::defer("proposal_rationale_missing");
    }
    match &proposal {
        Proposal::Act { used_refs, .. } => {
            assert(text::views(used_refs@).len() == used_refs@.len());
            if !used_delivered(capture, used_refs) {
                return Proposal::defer("used_reference_not_delivered");
            }
            if !revisions_used(&capture.request.applied_revisions, used_refs) {
                return Proposal::defer("applied_revision_not_used");
            }
            if let Some(reason) = &capture.insufficient {
                return Proposal::defer(reason.as_str());
            }
            if bindings.business.is_none() {
                return Proposal::defer("business_binding_unavailable");
            }
        },
        Proposal::Ask { used_refs, question, .. } => {
            assert(text::views(used_refs@).len() == used_refs@.len());
            if !used_delivered(capture, used_refs) {
                return Proposal::defer("used_reference_not_delivered");
            }
            if bindings.clarification.is_none() || is_blank(question.as_str()) {
                return Proposal::defer("clarification_binding_or_question_unavailable");
            }
        },
        Proposal::Silence { used_refs, .. } => {
            assert(text::views(used_refs@).len() == used_refs@.len());
            if !used_delivered(capture, used_refs) {
                return Proposal::defer("used_reference_not_delivered");
            }
        },
        Proposal::Defer { .. } => {},
    }
    proposal
}

/// Silence needs an explicit rule of the host.
pub fn silence_decided(proposal: Proposal, allowed: bool) -> (r: Proposal)
    ensures
        if proposal is Silence && !allowed {
            r.defers("silence_not_authorized_by_policy"@)
        } else {
            r == proposal
        },
{
    match &proposal {
        Proposal::Silence { .. } => if !allowed {
            return Proposal::defer("silence_not_authorized_by_policy");
        },
        _ => {},
    }
    proposal
}

/// An action that is not authorised is put off.
pub fn action_unauthorized(error: &str) -> (r: Proposal)
    ensures
        r.defers(cut_reason("authorization_unavailable: "@, error@)),
{
    Proposal::Defer { reason: reason_with("authorization_unavailable: ", error) }
}

/// What becomes of an operation that another wake owns: one that was committed is
/// not done twice, any other is put off.
pub open spec fn duplicate_as(proposal: Proposal, reason: Seq<char>) -> bool {
    if text::is_prefix("duplicate_committed_operation:"@, reason) {
        proposal matches Proposal::Silence { rationale, used_refs } && rationale@ == reason
            && used_refs@.len() == 0
    } else {
        proposal.defers(reason)
    }
}

pub fn duplicate_proposal(reason: String) -> (r: Proposal)
    ensures
        duplicate_as(r, reason@),
{
    if text::starts_with(reason.as_str(), "duplicate_committed_operation:") {
        Proposal::Silence { rationale: reason, used_refs: Vec::new() }
    } else {
        Proposal::Defer { reason }
    }
}

// ---------------------------------------------------------------------------
// Laws
// ---------------------------------------------------------------------------

/// An action that nothing speaks against rests on memories that were delivered,
/// names every revision that it applies, has all its premises, and has an adapter.
pub proof fn actions_rest_on_what_was_delivered(
    proposal: Proposal,
    tokens: usize,
    bindings: ActionBindings,
    capture: Capture,
    id: Seq<char>,
)
    requires
        proposal is Act,
        objection(proposal, tokens, bindings, capture) is None,
    ensures
        proposal.used().contains(id) ==> capture.delivers(id),
        text::views(capture.request.applied_revisions@).contains(id) ==> proposal.used().contains(
            id,
        ) && capture.delivers(id),
        capture.insufficient is None,
        bindings.business is Some,
        tokens <= bindings.limits.proposal_tokens,
{
    let used = proposal.used();
    let revisions = text::views(capture.request.applied_revisions@);
    if used.contains(id) {
        let i = choose|i: int| 0 <= i < used.len() && used[i] == id;
        assert(capture.delivers(used[i]));
    }
    if revisions.contains(id) {
        let i = choose|i: int| 0 <= i < revisions.len() && revisions[i] == id;
        assert(used.contains(revisions[i]));
        let k = choose|k: int| 0 <= k < used.len() && used[k] == id;
        assert(capture.delivers(used[k]));
    }
}

/// A question that went unanswered is never taken for consent: the work is put
/// off, whatever the policy would suggest, and no further round follows.
pub proof fn silence_of_the_recipient_is_no_consent(
    input_tokens: usize,
    limits: ActionLimits,
    capture: Capture,
)
    ensures
        early_reason(input_tokens, limits, true, capture) is Some,
{
}

/// A context with a problem never leads to an action; only unknown premises leave
/// the policy a choice, and it may then ask.
pub proof fn insufficient_contexts_do_not_act(
    proposal: Proposal,
    tokens: usize,
    bindings: ActionBindings,
    capture: Capture,
)
    requires
        capture.insufficient is Some,
        proposal is Act,
    ensures
        objection(proposal, tokens, bindings, capture) is Some,
{
}

} // verus!
