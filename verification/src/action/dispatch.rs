//! Dispatch of fixed requests. The status of a delivery is not an outcome: what
//! may have happened is looked up or left alone, never assumed.

use vstd::prelude::*;

use super::journal::Job;
use super::native::facet_is;
use super::request::{
    ActionKind, ActionRequest, DeliveryStatus, DispatchPermit, Status,
};
use super::{ActionBindings, ActionError, ActionLimits};
use crate::json::{Datum, Json};
use crate::nexus;
use crate::recall::material::PROFILE;
use crate::text;
use crate::wake::{WakeRecord, WakeState, MAX_DELAY_MS};

verus! {

// ---------------------------------------------------------------------------
// The committed request
// ---------------------------------------------------------------------------

/// Why a parent has nothing to dispatch.
pub open spec fn dispatch_refused(parent: Job) -> Option<ActionError> {
    match parent.prepared {
        None => Some(ActionError::DispatchPreparationMissing),
        Some(p) => if p.request is None {
            Some(ActionError::NoFixedRequest)
        } else if parent.status.attempt_ref is None {
            Some(ActionError::NoCommittedAttempt)
        } else {
            None
        },
    }
}

/// The request of a parent and the attempt that was committed for it.
pub fn fixed_request(parent: &Job) -> (r: Result<(&ActionRequest, &String), ActionError>)
    ensures
        match r {
            Ok((request, attempt)) => dispatch_refused(*parent) is None && parent.prepared->0.request
                == Some(*request) && parent.status.attempt_ref == Some(*attempt),
            Err(e) => dispatch_refused(*parent) == Some(e),
        },
{
    match &parent.prepared {
        None => Err(ActionError::DispatchPreparationMissing),
        Some(p) => match &p.request {
            None => Err(ActionError::NoFixedRequest),
            Some(request) => match &parent.status.attempt_ref {
                None => Err(ActionError::NoCommittedAttempt),
                Some(attempt) => Ok((request, attempt)),
            },
        },
    }
}

/// The record of an attempt.
pub open spec fn attempt_facet(row: Datum) -> Datum {
    row.at("facets"@).at(PROFILE@ + "AttemptRecord"@)
}

/// The engine committed exactly this request, under exactly this configuration.
pub open spec fn is_committed(
    row: Datum,
    material: Datum,
    request: ActionRequest,
    bindings: ActionBindings,
    digest: Seq<char>,
) -> bool {
    &&& attempt_facet(row).at("attempt_id"@) == Datum::Text(request.attempt_id@)
    &&& attempt_facet(row).at("context"@).at("request_digest"@) == Datum::Text(digest)
    &&& crate::json::alike(material.at("request"@), request.value())
    &&& crate::json::alike(material.at("configuration"@), bindings.manifest_value())
}

fn part_is(value: &Json, name: &str, part: &Json) -> (r: bool)
    requires
        !(part@ is Null),
    ensures
        r == crate::json::alike(value@.at(name@), part@),
{
    match value.get(name) {
        Some(own) => own.same(part),
        None => false,
    }
}

/// Holds the journal's request against what the engine committed.
pub fn check_committed(
    row: &Json,
    material: &Json,
    request: &ActionRequest,
    bindings: &ActionBindings,
) -> (r: Result<(), ActionError>)
    ensures
        match r {
            Ok(()) => nexus::digest_of(request.value()) is Some && is_committed(
                row@,
                material@,
                *request,
                *bindings,
                nexus::digest_of(request.value())->0,
            ),
            Err(ActionError::Undigestible) => nexus::digest_of(request.value()) is None
                && attempt_facet(row@).at("attempt_id"@) == Datum::Text(request.attempt_id@),
            Err(e) => e == ActionError::RequestDiffers && (attempt_facet(row@).at("attempt_id"@)
                != Datum::Text(request.attempt_id@) || nexus::digest_of(
                request.value(),
            ) is Some && !is_committed(
                row@,
                material@,
                *request,
                *bindings,
                nexus::digest_of(request.value())->0,
            )),
        },
{
    if !facet_is(row, "AttemptRecord", "attempt_id", request.attempt_id.as_str()) {
        return Err(ActionError::RequestDiffers);
    }
    let own = request.to_json();
    let digest = match super::request::digest_or(&own) {
        Ok(digest) => digest,
        Err(e) => return Err(e),
    };
    let mut symbol = PROFILE.to_owned();
    symbol.append("AttemptRecord");
    let digest_agrees = match row.get("facets") {
        Some(facets) => match facets.get(symbol.as_str()) {
            Some(record) => match record.get("context") {
                Some(context) => context.member_is("request_digest", digest.as_str()),
                None => false,
            },
            None => false,
        },
        None => false,
    };
    if !digest_agrees || !part_is(material, "request", &own) || !part_is(
        material,
        "configuration",
        &bindings.manifest(),
    ) {
        return Err(ActionError::RequestDiffers);
    }
    Ok(())
}

/// The dispatch is that of the parent's decision and attempt.
pub fn adopt_parent(job: &mut Job, parent: &Job)
    ensures
        *final(job) == (Job { status: final(job).status, ..*old(job) }),
        final(job).status@ == (Status {
            decision_ref: parent.status@.decision_ref,
            attempt_ref: parent.status@.attempt_ref,
            ..old(job).status@
        }),
{
    job.status.decision_ref = crate::runtime::optional_copy(&parent.status.decision_ref);
    job.status.attempt_ref = crate::runtime::optional_copy(&parent.status.attempt_ref);
}

/// A dispatch was found under the identity that follows from its attempt, though
/// the journal lost the acknowledgement.
pub fn recover_dispatch(job: &mut Job, wake: &WakeRecord, request: &ActionRequest)
    ensures
        *final(job) == (Job { status: final(job).status, ..*old(job) }),
        final(job).status@ == (Status {
            dispatch_ref: super::request::dispatch_reference_of(wake.scope, request.attempt_id@),
            ..old(job).status@
        }),
{
    job.status.dispatch_ref = Some(
        super::request::dispatch_reference(&wake.scope, request.attempt_id.as_str()),
    );
}

/// The question, its recipient and its deadline, as they stand in the payload of
/// a delivery.
pub fn delivery_terms(payload: &Json) -> (r: Result<(String, String, u64), ActionError>)
    ensures
        match (
            payload@.text_at("correlation"@),
            payload@.text_at("recipient"@),
            payload@.at("reply_deadline_ms"@).as_u64(),
        ) {
            (None, _, _) => r is Err && r->Err_0 == ActionError::CorrelationMissing,
            (Some(_), None, _) => r is Err && r->Err_0 == ActionError::RecipientMissing,
            (Some(_), Some(_), None) => r is Err && r->Err_0 == ActionError::DeadlineMissing,
            (Some(gate), Some(recipient), Some(deadline)) => r matches Ok((a, b, c)) && a@ == gate
                && b@ == recipient && c == deadline,
        },
{
    let gate = match payload.text_at("correlation") {
        Some(gate) => gate,
        None => return Err(ActionError::CorrelationMissing),
    };
    let recipient = match payload.text_at("recipient") {
        Some(recipient) => recipient,
        None => return Err(ActionError::RecipientMissing),
    };
    match payload.u64_at("reply_deadline_ms") {
        Some(deadline) => Ok((gate.to_owned(), recipient.to_owned(), deadline)),
        None => Err(ActionError::DeadlineMissing),
    }
}

// ---------------------------------------------------------------------------
// The step
// ---------------------------------------------------------------------------

/// What a dispatch does next.
#[derive(Clone, Copy, Debug, PartialEq, Eq, Structural)]
pub enum DispatchStep {
    /// The question was answered before it went out.
    Cancel,
    /// The outcome is settled.
    Finish,
    /// Blocked, with nothing new.
    Idle,
    /// Ask the target what became of the attempt.
    Lookup,
    /// What may have happened is unknown, and must not be repeated.
    Hold,
    /// Too many attempts.
    Exhausted,
    /// Begin, or begin again.
    Begin,
}

/// The native record says that the dispatch is in that state.
pub open spec fn stands(prior: Option<Datum>, state: Seq<char>) -> bool {
    prior matches Some(record) && record.at("state"@) == Datum::Text(state)
}

pub open spec fn view_of(prior: Option<&Json>) -> Option<Datum> {
    match prior {
        Some(record) => Some(record@),
        None => None,
    }
}

fn prior_is(prior: Option<&Json>, state: &str) -> (r: bool)
    ensures
        r == stands(view_of(prior), state@),
{
    match prior {
        Some(record) => record.member_is("state", state),
        None => false,
    }
}

/// Whether there is an adapter for a kind of action, and if so, whether its
/// target has a verified idempotency contract.
pub open spec fn adapter(bindings: ActionBindings, kind: ActionKind) -> Option<bool> {
    match kind {
        ActionKind::Business => bindings.business,
        ActionKind::DeliverClarification => match bindings.clarification {
            Some(c) => Some(c.idempotency),
            None => None,
        },
    }
}

pub fn executor(bindings: &ActionBindings, kind: ActionKind) -> (r: Result<bool, ActionError>)
    ensures
        r == match adapter(*bindings, kind) {
            Some(idempotent) => Ok::<bool, ActionError>(idempotent),
            None => Err::<bool, ActionError>(ActionError::BindingUnavailable),
        },
{
    match kind {
        ActionKind::Business => match bindings.business {
            Some(idempotent) => Ok(idempotent),
            None => Err(ActionError::BindingUnavailable),
        },
        ActionKind::DeliverClarification => match &bindings.clarification {
            Some(c) => Ok(c.idempotency),
            None => Err(ActionError::BindingUnavailable),
        },
    }
}

/// A started dispatch may be sent again: its target takes it for the same one,
/// nothing was confirmed, and the engine does not hold its outcome for unknown.
pub open spec fn may_replay(
    job: Job,
    prior: Option<Datum>,
    idempotent: bool,
    limits: ActionLimits,
) -> bool {
    &&& idempotent
    &&& job.delivery is None || job.delivery == Some(DeliveryStatus::Unknown)
    &&& job.status.attempts <= limits.max_retries
    &&& !stands(prior, "outcome_unknown"@)
}

/// A started dispatch may be looked up.
pub open spec fn may_look_up(job: Job, bindings: ActionBindings) -> bool {
    &&& bindings.lookup is Some
    &&& job.status.attempts <= bindings.limits.max_retries
    &&& job.delivery != Some(DeliveryStatus::Finished)
}

/// What a dispatch does next.
pub open spec fn next_step(
    job: Job,
    kind: ActionKind,
    prior: Option<Datum>,
    answered: bool,
    bindings: ActionBindings,
) -> Result<DispatchStep, ActionError> {
    let ready = stands(prior, "ready"@);
    if kind == ActionKind::DeliverClarification && answered && (prior is None || ready) {
        Ok(DispatchStep::Cancel)
    } else if stands(prior, "completed"@) {
        Ok(DispatchStep::Finish)
    } else if job.failures > bindings.limits.max_retries && job.status.state@ == "blocked"@
        && !ready {
        Ok(DispatchStep::Idle)
    } else if prior is Some && !ready && may_look_up(job, bindings) {
        if job.status.dispatch_ref is Some {
            Ok(DispatchStep::Lookup)
        } else {
            Err(ActionError::DispatchReferenceMissing)
        }
    } else if prior is Some && !ready && adapter(bindings, kind) is None {
        Err(ActionError::BindingUnavailable)
    } else if prior is Some && !ready && !may_replay(
        job,
        prior,
        adapter(bindings, kind)->0,
        bindings.limits,
    ) {
        Ok(DispatchStep::Hold)
    } else if job.status.attempts > bindings.limits.max_retries {
        Ok(DispatchStep::Exhausted)
    } else {
        Ok(DispatchStep::Begin)
    }
}

/// Decides what a dispatch does next, from the native record of what was started
/// before.
pub fn dispatch_step(
    job: &Job,
    kind: ActionKind,
    prior: Option<&Json>,
    answered: bool,
    bindings: &ActionBindings,
) -> (r: Result<DispatchStep, ActionError>)
    ensures
        r == next_step(*job, kind, view_of(prior), answered, *bindings),
{
    let ready = prior_is(prior, "ready");
    let delivers = match kind {
        ActionKind::DeliverClarification => true,
        ActionKind::Business => false,
    };
    if delivers && answered && (prior.is_none() || ready) {
        return Ok(DispatchStep::Cancel);
    }
    if prior_is(prior, "completed") {
        return Ok(DispatchStep::Finish);
    }
    if job.failures > bindings.limits.max_retries && text::same(
        job.status.state.as_str(),
        "blocked",
    ) && !ready {
        return Ok(DispatchStep::Idle);
    }
    if prior.is_some() && !ready {
        let finished = match job.delivery {
            Some(DeliveryStatus::Finished) => true,
            _ => false,
        };
        if bindings.lookup.is_some() && job.status.attempts <= bindings.limits.max_retries
            && !finished {
            return if job.status.dispatch_ref.is_some() {
                Ok(DispatchStep::Lookup)
            } else {
                Err(ActionError::DispatchReferenceMissing)
            };
        }
        let idempotent = match executor(bindings, kind) {
            Ok(idempotent) => idempotent,
            Err(e) => return Err(e),
        };
        let unconfirmed = match job.delivery {
            None => true,
            Some(DeliveryStatus::Unknown) => true,
            _ => false,
        };
        if !(idempotent && unconfirmed && job.status.attempts <= bindings.limits.max_retries
            && !prior_is(prior, "outcome_unknown")) {
            return Ok(DispatchStep::Hold);
        }
    }
    if job.status.attempts > bindings.limits.max_retries {
        return Ok(DispatchStep::Exhausted);
    }
    Ok(DispatchStep::Begin)
}

// ---------------------------------------------------------------------------
// What each step leaves
// ---------------------------------------------------------------------------

/// The question was answered, so nothing is delivered.
pub fn cancelled(job: &mut Job)
    ensures
        *final(job) == (Job { status: final(job).status, ..*old(job) }),
        final(job).status@ == (Status {
            state: "cancelled"@,
            reason: Some("clarification_answered_before_delivery"@),
            next_run_ms: None,
            ..old(job).status@
        }),
{
    job.status.state = "cancelled".to_owned();
    job.status.reason = Some("clarification_answered_before_delivery".to_owned());
    job.status.next_run_ms = None;
}

/// The outcome is settled, and the wake is finished.
pub fn completed(job: &mut Job)
    ensures
        *final(job) == (Job { status: final(job).status, ..*old(job) }),
        final(job).status@ == (Status {
            state: "completed"@,
            next_run_ms: None,
            ..old(job).status@
        }),
{
    job.status.state = "completed".to_owned();
    job.status.next_run_ms = None;
}

/// Counts an attempt before it is made.
pub fn count_attempt(job: &mut Job)
    requires
        old(job).status.attempts < u32::MAX,
    ensures
        *final(job) == (Job { status: final(job).status, ..*old(job) }),
        final(job).status@ == (Status {
            attempts: (old(job).status.attempts + 1) as u32,
            ..old(job).status@
        }),
{
    job.status.attempts = job.status.attempts + 1;
}

/// What a target says of an attempt.
#[derive(Clone, Copy, Debug, PartialEq, Eq, Structural)]
pub enum LookupStatus {
    NotStarted,
    Running,
    Finished,
    Unknown,
}

/// The delivery that a lookup shows.
pub open spec fn looked_up(observed: LookupStatus, before: Option<DeliveryStatus>) -> Option<
    DeliveryStatus,
> {
    match observed {
        LookupStatus::NotStarted => None,
        LookupStatus::Finished => Some(DeliveryStatus::Finished),
        LookupStatus::Running => Some(DeliveryStatus::Accepted),
        LookupStatus::Unknown => before,
    }
}

pub open spec fn lookup_state(observed: LookupStatus) -> Seq<char> {
    match observed {
        LookupStatus::NotStarted => "ready"@,
        LookupStatus::Finished => "awaiting_outcome"@,
        LookupStatus::Running => "awaiting_outcome"@,
        LookupStatus::Unknown => "outcome_unknown"@,
    }
}

/// Takes over what the target says of an attempt.
pub fn lookup_observed(job: &mut Job, observed: LookupStatus, now: u64, limits: &ActionLimits)
    requires
        limits.bounded(),
        now <= u64::MAX - MAX_DELAY_MS,
    ensures
        *final(job) == (Job {
            status: final(job).status,
            delivery: looked_up(observed, old(job).delivery),
            ..*old(job)
        }),
        final(job).status@ == (Status {
            state: lookup_state(observed),
            next_run_ms: Some((now + limits.retry_ms) as u64),
            ..old(job).status@
        }),
{
    job.status.next_run_ms = Some(now + limits.retry_ms);
    match observed {
        LookupStatus::NotStarted => {
            job.delivery = None;
            job.status.state = "ready".to_owned();
        },
        LookupStatus::Finished => {
            job.delivery = Some(DeliveryStatus::Finished);
            job.status.state = "awaiting_outcome".to_owned();
        },
        LookupStatus::Running => {
            job.delivery = Some(DeliveryStatus::Accepted);
            job.status.state = "awaiting_outcome".to_owned();
        },
        LookupStatus::Unknown => {
            job.status.state = "outcome_unknown".to_owned();
        },
    }
}

/// Leaves an attempt alone of which it is not known what became. A wake that is
/// not blocked yet has to be; the result says whether it has.
pub fn held(job: &mut Job, wake: &WakeRecord) -> (block: bool)
    ensures
        block == !(wake.state is Blocked),
        *final(job) == (Job { status: final(job).status, ..*old(job) }),
        final(job).status@ == (Status {
            reason: Some("dispatch_requires_independent_outcome_or_authoritative_lookup"@),
            state: if block {
                old(job).status@.state
            } else {
                "blocked"@
            },
            next_run_ms: if block {
                old(job).status@.next_run_ms
            } else {
                None
            },
            ..old(job).status@
        }),
{
    job.status.reason = Some(
        "dispatch_requires_independent_outcome_or_authoritative_lookup".to_owned(),
    );
    match &wake.state {
        WakeState::Blocked { .. } => {
            job.status.state = "blocked".to_owned();
            job.status.next_run_ms = None;
            false
        },
        _ => true,
    }
}

/// Makes no further attempt. A wake that is not blocked yet has to be.
pub fn exhausted(job: &mut Job, wake: &WakeRecord) -> (block: bool)
    ensures
        block == !(wake.state is Blocked),
        *final(job) == (Job { status: final(job).status, ..*old(job) }),
        final(job).status@ == (Status {
            reason: Some("dispatch_retry_budget_exhausted"@),
            ..old(job).status@
        }),
{
    job.status.reason = Some("dispatch_retry_budget_exhausted".to_owned());
    match &wake.state {
        WakeState::Blocked { .. } => false,
        _ => true,
    }
}

/// What the engine allows.
#[derive(Debug)]
pub enum Permission {
    /// The adapter may be called, with this permit.
    Dispatch(DispatchPermit),
    /// Nothing is sent; the status says why.
    Settled,
}

/// Why a native permit is refused.
pub open spec fn permit_refused(permit: Datum, attempt_id: Seq<char>, wake: WakeRecord) -> Option<
    ActionError,
> {
    let action = permit.text_at("action"@);
    if permit.text_at("dispatch_ref"@) is None {
        Some(ActionError::NativeReferenceMissing)
    } else if permit.at("idempotency_key"@) != Datum::Text(attempt_id) {
        Some(ActionError::AttemptChanged)
    } else if action == Some("dispatch"@) {
        if wake.state is Running {
            None
        } else {
            Some(ActionError::NoLiveLease)
        }
    } else if action == Some("lookup"@) || action == Some("outcome_unknown"@) || action == Some(
        "done"@,
    ) {
        None
    } else {
        Some(ActionError::UnsupportedResult)
    }
}

/// The status after the engine has answered.
pub open spec fn permitted_status(
    before: Status,
    permit: Datum,
    refused: Option<ActionError>,
    now: u64,
    limits: ActionLimits,
) -> Status {
    let known = match permit.text_at("dispatch_ref"@) {
        Some(reference) => Status { dispatch_ref: Some(reference), ..before },
        None => before,
    };
    if refused is Some || permit.text_at("action"@) == Some("dispatch"@) {
        known
    } else {
        Status {
            state: if permit.text_at("action"@) == Some("done"@) {
                "awaiting_completion"@
            } else {
                "outcome_unknown"@
            },
            next_run_ms: Some((now + limits.retry_ms) as u64),
            ..known
        }
    }
}

/// The permit that an adapter gets.
pub open spec fn is_permit(
    p: DispatchPermit,
    permit: Datum,
    wake: WakeRecord,
    attempt: Seq<char>,
) -> bool {
    &&& p.wake_ref@ == wake.wake_ref@
    &&& p.attempt_ref@ == attempt
    &&& permit.text_at("dispatch_ref"@) == Some(p.dispatch_ref@)
    &&& p.fence == wake.fence
    &&& wake.state matches WakeState::Running { lease } && p.expires_at_ms == lease.expires_at_ms
}

/// Takes over the engine's answer to a dispatch.
pub fn permitted(
    job: &mut Job,
    permit: &Json,
    request: &ActionRequest,
    attempt: &str,
    wake: &WakeRecord,
    now: u64,
    limits: &ActionLimits,
) -> (r: Result<Permission, ActionError>)
    requires
        limits.bounded(),
        now <= u64::MAX - MAX_DELAY_MS,
    ensures
        *final(job) == (Job { status: final(job).status, ..*old(job) }),
        final(job).status@ == permitted_status(
            old(job).status@,
            permit@,
            permit_refused(permit@, request.attempt_id@, *wake),
            now,
            *limits,
        ),
        match r {
            Ok(Permission::Dispatch(p)) => permit_refused(permit@, request.attempt_id@, *wake)
                is None && permit@.text_at("action"@) == Some("dispatch"@) && is_permit(
                p,
                permit@,
                *wake,
                attempt@,
            ),
            Ok(Permission::Settled) => permit_refused(permit@, request.attempt_id@, *wake) is None
                && permit@.text_at("action"@) != Some("dispatch"@),
            Err(e) => permit_refused(permit@, request.attempt_id@, *wake) == Some(e),
        },
{
    let reference = match permit.text_at("dispatch_ref") {
        Some(reference) => reference,
        None => return Err(ActionError::NativeReferenceMissing),
    };
    job.status.dispatch_ref = Some(reference.to_owned());
    if !permit.member_is("idempotency_key", request.attempt_id.as_str()) {
        return Err(ActionError::AttemptChanged);
    }
    let action = match permit.text_at("action") {
        Some(action) => action,
        None => return Err(ActionError::UnsupportedResult),
    };
    proof {
        reveal_strlit("dispatch");
        reveal_strlit("lookup");
        reveal_strlit("outcome_unknown");
        reveal_strlit("done");
        assert("lookup"@.len() != "done"@.len());
        assert("outcome_unknown"@.len() != "done"@.len());
    }
    if text::same(action, "dispatch") {
        return match &wake.state {
            WakeState::Running { lease } => Ok(
                Permission::Dispatch(
                    DispatchPermit {
                        wake_ref: wake.wake_ref.clone(),
                        attempt_ref: attempt.to_owned(),
                        dispatch_ref: reference.to_owned(),
                        fence: wake.fence,
                        expires_at_ms: lease.expires_at_ms,
                    },
                ),
            ),
            _ => Err(ActionError::NoLiveLease),
        };
    }
    if text::same(action, "lookup") || text::same(action, "outcome_unknown") {
        job.status.state = "outcome_unknown".to_owned();
    } else if text::same(action, "done") {
        job.status.state = "awaiting_completion".to_owned();
    } else {
        return Err(ActionError::UnsupportedResult);
    }
    job.status.next_run_ms = Some(now + limits.retry_ms);
    Ok(Permission::Settled)
}

/// Takes over what the adapter reports; no report means that it is not known what
/// happened.
pub fn delivered(job: &mut Job, report: Option<DeliveryStatus>, now: u64, limits: &ActionLimits)
    requires
        limits.bounded(),
        now <= u64::MAX - MAX_DELAY_MS,
    ensures
        *final(job) == (Job {
            status: final(job).status,
            delivery: Some(
                match report {
                    Some(status) => status,
                    None => DeliveryStatus::Unknown,
                },
            ),
            ..*old(job)
        }),
        final(job).status@ == (Status {
            state: if report is None || report == Some(DeliveryStatus::Unknown) {
                "outcome_unknown"@
            } else {
                "awaiting_outcome"@
            },
            next_run_ms: Some((now + limits.retry_ms) as u64),
            ..old(job).status@
        }),
{
    let status = match report {
        Some(status) => status,
        None => DeliveryStatus::Unknown,
    };
    job.delivery = Some(status);
    job.status.state = match status {
        DeliveryStatus::Unknown => "outcome_unknown".to_owned(),
        _ => "awaiting_outcome".to_owned(),
    };
    job.status.next_run_ms = Some(now + limits.retry_ms);
}

// ---------------------------------------------------------------------------
// Laws
// ---------------------------------------------------------------------------

/// Nothing is sent a second time on a guess: a dispatch that was started begins
/// again only where the target has been found not to have started it, or takes it
/// for the same one and nothing was confirmed.
pub proof fn nothing_is_repeated_on_a_guess(
    job: Job,
    kind: ActionKind,
    prior: Option<Datum>,
    answered: bool,
    bindings: ActionBindings,
)
    requires
        next_step(job, kind, prior, answered, bindings) == Ok::<DispatchStep, ActionError>(
            DispatchStep::Begin,
        ),
    ensures
        prior is None || stands(prior, "ready"@) || adapter(bindings, kind) == Some(true)
            && job.delivery != Some(DeliveryStatus::Finished) && job.delivery != Some(
            DeliveryStatus::Accepted,
        ) && !stands(prior, "outcome_unknown"@),
        job.status.attempts <= bindings.limits.max_retries,
{
}

/// What is settled is not dispatched, and a question that was answered before it
/// went out is not delivered.
pub proof fn settled_work_is_not_dispatched(
    job: Job,
    kind: ActionKind,
    prior: Option<Datum>,
    answered: bool,
    bindings: ActionBindings,
)
    requires
        stands(prior, "completed"@) || kind == ActionKind::DeliverClarification && answered
            && prior is None,
    ensures
        next_step(job, kind, prior, answered, bindings) == Ok::<DispatchStep, ActionError>(
            DispatchStep::Finish,
        ) || next_step(job, kind, prior, answered, bindings) == Ok::<DispatchStep, ActionError>(
            DispatchStep::Cancel,
        ),
{
}

/// A lookup never turns a started attempt into an outcome: the work waits for the
/// outcome, is ready again, or stays unknown.
pub proof fn lookups_are_no_outcomes(observed: LookupStatus)
    ensures
        lookup_state(observed) != "completed"@,
{
    reveal_strlit("completed");
    reveal_strlit("ready");
    reveal_strlit("awaiting_outcome");
    reveal_strlit("outcome_unknown");
    assert("ready"@.len() != "completed"@.len());
    assert("awaiting_outcome"@.len() != "completed"@.len());
    assert("outcome_unknown"@.len() != "completed"@.len());
}

} // verus!
