//! The running of action work: who may run it, how it fails, and how retained
//! work is answered and retried.

use vstd::prelude::*;

use super::journal::{Dedup, Job, Reply, Switch};
use super::request::{ActionRequest, ActionStatus, ClarificationResponse, Status};
use super::{ActionBindings, ActionError, ActionLimits, FORMAT};
use crate::assess::take_chars;
use crate::json::{Datum, Json};
use crate::nexus::{self, principal_valid};
use crate::recall::material::PROFILE;
use crate::runtime::{RuntimePin, RuntimePins, RuntimeScope};
use crate::text;
use crate::wake::{WakeRecord, WakeState, MAX_DELAY_MS};

verus! {

// ---------------------------------------------------------------------------
// The host
// ---------------------------------------------------------------------------

/// How a caller was authenticated.
#[derive(Debug)]
pub struct Caller {
    pub principal_id: String,
    pub auth_method: String,
    pub auth_strength: String,
    pub delegation_chain: Vec<String>,
}

impl Caller {
    /// Authenticated itself, and not through anyone else.
    pub open spec fn direct(self) -> bool {
        &&& nexus::is_principal(self.principal_id@)
        &&& self.auth_method@.len() > 0
        &&& self.auth_strength@ != "none"@
        &&& self.delegation_chain@.len() == 0
    }

    pub fn is_direct(&self) -> (r: bool)
        ensures
            r == self.direct(),
    {
        principal_valid(self.principal_id.as_str()) && self.auth_method.as_str().unicode_len() > 0
            && !text::same(self.auth_strength.as_str(), "none") && self.delegation_chain.len() == 0
    }
}

/// Actions run only as a directly authenticated principal of the host.
pub fn check_host(caller: &Caller) -> (r: Result<(), ActionError>)
    ensures
        r == if caller.direct() {
            Ok::<(), ActionError>(())
        } else {
            Err::<(), ActionError>(ActionError::Unauthenticated)
        },
{
    if caller.is_direct() {
        Ok(())
    } else {
        Err(ActionError::Unauthenticated)
    }
}

/// Whether actions run in a Space: never on an isolated host, and elsewhere
/// unless they were switched off.
pub fn enabled(automatic: bool, setting: &Option<Switch>, scope: &RuntimeScope) -> (r: Result<
    bool,
    ActionError,
>)
    ensures
        r == if !automatic {
            Ok::<bool, ActionError>(false)
        } else {
            match setting {
                None => Ok::<bool, ActionError>(true),
                Some(s) => if s.scope.same_as(*scope) {
                    Ok::<bool, ActionError>(s.enabled)
                } else {
                    Err::<bool, ActionError>(ActionError::SwitchScope)
                },
            }
        },
{
    if !automatic {
        return Ok(false);
    }
    match setting {
        None => Ok(true),
        Some(s) => if s.scope.same(scope) {
            Ok(s.enabled)
        } else {
            Err(ActionError::SwitchScope)
        },
    }
}

/// The switch as it is stored.
pub fn set_enabled(automatic: bool, enabled: bool, scope: RuntimeScope) -> (r: Result<
    Switch,
    ActionError,
>)
    ensures
        match r {
            Ok(s) => (automatic || !enabled) && s == (Switch { scope, enabled }),
            Err(e) => enabled && !automatic && e == ActionError::IsolatedEnable,
        },
{
    if enabled && !automatic {
        return Err(ActionError::IsolatedEnable);
    }
    Ok(Switch { scope, enabled })
}

/// The pins that work runs under: those of the actions and of the evaluator that
/// is installed beside them.
pub fn running_pins(bindings: &ActionBindings, evaluator: Option<RuntimePin>) -> (r: RuntimePins)
    requires
        bindings.refused() is None,
    ensures
        r.evaluator == evaluator,
        r.policy.id@ == bindings.policy_pin.id@,
        nexus::digest_of(bindings.manifest_value()) == Some(r.policy.digest@),
        r.binding == Some(bindings.binding_pin),
{
    let mut pins = bindings.pins();
    pins.evaluator = evaluator;
    pins
}

/// Whether a lookup observer has to be installed: one that is installed stays,
/// and another one is never replaced silently.
pub fn install_observer(bindings: &ActionBindings, installed: Option<&Json>) -> (r: Result<
    bool,
    ActionError,
>)
    ensures
        r == match bindings.lookup {
            None => Ok::<bool, ActionError>(false),
            Some(own) => match installed {
                None => Ok::<bool, ActionError>(true),
                Some(there) => if there@ == own.value() {
                    Ok::<bool, ActionError>(false)
                } else {
                    Err::<bool, ActionError>(ActionError::ObserverDiffers)
                },
            },
        },
{
    match &bindings.lookup {
        None => Ok(false),
        Some(own) => match installed {
            None => Ok(true),
            Some(there) => {
                let expected = own.to_json();
                proof {
                    nexus::alike_portable_is_equal(there@, expected@, 2);
                }
                if there.same(&expected) {
                    Ok(false)
                } else {
                    Err(ActionError::ObserverDiffers)
                }
            },
        },
    }
}

/// The control record of a lookup observer.
pub open spec fn observer_key_of(binding: RuntimePin) -> Option<Seq<char>> {
    match nexus::digits_of(binding.value()) {
        Some(digits) => Some("attention-lookup-observer/v1/"@ + digits),
        None => None,
    }
}

pub fn observer_key(binding: &RuntimePin) -> (r: String)
    ensures
        observer_key_of(*binding) == Some(r@),
{
    proof {
        nexus::two_texts_are_portable("id"@, binding.id@, "digest"@, binding.digest@);
    }
    let mut out = "attention-lookup-observer/v1/".to_owned();
    out.append(nexus::json_digits(&binding.to_json()).as_str());
    out
}

// ---------------------------------------------------------------------------
// Running
// ---------------------------------------------------------------------------

/// How work is taken up.
#[derive(Debug)]
pub enum Start {
    /// Actions are switched off; the status says so.
    Disabled(ActionStatus),
    /// It is not time yet.
    Later,
    Run,
}

/// Why work is refused.
pub open spec fn start_refused(
    automatic: bool,
    enabled: bool,
    wake: WakeRecord,
    pins: RuntimePins,
    job: Job,
) -> Option<ActionError> {
    if !automatic {
        Some(ActionError::IsolatedRun)
    } else if !enabled {
        None
    } else if !wake.pins.same_as(pins) {
        Some(ActionError::PinsChanged)
    } else if !job.pins.same_as(wake.pins) {
        Some(ActionError::JournalConfiguration)
    } else {
        None
    }
}

/// How the work of a wake is taken up. Work runs only under the configuration
/// that it was armed with, and only when it is due.
pub fn start(
    automatic: bool,
    enabled: bool,
    wake: &WakeRecord,
    pins: &RuntimePins,
    job: &Job,
    now: u64,
) -> (r: Result<Start, ActionError>)
    ensures
        match r {
            Err(e) => start_refused(automatic, enabled, *wake, *pins, *job) == Some(e),
            Ok(Start::Disabled(status)) => automatic && !enabled && status@ == (Status {
                reason: Some("actions_disabled_by_host"@),
                ..Status::bare(wake.wake_ref@, "disabled"@)
            }),
            Ok(Start::Later) => automatic && enabled && start_refused(
                automatic,
                enabled,
                *wake,
                *pins,
                *job,
            ) is None && (job.status.next_run_ms matches Some(t) && t > now),
            Ok(Start::Run) => automatic && enabled && start_refused(
                automatic,
                enabled,
                *wake,
                *pins,
                *job,
            ) is None && !(job.status.next_run_ms matches Some(t) && t > now),
        },
{
    if !automatic {
        return Err(ActionError::IsolatedRun);
    }
    if !enabled {
        let mut status = ActionStatus::bare(wake.wake_ref.as_str(), "disabled");
        status.reason = Some("actions_disabled_by_host".to_owned());
        return Ok(Start::Disabled(status));
    }
    if !wake.pins.same(pins) {
        return Err(ActionError::PinsChanged);
    }
    if !job.pins.same(&wake.pins) {
        return Err(ActionError::JournalConfiguration);
    }
    let later = match job.status.next_run_ms {
        Some(t) => t > now,
        None => false,
    };
    if later {
        Ok(Start::Later)
    } else {
        Ok(Start::Run)
    }
}

/// How often the delay between failures doubles at most.
pub const MAX_DOUBLINGS: u32 = 6;

/// How long work waits after that many failures.
pub open spec fn backoff(limits: ActionLimits, failures: nat) -> nat {
    limits.retry_ms as nat * vstd::arithmetic::power2::pow2(
        if failures < MAX_DOUBLINGS {
            failures
        } else {
            MAX_DOUBLINGS as nat
        },
    )
}

fn doubled(retry_ms: u64, failures: u32) -> (r: u64)
    requires
        retry_ms <= 3_600_000,
    ensures
        r == retry_ms as nat * vstd::arithmetic::power2::pow2(
            if failures < MAX_DOUBLINGS {
                failures as nat
            } else {
                MAX_DOUBLINGS as nat
            },
        ),
        r <= 3_600_000 * 64,
{
    let mut out: u64 = retry_ms;
    let mut i: u32 = 0;
    proof {
        vstd::arithmetic::power2::lemma2_to64();
    }
    while i < failures && i < MAX_DOUBLINGS
        invariant
            i <= failures,
            i <= MAX_DOUBLINGS,
            retry_ms <= 3_600_000,
            out == retry_ms as nat * vstd::arithmetic::power2::pow2(i as nat),
            out <= 3_600_000 * vstd::arithmetic::power2::pow2(i as nat),
            vstd::arithmetic::power2::pow2(i as nat) <= 64,
        decreases failures - i,
    {
        proof {
            vstd::arithmetic::power2::lemma2_to64();
            vstd::arithmetic::power2::lemma_pow2_unfold((i + 1) as nat);
            assert(retry_ms as nat * (2 * vstd::arithmetic::power2::pow2(i as nat)) == 2 * (
            retry_ms as nat * vstd::arithmetic::power2::pow2(i as nat))) by (nonlinear_arith);
            assert(out <= 3_600_000 * 64);
        }
        out = out * 2;
        i = i + 1;
    }
    proof {
        vstd::arithmetic::power2::lemma2_to64();
    }
    out
}

/// The status of work that failed.
pub open spec fn failed_status(
    before: Status,
    failures: u32,
    error: Seq<char>,
    now: u64,
    limits: ActionLimits,
) -> Status {
    let blocked = failures > limits.max_retries;
    Status {
        reason: Some(crate::assess::head(error, 1024)),
        state: if blocked {
            "blocked"@
        } else {
            "retrying"@
        },
        next_run_ms: if blocked {
            None
        } else {
            Some((now + backoff(limits, failures as nat)) as u64)
        },
        ..before
    }
}

/// Counts a failure: the work is tried again, each time later, until it has
/// failed too often. Nothing that was prepared is lost, and a failure never
/// becomes a decision.
pub fn failed(job: &mut Job, error: &str, now: u64, limits: &ActionLimits) -> (blocked: bool)
    requires
        limits.bounded(),
        now <= u64::MAX - MAX_DELAY_MS,
    ensures
        *final(job) == (Job {
            status: final(job).status,
            failures: if old(job).failures < u32::MAX {
                (old(job).failures + 1) as u32
            } else {
                u32::MAX
            },
            ..*old(job)
        }),
        final(job).status@ == failed_status(
            old(job).status@,
            final(job).failures,
            error@,
            now,
            *limits,
        ),
        blocked == (final(job).failures > limits.max_retries),
{
    job.failures = job.failures.saturating_add(1);
    job.status.reason = Some(take_chars(error, 1024));
    let blocked = job.failures > limits.max_retries;
    if blocked {
        job.status.state = "blocked".to_owned();
        job.status.next_run_ms = None;
    } else {
        job.status.state = "retrying".to_owned();
        job.status.next_run_ms = Some(now + doubled(limits.retry_ms, job.failures));
    }
    blocked
}

/// The wake is held under a live lease of that principal.
pub open spec fn holds_lease(wake: WakeRecord, principal: Seq<char>, until: int) -> bool {
    wake.state matches WakeState::Running { lease } && lease.owner@ == principal
        && lease.expires_at_ms > until
}

fn has_lease(wake: &WakeRecord, principal: &str, until: u64) -> (r: bool)
    ensures
        r == holds_lease(*wake, principal@, until as int),
{
    match &wake.state {
        WakeState::Running { lease } => text::same(lease.owner.as_str(), principal)
            && lease.expires_at_ms > until,
        _ => false,
    }
}

/// Whether a blocked piece of work has to block its wake too: only one that it
/// still holds.
pub fn may_block(wake: &WakeRecord, principal: &str, now: u64) -> (r: bool)
    ensures
        r == holds_lease(*wake, principal@, now as int),
{
    has_lease(wake, principal, now)
}

/// The status of work that is blocked.
pub fn block(job: &mut Job)
    ensures
        *final(job) == (Job { status: final(job).status, ..*old(job) }),
        final(job).status@ == (Status { state: "blocked"@, next_run_ms: None, ..old(job).status@ }),
{
    job.status.state = "blocked".to_owned();
    job.status.next_run_ms = None;
}

/// How a lease is come by.
#[derive(Clone, Copy, Debug, PartialEq, Eq, Structural)]
pub enum LeaseStep {
    /// The lease lasts for the callbacks that it has to cover.
    Keep,
    Renew,
    Claim,
}

/// How a lease is come by: a lease that is short for the callbacks to come is
/// renewed, one that is not held is claimed.
pub fn lease_step(wake: &WakeRecord, principal: &str, now: u64, limits: &ActionLimits) -> (r:
    LeaseStep)
    requires
        limits.bounded(),
        now <= u64::MAX - MAX_DELAY_MS,
    ensures
        r == if holds_lease(*wake, principal@, now + 4 * limits.callbacks_ms) {
            LeaseStep::Keep
        } else if holds_lease(*wake, principal@, now as int) {
            LeaseStep::Renew
        } else {
            LeaseStep::Claim
        },
{
    if has_lease(wake, principal, now + 4 * limits.callbacks_ms) {
        LeaseStep::Keep
    } else if has_lease(wake, principal, now) {
        LeaseStep::Renew
    } else {
        LeaseStep::Claim
    }
}

// ---------------------------------------------------------------------------
// Resuming blocked work
// ---------------------------------------------------------------------------

/// What a blocked wake waits for.
pub open spec fn resume_value(wake: WakeRecord) -> Datum {
    Datum::empty().with("format"@, Datum::Text(FORMAT@)).with(
        "kind"@,
        Datum::Text("operator_or_dispatch_reconciled"@),
    ).with("scope"@, wake.scope.value()).with("wake"@, Datum::Text(wake.wake_ref@))
}

pub fn resume_condition(wake: &WakeRecord) -> (r: Json)
    ensures
        r@ == resume_value(*wake),
{
    Json::object().with("format", Json::text(FORMAT)).with(
        "kind",
        Json::text("operator_or_dispatch_reconciled"),
    ).with("scope", wake.scope.to_json()).with("wake", Json::text(wake.wake_ref.as_str()))
}

/// Whether blocked work may go on: an operator retried it, or the engine has
/// settled its dispatch.
pub fn may_resume(job: &Job, dispatch: Option<&Json>) -> (r: bool)
    ensures
        r == (job.status.state@ == "pending"@ || job.status.dispatch_ref is Some && (
        super::dispatch::stands(super::dispatch::view_of(dispatch), "completed"@)
            || super::dispatch::stands(super::dispatch::view_of(dispatch), "ready"@))),
{
    if text::same(job.status.state.as_str(), "pending") {
        return true;
    }
    if job.status.dispatch_ref.is_none() {
        return false;
    }
    match dispatch {
        Some(record) => record.member_is("state", "completed") || record.member_is(
            "state",
            "ready",
        ),
        None => false,
    }
}

/// Starts retained work anew, on an operator's word. Nothing that guards the work
/// is bypassed: it is only due again.
pub fn retry(job: &mut Job, automatic: bool, wake: &WakeRecord, pins: &RuntimePins) -> (r: Result<
    (),
    ActionError,
>)
    ensures
        match r {
            Ok(()) => {
                &&& automatic
                &&& wake.pins.same_as(*pins)
                &&& !wake.state.ended()
                &&& old(job).status.operator_retries < u32::MAX
                &&& *final(job) == (Job {
                    status: final(job).status,
                    failures: 0,
                    rounds: 0,
                    ..*old(job)
                })
                &&& final(job).status@ == (Status {
                    operator_retries: (old(job).status.operator_retries + 1) as u32,
                    attempts: 0,
                    state: "pending"@,
                    next_run_ms: None,
                    ..old(job).status@
                })
            },
            Err(e) => {
                &&& *final(job) == *old(job)
                &&& e == if !automatic {
                    ActionError::IsolatedRetry
                } else if !wake.pins.same_as(*pins) || wake.state.ended() {
                    ActionError::CannotRetry
                } else {
                    ActionError::RetryCounter
                }
                &&& !automatic || !wake.pins.same_as(*pins) || wake.state.ended()
                    || old(job).status.operator_retries == u32::MAX
            },
        },
{
    if !automatic {
        return Err(ActionError::IsolatedRetry);
    }
    if !wake.pins.same(pins) || wake.state.has_ended() {
        return Err(ActionError::CannotRetry);
    }
    if job.status.operator_retries == u32::MAX {
        return Err(ActionError::RetryCounter);
    }
    job.failures = 0;
    job.status.operator_retries = job.status.operator_retries + 1;
    job.status.attempts = 0;
    job.rounds = 0;
    job.status.state = "pending".to_owned();
    job.status.next_run_ms = None;
    Ok(())
}

// ---------------------------------------------------------------------------
// Answers
// ---------------------------------------------------------------------------

/// A response of a bounded size, with something in it.
pub open spec fn well_formed(response: ClarificationResponse) -> bool {
    &&& response.event_key@.len() > 0
    &&& text::utf8_len(response.event_key@) <= 256
    &&& text::trimmed(response.answer@).len() > 0
    &&& text::utf8_len(response.answer@) <= 16_384
}

/// Why a response is refused before anything stored is looked at.
pub open spec fn response_refused(job: Job, caller: Caller, response: ClarificationResponse) -> Option<
    ActionError,
> {
    match job.prepared {
        None => Some(ActionError::ClarificationUnavailable),
        Some(p) => if !(p.decision@ == "ask"@ && (p.recipient matches Some(recipient) && recipient@
            == caller.principal_id@) && caller.direct() && well_formed(response)) {
            Some(ActionError::InvalidResponse)
        } else if job.status.decision_ref is None {
            Some(ActionError::AskDecisionMissing)
        } else {
            None
        },
    }
}

/// Whether a response may be taken: only the recipient may answer, directly
/// authenticated, and only a question.
pub fn check_response(job: &Job, caller: &Caller, response: &ClarificationResponse) -> (r: Result<
    (),
    ActionError,
>)
    ensures
        match r {
            Ok(()) => response_refused(*job, *caller, *response) is None,
            Err(e) => response_refused(*job, *caller, *response) == Some(e),
        },
{
    let p = match &job.prepared {
        Some(p) => p,
        None => return Err(ActionError::ClarificationUnavailable),
    };
    let asked = match &p.recipient {
        Some(recipient) => text::same(recipient.as_str(), caller.principal_id.as_str()),
        None => false,
    };
    if !text::same(p.decision.as_str(), "ask") || !asked || !caller.is_direct()
        || response.event_key.as_str().unicode_len() == 0 || text::byte_len(
        response.event_key.as_str(),
    ) > 256 || text::trim(response.answer.as_str()).unicode_len() == 0 || text::byte_len(
        response.answer.as_str(),
    ) > 16_384 {
        return Err(ActionError::InvalidResponse);
    }
    if job.status.decision_ref.is_none() {
        return Err(ActionError::AskDecisionMissing);
    }
    Ok(())
}

/// What is stored of a response.
#[derive(Debug)]
pub enum Recorded {
    /// The same response was stored before.
    Already,
    Store(Reply),
}

/// The stored reply is this response to this question.
pub open spec fn is_repeat(
    stored: Reply,
    scope: RuntimeScope,
    gate: Seq<char>,
    principal: Seq<char>,
    response: ClarificationResponse,
) -> bool {
    &&& stored.scope.same_as(scope)
    &&& stored.gate_wake_ref@ == gate
    &&& stored.principal@ == principal
    &&& stored.response.same_as(response)
}

/// Stores the first response to a question that comes in time. The same response
/// again changes nothing; another one is a conflict.
pub fn record_response(
    stored: Option<Reply>,
    scope: RuntimeScope,
    gate: String,
    principal: String,
    response: ClarificationResponse,
    deadline: Option<u64>,
    now: u64,
) -> (r: Result<Recorded, ActionError>)
    ensures
        match stored {
            Some(own) => if is_repeat(own, scope, gate@, principal@, response) {
                r matches Ok(Recorded::Already)
            } else {
                r is Err && r->Err_0 == ActionError::ResponseConflict
            },
            None => if deadline matches Some(t) && t > now {
                r matches Ok(Recorded::Store(reply)) && reply == (Reply {
                    scope,
                    gate_wake_ref: gate,
                    principal,
                    received_ms: now,
                    response,
                })
            } else {
                r is Err && r->Err_0 == ActionError::DeadlinePassed
            },
        },
{
    match stored {
        Some(own) => {
            if own.scope.same(&scope) && text::same(own.gate_wake_ref.as_str(), gate.as_str())
                && text::same(own.principal.as_str(), principal.as_str()) && own.response.same(
                &response,
            ) {
                Ok(Recorded::Already)
            } else {
                Err(ActionError::ResponseConflict)
            }
        },
        None => {
            let open = match deadline {
                Some(t) => t > now,
                None => false,
            };
            if !open {
                return Err(ActionError::DeadlinePassed);
            }
            Ok(
                Recorded::Store(
                    Reply { scope, gate_wake_ref: gate, principal, received_ms: now, response },
                ),
            )
        },
    }
}

// ---------------------------------------------------------------------------
// One operation, once
// ---------------------------------------------------------------------------

/// What makes two requests the same operation.
pub open spec fn operation_value(request: ActionRequest) -> Datum {
    Datum::empty().with("kind"@, Datum::Text(request.kind.name())).with(
        "payload"@,
        request.payload@,
    ).with("context"@, request.context.value())
}

pub fn operation_digest(request: &ActionRequest) -> (r: Result<String, ActionError>)
    ensures
        match r {
            Ok(d) => nexus::digest_of(operation_value(*request)) == Some(d@),
            Err(e) => nexus::digest_of(operation_value(*request)) is None && e
                == ActionError::Undigestible,
        },
{
    let value = Json::object().with("kind", Json::text(request.kind.as_str())).with(
        "payload",
        request.payload.copy(),
    ).with("context", request.context.to_json());
    super::request::digest_or(&value)
}

/// Who owns an operation.
#[derive(Debug)]
pub enum Ownership {
    /// Nobody yet: this record claims it.
    Claim(Dedup),
    /// This wake.
    Own,
    /// The key stands for another operation.
    Conflict,
    /// Another wake, which has to be looked at.
    Other(String),
}

/// The stored owner speaks of the same operation.
pub open spec fn same_operation(stored: Dedup, request: ActionRequest, digest: Seq<char>) -> bool {
    &&& stored.scope.same_as(request.scope)
    &&& stored.pins.same_as(request.pins)
    &&& stored.request_digest@ == digest
}

/// The first claim stands: what is stored is never claimed again.
pub open spec fn is_owned(
    stored: Option<Dedup>,
    request: ActionRequest,
    digest: String,
    r: Ownership,
) -> bool {
    match stored {
        None => r matches Ownership::Claim(claim) && claim == (Dedup {
            scope: request.scope,
            pins: request.pins,
            owner: request.gate_wake_ref,
            request_digest: digest,
        }),
        Some(own) => if !same_operation(own, request, digest@) {
            r is Conflict
        } else if own.owner@ == request.gate_wake_ref@ {
            r is Own
        } else {
            r matches Ownership::Other(owner) && owner@ == own.owner@
        },
    }
}

/// Who owns the operation of a request.
pub fn ownership(stored: Option<Dedup>, request: &ActionRequest, digest: String) -> (r: Ownership)
    ensures
        is_owned(stored, *request, digest, r),
{
    match stored {
        None => Ownership::Claim(
            Dedup {
                scope: request.scope.copy(),
                pins: request.pins.copy(),
                owner: request.gate_wake_ref.clone(),
                request_digest: digest,
            },
        ),
        Some(own) => {
            if !own.scope.same(&request.scope) || !own.pins.same(&request.pins) || !text::same(
                own.request_digest.as_str(),
                digest.as_str(),
            ) {
                Ownership::Conflict
            } else if text::same(own.owner.as_str(), request.gate_wake_ref.as_str()) {
                Ownership::Own
            } else {
                Ownership::Other(own.owner)
            }
        },
    }
}

pub const IDENTITY_CONFLICT: &'static str = "deduplication_identity_conflict";

/// The watch that fired for the owner is still the one that fired.
pub open spec fn same_generation(source: Datum, arm_generation: u64) -> bool {
    &&& source.at("attributes"@).at("status"@) == Datum::Text("fired"@)
    &&& source.at("facets"@).at(PROFILE@ + "WatchState"@).at("arm_generation"@) == Datum::Unsigned(
        arm_generation,
    )
}

fn generation_kept(source: &Json, arm_generation: u64) -> (r: bool)
    ensures
        r == same_generation(source@, arm_generation),
{
    let fired = match source.get("attributes") {
        Some(attributes) => attributes.member_is("status", "fired"),
        None => false,
    };
    let mut symbol = PROFILE.to_owned();
    symbol.append("WatchState");
    let generation = match source.get("facets") {
        Some(facets) => match facets.get(symbol.as_str()) {
            Some(state) => state.u64_at("arm_generation"),
            None => None,
        },
        None => None,
    };
    fired && match generation {
        Some(n) => n == arm_generation,
        None => false,
    }
}

/// What is said of an operation that another wake owns.
pub open spec fn owner_reason(
    owner: Seq<char>,
    parent: Option<Job>,
    source: Datum,
    arm_generation: u64,
) -> Seq<char> {
    if !same_generation(source, arm_generation) {
        "deduplication_owner_generation_changed:"@ + owner
    } else if parent matches Some(own) && (own.prepared matches Some(p) && p.decision@ == "act"@) {
        "duplicate_committed_operation:"@ + owner
    } else {
        "deduplication_owner_unresolved:"@ + owner
    }
}

/// What is said of an operation that another wake owns: it was committed, or the
/// owner cannot vouch for it.
pub fn judge_owner(owner: &str, parent: &Option<Job>, source: &Json, arm_generation: u64) -> (r:
    String)
    ensures
        r@ == owner_reason(owner@, *parent, source@, arm_generation),
{
    let acted = match parent {
        Some(own) => match &own.prepared {
            Some(p) => text::same(p.decision.as_str(), "act"),
            None => false,
        },
        None => false,
    };
    let mut out = if !generation_kept(source, arm_generation) {
        "deduplication_owner_generation_changed:".to_owned()
    } else if acted {
        "duplicate_committed_operation:".to_owned()
    } else {
        "deduplication_owner_unresolved:".to_owned()
    };
    out.append(owner);
    out
}

// ---------------------------------------------------------------------------
// Laws
// ---------------------------------------------------------------------------

/// Each failure delays the work at least as long as the one before, and never
/// without bound.
pub proof fn failures_delay_ever_longer(limits: ActionLimits, failures: nat)
    requires
        limits.bounded(),
    ensures
        backoff(limits, failures) <= backoff(limits, failures + 1),
        limits.retry_ms <= backoff(limits, failures) <= 64 * limits.retry_ms,
{
    vstd::arithmetic::power2::lemma2_to64();
    let n = if failures < MAX_DOUBLINGS {
        failures
    } else {
        MAX_DOUBLINGS as nat
    };
    assert(n == 0 || n == 1 || n == 2 || n == 3 || n == 4 || n == 5 || n == 6);
    let a = limits.retry_ms as nat;
    assert(a * 1 == a && a * 2 == 2 * a && a * 4 == 4 * a && a * 8 == 8 * a && a * 16 == 16 * a
        && a * 32 == 32 * a && a * 64 == 64 * a);
}

/// The lease that an attempt runs under covers all its callbacks.
pub proof fn leases_outlive_their_callbacks(
    wake: WakeRecord,
    principal: Seq<char>,
    now: u64,
    limits: ActionLimits,
)
    requires
        limits.bounded(),
        holds_lease(wake, principal, now + 4 * limits.callbacks_ms),
    ensures
        wake.state matches WakeState::Running { lease } && lease.expires_at_ms
            > now + 4 * limits.callbacks_ms,
        limits.lease_ms > 4 * limits.callbacks_ms,
{
}

/// An operation has one owner: once a wake claimed it, that wake finds it its own
/// however often it asks, and no other wake ever does.
pub proof fn an_operation_has_one_owner(
    first: ActionRequest,
    later: ActionRequest,
    digest: String,
    again: String,
    claim: Dedup,
    r: Ownership,
)
    requires
        is_owned(None, first, digest, Ownership::Claim(claim)),
        is_owned(Some(claim), later, again, r),
    ensures
        !(r is Claim),
        r is Own ==> later.gate_wake_ref@ == first.gate_wake_ref@,
        later == first && again@ == digest@ ==> r is Own,
{
}

/// A response is stored once: storing it again finds it, and any other response
/// to the same question conflicts.
pub proof fn the_first_response_stands(
    reply: Reply,
    scope: RuntimeScope,
    gate: Seq<char>,
    principal: Seq<char>,
    response: ClarificationResponse,
)
    requires
        reply.scope.same_as(scope),
        reply.gate_wake_ref@ == gate,
        reply.principal@ == principal,
    ensures
        is_repeat(reply, scope, gate, principal, response) <==> reply.response.same_as(response),
{
}

} // verus!
