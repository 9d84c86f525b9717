//! Trusted four-way decisions and native, fenced external dispatch. A decision
//! record is never authority: nothing runs but what the host has installed.

use vstd::prelude::*;

use crate::json::{Datum, Json};
use crate::nexus::{self, digest_valid, principal_valid};
use crate::recall::RecallBudget;
use crate::runtime::{RuntimePin, RuntimePins};
use crate::text;

pub mod context;
pub mod dealings;
pub mod details;
pub mod dispatch;
pub mod drive;
pub mod gate;
pub mod journal;
pub mod laws;
pub mod native;
pub mod preparing;
pub mod reading;
pub mod ready;
pub mod request;
pub mod send;
pub mod service;
pub mod steps;
pub mod written;
pub mod inbox;

verus! {

pub const FORMAT: &'static str = "anda-brain:action-v1";

/// Why action work was refused.
#[derive(Clone, Copy, Debug, PartialEq, Eq, Structural)]
pub enum ActionError {
    InvalidBudget,
    InvalidLimits,
    InvalidPins,
    InvalidClarification,
    InvalidLookup,
    InvalidReferenceIdentity,
    JournalMismatch,
    IncompletePage,
    ByteBudget,
    InvalidReference,
    ReferenceUnavailable,
    ReferenceUnreadable,
    BeliefNeedsProposition,
    BeliefUnavailable,
    InvalidContext,
    BasisSequenceMissing,
    InvalidCommitmentPage,
    CommitmentReferenceMissing,
    PrerequisitesInsufficient,
    BasisChanged,
    ContextChanged,
    ReceiptUnverified,
    UsedMemoryChanged,
    ClarificationBindingMissing,
    CommitTooLarge,
    NoPreparedCommit,
    ReceiptLacksOutputs,
    InvalidOutput,
    PreparationMissing,
    OutputsIncomplete,
    NoPreparedParent,
    ParentConfiguration,
    ParentNotCommitted,
    DispatchParentMissing,
    AnswerParentMissing,
    AnswerPreparationMissing,
    ReplyCorrelation,
    ClarificationParentMissing,
    ClarificationPreparationMissing,
    NotAnAsk,
    AskDecisionUnavailable,
    RecipientMissing,
    DeadlineMissing,
    QuestionUnavailable,
    DispatchPreparationMissing,
    NoFixedRequest,
    NoCommittedAttempt,
    RequestDiffers,
    CorrelationMissing,
    DispatchReferenceMissing,
    NativeReferenceMissing,
    AttemptChanged,
    NoLiveLease,
    UnsupportedResult,
    SwitchScope,
    IsolatedEnable,
    Unauthenticated,
    ObserverDiffers,
    ReplyMismatch,
    ClarificationUnavailable,
    InvalidResponse,
    AskDecisionMissing,
    ResponseConflict,
    DeadlinePassed,
    IsolatedRetry,
    CannotRetry,
    NoRetainedWork,
    RetryCounter,
    IsolatedRun,
    PinsChanged,
    JournalConfiguration,
    BindingUnavailable,
    Undigestible,
    OutOfTurn,
}

impl ActionError {
    /// The words of the error. Where the engine refuses a value, they name what was
    /// refused, in the library's own words.
    pub open spec fn words(self) -> Seq<char> {
        match self {
            ActionError::InvalidBudget => "invalid recall budget"@,
            ActionError::InvalidLimits => "invalid bounded action limits"@,
            ActionError::InvalidPins => "action configuration requires bounded versioned pins"@,
            ActionError::InvalidClarification =>
                "clarification requires an authenticated recipient and bounded deadline"@,
            ActionError::InvalidLookup => "lookup observer must pin this adapter set"@,
            ActionError::InvalidReferenceIdentity => "invalid element identity"@,
            ActionError::JournalMismatch => "action journal identity/format mismatch"@,
            ActionError::IncompletePage => "required action read has incomplete page coverage"@,
            ActionError::ByteBudget => "action read exceeds byte budget"@,
            ActionError::InvalidReference => "invalid action reference"@,
            ActionError::ReferenceUnavailable => "action reference unavailable"@,
            ActionError::ReferenceUnreadable => "action reference is not fully readable"@,
            ActionError::BeliefNeedsProposition => "BELIEF requires a Proposition"@,
            ActionError::BeliefUnavailable => "native belief coordinate unavailable"@,
            ActionError::InvalidContext => "invalid bounded gate context"@,
            ActionError::BasisSequenceMissing => "native basis sequence missing"@,
            ActionError::InvalidCommitmentPage => "invalid commitment page"@,
            ActionError::CommitmentReferenceMissing => "commitment reference missing"@,
            ActionError::PrerequisitesInsufficient =>
                "current action prerequisites are insufficient"@,
            ActionError::BasisChanged => "action basis changed"@,
            ActionError::ContextChanged => "action context or required constraints changed"@,
            ActionError::ReceiptUnverified =>
                "action requires a verified bounded delivery receipt"@,
            ActionError::UsedMemoryChanged =>
                "used memory was not delivered or its content changed"@,
            ActionError::ClarificationBindingMissing => "clarification binding missing"@,
            ActionError::CommitTooLarge => "gate commit exceeds native byte budget"@,
            ActionError::NoPreparedCommit => "gate has no prepared commit"@,
            ActionError::ReceiptLacksOutputs => "native gate receipt lacks outputs"@,
            ActionError::InvalidOutput => "invalid gate output"@,
            ActionError::PreparationMissing => "gate preparation missing"@,
            ActionError::OutputsIncomplete => "gate receipt outputs are incomplete"@,
            ActionError::NoPreparedParent => "continuation has no prepared parent"@,
            ActionError::ParentConfiguration => "parent journal configuration mismatch"@,
            ActionError::ParentNotCommitted => "parent gate has not committed"@,
            ActionError::DispatchParentMissing => "dispatch parent missing"@,
            ActionError::AnswerParentMissing => "answer parent missing"@,
            ActionError::AnswerPreparationMissing => "answer preparation missing"@,
            ActionError::ReplyCorrelation => "reply correlation mismatch"@,
            ActionError::ClarificationParentMissing => "clarification parent missing"@,
            ActionError::ClarificationPreparationMissing => "clarification preparation missing"@,
            ActionError::NotAnAsk => "clarification must follow an ask decision"@,
            ActionError::AskDecisionUnavailable => "ask decision unavailable"@,
            ActionError::RecipientMissing => "clarification recipient missing"@,
            ActionError::DeadlineMissing => "clarification deadline missing"@,
            ActionError::QuestionUnavailable => "question payload unavailable"@,
            ActionError::DispatchPreparationMissing => "dispatch preparation missing"@,
            ActionError::NoFixedRequest => "dispatch has no fixed request"@,
            ActionError::NoCommittedAttempt => "dispatch has no committed attempt"@,
            ActionError::RequestDiffers =>
                "dispatch journal differs from the native committed request"@,
            ActionError::CorrelationMissing => "clarification correlation missing"@,
            ActionError::DispatchReferenceMissing => "dispatch reference missing"@,
            ActionError::NativeReferenceMissing => "native dispatch reference missing"@,
            ActionError::AttemptChanged => "native attempt identity changed"@,
            ActionError::NoLiveLease => "dispatch lacks live lease"@,
            ActionError::UnsupportedResult => "unsupported native dispatch result"@,
            ActionError::SwitchScope => "action switch scope mismatch"@,
            ActionError::IsolatedEnable => "isolated host cannot enable actions"@,
            ActionError::Unauthenticated =>
                "actions require a directly authenticated host principal"@,
            ActionError::ObserverDiffers =>
                "installed lookup observer differs; explicit host migration required"@,
            ActionError::ReplyMismatch => "clarification reply correlation mismatch"@,
            ActionError::ClarificationUnavailable => "clarification unavailable"@,
            ActionError::InvalidResponse => "invalid authenticated clarification response"@,
            ActionError::AskDecisionMissing => "ask decision missing"@,
            ActionError::ResponseConflict => "clarification response idempotency conflict"@,
            ActionError::DeadlinePassed =>
                "clarification deadline passed; answer is not consent"@,
            ActionError::IsolatedRetry => "isolated host cannot retry external work"@,
            ActionError::CannotRetry => "work cannot be retried under this configuration/state"@,
            ActionError::NoRetainedWork => "no retained action work"@,
            ActionError::RetryCounter => "operator retry counter exhausted"@,
            ActionError::IsolatedRun => "isolated host cannot run actions"@,
            ActionError::PinsChanged =>
                "action binding/policy pins changed; re-arm or operator migration required"@,
            ActionError::JournalConfiguration => "action journal configuration mismatch"@,
            ActionError::BindingUnavailable => "action binding unavailable"@,
            ActionError::Undigestible => "value cannot be digested"@,
            ActionError::OutOfTurn => "action work was reported out of turn"@,
        }
    }

    /// What is reported to the operator.
    pub fn message(&self) -> (r: &'static str)
        ensures
            r@ == self.words(),
    {
        match self {
            ActionError::InvalidBudget => "invalid recall budget",
            ActionError::InvalidLimits => "invalid bounded action limits",
            ActionError::InvalidPins => "action configuration requires bounded versioned pins",
            ActionError::InvalidClarification =>
                "clarification requires an authenticated recipient and bounded deadline",
            ActionError::InvalidLookup => "lookup observer must pin this adapter set",
            ActionError::InvalidReferenceIdentity => "invalid element identity",
            ActionError::JournalMismatch => "action journal identity/format mismatch",
            ActionError::IncompletePage => "required action read has incomplete page coverage",
            ActionError::ByteBudget => "action read exceeds byte budget",
            ActionError::InvalidReference => "invalid action reference",
            ActionError::ReferenceUnavailable => "action reference unavailable",
            ActionError::ReferenceUnreadable => "action reference is not fully readable",
            ActionError::BeliefNeedsProposition => "BELIEF requires a Proposition",
            ActionError::BeliefUnavailable => "native belief coordinate unavailable",
            ActionError::InvalidContext => "invalid bounded gate context",
            ActionError::BasisSequenceMissing => "native basis sequence missing",
            ActionError::InvalidCommitmentPage => "invalid commitment page",
            ActionError::CommitmentReferenceMissing => "commitment reference missing",
            ActionError::PrerequisitesInsufficient =>
                "current action prerequisites are insufficient",
            ActionError::BasisChanged => "action basis changed",
            ActionError::ContextChanged => "action context or required constraints changed",
            ActionError::ReceiptUnverified =>
                "action requires a verified bounded delivery receipt",
            ActionError::UsedMemoryChanged =>
                "used memory was not delivered or its content changed",
            ActionError::ClarificationBindingMissing => "clarification binding missing",
            ActionError::CommitTooLarge => "gate commit exceeds native byte budget",
            ActionError::NoPreparedCommit => "gate has no prepared commit",
            ActionError::ReceiptLacksOutputs => "native gate receipt lacks outputs",
            ActionError::InvalidOutput => "invalid gate output",
            ActionError::PreparationMissing => "gate preparation missing",
            ActionError::OutputsIncomplete => "gate receipt outputs are incomplete",
            ActionError::NoPreparedParent => "continuation has no prepared parent",
            ActionError::ParentConfiguration => "parent journal configuration mismatch",
            ActionError::ParentNotCommitted => "parent gate has not committed",
            ActionError::DispatchParentMissing => "dispatch parent missing",
            ActionError::AnswerParentMissing => "answer parent missing",
            ActionError::AnswerPreparationMissing => "answer preparation missing",
            ActionError::ReplyCorrelation => "reply correlation mismatch",
            ActionError::ClarificationParentMissing => "clarification parent missing",
            ActionError::ClarificationPreparationMissing => "clarification preparation missing",
            ActionError::NotAnAsk => "clarification must follow an ask decision",
            ActionError::AskDecisionUnavailable => "ask decision unavailable",
            ActionError::RecipientMissing => "clarification recipient missing",
            ActionError::DeadlineMissing => "clarification deadline missing",
            ActionError::QuestionUnavailable => "question payload unavailable",
            ActionError::DispatchPreparationMissing => "dispatch preparation missing",
            ActionError::NoFixedRequest => "dispatch has no fixed request",
            ActionError::NoCommittedAttempt => "dispatch has no committed attempt",
            ActionError::RequestDiffers =>
                "dispatch journal differs from the native committed request",
            ActionError::CorrelationMissing => "clarification correlation missing",
            ActionError::DispatchReferenceMissing => "dispatch reference missing",
            ActionError::NativeReferenceMissing => "native dispatch reference missing",
            ActionError::AttemptChanged => "native attempt identity changed",
            ActionError::NoLiveLease => "dispatch lacks live lease",
            ActionError::UnsupportedResult => "unsupported native dispatch result",
            ActionError::SwitchScope => "action switch scope mismatch",
            ActionError::IsolatedEnable => "isolated host cannot enable actions",
            ActionError::Unauthenticated =>
                "actions require a directly authenticated host principal",
            ActionError::ObserverDiffers =>
                "installed lookup observer differs; explicit host migration required",
            ActionError::ReplyMismatch => "clarification reply correlation mismatch",
            ActionError::ClarificationUnavailable => "clarification unavailable",
            ActionError::InvalidResponse => "invalid authenticated clarification response",
            ActionError::AskDecisionMissing => "ask decision missing",
            ActionError::ResponseConflict => "clarification response idempotency conflict",
            ActionError::DeadlinePassed =>
                "clarification deadline passed; answer is not consent",
            ActionError::IsolatedRetry => "isolated host cannot retry external work",
            ActionError::CannotRetry => "work cannot be retried under this configuration/state",
            ActionError::NoRetainedWork => "no retained action work",
            ActionError::RetryCounter => "operator retry counter exhausted",
            ActionError::IsolatedRun => "isolated host cannot run actions",
            ActionError::PinsChanged =>
                "action binding/policy pins changed; re-arm or operator migration required",
            ActionError::JournalConfiguration => "action journal configuration mismatch",
            ActionError::BindingUnavailable => "action binding unavailable",
            ActionError::Undigestible => "value cannot be digested",
            ActionError::OutOfTurn => "action work was reported out of turn",
        }
    }
}

// ---------------------------------------------------------------------------
// Limits and bindings
// ---------------------------------------------------------------------------

/// The budgets of action work.
#[derive(Debug)]
pub struct ActionLimits {
    pub recall: RecallBudget,
    pub callbacks_ms: u64,
    pub lease_ms: u64,
    pub retry_ms: u64,
    pub max_retries: u32,
    pub per_pass: usize,
    pub proposal_tokens: usize,
}

impl ActionLimits {
    /// The default limits, under a recall budget.
    pub fn with_recall(recall: RecallBudget) -> (r: ActionLimits)
        ensures
            r == (ActionLimits {
                recall,
                callbacks_ms: 5_000,
                lease_ms: 60_000,
                retry_ms: 60_000,
                max_retries: 3,
                per_pass: 2,
                proposal_tokens: 2_048,
            }),
            recall.valid() ==> r.valid(),
    {
        ActionLimits {
            recall,
            callbacks_ms: 5_000,
            lease_ms: 60_000,
            retry_ms: 60_000,
            max_retries: 3,
            per_pass: 2,
            proposal_tokens: 2_048,
        }
    }

    /// Every bound is respected; a lease outlives the callbacks that it covers.
    pub open spec fn bounded(self) -> bool {
        &&& 1 <= self.callbacks_ms <= 30_000
        &&& 1_000 <= self.lease_ms <= 300_000
        &&& self.lease_ms > 4 * self.callbacks_ms
        &&& 1 <= self.retry_ms <= 3_600_000
        &&& self.max_retries <= 16
        &&& 1 <= self.per_pass <= 20
        &&& 1 <= self.proposal_tokens <= 8_192
    }

    pub open spec fn valid(self) -> bool {
        self.recall.valid() && self.bounded()
    }

    pub fn validate(&self) -> (r: Result<(), ActionError>)
        ensures
            r == if !self.recall.valid() {
                Err::<(), ActionError>(ActionError::InvalidBudget)
            } else if !self.bounded() {
                Err::<(), ActionError>(ActionError::InvalidLimits)
            } else {
                Ok::<(), ActionError>(())
            },
    {
        if self.recall.validate().is_err() {
            return Err(ActionError::InvalidBudget);
        }
        if 1 <= self.callbacks_ms && self.callbacks_ms <= 30_000 && 1_000 <= self.lease_ms
            && self.lease_ms <= 300_000 && self.lease_ms > 4 * self.callbacks_ms && 1
            <= self.retry_ms && self.retry_ms <= 3_600_000 && self.max_retries <= 16 && 1
            <= self.per_pass && self.per_pass <= 20 && 1 <= self.proposal_tokens
            && self.proposal_tokens <= 8_192 {
            Ok(())
        } else {
            Err(ActionError::InvalidLimits)
        }
    }

    pub open spec fn value(self) -> Datum {
        Datum::empty().with("recall"@, self.recall.value()).with(
            "callbacks_ms"@,
            Datum::Unsigned(self.callbacks_ms),
        ).with("lease_ms"@, Datum::Unsigned(self.lease_ms)).with(
            "retry_ms"@,
            Datum::Unsigned(self.retry_ms),
        ).with("max_retries"@, Datum::Unsigned(self.max_retries as u64)).with(
            "per_pass"@,
            Datum::Unsigned(self.per_pass as u64),
        ).with("proposal_tokens"@, Datum::Unsigned(self.proposal_tokens as u64))
    }

    pub fn to_json(&self) -> (r: Json)
        ensures
            r@ == self.value(),
            self.bounded() ==> nexus::portable(r@, 2),
    {
        let recall = self.recall.to_json();
        let r = Json::object().with("recall", recall.copy()).with(
            "callbacks_ms",
            Json::unsigned(self.callbacks_ms),
        ).with("lease_ms", Json::unsigned(self.lease_ms)).with(
            "retry_ms",
            Json::unsigned(self.retry_ms),
        ).with("max_retries", Json::unsigned(self.max_retries as u64)).with(
            "per_pass",
            Json::unsigned(self.per_pass as u64),
        ).with("proposal_tokens", Json::unsigned(self.proposal_tokens as u64));
        proof {
            if self.bounded() {
                limits_are_portable(*self);
            }
        }
        r
    }
}

proof fn limits_are_portable(limits: ActionLimits)
    requires
        limits.bounded(),
        nexus::portable(limits.recall.value(), 1),
    ensures
        nexus::portable(limits.value(), 2),
{
    let a = Datum::empty();
    nexus::a_member_keeps_portable(a, "recall"@, limits.recall.value(), 2);
    let b = a.with("recall"@, limits.recall.value());
    nexus::a_member_keeps_portable(b, "callbacks_ms"@, Datum::Unsigned(limits.callbacks_ms), 2);
    let c = b.with("callbacks_ms"@, Datum::Unsigned(limits.callbacks_ms));
    nexus::a_member_keeps_portable(c, "lease_ms"@, Datum::Unsigned(limits.lease_ms), 2);
    let d = c.with("lease_ms"@, Datum::Unsigned(limits.lease_ms));
    nexus::a_member_keeps_portable(d, "retry_ms"@, Datum::Unsigned(limits.retry_ms), 2);
    let e = d.with("retry_ms"@, Datum::Unsigned(limits.retry_ms));
    nexus::a_member_keeps_portable(
        e,
        "max_retries"@,
        Datum::Unsigned(limits.max_retries as u64),
        2,
    );
    let f = e.with("max_retries"@, Datum::Unsigned(limits.max_retries as u64));
    nexus::a_member_keeps_portable(f, "per_pass"@, Datum::Unsigned(limits.per_pass as u64), 2);
    let g = f.with("per_pass"@, Datum::Unsigned(limits.per_pass as u64));
    nexus::a_member_keeps_portable(
        g,
        "proposal_tokens"@,
        Datum::Unsigned(limits.proposal_tokens as u64),
        2,
    );
}

/// The channel that questions are asked over.
#[derive(Debug)]
pub struct ClarificationBinding {
    /// The authenticated recipient; suggestions cannot select another account.
    pub recipient_principal: String,
    pub reply_timeout_ms: u64,
    /// The channel's target has a verified idempotency contract.
    pub idempotency: bool,
}

/// Who may say what became of a dispatch.
#[derive(Debug)]
pub struct LookupObserver {
    pub binding: RuntimePin,
    pub principal_id: String,
    pub configuration_digest: String,
}

impl LookupObserver {
    pub open spec fn value(self) -> Datum {
        Datum::empty().with("binding"@, self.binding.value()).with(
            "principal_id"@,
            Datum::Text(self.principal_id@),
        ).with("configuration_digest"@, Datum::Text(self.configuration_digest@))
    }

    pub fn to_json(&self) -> (r: Json)
        ensures
            r@ == self.value(),
            nexus::portable(r@, 2),
    {
        let binding = pin_json(&self.binding);
        let a = nexus::put(Json::object(), "binding", binding, Ghost(2));
        let b = nexus::put(a, "principal_id", Json::text(self.principal_id.as_str()), Ghost(2));
        nexus::put(
            b,
            "configuration_digest",
            Json::text(self.configuration_digest.as_str()),
            Ghost(2),
        )
    }
}

fn pin_json(pin: &RuntimePin) -> (r: Json)
    ensures
        r@ == pin.value(),
        nexus::portable(r@, 1),
{
    let a = nexus::put(Json::object(), "id", Json::text(pin.id.as_str()), Ghost(1));
    nexus::put(a, "digest", Json::text(pin.digest.as_str()), Ghost(1))
}

/// What the host has installed. The adapters and all destinations belong to the
/// host; a model never provides them.
#[derive(Debug)]
pub struct ActionBindings {
    pub policy_pin: RuntimePin,
    /// Pins the complete adapter set, targets included.
    pub binding_pin: RuntimePin,
    /// Whether there is a business adapter, and if so, whether its target has a
    /// verified idempotency contract.
    pub business: Option<bool>,
    pub clarification: Option<ClarificationBinding>,
    pub lookup: Option<LookupObserver>,
    pub limits: ActionLimits,
}

pub open spec fn is_bounded_pin(pin: RuntimePin) -> bool {
    &&& pin.id@.len() > 0
    &&& text::utf8_len(pin.id@) <= 256
    &&& nexus::is_digest(pin.digest@)
}

fn bounded_pin(pin: &RuntimePin) -> (r: bool)
    ensures
        r == is_bounded_pin(*pin),
{
    pin.id.as_str().unicode_len() > 0 && text::byte_len(pin.id.as_str()) <= 256 && digest_valid(
        pin.digest.as_str(),
    )
}

impl ClarificationBinding {
    pub open spec fn valid(self) -> bool {
        &&& nexus::is_principal(self.recipient_principal@)
        &&& 1 <= self.reply_timeout_ms <= 604_800_000
    }
}

impl ActionBindings {
    pub open spec fn refused(self) -> Option<ActionError> {
        if !self.limits.recall.valid() {
            Some(ActionError::InvalidBudget)
        } else if !self.limits.bounded() {
            Some(ActionError::InvalidLimits)
        } else if !is_bounded_pin(self.policy_pin) || !is_bounded_pin(self.binding_pin) {
            Some(ActionError::InvalidPins)
        } else if self.clarification matches Some(c) && !c.valid() {
            Some(ActionError::InvalidClarification)
        } else if self.lookup matches Some(l) && !(l.binding.same_as(self.binding_pin)
            && nexus::is_principal(l.principal_id@) && nexus::is_digest(l.configuration_digest@)) {
            Some(ActionError::InvalidLookup)
        } else {
            None
        }
    }

    pub fn validate(&self) -> (r: Result<(), ActionError>)
        ensures
            match r {
                Ok(()) => self.refused() is None,
                Err(e) => self.refused() == Some(e),
            },
    {
        if let Err(e) = self.limits.validate() {
            return Err(e);
        }
        if !bounded_pin(&self.policy_pin) || !bounded_pin(&self.binding_pin) {
            return Err(ActionError::InvalidPins);
        }
        if let Some(c) = &self.clarification {
            if !principal_valid(c.recipient_principal.as_str()) || c.reply_timeout_ms < 1
                || c.reply_timeout_ms > 604_800_000 {
                return Err(ActionError::InvalidClarification);
            }
        }
        if let Some(l) = &self.lookup {
            if !l.binding.same(&self.binding_pin) || !principal_valid(l.principal_id.as_str())
                || !digest_valid(l.configuration_digest.as_str()) {
                return Err(ActionError::InvalidLookup);
            }
        }
        Ok(())
    }

    pub open spec fn idempotency_value(self) -> Datum {
        match self.business {
            Some(idempotent) => Datum::Bool(idempotent),
            None => Datum::Null,
        }
    }

    pub open spec fn clarification_value(self) -> Datum {
        match self.clarification {
            Some(c) => Datum::empty().with("recipient"@, Datum::Text(c.recipient_principal@)).with(
                "timeout_ms"@,
                Datum::Unsigned(c.reply_timeout_ms),
            ).with("idempotency"@, Datum::Bool(c.idempotency)),
            None => Datum::Null,
        }
    }

    pub open spec fn lookup_value(self) -> Datum {
        match self.lookup {
            Some(l) => l.value(),
            None => Datum::Null,
        }
    }

    /// Everything that the configuration is made of.
    pub open spec fn manifest_value(self) -> Datum {
        Datum::empty().with("format"@, Datum::Text(FORMAT@)).with(
            "policy"@,
            self.policy_pin.value(),
        ).with("binding"@, self.binding_pin.value()).with("limits"@, self.limits.value()).with(
            "business"@,
            Datum::Bool(self.business is Some),
        ).with("business_idempotency"@, self.idempotency_value()).with(
            "clarification"@,
            self.clarification_value(),
        ).with("lookup"@, self.lookup_value())
    }

    /// The configuration as it is pinned and stored with every request.
    pub fn manifest(&self) -> (r: Json)
        ensures
            r@ == self.manifest_value(),
    {
        let idempotency = match self.business {
            Some(idempotent) => Json::Bool(idempotent),
            None => Json::Null,
        };
        let clarification = match &self.clarification {
            Some(c) => Json::object().with(
                "recipient",
                Json::text(c.recipient_principal.as_str()),
            ).with("timeout_ms", Json::unsigned(c.reply_timeout_ms)).with(
                "idempotency",
                Json::Bool(c.idempotency),
            ),
            None => Json::Null,
        };
        let lookup = match &self.lookup {
            Some(l) => l.to_json(),
            None => Json::Null,
        };
        Json::object().with("format", Json::text(FORMAT)).with(
            "policy",
            self.policy_pin.to_json(),
        ).with("binding", self.binding_pin.to_json()).with("limits", self.limits.to_json()).with(
            "business",
            Json::Bool(self.business.is_some()),
        ).with("business_idempotency", idempotency).with("clarification", clarification).with(
            "lookup",
            lookup,
        )
    }

    /// The pins of this configuration: the policy's digest covers the whole
    /// manifest.
    pub fn pins(&self) -> (r: RuntimePins)
        requires
            self.refused() is None,
        ensures
            r.policy.id@ == self.policy_pin.id@,
            nexus::digest_of(self.manifest_value()) == Some(r.policy.digest@),
            r.evaluator is None,
            r.binding == Some(self.binding_pin),
    {
        let manifest = self.manifest();
        proof {
            self.manifest_is_portable();
        }
        RuntimePins {
            policy: RuntimePin {
                id: self.policy_pin.id.clone(),
                digest: nexus::json_digest(&manifest),
            },
            evaluator: None,
            binding: Some(self.binding_pin.copy()),
        }
    }

    proof fn manifest_is_portable(self)
        requires
            self.refused() is None,
        ensures
            nexus::portable(self.manifest_value(), 100),
    {
        pin_is_portable(self.policy_pin);
        pin_is_portable(self.binding_pin);
        budget_is_portable(self.limits.recall);
        limits_are_portable(self.limits);
        nexus::portable_with_more_room(self.policy_pin.value(), 1, 99);
        nexus::portable_with_more_room(self.binding_pin.value(), 1, 99);
        nexus::portable_with_more_room(self.limits.value(), 2, 99);
        let a = Datum::empty();
        nexus::a_member_keeps_portable(a, "format"@, Datum::Text(FORMAT@), 100);
        let b = a.with("format"@, Datum::Text(FORMAT@));
        nexus::a_member_keeps_portable(b, "policy"@, self.policy_pin.value(), 100);
        let c = b.with("policy"@, self.policy_pin.value());
        nexus::a_member_keeps_portable(c, "binding"@, self.binding_pin.value(), 100);
        let d = c.with("binding"@, self.binding_pin.value());
        nexus::a_member_keeps_portable(d, "limits"@, self.limits.value(), 100);
        let e = d.with("limits"@, self.limits.value());
        nexus::a_member_keeps_portable(e, "business"@, Datum::Bool(self.business is Some), 100);
        let f = e.with("business"@, Datum::Bool(self.business is Some));
        nexus::a_member_keeps_portable(f, "business_idempotency"@, self.idempotency_value(), 100);
        let g = f.with("business_idempotency"@, self.idempotency_value());
        if let Some(c) = self.clarification {
            let x = Datum::empty();
            nexus::a_member_keeps_portable(x, "recipient"@, Datum::Text(c.recipient_principal@), 1);
            let y = x.with("recipient"@, Datum::Text(c.recipient_principal@));
            nexus::a_member_keeps_portable(y, "timeout_ms"@, Datum::Unsigned(c.reply_timeout_ms), 1);
            let z = y.with("timeout_ms"@, Datum::Unsigned(c.reply_timeout_ms));
            nexus::a_member_keeps_portable(z, "idempotency"@, Datum::Bool(c.idempotency), 1);
            nexus::portable_with_more_room(self.clarification_value(), 1, 99);
        }
        nexus::a_member_keeps_portable(g, "clarification"@, self.clarification_value(), 100);
        let h = g.with("clarification"@, self.clarification_value());
        if let Some(l) = self.lookup {
            pin_is_portable(l.binding);
            let x = Datum::empty();
            nexus::a_member_keeps_portable(x, "binding"@, l.binding.value(), 2);
            let y = x.with("binding"@, l.binding.value());
            nexus::a_member_keeps_portable(y, "principal_id"@, Datum::Text(l.principal_id@), 2);
            let z = y.with("principal_id"@, Datum::Text(l.principal_id@));
            nexus::a_member_keeps_portable(
                z,
                "configuration_digest"@,
                Datum::Text(l.configuration_digest@),
                2,
            );
            nexus::portable_with_more_room(l.value(), 2, 99);
        }
        nexus::a_member_keeps_portable(h, "lookup"@, self.lookup_value(), 100);
    }
}

proof fn pin_is_portable(pin: RuntimePin)
    ensures
        nexus::portable(pin.value(), 1),
{
    let a = Datum::empty();
    nexus::a_member_keeps_portable(a, "id"@, Datum::Text(pin.id@), 1);
    nexus::a_member_keeps_portable(
        a.with("id"@, Datum::Text(pin.id@)),
        "digest"@,
        Datum::Text(pin.digest@),
        1,
    );
}

proof fn budget_is_portable(budget: RecallBudget)
    ensures
        nexus::portable(budget.value(), 1),
{
    let a = Datum::empty();
    nexus::a_member_keeps_portable(a, "tokenizer"@, Datum::Text(budget.tokenizer@), 1);
    let b = a.with("tokenizer"@, Datum::Text(budget.tokenizer@));
    nexus::a_member_keeps_portable(b, "max_tokens"@, Datum::Unsigned(budget.max_tokens as u64), 1);
    let c = b.with("max_tokens"@, Datum::Unsigned(budget.max_tokens as u64));
    nexus::a_member_keeps_portable(
        c,
        "context_tokens"@,
        Datum::Unsigned(budget.context_tokens as u64),
        1,
    );
}

} // verus!
