//! What action work leaves behind between its steps.

use vstd::prelude::*;

use super::context::Capture;
use super::request::{
    ActionRequest, ActionStatus, ClarificationResponse, DeliveryStatus, Status,
};
use super::{ActionError, FORMAT};
use crate::json::Json;
use crate::runtime::{RuntimePins, RuntimeScope};
use crate::text;
use crate::wake::WakeRecord;

verus! {

/// A wake that the completion of another one creates.
#[derive(Debug)]
pub struct WakeContinuation {
    pub key: String,
    pub not_before_ms: u64,
}

pub open spec fn continuations(list: Seq<WakeContinuation>) -> Seq<(Seq<char>, u64)> {
    list.map_values(|c: WakeContinuation| (c.key@, c.not_before_ms))
}

/// A decision that is ready to be committed.
#[derive(Debug)]
pub struct PreparedGate {
    pub command: String,
    pub continuations: Vec<WakeContinuation>,
    /// The version and the fence of the wake that it was prepared for.
    pub expected: u64,
    pub fence: u64,
    pub decision: String,
    pub capture: Capture,
    pub request: Option<ActionRequest>,
    pub recipient: Option<String>,
    pub reply_deadline_ms: Option<u64>,
    pub clarification_payload: Option<Json>,
}

/// The most rounds of one piece of work, and the most outputs of one commit.
pub const MAX_ROUNDS: u32 = 17;

pub const MAX_OUTPUTS: usize = 128;

/// The retained work of one wake.
#[derive(Debug)]
pub struct Job {
    pub format: String,
    pub scope: RuntimeScope,
    pub pins: RuntimePins,
    pub wake_ref: String,
    pub rounds: u32,
    pub failures: u32,
    pub status: ActionStatus,
    pub prepared: Option<PreparedGate>,
    pub outputs: Vec<String>,
    pub delivery: Option<DeliveryStatus>,
}

impl Job {
    /// Nothing has been done yet.
    pub open spec fn is_new(self, wake: WakeRecord, rounds: u32) -> bool {
        &&& self.format@ == FORMAT@
        &&& self.scope == wake.scope
        &&& self.pins == wake.pins
        &&& self.wake_ref == wake.wake_ref
        &&& self.rounds == rounds
        &&& self.failures == 0
        &&& self.status@ == Status::bare(wake.wake_ref@, "pending"@)
        &&& self.prepared is None
        &&& self.outputs@.len() == 0
        &&& self.delivery is None
    }

    pub fn new(wake: &WakeRecord, rounds: u32) -> (r: Job)
        ensures
            r.is_new(*wake, rounds),
            rounds <= MAX_ROUNDS ==> r.belongs_to(wake.scope, wake.wake_ref@),
    {
        Job {
            format: FORMAT.to_owned(),
            scope: wake.scope.copy(),
            pins: wake.pins.copy(),
            wake_ref: wake.wake_ref.clone(),
            rounds,
            failures: 0,
            status: ActionStatus::bare(wake.wake_ref.as_str(), "pending"),
            prepared: None,
            outputs: Vec::new(),
            delivery: None,
        }
    }

    /// The journal is that of the wake, and bounded.
    pub open spec fn belongs_to(self, scope: RuntimeScope, reference: Seq<char>) -> bool {
        &&& self.format@ == FORMAT@
        &&& self.scope.same_as(scope)
        &&& self.wake_ref@ == reference
        &&& self.rounds <= MAX_ROUNDS
        &&& self.outputs@.len() <= MAX_OUTPUTS
    }

    pub fn validate(&self, scope: &RuntimeScope, reference: &str) -> (r: Result<(), ActionError>)
        ensures
            r == if self.belongs_to(*scope, reference@) {
                Ok::<(), ActionError>(())
            } else {
                Err::<(), ActionError>(ActionError::JournalMismatch)
            },
    {
        if text::same(self.format.as_str(), FORMAT) && self.scope.same(scope) && text::same(
            self.wake_ref.as_str(),
            reference,
        ) && self.rounds <= MAX_ROUNDS && self.outputs.len() <= MAX_OUTPUTS {
            Ok(())
        } else {
            Err(ActionError::JournalMismatch)
        }
    }

    /// The decision that was prepared.
    pub fn decision(&self) -> (r: Result<String, ActionError>)
        ensures
            match (r, self.prepared) {
                (Ok(d), Some(p)) => d@ == p.decision@,
                (Err(e), None) => e == ActionError::PreparationMissing,
                _ => false,
            },
    {
        match &self.prepared {
            Some(p) => Ok(p.decision.clone()),
            None => Err(ActionError::PreparationMissing),
        }
    }
}

/// An answer as it was received.
#[derive(Debug)]
pub struct Reply {
    pub scope: RuntimeScope,
    pub gate_wake_ref: String,
    pub principal: String,
    pub received_ms: u64,
    pub response: ClarificationResponse,
}

impl Reply {
    /// The answer belongs to the question, comes from its recipient, and came in
    /// time.
    pub open spec fn answers(
        self,
        scope: RuntimeScope,
        gate: Seq<char>,
        recipient: Seq<char>,
        deadline: u64,
    ) -> bool {
        &&& self.scope.same_as(scope)
        &&& self.gate_wake_ref@ == gate
        &&& self.principal@ == recipient
        &&& self.received_ms < deadline
    }

    pub fn is_answer(
        &self,
        scope: &RuntimeScope,
        gate: &str,
        recipient: &str,
        deadline: u64,
    ) -> (r: bool)
        ensures
            r == self.answers(*scope, gate@, recipient@, deadline),
    {
        self.scope.same(scope) && text::same(self.gate_wake_ref.as_str(), gate) && text::same(
            self.principal.as_str(),
            recipient,
        ) && self.received_ms < deadline
    }
}

/// Who owns one logical operation.
#[derive(Debug)]
pub struct Dedup {
    pub scope: RuntimeScope,
    pub pins: RuntimePins,
    pub owner: String,
    pub request_digest: String,
}

/// Whether actions run in a Space.
#[derive(Debug)]
pub struct Switch {
    pub scope: RuntimeScope,
    pub enabled: bool,
}

/// Whether a question was answered: an answer that does not correlate is an
/// error, never a missing answer.
pub fn answered(
    reply: &Option<Reply>,
    scope: &RuntimeScope,
    gate: &str,
    recipient: &str,
    deadline: u64,
) -> (r: Result<bool, ActionError>)
    ensures
        r == match reply {
            None => Ok::<bool, ActionError>(false),
            Some(own) => if own.answers(*scope, gate@, recipient@, deadline) {
                Ok::<bool, ActionError>(true)
            } else {
                Err::<bool, ActionError>(ActionError::ReplyMismatch)
            },
        },
{
    match reply {
        None => Ok(false),
        Some(own) => if own.is_answer(scope, gate, recipient, deadline) {
            Ok(true)
        } else {
            Err(ActionError::ReplyMismatch)
        },
    }
}

} // verus!
