//! Wakes: the native units of attention work.

use vstd::prelude::*;

use crate::runtime::{RuntimePins, RuntimeScope};

verus! {

/// The one native memory space of a Brain.
pub const DEFAULT_SPACE: &'static str = "kip:space:default";

/// The longest wait that is ever added to the present: a week.
pub const MAX_DELAY_MS: u64 = 604_800_000;

/// When a blocked wake may run again.
#[derive(Debug)]
pub enum WakeResume {
    At { not_before_ms: u64 },
    OnChange { condition_digest: String },
}

#[derive(Debug)]
pub struct WakeLease {
    pub owner: String,
    pub expires_at_ms: u64,
}

/// Where a wake stands.
#[derive(Debug)]
pub enum WakeState {
    Pending { not_before_ms: u64 },
    Running { lease: WakeLease },
    Blocked { reason: String, resume: WakeResume },
    Completed { receipt_ref: String },
    Cancelled { receipt_ref: String },
}

/// One wake as it is read from the engine.
#[derive(Debug)]
pub struct WakeRecord {
    pub scope: RuntimeScope,
    pub wake_ref: String,
    pub watch_ref: String,
    pub fire_activity_ref: String,
    pub pins: RuntimePins,
    pub version: u64,
    pub fence: u64,
    pub state: WakeState,
    pub parent_ref: Option<String>,
    pub continuation_key: Option<String>,
}

impl WakeState {
    /// The wake has come to its end.
    pub open spec fn ended(self) -> bool {
        self is Completed || self is Cancelled
    }

    pub fn has_ended(&self) -> (r: bool)
        ensures
            r == self.ended(),
    {
        match self {
            WakeState::Completed { .. } => true,
            WakeState::Cancelled { .. } => true,
            _ => false,
        }
    }

    /// The wake waits for a time that has not come.
    pub open spec fn waits(self, now: u64) -> bool {
        self matches WakeState::Pending { not_before_ms } && not_before_ms > now
    }

    pub fn is_waiting(&self, now: u64) -> (r: bool)
        ensures
            r == self.waits(now),
    {
        match self {
            WakeState::Pending { not_before_ms } => *not_before_ms > now,
            _ => false,
        }
    }
}

/// A wake has ended once it was completed or cancelled; it waits only while it is pending for
/// a later time.
pub proof fn wakes_end_or_wait(state: WakeState, now: u64)
    ensures
        state.ended() <==> state is Completed || state is Cancelled,
        state.waits(now) <==> state is Pending && state->Pending_not_before_ms > now,
        state.ended() ==> !state.waits(now),
{
}

} // verus!
