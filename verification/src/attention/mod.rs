//! Durable discovery and bounded attention work. The directory is a hint, not
//! cognitive truth or execution authority; one live host owns each shard.

use vstd::prelude::*;

use crate::nexus::MAX_SAFE_INTEGER;
use crate::runtime::{RuntimePins, RuntimeScope};
use crate::tally::Tally;
use crate::text;

pub mod catalog;
pub mod expiry;
pub mod keeping;
pub mod laws;
pub mod rounds;
pub mod scan;
pub mod semantic;
pub mod status;
pub mod sweep;
pub mod work;

verus! {

pub const FORMAT: &'static str = "anda-brain:attention-v1";

pub const DIRECTORY_FORMAT: &'static str = "anda-brain:attention-directory-v1";

/// No counter of a registration goes beyond this.
pub const MAX_COUNTER: u64 = MAX_SAFE_INTEGER;

/// The most slots that a directory allocates.
pub const MAX_SLOTS: u64 = 1_000_000;

/// The most rechecks that one entry retains.
pub const MAX_RECHECKS: usize = 128;

/// Why an attention operation was refused.
#[derive(Clone, Copy, Debug, PartialEq, Eq, Structural)]
pub enum AttentionError {
    InvalidPolicy,
    InvalidSpaceId,
    InvalidEntry,
    CounterExhausted,
    InstanceMismatch,
    DirectoryFull,
    InvalidRoot,
    InvalidCoordinate,
    RegistrationMissing,
    InvalidSlot,
    SlotMismatch,
    InvalidRecheck,
    RecheckQueueFull,
    RecheckUnavailable,
    BasisSpaceMismatch,
    InvalidTimestamp,
    IsolatedHost,
    ConfigurationMissing,
    ConfigurationChanged,
    GenerationMissing,
    DatabaseInstanceMismatch,
    ActionConfigurationChanged,
    ControllerMismatch,
    EvaluatorChanged,
    ConfigurationConflict,
    MigrationChangesActions,
}

impl AttentionError {
    /// The words of the error. Where the engine refuses a value, they name what was
    /// refused, in the library's own words.
    pub open spec fn words(self) -> Seq<char> {
        match self {
            AttentionError::InvalidPolicy => "invalid bounded attention policy"@,
            AttentionError::InvalidSpaceId => "invalid attention Space ID"@,
            AttentionError::InvalidEntry => "invalid attention directory identity/version"@,
            AttentionError::CounterExhausted => "attention counter exhausted"@,
            AttentionError::InstanceMismatch =>
                "attention instance mismatch; explicit migration required"@,
            AttentionError::DirectoryFull => "attention directory is full"@,
            AttentionError::InvalidRoot => "invalid attention root"@,
            AttentionError::InvalidCoordinate => "invalid attention scan coordinate"@,
            AttentionError::RegistrationMissing => "attention registration missing"@,
            AttentionError::InvalidSlot => "invalid attention slot"@,
            AttentionError::SlotMismatch => "attention slot identity mismatch"@,
            AttentionError::InvalidRecheck => "invalid bounded recheck"@,
            AttentionError::RecheckQueueFull => "recheck queue is full"@,
            AttentionError::RecheckUnavailable => "recheck changed or unavailable"@,
            AttentionError::BasisSpaceMismatch => "projection basis space mismatch"@,
            AttentionError::InvalidTimestamp => "invalid timestamp"@,
            AttentionError::IsolatedHost => "isolated hosts cannot enable automatic attention"@,
            AttentionError::ConfigurationMissing =>
                "registered native attention configuration is missing"@,
            AttentionError::ConfigurationChanged =>
                "attention configuration changed; registered host reconciliation required"@,
            AttentionError::GenerationMissing => "runnable Watch lacks generation"@,
            AttentionError::DatabaseInstanceMismatch => "attention database instance mismatch"@,
            AttentionError::ActionConfigurationChanged =>
                "action configuration changed; explicit native reconfiguration and Watch re-arm required"@,
            AttentionError::ControllerMismatch =>
                "semantic controller must match the action/arming principal"@,
            AttentionError::EvaluatorChanged =>
                "semantic evaluator changed; explicit native reconfiguration and Watch re-arm required"@,
            AttentionError::ConfigurationConflict => "attention configuration CAS changed"@,
            AttentionError::MigrationChangesActions =>
                "evaluator migration cannot change action policy/binding"@,
        }
    }

    /// What is reported to the operator.
    pub fn message(&self) -> (r: &'static str)
        ensures
            r@ == self.words(),
    {
        match self {
            AttentionError::InvalidPolicy => "invalid bounded attention policy",
            AttentionError::InvalidSpaceId => "invalid attention Space ID",
            AttentionError::InvalidEntry => "invalid attention directory identity/version",
            AttentionError::CounterExhausted => "attention counter exhausted",
            AttentionError::InstanceMismatch =>
                "attention instance mismatch; explicit migration required",
            AttentionError::DirectoryFull => "attention directory is full",
            AttentionError::InvalidRoot => "invalid attention root",
            AttentionError::InvalidCoordinate => "invalid attention scan coordinate",
            AttentionError::RegistrationMissing => "attention registration missing",
            AttentionError::InvalidSlot => "invalid attention slot",
            AttentionError::SlotMismatch => "attention slot identity mismatch",
            AttentionError::InvalidRecheck => "invalid bounded recheck",
            AttentionError::RecheckQueueFull => "recheck queue is full",
            AttentionError::RecheckUnavailable => "recheck changed or unavailable",
            AttentionError::BasisSpaceMismatch => "projection basis space mismatch",
            AttentionError::InvalidTimestamp => "invalid timestamp",
            AttentionError::IsolatedHost => "isolated hosts cannot enable automatic attention",
            AttentionError::ConfigurationMissing =>
                "registered native attention configuration is missing",
            AttentionError::ConfigurationChanged =>
                "attention configuration changed; registered host reconciliation required",
            AttentionError::GenerationMissing => "runnable Watch lacks generation",
            AttentionError::DatabaseInstanceMismatch => "attention database instance mismatch",
            AttentionError::ActionConfigurationChanged =>
                "action configuration changed; explicit native reconfiguration and Watch re-arm required",
            AttentionError::ControllerMismatch =>
                "semantic controller must match the action/arming principal",
            AttentionError::EvaluatorChanged =>
                "semantic evaluator changed; explicit native reconfiguration and Watch re-arm required",
            AttentionError::ConfigurationConflict => "attention configuration CAS changed",
            AttentionError::MigrationChangesActions =>
                "evaluator migration cannot change action policy/binding",
        }
    }
}

/// Trusted host configuration. Structured Watch scanning uses no model;
/// separately installed semantic and action bindings carry their own budgets.
#[derive(Clone, Copy, Debug)]
pub struct AttentionPolicy {
    pub enabled: bool,
    pub tick_ms: u64,
    pub spaces_per_tick: usize,
    pub watches_per_space: usize,
    pub changes_per_watch: usize,
    pub wakes_per_space: usize,
    pub wall_time_ms: u64,
    pub reconcile_ms: u64,
    pub blocked_retry_ms: u64,
}

impl AttentionPolicy {
    /// Every bound is respected.
    pub open spec fn valid(self) -> bool {
        &&& 1 <= self.tick_ms <= 60_000
        &&& 1 <= self.spaces_per_tick <= 20
        &&& 1 <= self.watches_per_space <= 20
        &&& 1 <= self.changes_per_watch <= 200
        &&& 1 <= self.wakes_per_space <= 200
        &&& 1 <= self.wall_time_ms <= 30_000
        &&& self.tick_ms <= self.reconcile_ms <= 3_600_000
        &&& self.tick_ms <= self.blocked_retry_ms <= 3_600_000
    }

    /// The default policy, with the page of changes that a Watch reads at once.
    pub fn with_changes_page(changes_per_watch: usize) -> (r: AttentionPolicy)
        ensures
            r == (AttentionPolicy {
                enabled: true,
                tick_ms: 5_000,
                spaces_per_tick: 20,
                watches_per_space: 20,
                changes_per_watch,
                wakes_per_space: 200,
                wall_time_ms: 10_000,
                reconcile_ms: 60_000,
                blocked_retry_ms: 60_000,
            }),
            1 <= changes_per_watch <= 200 ==> r.valid(),
    {
        AttentionPolicy {
            enabled: true,
            tick_ms: 5_000,
            spaces_per_tick: 20,
            watches_per_space: 20,
            changes_per_watch,
            wakes_per_space: 200,
            wall_time_ms: 10_000,
            reconcile_ms: 60_000,
            blocked_retry_ms: 60_000,
        }
    }

    pub fn validate(&self) -> (r: Result<(), AttentionError>)
        ensures
            r == if self.valid() {
                Ok(())
            } else {
                Err::<(), AttentionError>(AttentionError::InvalidPolicy)
            },
    {
        if !(1 <= self.tick_ms && self.tick_ms <= 60_000) || !(1 <= self.spaces_per_tick
            && self.spaces_per_tick <= 20) || !(1 <= self.watches_per_space
            && self.watches_per_space <= 20) || !(1 <= self.changes_per_watch
            && self.changes_per_watch <= 200) || !(1 <= self.wakes_per_space
            && self.wakes_per_space <= 200) || !(1 <= self.wall_time_ms && self.wall_time_ms
            <= 30_000) || !(self.tick_ms <= self.reconcile_ms && self.reconcile_ms <= 3_600_000)
            || !(self.tick_ms <= self.blocked_retry_ms && self.blocked_retry_ms <= 3_600_000) {
            return Err(AttentionError::InvalidPolicy);
        }
        Ok(())
    }
}

/// The versioned registration of one Space. The external identity of the Space
/// is mapped to the native one by the directory entry around it.
#[derive(Debug)]
pub struct Registration {
    pub format: String,
    pub scope: RuntimeScope,
    pub pins: RuntimePins,
    pub version: u64,
    pub shard: u32,
    pub enabled: bool,
    pub dirty_generation: u64,
    pub reconciled_generation: u64,
    pub next_check_ms: u64,
}

/// What one scan of a Space did.
#[derive(Debug)]
pub struct AttentionReport {
    pub actions_processed: usize,
    pub action_states: Tally,
    pub watches_scanned: usize,
    pub advanced: usize,
    pub fired: usize,
    pub expired: usize,
    pub blocked: usize,
    pub blocked_wakes: usize,
    pub blocked_reasons: Tally,
    pub conflicted: usize,
    pub wakes_scanned: usize,
    pub pending: usize,
    pub resumed: usize,
    pub rechecks_due: usize,
    pub scan_complete: bool,
    pub budget_exhausted: bool,
    pub error: Option<String>,
}

impl AttentionReport {
    /// The counts by name are in order, no single count exceeds its total, and
    /// the reasons account for everything that was put off.
    pub open spec fn wf(self) -> bool {
        &&& self.action_states.wf()
        &&& self.blocked_reasons.wf()
        &&& self.blocked_wakes <= self.blocked
        &&& self.blocked_reasons.total() == self.blocked
        &&& forall|reason: Seq<char>| #[trigger]
            self.blocked_reasons.of(reason) <= self.blocked
        &&& forall|state: Seq<char>| #[trigger]
            self.action_states.of(state) <= self.actions_processed
    }

    /// No counter has reached the machine's limit.
    pub open spec fn has_room(self) -> bool {
        &&& self.actions_processed < usize::MAX
        &&& self.watches_scanned < usize::MAX
        &&& self.advanced < usize::MAX
        &&& self.fired < usize::MAX
        &&& self.expired < usize::MAX
        &&& self.blocked < usize::MAX
        &&& self.conflicted < usize::MAX
        &&& self.pending < usize::MAX
        &&& self.resumed < usize::MAX
        &&& self.rechecks_due < usize::MAX
    }

    /// Nothing has been counted.
    pub open spec fn is_empty(self) -> bool {
        &&& self.actions_processed == 0
        &&& self.action_states.counts@.len() == 0
        &&& self.watches_scanned == 0
        &&& self.advanced == 0
        &&& self.fired == 0
        &&& self.expired == 0
        &&& self.blocked == 0
        &&& self.blocked_wakes == 0
        &&& self.blocked_reasons.counts@.len() == 0
        &&& self.conflicted == 0
        &&& self.wakes_scanned == 0
        &&& self.pending == 0
        &&& self.resumed == 0
        &&& self.rechecks_due == 0
        &&& !self.scan_complete
        &&& !self.budget_exhausted
        &&& self.error is None
    }

    pub fn new() -> (r: AttentionReport)
        ensures
            r.is_empty(),
            r.wf(),
            forall|name: Seq<char>| #[trigger] r.action_states.of(name) == 0,
            forall|name: Seq<char>| #[trigger] r.blocked_reasons.of(name) == 0,
    {
        AttentionReport {
            actions_processed: 0,
            action_states: Tally::new(),
            watches_scanned: 0,
            advanced: 0,
            fired: 0,
            expired: 0,
            blocked: 0,
            blocked_wakes: 0,
            blocked_reasons: Tally::new(),
            conflicted: 0,
            wakes_scanned: 0,
            pending: 0,
            resumed: 0,
            rechecks_due: 0,
            scan_complete: false,
            budget_exhausted: false,
            error: None,
        }
    }

    /// One more piece of work was put off for that reason; nothing else changed.
    pub open spec fn deferred(self, after: AttentionReport, reason: Seq<char>, wake: bool) -> bool {
        &&& after == (AttentionReport {
            blocked: (self.blocked + 1) as usize,
            blocked_wakes: (self.blocked_wakes + if wake {
                1int
            } else {
                0
            }) as usize,
            blocked_reasons: after.blocked_reasons,
            ..self
        })
        &&& after.blocked_reasons.of(reason) == self.blocked_reasons.of(reason) + 1
        &&& after.blocked_reasons.total() == self.blocked_reasons.total() + 1
        &&& forall|other: Seq<char>|
            other != reason ==> #[trigger] after.blocked_reasons.of(other)
                == self.blocked_reasons.of(other)
    }

    /// Counts a piece of work that is put off.
    pub fn defer(&mut self, reason: &str, wake: bool)
        requires
            old(self).wf(),
            old(self).blocked < usize::MAX,
        ensures
            final(self).wf(),
            old(self).deferred(*final(self), reason@, wake),
    {
        self.blocked = self.blocked + 1;
        if wake {
            self.blocked_wakes = self.blocked_wakes + 1;
        }
        self.blocked_reasons.bump(reason);
        proof {
            assert forall|other: Seq<char>| #[trigger] self.blocked_reasons.of(other)
                <= self.blocked by {
                if other != reason@ {
                    assert(old(self).blocked_reasons.of(other) <= old(self).blocked);
                } else {
                    assert(old(self).blocked_reasons.of(reason@) <= old(self).blocked);
                }
            }
        }
    }
}

/// The reasons account for everything that was put off: their counts sum to the
/// total, and putting one more piece of work off keeps it so.
pub proof fn reasons_account_for_what_is_put_off(
    before: AttentionReport,
    after: AttentionReport,
    reason: Seq<char>,
    wake: bool,
)
    requires
        before.wf(),
        before.blocked < usize::MAX,
        before.deferred(after, reason, wake),
    ensures
        before.blocked_reasons.total() == before.blocked,
        after.blocked_reasons.total() == after.blocked,
{
}

/// What one tick over the directory did.
#[derive(Clone, Copy, Debug)]
pub struct AttentionTick {
    pub visited: usize,
    pub loaded: usize,
    pub skipped: usize,
    pub failed: usize,
    pub fired: usize,
    pub budget_exhausted: bool,
}

#[derive(Clone, Copy, Debug, PartialEq, Eq, Structural)]
pub enum RecheckSource {
    Defer,
    SkillReview,
    DependencyInvalidation,
}

/// A time at which something has to be looked at again.
#[derive(Debug)]
pub struct Recheck {
    pub key: String,
    pub source: RecheckSource,
    pub due_at_ms: u64,
    pub notified: bool,
}

/// How far a scan of one Space has come.
#[derive(Debug)]
pub struct Checkpoint {
    pub generation: u64,
    pub runnable_after: String,
    pub all_after: String,
    pub wake_cursor: Option<String>,
    pub wake_pending: Vec<String>,
    pub wake_page_cursor: Option<String>,
    pub wake_page_complete: bool,
    pub runnable_done: bool,
    pub all_done: bool,
    pub wakes_done: bool,
    pub next_due_ms: Option<u64>,
    pub running_until_ms: u64,
}

impl Checkpoint {
    /// Nothing of this generation has been scanned; times that fall due may
    /// have been noted.
    pub open spec fn begins(self, generation: u64) -> bool {
        &&& self.generation == generation
        &&& self.runnable_after@.len() == 0
        &&& self.all_after@.len() == 0
        &&& self.wake_cursor is None
        &&& self.wake_pending@.len() == 0
        &&& self.wake_page_cursor is None
        &&& !self.wake_page_complete
        &&& !self.runnable_done
        &&& !self.all_done
        &&& !self.wakes_done
        &&& self.running_until_ms == 0
    }

    /// Nothing of this generation has been scanned or noted.
    pub open spec fn is_start(self, generation: u64) -> bool {
        self.begins(generation) && self.next_due_ms is None
    }

    pub fn start(generation: u64) -> (r: Checkpoint)
        ensures
            r.is_start(generation),
    {
        Checkpoint {
            generation,
            runnable_after: String::new(),
            all_after: String::new(),
            wake_cursor: None,
            wake_pending: Vec::new(),
            wake_page_cursor: None,
            wake_page_complete: false,
            runnable_done: false,
            all_done: false,
            wakes_done: false,
            next_due_ms: None,
            running_until_ms: 0,
        }
    }

    pub open spec fn complete(self) -> bool {
        self.runnable_done && self.all_done && self.wakes_done
    }
}

/// What the directory keeps of one Space.
#[derive(Debug)]
pub struct Entry {
    pub format: String,
    pub slot: u64,
    pub registration: Registration,
    pub native_scope: RuntimeScope,
    pub checkpoint: Checkpoint,
    pub last_scan_ms: u64,
    pub failures: u32,
    pub last_report: AttentionReport,
    pub rechecks: Vec<Recheck>,
}

/// A Space identity that is safe as part of a storage path.
pub open spec fn id_valid(id: Seq<char>) -> bool {
    &&& id.len() > 0
    &&& text::utf8_len(id) <= 128
    &&& text::trimmed(id) == id
    &&& !id.contains('/')
    &&& !id.contains('\\')
    &&& id != "."@
    &&& id != ".."@
    &&& !text::is_prefix("__brain_runtime__"@, id)
}

pub fn valid_id(id: &str) -> (r: Result<(), AttentionError>)
    ensures
        r == if id_valid(id@) {
            Ok(())
        } else {
            Err::<(), AttentionError>(AttentionError::InvalidSpaceId)
        },
{
    if id.is_empty() || text::byte_len(id) > 128 || !text::same(text::trim(id), id)
        || text::find_char(id, '/').is_some() || text::find_char(id, '\\').is_some() || text::same(
        id,
        ".",
    ) || text::same(id, "..") || text::starts_with(id, "__brain_runtime__") {
        proof {
            if id@.contains('/') || id@.contains('\\') {
            }
        }
        return Err(AttentionError::InvalidSpaceId);
    }
    Ok(())
}

/// The counter after this one, up to the greatest.
pub fn next(n: u64) -> (r: Result<u64, AttentionError>)
    ensures
        r == if n < MAX_COUNTER {
            Ok((n + 1) as u64)
        } else {
            Err::<u64, AttentionError>(AttentionError::CounterExhausted)
        },
{
    if n < MAX_COUNTER {
        Ok(n + 1)
    } else {
        Err(AttentionError::CounterExhausted)
    }
}

/// The earlier of a time and another that may not be there.
pub open spec fn earlier(old: Option<u64>, new: u64) -> u64 {
    match old {
        Some(v) => if v <= new {
            v
        } else {
            new
        },
        None => new,
    }
}

/// Keeps the earliest of the times that it is called with.
pub fn min_due(due: &mut Option<u64>, new: u64)
    ensures
        *final(due) == Some(earlier(*old(due), new)),
{
    match *due {
        Some(v) => {
            if new < v {
                *due = Some(new);
            }
        },
        None => {
            *due = Some(new);
        },
    }
}

/// The time that is kept is never later than one that was given, and is one of
/// those.
pub proof fn the_earliest_time_is_kept(old: Option<u64>, new: u64)
    ensures
        earlier(old, new) <= new,
        old matches Some(v) ==> earlier(old, new) <= v,
        earlier(old, new) == new || old == Some(earlier(old, new)),
{
}

impl Entry {
    /// The identity, the format and the counters of the entry of a Space.
    pub open spec fn valid(self, id: Seq<char>, shard: u32) -> bool {
        let r = self.registration;
        &&& id_valid(id)
        &&& self.format@ == DIRECTORY_FORMAT@
        &&& r.format@ == FORMAT@
        &&& r.scope.space_id@ == id
        &&& r.shard == shard
        &&& r.scope.space_instance@ == self.native_scope.space_instance@
        &&& 0 < r.scope.space_instance@.len()
        &&& text::utf8_len(r.scope.space_instance@) <= 256
        &&& 0 < r.version <= MAX_COUNTER
        &&& 0 < r.dirty_generation <= MAX_COUNTER
        &&& r.reconciled_generation <= r.dirty_generation
        &&& self.rechecks@.len() <= MAX_RECHECKS
        &&& self.checkpoint.wake_pending@.len() <= 200
        &&& 0 < self.slot <= MAX_SLOTS
    }

    pub fn validate(&self, id: &str, shard: u32) -> (r: Result<(), AttentionError>)
        ensures
            r == if !id_valid(id@) {
                Err::<(), AttentionError>(AttentionError::InvalidSpaceId)
            } else if self.valid(id@, shard) {
                Ok(())
            } else {
                Err::<(), AttentionError>(AttentionError::InvalidEntry)
            },
    {
        let reg = &self.registration;
        if let Err(e) = valid_id(id) {
            return Err(e);
        }
        if !text::same(self.format.as_str(), DIRECTORY_FORMAT) || !text::same(
            reg.format.as_str(),
            FORMAT,
        ) || !text::same(reg.scope.space_id.as_str(), id) || reg.shard != shard || !text::same(
            reg.scope.space_instance.as_str(),
            self.native_scope.space_instance.as_str(),
        ) || reg.scope.space_instance.as_str().is_empty() || text::byte_len(
            reg.scope.space_instance.as_str(),
        ) > 256 || reg.version == 0 || reg.version > MAX_COUNTER || reg.dirty_generation == 0
            || reg.dirty_generation > MAX_COUNTER || reg.reconciled_generation
            > reg.dirty_generation || self.rechecks.len() > MAX_RECHECKS
            || self.checkpoint.wake_pending.len() > 200 || self.slot == 0 || self.slot
            > MAX_SLOTS {
            return Err(AttentionError::InvalidEntry);
        }
        Ok(())
    }
}

} // verus!
