//! One bounded scan of a Space: what is decided between the reads and writes
//! of the engine.

use vstd::prelude::*;

use super::{min_due, AttentionError, AttentionPolicy, AttentionReport, Checkpoint, Entry, Recheck};
use crate::assess::take_chars;
use crate::json::Json;
use crate::nexus;
use crate::runtime::AttentionConfig;
use crate::text;
use crate::wake::{WakeResume, WakeState};

verus! {

/// The longest time that a policy adds to the present.
pub const MAX_POLICY_MS: u64 = 3_600_000;

/// A Watch or a wake whose last attempt failed.
#[derive(Debug)]
pub struct BlockedWatch {
    pub version: u64,
    pub generation: u64,
    pub retry_at_ms: u64,
    pub reason: String,
}

impl BlockedWatch {
    /// The failure of an attempt; the retry comes no earlier than the policy says.
    pub fn new(
        version: u64,
        generation: u64,
        reason: &str,
        policy: &AttentionPolicy,
        now: u64,
    ) -> (r: BlockedWatch)
        requires
            policy.valid(),
            now <= u64::MAX - MAX_POLICY_MS,
        ensures
            r.version == version,
            r.generation == generation,
            r.retry_at_ms == now + policy.blocked_retry_ms,
            r.reason@ == crate::assess::head(reason@, 1024),
    {
        BlockedWatch {
            version,
            generation,
            retry_at_ms: now + policy.blocked_retry_ms,
            reason: take_chars(reason, 1024),
        }
    }

    /// The failure concerns exactly this version and generation.
    pub open spec fn concerns(self, version: u64, generation: u64) -> bool {
        self.version == version && self.generation == generation
    }
}

/// The storage key of the last failure of a Watch or wake.
pub open spec fn blocked_key_of(space: Seq<char>, id: Seq<char>) -> Option<Seq<char>> {
    match nexus::digits_of(crate::json::Datum::Text(space)) {
        Some(digits) => Some("blocked/"@ + digits + "/"@ + id),
        None => None,
    }
}

pub fn blocked_key(space: &str, id: &str) -> (key: String)
    ensures
        blocked_key_of(space@, id@) == Some(key@),
{
    let mut key = "blocked/".to_owned();
    key.append(nexus::json_digits(&Json::text(space)).as_str());
    key.append("/");
    key.append(id);
    key
}

// ---------------------------------------------------------------------------
// The start of a scan
// ---------------------------------------------------------------------------

/// How many rechecks are due.
pub open spec fn due_count(rechecks: Seq<Recheck>, now: u64) -> nat
    decreases rechecks.len(),
{
    if rechecks.len() == 0 {
        0
    } else {
        due_count(rechecks.drop_last(), now) + if rechecks.last().due_at_ms <= now {
            1nat
        } else {
            0
        }
    }
}

/// The earliest of a noted time and those rechecks that are not due yet.
pub open spec fn earliest_recheck(
    noted: Option<u64>,
    rechecks: Seq<Recheck>,
    now: u64,
) -> Option<u64>
    decreases rechecks.len(),
{
    if rechecks.len() == 0 {
        noted
    } else {
        let before = earliest_recheck(noted, rechecks.drop_last(), now);
        if rechecks.last().due_at_ms <= now {
            before
        } else {
            Some(super::earlier(before, rechecks.last().due_at_ms))
        }
    }
}

/// The same recheck, notified if it is due.
pub open spec fn recheck_seen(before: Recheck, after: Recheck, now: u64) -> bool {
    after == (Recheck { notified: before.notified || before.due_at_ms <= now, ..before })
}

/// The checkpoint belongs to another generation, or its scan is complete.
pub open spec fn starts_over(entry: Entry) -> bool {
    entry.checkpoint.generation != entry.registration.dirty_generation
        || entry.checkpoint.complete()
}

/// The entry at the start of a scan, seen from the entry before it.
pub open spec fn begun(before: Entry, after: Entry, now: u64) -> bool {
    &&& after == (Entry {
        checkpoint: after.checkpoint,
        rechecks: after.rechecks,
        ..before
    })
    &&& if starts_over(before) {
        after.checkpoint.begins(before.registration.dirty_generation)
            && after.checkpoint.next_due_ms == earliest_recheck(None, before.rechecks@, now)
    } else {
        after.checkpoint == (Checkpoint {
            next_due_ms: earliest_recheck(before.checkpoint.next_due_ms, before.rechecks@, now),
            ..before.checkpoint
        })
    }
    &&& after.rechecks@.len() == before.rechecks@.len()
    &&& forall|i: int|
        0 <= i < before.rechecks@.len() ==> recheck_seen(
            #[trigger] before.rechecks@[i],
            after.rechecks@[i],
            now,
        )
}

/// What the start of a scan says.
#[derive(Clone, Copy, Debug, PartialEq, Eq, Structural)]
pub enum ScanStart {
    /// Attention is switched off: the report says so and there is nothing to do.
    Disabled,
    Running,
}

fn notice_rechecks(entry: &mut Entry, now: u64) -> (due: usize)
    ensures
        *final(entry) == (Entry {
            checkpoint: final(entry).checkpoint,
            rechecks: final(entry).rechecks,
            ..*old(entry)
        }),
        final(entry).checkpoint == (Checkpoint {
            next_due_ms: earliest_recheck(
                old(entry).checkpoint.next_due_ms,
                old(entry).rechecks@,
                now,
            ),
            ..old(entry).checkpoint
        }),
        final(entry).rechecks@.len() == old(entry).rechecks@.len(),
        forall|i: int|
            0 <= i < old(entry).rechecks@.len() ==> recheck_seen(
                #[trigger] old(entry).rechecks@[i],
                final(entry).rechecks@[i],
                now,
            ),
        due == due_count(old(entry).rechecks@, now),
{
    let ghost before = *entry;
    let mut due: usize = 0;
    let mut i: usize = 0;
    proof {
        assert(before.rechecks@.take(0) =~= Seq::empty());
    }
    while i < entry.rechecks.len()
        invariant
            i <= entry.rechecks.len(),
            before == *old(entry),
            *entry == (Entry { checkpoint: entry.checkpoint, rechecks: entry.rechecks, ..before }),
            entry.checkpoint == (Checkpoint {
                next_due_ms: earliest_recheck(
                    before.checkpoint.next_due_ms,
                    before.rechecks@.take(i as int),
                    now,
                ),
                ..before.checkpoint
            }),
            entry.rechecks@.len() == before.rechecks@.len(),
            forall|k: int|
                0 <= k < i ==> recheck_seen(
                    #[trigger] before.rechecks@[k],
                    entry.rechecks@[k],
                    now,
                ),
            forall|k: int|
                i <= k < before.rechecks@.len() ==> entry.rechecks@[k] == #[trigger] before.rechecks@[k],
            due == due_count(before.rechecks@.take(i as int), now),
            due <= i,
        decreases entry.rechecks.len() - i,
    {
        proof {
            assert(before.rechecks@.take(i + 1).drop_last() =~= before.rechecks@.take(i as int));
            assert(before.rechecks@.take(i + 1).last() == before.rechecks@[i as int]);
        }
        let due_at: u64 = entry.rechecks[i].due_at_ms;
        if due_at <= now {
            let notice = Recheck {
                key: entry.rechecks[i].key.clone(),
                source: entry.rechecks[i].source,
                due_at_ms: due_at,
                notified: true,
            };
            entry.rechecks.set(i, notice);
            due = due + 1;
        } else {
            min_due(&mut entry.checkpoint.next_due_ms, due_at);
        }
        i = i + 1;
    }
    proof {
        assert(before.rechecks@.take(i as int) =~= before.rechecks@);
    }
    due
}

/// Starts a scan: attention must be on, the native configuration must be the
/// registered one, rechecks that are due are noticed, and a finished or
/// outdated checkpoint is started over.
pub fn begin_scan(
    entry: &mut Entry,
    report: &mut AttentionReport,
    policy: &AttentionPolicy,
    config: Option<&AttentionConfig>,
    now: u64,
) -> (r: Result<ScanStart, AttentionError>)
    requires
        old(report).is_empty(),
        old(report).wf(),
    ensures
        final(report).wf(),
        match r {
            Ok(ScanStart::Disabled) => {
                &&& !policy.enabled || !old(entry).registration.enabled
                &&& *final(entry) == *old(entry)
                &&& old(report).deferred(*final(report), "attention_disabled"@, true)
            },
            Ok(ScanStart::Running) => {
                &&& policy.enabled && old(entry).registration.enabled
                &&& config matches Some(c) && c.scope.same_as(old(entry).native_scope)
                    && c.pins.same_as(old(entry).registration.pins)
                &&& begun(*old(entry), *final(entry), now)
                &&& *final(report) == (AttentionReport {
                    rechecks_due: due_count(old(entry).rechecks@, now) as usize,
                    ..*old(report)
                })
                &&& final(report).rechecks_due == due_count(old(entry).rechecks@, now)
            },
            Err(e) => {
                &&& policy.enabled && old(entry).registration.enabled
                &&& *final(entry) == *old(entry)
                &&& *final(report) == *old(report)
                &&& match config {
                    None => e == AttentionError::ConfigurationMissing,
                    Some(c) => !(c.scope.same_as(old(entry).native_scope) && c.pins.same_as(
                        old(entry).registration.pins,
                    )) && e == AttentionError::ConfigurationChanged,
                }
            },
        },
{
    if !policy.enabled || !entry.registration.enabled {
        report.defer("attention_disabled", true);
        return Ok(ScanStart::Disabled);
    }
    let config = match config {
        Some(config) => config,
        None => return Err(AttentionError::ConfigurationMissing),
    };
    if !config.scope.same(&entry.native_scope) || !config.pins.same(&entry.registration.pins) {
        return Err(AttentionError::ConfigurationChanged);
    }
    let generation: u64 = entry.registration.dirty_generation;
    if entry.checkpoint.generation != generation || (entry.checkpoint.runnable_done
        && entry.checkpoint.all_done && entry.checkpoint.wakes_done) {
        entry.checkpoint = Checkpoint::start(generation);
    }
    report.rechecks_due = notice_rechecks(entry, now);
    Ok(ScanStart::Running)
}

// ---------------------------------------------------------------------------
// Runnable Watches
// ---------------------------------------------------------------------------

/// The last failure of exactly this Watch is too recent for another attempt.
pub fn backed_off(blocked: Option<&BlockedWatch>, version: u64, generation: u64, now: u64) -> (r:
    bool)
    ensures
        r == (blocked matches Some(b) && b.concerns(version, generation) && b.retry_at_ms > now),
{
    match blocked {
        Some(b) => b.version == version && b.generation == generation && b.retry_at_ms > now,
        None => false,
    }
}

/// What a step of a Watch came to.
#[derive(Clone, Copy, Debug, PartialEq, Eq, Structural)]
pub enum WatchAdvance {
    Advanced,
    Fired,
    Expired,
}

/// What happened to a runnable Watch.
#[derive(Debug)]
pub enum WatchOutcome {
    BackedOff,
    Advanced(WatchAdvance),
    Failed { conflict: bool, message: String },
}

/// The report after a runnable Watch was visited.
pub open spec fn watch_reported(
    before: AttentionReport,
    after: AttentionReport,
    outcome: WatchOutcome,
) -> bool {
    let counted = AttentionReport {
        watches_scanned: (before.watches_scanned + 1) as usize,
        ..before
    };
    match outcome {
        WatchOutcome::BackedOff => counted.deferred(after, "watch_retry_backoff"@, false),
        WatchOutcome::Advanced(step) => after == (AttentionReport {
            advanced: (before.advanced + 1) as usize,
            fired: (before.fired + if step == WatchAdvance::Fired {
                1int
            } else {
                0
            }) as usize,
            expired: (before.expired + if step == WatchAdvance::Expired {
                1int
            } else {
                0
            }) as usize,
            ..counted
        }),
        WatchOutcome::Failed { conflict, message } => {
            &&& after.error matches Some(error) && error@ == message@
            &&& (AttentionReport {
                conflicted: (before.conflicted + if conflict {
                    1int
                } else {
                    0
                }) as usize,
                error: after.error,
                ..counted
            }).deferred(after, "native_watch_unavailable"@, false)
        },
    }
}

/// The entry after a runnable Watch was visited.
pub open spec fn visited_entry(
    entry: Entry,
    id: String,
    policy: AttentionPolicy,
    now: u64,
) -> Entry {
    Entry {
        checkpoint: Checkpoint {
            runnable_after: id,
            next_due_ms: Some(
                super::earlier(entry.checkpoint.next_due_ms, (now + policy.tick_ms) as u64),
            ),
            ..entry.checkpoint
        },
        ..entry
    }
}

/// Records the visit of a runnable Watch.
pub fn watch_visited(
    entry: &mut Entry,
    report: &mut AttentionReport,
    id: String,
    outcome: WatchOutcome,
    policy: &AttentionPolicy,
    now: u64,
)
    requires
        policy.valid(),
        now <= u64::MAX - MAX_POLICY_MS,
        old(report).wf(),
        old(report).has_room(),
    ensures
        final(report).wf(),
        watch_reported(*old(report), *final(report), outcome),
        *final(entry) == visited_entry(*old(entry), id, *policy, now),
{
    report.watches_scanned = report.watches_scanned + 1;
    match outcome {
        WatchOutcome::BackedOff => {
            report.defer("watch_retry_backoff", false);
        },
        WatchOutcome::Advanced(step) => {
            report.advanced = report.advanced + 1;
            match step {
                WatchAdvance::Fired => {
                    report.fired = report.fired + 1;
                },
                WatchAdvance::Expired => {
                    report.expired = report.expired + 1;
                },
                WatchAdvance::Advanced => {},
            }
        },
        WatchOutcome::Failed { conflict, message } => {
            if conflict {
                report.conflicted = report.conflicted + 1;
            }
            report.error = Some(message);
            report.defer("native_watch_unavailable", false);
        },
    }
    entry.checkpoint.runnable_after = id;
    min_due(&mut entry.checkpoint.next_due_ms, now + policy.tick_ms);
}

/// The entry at the end of a page of runnable Watches.
pub open spec fn page_ended(
    before: Entry,
    after: Entry,
    rows: usize,
    exhausted: bool,
    policy: AttentionPolicy,
) -> bool {
    if rows < policy.watches_per_space && !exhausted {
        &&& after == (Entry {
            checkpoint: Checkpoint {
                runnable_done: true,
                runnable_after: after.checkpoint.runnable_after,
                ..before.checkpoint
            },
            ..before
        })
        &&& after.checkpoint.runnable_after@.len() == 0
    } else {
        after == before
    }
}

/// Ends a page of runnable Watches: a short page that was visited to its end
/// was the last one.
pub fn runnable_page_ended(
    entry: &mut Entry,
    rows: usize,
    exhausted: bool,
    policy: &AttentionPolicy,
)
    ensures
        page_ended(*old(entry), *final(entry), rows, exhausted, *policy),
{
    if rows < policy.watches_per_space && !exhausted {
        entry.checkpoint.runnable_done = true;
        entry.checkpoint.runnable_after = String::new();
    }
}

// ---------------------------------------------------------------------------
// All armed Watches
// ---------------------------------------------------------------------------

/// An armed Watch as the diagnostic pass reads it.
#[derive(Debug)]
pub struct WatchRow {
    pub id: String,
    /// Whether its condition can be decided without a model.
    pub structured: bool,
    pub generation: Option<u64>,
    pub due_at: String,
}

/// Why a Watch cannot be advanced by a structured scan.
pub open spec fn unscanned_reason(row: WatchRow, semantic: bool) -> Seq<char> {
    if row.generation is None {
        "legacy_watch_requires_replacement"@
    } else if semantic {
        "semantic_evaluation_separate_pass"@
    } else {
        "semantic_evaluator_unavailable"@
    }
}

/// The earliest time noted after a Watch was inspected.
pub open spec fn noted_after(
    noted: Option<u64>,
    row: WatchRow,
    semantic: bool,
    policy: AttentionPolicy,
    now: u64,
) -> Option<u64> {
    let first = if semantic && !row.structured {
        Some(super::earlier(noted, (now + policy.tick_ms) as u64))
    } else {
        noted
    };
    match nexus::millis_of(row.due_at@) {
        Some(due) => if due > now {
            Some(super::earlier(first, due))
        } else {
            first
        },
        None => first,
    }
}

/// One armed Watch was inspected.
pub open spec fn inspected(
    entry: Entry,
    report: AttentionReport,
    entry_after: Entry,
    report_after: AttentionReport,
    row: WatchRow,
    semantic: bool,
    policy: AttentionPolicy,
    now: u64,
) -> bool {
    &&& if !row.structured || row.generation is None {
        report.deferred(report_after, unscanned_reason(row, semantic), false)
    } else {
        report_after == report
    }
    &&& entry_after == (Entry {
        checkpoint: Checkpoint {
            all_after: row.id,
            next_due_ms: noted_after(entry.checkpoint.next_due_ms, row, semantic, policy, now),
            ..entry.checkpoint
        },
        ..entry
    })
}

/// Begins the page of all armed Watches.
pub fn inspection_started(entry: &mut Entry, rows: usize, policy: &AttentionPolicy)
    ensures
        *final(entry) == (Entry {
            checkpoint: Checkpoint {
                all_done: rows < policy.watches_per_space,
                ..old(entry).checkpoint
            },
            ..*old(entry)
        }),
{
    entry.checkpoint.all_done = rows < policy.watches_per_space;
}

/// Records the inspection of an armed Watch.
pub fn watch_inspected(
    entry: &mut Entry,
    report: &mut AttentionReport,
    row: WatchRow,
    semantic: bool,
    policy: &AttentionPolicy,
    now: u64,
)
    requires
        policy.valid(),
        now <= u64::MAX - MAX_POLICY_MS,
        old(report).wf(),
        old(report).blocked < usize::MAX,
    ensures
        final(report).wf(),
        inspected(
            *old(entry),
            *old(report),
            *final(entry),
            *final(report),
            row,
            semantic,
            *policy,
            now,
        ),
{
    if !row.structured || row.generation.is_none() {
        if row.generation.is_none() {
            report.defer("legacy_watch_requires_replacement", false);
        } else if semantic {
            report.defer("semantic_evaluation_separate_pass", false);
        } else {
            report.defer("semantic_evaluator_unavailable", false);
        }
    }
    if semantic && !row.structured {
        min_due(&mut entry.checkpoint.next_due_ms, now + policy.tick_ms);
    }
    if let Some(due) = nexus::time_ms(row.due_at.as_str()) {
        if due > now {
            min_due(&mut entry.checkpoint.next_due_ms, due);
        }
    }
    entry.checkpoint.all_after = row.id;
}

// ---------------------------------------------------------------------------
// Wakes
// ---------------------------------------------------------------------------

/// A page of wake references.
#[derive(Debug)]
pub struct WakePage {
    pub references: Vec<String>,
    pub scanned: usize,
    pub next_cursor: Option<String>,
    pub complete: bool,
}

/// Takes a page of wakes over.
pub fn wake_page_read(entry: &mut Entry, report: &mut AttentionReport, page: WakePage)
    requires
        old(report).wf(),
    ensures
        final(report).wf(),
        *final(report) == (AttentionReport { wakes_scanned: page.scanned, ..*old(report) }),
        *final(entry) == (Entry {
            checkpoint: Checkpoint {
                wake_pending: page.references,
                wake_page_cursor: page.next_cursor,
                wake_page_complete: page.complete,
                ..old(entry).checkpoint
            },
            ..*old(entry)
        }),
{
    report.wakes_scanned = page.scanned;
    entry.checkpoint.wake_pending = page.references;
    entry.checkpoint.wake_page_cursor = page.next_cursor;
    entry.checkpoint.wake_page_complete = page.complete;
}

/// A page of wakes could not be read; a cursor that the engine no longer
/// accepts is dropped.
pub fn wake_page_failed(entry: &mut Entry, conflict: bool)
    ensures
        *final(entry) == if conflict {
            Entry {
                checkpoint: Checkpoint { wake_cursor: None, ..old(entry).checkpoint },
                ..*old(entry)
            }
        } else {
            *old(entry)
        },
{
    if conflict {
        entry.checkpoint.wake_cursor = None;
    }
}

/// Which wake to look at next.
#[derive(Debug)]
pub enum NextWake {
    /// Every wake of the page has been looked at.
    PageDone,
    /// As many actions have run as one pass may run.
    BudgetExhausted,
    Process(String),
}

/// As many actions have run as the installed bindings allow in one pass.
pub open spec fn actions_exhausted(report: AttentionReport, per_pass: Option<usize>) -> bool {
    per_pass matches Some(most) && report.actions_processed >= most
}

pub fn next_wake(entry: &Entry, report: &mut AttentionReport, per_pass: Option<usize>) -> (r:
    NextWake)
    requires
        old(report).wf(),
    ensures
        final(report).wf(),
        match r {
            NextWake::PageDone => entry.checkpoint.wake_pending@.len() == 0 && *final(report)
                == *old(report),
            NextWake::BudgetExhausted => entry.checkpoint.wake_pending@.len() > 0
                && actions_exhausted(*old(report), per_pass) && *final(report) == (
            AttentionReport { budget_exhausted: true, ..*old(report) }),
            NextWake::Process(reference) => entry.checkpoint.wake_pending@.len() > 0
                && !actions_exhausted(*old(report), per_pass) && reference
                == entry.checkpoint.wake_pending@[0] && *final(report) == *old(report),
        },
{
    if entry.checkpoint.wake_pending.len() == 0 {
        return NextWake::PageDone;
    }
    if let Some(most) = per_pass {
        if report.actions_processed >= most {
            report.budget_exhausted = true;
            return NextWake::BudgetExhausted;
        }
    }
    NextWake::Process(entry.checkpoint.wake_pending[0].clone())
}

/// The first wake of the page has been looked at.
pub fn wake_done(entry: &mut Entry)
    requires
        old(entry).checkpoint.wake_pending@.len() > 0,
    ensures
        *final(entry) == (Entry {
            checkpoint: Checkpoint {
                wake_pending: final(entry).checkpoint.wake_pending,
                ..old(entry).checkpoint
            },
            ..*old(entry)
        }),
        final(entry).checkpoint.wake_pending@ == old(entry).checkpoint.wake_pending@.drop_first(),
{
    let _first = entry.checkpoint.wake_pending.remove(0);
    assert(entry.checkpoint.wake_pending@ =~= old(
        entry,
    ).checkpoint.wake_pending@.drop_first());
}

/// The entry at the end of a pass over wakes.
pub open spec fn wakes_closed(entry: Entry) -> Entry {
    if entry.checkpoint.wake_pending@.len() == 0 {
        Entry {
            checkpoint: Checkpoint {
                wake_cursor: entry.checkpoint.wake_page_cursor,
                wake_page_cursor: None,
                wakes_done: entry.checkpoint.wake_page_complete,
                ..entry.checkpoint
            },
            ..entry
        }
    } else {
        entry
    }
}

/// Ends the pass over wakes: once the page is done, the next one follows it.
pub fn wakes_ended(entry: &mut Entry)
    ensures
        *final(entry) == wakes_closed(*old(entry)),
{
    if entry.checkpoint.wake_pending.len() == 0 {
        entry.checkpoint.wake_cursor = entry.checkpoint.wake_page_cursor.take();
        entry.checkpoint.wakes_done = entry.checkpoint.wake_page_complete;
    }
}

/// What to do with a wake that was read.
#[derive(Clone, Copy, Debug, PartialEq, Eq, Structural)]
pub enum WakeStep {
    /// The wake is recorded; nothing runs.
    Recorded,
    /// The wake would run, but this pass may run no more actions.
    OverBudget,
    /// The action bindings process the wake.
    RunAction,
    /// The blocked wake is due: the engine is asked to resume it.
    Resume,
}

pub open spec fn later(a: u64, b: u64) -> u64 {
    if a >= b {
        a
    } else {
        b
    }
}

/// When a blocked wake may be resumed by its own terms.
pub open spec fn resume_due(resume: WakeResume, now: u64) -> u64 {
    match resume {
        WakeResume::At { not_before_ms } => not_before_ms,
        WakeResume::OnChange { .. } => now,
    }
}

/// Until when the last failure of exactly this wake keeps it back.
pub open spec fn wake_backoff(blocked: Option<BlockedWatch>, version: u64, fence: u64) -> u64 {
    match blocked {
        Some(b) => if b.concerns(version, fence) {
            b.retry_at_ms
        } else {
            0
        },
        None => 0,
    }
}

/// What is to be done with a wake in that state.
pub open spec fn wake_step_of(
    state: WakeState,
    version: u64,
    fence: u64,
    blocked: Option<BlockedWatch>,
    per_pass: Option<usize>,
    processed: usize,
    now: u64,
) -> WakeStep {
    if per_pass is Some && !state.ended() && !state.waits(now) {
        if processed >= per_pass->Some_0 {
            WakeStep::OverBudget
        } else {
            WakeStep::RunAction
        }
    } else {
        match state {
            WakeState::Blocked { resume, .. } => if resume_due(resume, now) <= now && wake_backoff(
                blocked,
                version,
                fence,
            ) <= now {
                WakeStep::Resume
            } else {
                WakeStep::Recorded
            },
            _ => WakeStep::Recorded,
        }
    }
}

/// The checkpoint with another time noted and another running deadline.
pub open spec fn noted(before: Entry, due: Option<u64>, running_until: u64) -> Entry {
    Entry {
        checkpoint: Checkpoint {
            next_due_ms: due,
            running_until_ms: running_until,
            ..before.checkpoint
        },
        ..before
    }
}

/// The entry after a wake was read.
pub open spec fn wake_entry(
    before: Entry,
    state: WakeState,
    version: u64,
    fence: u64,
    blocked: Option<BlockedWatch>,
    step: WakeStep,
    policy: AttentionPolicy,
    now: u64,
) -> Entry {
    let due = before.checkpoint.next_due_ms;
    let until = before.checkpoint.running_until_ms;
    let soon = (now + policy.tick_ms) as u64;
    match step {
        WakeStep::RunAction => before,
        WakeStep::Resume => before,
        WakeStep::OverBudget => noted(before, Some(super::earlier(due, soon)), until),
        WakeStep::Recorded => match state {
            WakeState::Pending { not_before_ms } => noted(
                before,
                Some(super::earlier(due, later(not_before_ms, soon))),
                until,
            ),
            WakeState::Running { lease } => noted(
                before,
                Some(super::earlier(due, later(lease.expires_at_ms, soon))),
                later(until, lease.expires_at_ms),
            ),
            WakeState::Blocked { resume, .. } => noted(
                before,
                Some(
                    super::earlier(
                        due,
                        later(
                            later(resume_due(resume, now), wake_backoff(blocked, version, fence)),
                            soon,
                        ),
                    ),
                ),
                until,
            ),
            _ => before,
        },
    }
}

/// The report after a wake was read.
pub open spec fn wake_reported(
    before: AttentionReport,
    after: AttentionReport,
    state: WakeState,
    version: u64,
    fence: u64,
    blocked: Option<BlockedWatch>,
    step: WakeStep,
    per_pass: Option<usize>,
    now: u64,
) -> bool {
    match step {
        WakeStep::OverBudget => after == (AttentionReport { budget_exhausted: true, ..before }),
        WakeStep::RunAction => after == (AttentionReport {
            actions_processed: (before.actions_processed + 1) as usize,
            ..before
        }),
        WakeStep::Resume => after == before,
        WakeStep::Recorded => match state {
            WakeState::Pending { .. } => {
                let counted = AttentionReport { pending: (before.pending + 1) as usize, ..before };
                if per_pass is None {
                    counted.deferred(after, "action_bindings_not_installed"@, true)
                } else {
                    after == counted
                }
            },
            WakeState::Blocked { .. } => if wake_backoff(blocked, version, fence) > now {
                before.deferred(after, "wake_resume_backoff"@, true)
            } else {
                after == before
            },
            _ => after == before,
        },
    }
}

fn latest(a: u64, b: u64) -> (r: u64)
    ensures
        r == later(a, b),
{
    if a >= b {
        a
    } else {
        b
    }
}

/// Decides what happens to a wake that was read, and records it.
pub fn wake_read(
    entry: &mut Entry,
    report: &mut AttentionReport,
    state: &WakeState,
    version: u64,
    fence: u64,
    blocked: Option<&BlockedWatch>,
    per_pass: Option<usize>,
    policy: &AttentionPolicy,
    now: u64,
) -> (step: WakeStep)
    requires
        policy.valid(),
        now <= u64::MAX - MAX_POLICY_MS,
        old(report).wf(),
        old(report).has_room(),
    ensures
        final(report).wf(),
        step == wake_step_of(
            *state,
            version,
            fence,
            owned(blocked),
            per_pass,
            old(report).actions_processed,
            now,
        ),
        *final(entry) == wake_entry(
            *old(entry),
            *state,
            version,
            fence,
            owned(blocked),
            step,
            *policy,
            now,
        ),
        wake_reported(
            *old(report),
            *final(report),
            *state,
            version,
            fence,
            owned(blocked),
            step,
            per_pass,
            now,
        ),
{
    let soon: u64 = now + policy.tick_ms;
    if let Some(most) = per_pass {
        if !state.has_ended() && !state.is_waiting(now) {
            if report.actions_processed >= most {
                report.budget_exhausted = true;
                min_due(&mut entry.checkpoint.next_due_ms, soon);
                return WakeStep::OverBudget;
            }
            report.actions_processed = report.actions_processed + 1;
            proof {
                assert forall|s: Seq<char>| #[trigger] report.action_states.of(s)
                    <= report.actions_processed by {
                    assert(old(report).action_states.of(s) <= old(report).actions_processed);
                }
            }
            return WakeStep::RunAction;
        }
    }
    match state {
        WakeState::Pending { not_before_ms } => {
            report.pending = report.pending + 1;
            if per_pass.is_none() {
                report.defer("action_bindings_not_installed", true);
            }
            min_due(&mut entry.checkpoint.next_due_ms, latest(*not_before_ms, soon));
            WakeStep::Recorded
        },
        WakeState::Running { lease } => {
            entry.checkpoint.running_until_ms = latest(
                entry.checkpoint.running_until_ms,
                lease.expires_at_ms,
            );
            min_due(&mut entry.checkpoint.next_due_ms, latest(lease.expires_at_ms, soon));
            WakeStep::Recorded
        },
        WakeState::Blocked { resume, .. } => {
            let due: u64 = match resume {
                WakeResume::At { not_before_ms } => *not_before_ms,
                WakeResume::OnChange { .. } => now,
            };
            let backoff: u64 = match blocked {
                Some(b) => if b.version == version && b.generation == fence {
                    b.retry_at_ms
                } else {
                    0
                },
                None => 0,
            };
            if due <= now && backoff <= now {
                return WakeStep::Resume;
            }
            if backoff > now {
                report.defer("wake_resume_backoff", true);
            }
            min_due(&mut entry.checkpoint.next_due_ms, latest(latest(due, backoff), soon));
            WakeStep::Recorded
        },
        _ => WakeStep::Recorded,
    }
}

/// The failure behind an optional reference.
pub open spec fn owned(blocked: Option<&BlockedWatch>) -> Option<BlockedWatch> {
    match blocked {
        Some(b) => Some(*b),
        None => None,
    }
}

/// What became of a wake that the action bindings processed.
#[derive(Debug)]
pub enum ActionOutcome {
    Processed { state: String, reason: bool, next_run_ms: Option<u64> },
    Failed { message: String },
}

/// When a processed wake is looked at again.
pub open spec fn action_due(outcome: ActionOutcome, policy: AttentionPolicy, now: u64) -> u64 {
    match outcome {
        ActionOutcome::Processed { next_run_ms: Some(at), .. } => at,
        ActionOutcome::Processed { next_run_ms: None, .. } => (now + policy.reconcile_ms) as u64,
        ActionOutcome::Failed { .. } => (now + policy.blocked_retry_ms) as u64,
    }
}

/// The state was counted once more, and nothing else changed.
pub open spec fn state_counted(
    before: AttentionReport,
    after: AttentionReport,
    state: Seq<char>,
) -> bool {
    &&& after == (AttentionReport { action_states: after.action_states, ..before })
    &&& after.action_states.of(state) == before.action_states.of(state) + 1
    &&& forall|other: Seq<char>|
        other != state ==> #[trigger] after.action_states.of(other) == before.action_states.of(
            other,
        )
}

/// The report after the action bindings processed a wake.
pub open spec fn action_reported(
    before: AttentionReport,
    after: AttentionReport,
    outcome: ActionOutcome,
) -> bool {
    match outcome {
        ActionOutcome::Processed { state, reason, .. } => if reason {
            exists|counted: AttentionReport| #[trigger]
                state_counted(before, counted, state@) && counted.deferred(
                    after,
                    "action_blocked"@,
                    true,
                )
        } else {
            state_counted(before, after, state@)
        },
        ActionOutcome::Failed { message } => {
            &&& after.error matches Some(error) && error@ == message@
            &&& (AttentionReport { error: after.error, ..before }).deferred(
                after,
                "action_configuration_or_source_unavailable"@,
                true,
            )
        },
    }
}

/// Records what became of a wake that the action bindings processed. The wake
/// was counted when it was handed to them.
pub fn action_ran(
    entry: &mut Entry,
    report: &mut AttentionReport,
    outcome: ActionOutcome,
    policy: &AttentionPolicy,
    now: u64,
)
    requires
        policy.valid(),
        now <= u64::MAX - MAX_POLICY_MS,
        old(report).wf(),
        old(report).blocked < usize::MAX,
        outcome matches ActionOutcome::Processed { state, .. } ==> old(report).action_states.of(
            state@,
        ) < old(report).actions_processed,
    ensures
        final(report).wf(),
        action_reported(*old(report), *final(report), outcome),
        *final(entry) == noted(
            *old(entry),
            Some(
                super::earlier(
                    old(entry).checkpoint.next_due_ms,
                    action_due(outcome, *policy, now),
                ),
            ),
            old(entry).checkpoint.running_until_ms,
        ),
{
    match outcome {
        ActionOutcome::Processed { state, reason, next_run_ms } => {
            report.action_states.bump(state.as_str());
            proof {
                assert forall|s: Seq<char>| #[trigger] report.action_states.of(s)
                    <= report.actions_processed by {
                    if s != state@ {
                        assert(old(report).action_states.of(s) <= old(report).actions_processed);
                    }
                }
                assert(report.wf());
            }
            let ghost counted = *report;
            assert(state_counted(*old(report), counted, state@));
            if reason {
                report.defer("action_blocked", true);
            }
            let at: u64 = match next_run_ms {
                Some(at) => at,
                None => now + policy.reconcile_ms,
            };
            min_due(&mut entry.checkpoint.next_due_ms, at);
        },
        ActionOutcome::Failed { message } => {
            report.error = Some(message);
            report.defer("action_configuration_or_source_unavailable", true);
            min_due(&mut entry.checkpoint.next_due_ms, now + policy.blocked_retry_ms);
        },
    }
}

/// The entry after a wake was read once more.
pub open spec fn reread_entry(entry: Entry, state: WakeState) -> Entry {
    match state {
        WakeState::Running { lease } => noted(
            entry,
            entry.checkpoint.next_due_ms,
            later(entry.checkpoint.running_until_ms, lease.expires_at_ms),
        ),
        _ => entry,
    }
}

/// After an action the wake may be running: its lease keeps the Space busy.
pub fn wake_reread(entry: &mut Entry, state: &WakeState)
    ensures
        *final(entry) == reread_entry(*old(entry), *state),
{
    if let WakeState::Running { lease } = state {
        entry.checkpoint.running_until_ms = latest(
            entry.checkpoint.running_until_ms,
            lease.expires_at_ms,
        );
    }
}

/// The report after the engine was asked to resume a blocked wake.
pub open spec fn resume_reported(
    before: AttentionReport,
    after: AttentionReport,
    resumed: bool,
) -> bool {
    if resumed {
        after == (AttentionReport { resumed: (before.resumed + 1) as usize, ..before })
    } else {
        before.deferred(after, "wake_resume_unverified"@, true)
    }
}

/// When a blocked wake is looked at again.
pub open spec fn resume_again(resumed: bool, policy: AttentionPolicy, now: u64) -> u64 {
    if resumed {
        (now + policy.tick_ms) as u64
    } else {
        (now + policy.blocked_retry_ms) as u64
    }
}

/// Records whether the engine resumed a blocked wake.
pub fn resume_ended(
    entry: &mut Entry,
    report: &mut AttentionReport,
    resumed: bool,
    policy: &AttentionPolicy,
    now: u64,
)
    requires
        policy.valid(),
        now <= u64::MAX - MAX_POLICY_MS,
        old(report).wf(),
        old(report).has_room(),
    ensures
        final(report).wf(),
        resume_reported(*old(report), *final(report), resumed),
        *final(entry) == noted(
            *old(entry),
            Some(
                super::earlier(
                    old(entry).checkpoint.next_due_ms,
                    resume_again(resumed, *policy, now),
                ),
            ),
            old(entry).checkpoint.running_until_ms,
        ),
{
    if resumed {
        report.resumed = report.resumed + 1;
        min_due(&mut entry.checkpoint.next_due_ms, now + policy.tick_ms);
    } else {
        report.defer("wake_resume_unverified", true);
        min_due(&mut entry.checkpoint.next_due_ms, now + policy.blocked_retry_ms);
    }
}

// ---------------------------------------------------------------------------
// The end of a scan
// ---------------------------------------------------------------------------

/// When the Space is checked again after a scan.
pub open spec fn next_check(
    checkpoint: Checkpoint,
    policy: AttentionPolicy,
    now: u64,
) -> u64 {
    let at_most = (now + policy.reconcile_ms) as u64;
    if checkpoint.complete() {
        super::earlier(checkpoint.next_due_ms, at_most)
    } else {
        (now + policy.tick_ms) as u64
    }
}

/// The entry and the report at the end of a scan.
pub open spec fn scan_finished(
    entry: Entry,
    report: AttentionReport,
    entry_after: Entry,
    report_after: AttentionReport,
    policy: AttentionPolicy,
    now: u64,
    out_of_time: bool,
) -> bool {
    &&& report_after == (AttentionReport {
        scan_complete: entry.checkpoint.complete(),
        budget_exhausted: !entry.checkpoint.complete() || out_of_time,
        error: report_after.error,
        ..report
    })
    &&& match (report.error, report_after.error) {
        (Some(kept), Some(error)) => error@ == kept@,
        (None, Some(error)) => report.rechecks_due > 0 && error@
            == "recheck retained for its trusted consumer"@,
        (None, None) => report.rechecks_due == 0,
        _ => false,
    }
    &&& entry_after == (Entry {
        last_scan_ms: if entry.checkpoint.complete() {
            now
        } else {
            entry.last_scan_ms
        },
        registration: super::Registration {
            next_check_ms: next_check(entry.checkpoint, policy, now),
            ..entry.registration
        },
        ..entry
    })
}

/// Ends a scan: what is complete, and when the Space is checked again.
pub fn finish_scan(
    entry: &mut Entry,
    report: &mut AttentionReport,
    policy: &AttentionPolicy,
    now: u64,
    out_of_time: bool,
)
    requires
        policy.valid(),
        now <= u64::MAX - MAX_POLICY_MS,
        old(report).wf(),
    ensures
        final(report).wf(),
        scan_finished(
            *old(entry),
            *old(report),
            *final(entry),
            *final(report),
            *policy,
            now,
            out_of_time,
        ),
{
    report.scan_complete = entry.checkpoint.runnable_done && entry.checkpoint.all_done
        && entry.checkpoint.wakes_done;
    report.budget_exhausted = !report.scan_complete || out_of_time;
    if report.scan_complete {
        entry.last_scan_ms = now;
    }
    entry.registration.next_check_ms = if report.scan_complete {
        let at_most: u64 = now + policy.reconcile_ms;
        match entry.checkpoint.next_due_ms {
            Some(due) => if due <= at_most {
                due
            } else {
                at_most
            },
            None => at_most,
        }
    } else {
        now + policy.tick_ms
    };
    if report.rechecks_due > 0 && report.error.is_none() {
        report.error = Some("recheck retained for its trusted consumer".to_owned());
    }
}

/// The factor by which repeated failures lengthen the wait: doubled at each
/// failure, up to the eighth.
pub open spec fn doubled(failures: nat) -> nat
    decreases failures,
{
    if failures == 0 {
        1
    } else if failures > 8 {
        256
    } else {
        2 * doubled((failures - 1) as nat)
    }
}

fn doublings(failures: u32) -> (r: u64)
    ensures
        r == doubled(failures as nat),
        r <= 256,
{
    reveal_with_fuel(doubled, 9);
    if failures == 0 {
        1
    } else if failures == 1 {
        2
    } else if failures == 2 {
        4
    } else if failures == 3 {
        8
    } else if failures == 4 {
        16
    } else if failures == 5 {
        32
    } else if failures == 6 {
        64
    } else if failures == 7 {
        128
    } else {
        256
    }
}

/// The wait after that many failures in a row.
pub open spec fn failure_wait(policy: AttentionPolicy, failures: u32) -> int {
    let wait = policy.tick_ms * doubled(failures as nat);
    if wait <= policy.blocked_retry_ms {
        wait
    } else {
        policy.blocked_retry_ms as int
    }
}

/// A scan failed: the Space is checked again after a wait that grows with each
/// failure in a row; the report holds the error alone.
pub fn scan_failed(
    entry: &mut Entry,
    policy: &AttentionPolicy,
    now: u64,
    message: String,
) -> (report: AttentionReport)
    requires
        policy.valid(),
        now <= u64::MAX - MAX_POLICY_MS,
    ensures
        report.wf(),
        report.error matches Some(error) && error@ == message@,
        exists|blank: AttentionReport| #[trigger]
            blank.is_empty() && report == (AttentionReport { error: report.error, ..blank }),
        final(entry).failures == if old(entry).failures < u32::MAX {
            (old(entry).failures + 1) as u32
        } else {
            u32::MAX
        },
        *final(entry) == (Entry {
            failures: final(entry).failures,
            registration: super::Registration {
                next_check_ms: (now + failure_wait(*policy, final(entry).failures)) as u64,
                ..old(entry).registration
            },
            ..*old(entry)
        }),
{
    entry.failures = if entry.failures < u32::MAX {
        entry.failures + 1
    } else {
        u32::MAX
    };
    let factor: u64 = doublings(entry.failures);
    assert(policy.tick_ms * factor <= 60_000 * 256) by (nonlinear_arith)
        requires
            policy.tick_ms <= 60_000,
            factor <= 256,
    ;
    let wait: u64 = policy.tick_ms * factor;
    let wait: u64 = if wait <= policy.blocked_retry_ms {
        wait
    } else {
        policy.blocked_retry_ms
    };
    entry.registration.next_check_ms = now + wait;
    let mut report = AttentionReport::new();
    let ghost blank = report;
    report.error = Some(message);
    assert(blank.is_empty() && report == (AttentionReport { error: report.error, ..blank }));
    report
}

// ---------------------------------------------------------------------------
// Laws
// ---------------------------------------------------------------------------

/// A Space is checked again no later than its policy's longest interval, and
/// never in the past of a time that is noted.
pub proof fn a_space_is_checked_again_in_time(
    checkpoint: Checkpoint,
    policy: AttentionPolicy,
    now: u64,
)
    requires
        policy.valid(),
        now <= u64::MAX - MAX_POLICY_MS,
    ensures
        next_check(checkpoint, policy, now) <= now + policy.reconcile_ms,
        checkpoint.complete() ==> (checkpoint.next_due_ms matches Some(due) ==> next_check(
            checkpoint,
            policy,
            now,
        ) <= due),
{
}

/// A failing Space waits at least one tick, never longer than the retry bound,
/// and never less after one more failure.
pub proof fn repeated_failures_wait_longer(policy: AttentionPolicy, failures: u32)
    requires
        policy.valid(),
        failures < u32::MAX,
    ensures
        policy.tick_ms <= failure_wait(policy, failures) <= policy.blocked_retry_ms,
        failure_wait(policy, failures) <= failure_wait(policy, (failures + 1) as u32),
{
    reveal_with_fuel(doubled, 10);
    let a = doubled(failures as nat);
    let b = doubled((failures + 1) as nat);
    doubled_grows(failures as nat);
    assert(policy.tick_ms <= policy.tick_ms * a <= policy.tick_ms * b) by (nonlinear_arith)
        requires
            1 <= a <= b,
            policy.tick_ms >= 0,
    ;
}

proof fn doubled_grows(failures: nat)
    ensures
        1 <= doubled(failures) <= doubled(failures + 1),
    decreases failures,
{
    if failures == 8 {
        assert(doubled(8) == 256) by {
            reveal_with_fuel(doubled, 9);
        }
    } else if failures > 0 {
        doubled_grows((failures - 1) as nat);
    }
}

/// Only a wake that has not ended and does not wait for a later time is handed
/// to the action bindings, and never more of them than one pass may run.
pub proof fn only_runnable_wakes_run(
    state: WakeState,
    version: u64,
    fence: u64,
    blocked: Option<BlockedWatch>,
    per_pass: Option<usize>,
    processed: usize,
    now: u64,
)
    requires
        wake_step_of(state, version, fence, blocked, per_pass, processed, now)
            == WakeStep::RunAction,
    ensures
        !state.ended(),
        !state.waits(now),
        per_pass matches Some(most) && processed < most,
{
}

} // verus!
