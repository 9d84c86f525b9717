//! What holds of scans, of the directory and of what the host registers.

use vstd::prelude::*;

use super::catalog::Root;
use super::scan::{self, ActionOutcome, BlockedWatch, WakeStep, WatchOutcome, WatchRow};
use super::semantic::runtime::SemanticStatus;
use super::status::{self, ActionFacts};
use super::work::{self, Installed, Scheduling};
use super::{AttentionError, AttentionPolicy, AttentionReport, Entry, Recheck};
use crate::json::{self, Datum};
use crate::nexus;
use crate::runtime::{AttentionConfig, RuntimePin, RuntimePins};
use crate::text;
use crate::wake::WakeState;

verus! {

// ---------------------------------------------------------------------------
// Bounds
// ---------------------------------------------------------------------------

/// A policy ticks at most once a minute apart, over at most twenty Spaces and Watches and
/// two hundred changes and wakes, for at most half a minute; it looks again no sooner than
/// at the next tick and no later than after an hour.
pub proof fn policies_are_bounded(p: AttentionPolicy)
    ensures
        p.valid() <==> {
            &&& 0 < p.tick_ms < 60_001
            &&& 0 < p.spaces_per_tick < 21
            &&& 0 < p.watches_per_space < 21
            &&& 0 < p.changes_per_watch < 201
            &&& 0 < p.wakes_per_space < 201
            &&& 0 < p.wall_time_ms < 30_001
            &&& p.tick_ms <= p.reconcile_ms < 3_600_001
            &&& p.tick_ms <= p.blocked_retry_ms < 3_600_001
        },
{
}

/// A Space is named by a plain part of a path: not empty, not too long, without slashes or
/// white space around it, none of the names that lead elsewhere, and none of the runtime's
/// own.
pub proof fn space_names_are_plain(id: Seq<char>)
    requires
        super::id_valid(id),
    ensures
        0 < id.len(),
        text::utf8_len(id) <= 128,
        forall|i: int| 0 <= i < id.len() ==> #[trigger] id[i] != '/' && id[i] != '\\',
        !text::is_white_space(id[0]),
        !text::is_white_space(id[id.len() - 1]),
        id != "."@ && id != ".."@,
        !text::is_prefix("__brain_runtime__"@, id),
{
    text::trimming_keeps_the_text_between(id);
    assert forall|i: int| 0 <= i < id.len() implies #[trigger] id[i] != '/' && id[i] != '\\' by {
        assert(id.contains(id[i]));
    }
    assert(id.first() == id[0] && id.last() == id[id.len() - 1]);
}

/// An entry that is valid is that of its Space and shard, in a slot of the directory, with
/// counters that have begun, and no more work behind it than it was asked to do.
pub proof fn valid_entries_are_consistent(e: Entry, id: Seq<char>, shard: u32)
    requires
        e.valid(id, shard),
    ensures
        super::id_valid(id),
        e.registration.scope.space_id@ == id,
        e.registration.shard == shard,
        e.registration.scope.space_instance@ == e.native_scope.space_instance@,
        e.registration.scope.space_instance@.len() > 0,
        e.registration.version > 0,
        e.registration.dirty_generation > 0,
        e.registration.reconciled_generation <= e.registration.dirty_generation,
        e.slot > 0,
        e.checkpoint.wake_pending@.len() <= 200,
{
}

/// Registering again and editing start everything anew: a new version, a new generation
/// that is not reconciled, and a check at once; a registration is scanned from its start,
/// under the pins that were given. What else the directory keeps stays.
pub proof fn changes_are_scanned_anew(before: Entry, after: Entry, pins: RuntimePins)
    ensures
        before.renewed(after, pins) && before.can_count() ==> {
            &&& after.registration.version == before.registration.version + 1
            &&& after.registration.dirty_generation == before.registration.dirty_generation + 1
            &&& after.registration.reconciled_generation
                == before.registration.reconciled_generation
            &&& after.registration.pins == pins
            &&& after.registration.enabled == before.registration.enabled
            &&& after.registration.next_check_ms == 0
            &&& after.failures == 0
            &&& !after.checkpoint.runnable_done && !after.checkpoint.all_done
                && !after.checkpoint.wakes_done
            &&& after.checkpoint.wake_pending@.len() == 0
            &&& after.checkpoint.next_due_ms is None
            &&& after.rechecks == before.rechecks
            &&& after.slot == before.slot
        },
        before.touched(after) && before.can_count() ==> {
            &&& after.registration.version == before.registration.version + 1
            &&& after.registration.dirty_generation == before.registration.dirty_generation + 1
            &&& after.registration.next_check_ms == 0
            &&& after.registration.pins == before.registration.pins
            &&& after.failures == 0
            &&& after.checkpoint == before.checkpoint
            &&& after.rechecks == before.rechecks
        },
{
}

/// A page of slots starts behind the cursor, or anew behind the last slot, and holds at
/// most as many slots as asked for, all of them allocated.
pub proof fn pages_follow_the_cursor(root: Root, limit: int, slot: int)
    requires
        root.valid(),
        1 <= limit,
    ensures
        root.page_holds(limit, slot) <==> {
            let from = if root.cursor == root.allocated {
                1int
            } else {
                root.cursor + 1
            };
            from <= slot < from + limit && slot <= root.allocated
        },
{
}

// ---------------------------------------------------------------------------
// The start and the end of a scan
// ---------------------------------------------------------------------------

/// One of the rechecks is due.
pub open spec fn some_due(rechecks: Seq<Recheck>, now: u64) -> bool {
    exists|i: int| 0 <= i < rechecks.len() && (#[trigger] rechecks[i]).due_at_ms <= now
}

/// Rechecks are counted as due exactly where some are; one more that is due counts one
/// more, and one that is not counts none.
pub proof fn due_rechecks_are_counted(rechecks: Seq<Recheck>, now: u64, more: Recheck)
    ensures
        scan::due_count(rechecks, now) > 0 <==> some_due(rechecks, now),
        scan::due_count(rechecks, now) <= rechecks.len(),
        scan::due_count(rechecks.push(more), now) == scan::due_count(rechecks, now) + (if more.due_at_ms
            <= now {
            1int
        } else {
            0
        }),
    decreases rechecks.len(),
{
    assert(rechecks.push(more).drop_last() =~= rechecks);
    if rechecks.len() > 0 {
        let rest = rechecks.drop_last();
        due_rechecks_are_counted(rest, now, more);
        assert(rechecks[rechecks.len() - 1] == rechecks.last());
        if some_due(rest, now) {
            let i = choose|i: int| 0 <= i < rest.len() && (#[trigger] rest[i]).due_at_ms <= now;
            assert(rechecks[i] == rest[i]);
        }
        if some_due(rechecks, now) {
            let i = choose|i: int|
                0 <= i < rechecks.len() && (#[trigger] rechecks[i]).due_at_ms <= now;
            if i < rest.len() {
                assert(rest[i] == rechecks[i]);
            }
        }
    }
}

/// The time that is noted is the earliest of the one before and of the rechecks that are
/// still to come: none of those is earlier, and it is one of them.
pub proof fn the_next_recheck_is_noted(noted: Option<u64>, rechecks: Seq<Recheck>, now: u64)
    ensures
        ({
            let r = scan::earliest_recheck(noted, rechecks, now);
            &&& noted matches Some(t) ==> r is Some && r->0 <= t
            &&& forall|i: int|
                0 <= i < rechecks.len() && (#[trigger] rechecks[i]).due_at_ms > now ==> r is Some
                    && r->0 <= rechecks[i].due_at_ms
            &&& r is Some ==> r == noted || exists|i: int|
                0 <= i < rechecks.len() && (#[trigger] rechecks[i]).due_at_ms == r->0
                    && rechecks[i].due_at_ms > now
        }),
    decreases rechecks.len(),
{
    if rechecks.len() > 0 {
        let rest = rechecks.drop_last();
        the_next_recheck_is_noted(noted, rest, now);
        let before = scan::earliest_recheck(noted, rest, now);
        let r = scan::earliest_recheck(noted, rechecks, now);
        assert(rechecks[rechecks.len() - 1] == rechecks.last());
        assert forall|i: int|
            0 <= i < rechecks.len() && (#[trigger] rechecks[i]).due_at_ms > now implies r is Some
            && r->0 <= rechecks[i].due_at_ms by {
            if i < rest.len() {
                assert(rest[i] == rechecks[i]);
            }
        }
        if r is Some && r == before && r != noted {
            let i = choose|i: int|
                0 <= i < rest.len() && (#[trigger] rest[i]).due_at_ms == r->0 && rest[i].due_at_ms
                    > now;
            assert(rechecks[i] == rest[i]);
        }
    }
}

/// A scan starts over where the Space has changed since, or where the last one was
/// complete; else it goes on where it stood. Rechecks are kept, and those that are due are
/// known to be noticed.
pub proof fn scans_start_over(before: Entry, after: Entry, now: u64)
    requires
        scan::begun(before, after, now),
    ensures
        ({
            let c = before.checkpoint;
            let over = c.generation != before.registration.dirty_generation || (c.runnable_done
                && c.all_done && c.wakes_done);
            &&& over ==> after.checkpoint.generation == before.registration.dirty_generation
                && !after.checkpoint.runnable_done && !after.checkpoint.all_done
                && !after.checkpoint.wakes_done && after.checkpoint.wake_cursor is None
                && after.checkpoint.runnable_after@.len() == 0
                && after.checkpoint.all_after@.len() == 0
                && after.checkpoint.wake_pending@.len() == 0
            &&& !over ==> after.checkpoint.runnable_after == c.runnable_after
                && after.checkpoint.all_after == c.all_after && after.checkpoint.wake_cursor
                == c.wake_cursor && after.checkpoint.wake_pending == c.wake_pending
                && after.checkpoint.runnable_done == c.runnable_done && after.checkpoint.all_done
                == c.all_done && after.checkpoint.wakes_done == c.wakes_done
            &&& after.rechecks@.len() == before.rechecks@.len()
            &&& forall|i: int|
                0 <= i < before.rechecks@.len() ==> {
                    &&& (#[trigger] after.rechecks@[i]).key == before.rechecks@[i].key
                    &&& after.rechecks@[i].due_at_ms == before.rechecks@[i].due_at_ms
                    &&& after.rechecks@[i].source == before.rechecks@[i].source
                    &&& after.rechecks@[i].notified <==> before.rechecks@[i].notified
                        || before.rechecks@[i].due_at_ms <= now
                }
            &&& after.registration == before.registration
            &&& after.failures == before.failures
        }),
{
    assert forall|i: int| 0 <= i < before.rechecks@.len() implies {
        &&& (#[trigger] after.rechecks@[i]).key == before.rechecks@[i].key
        &&& after.rechecks@[i].due_at_ms == before.rechecks@[i].due_at_ms
        &&& after.rechecks@[i].source == before.rechecks@[i].source
        &&& after.rechecks@[i].notified <==> before.rechecks@[i].notified
            || before.rechecks@[i].due_at_ms <= now
    } by {
        assert(scan::recheck_seen(before.rechecks@[i], after.rechecks@[i], now));
    }
}

/// A complete scan is checked again at the earliest time that was noted, and at the latest
/// after the policy's interval; an incomplete one at the next tick. It counts as complete
/// only once Watches, diagnostics and wakes are all done, and is then dated.
pub proof fn scans_are_followed_up(
    entry: Entry,
    report: AttentionReport,
    entry_after: Entry,
    report_after: AttentionReport,
    policy: AttentionPolicy,
    now: u64,
    out_of_time: bool,
)
    requires
        policy.valid(),
        now + 3_600_000 <= u64::MAX,
        scan::scan_finished(
            entry,
            report,
            entry_after,
            report_after,
            policy,
            now,
            out_of_time,
        ),
    ensures
        ({
            let c = entry.checkpoint;
            let complete = c.runnable_done && c.all_done && c.wakes_done;
            let next = entry_after.registration.next_check_ms;
            &&& report_after.scan_complete <==> complete
            &&& report_after.budget_exhausted <==> !complete || out_of_time
            &&& !complete ==> next == now + policy.tick_ms && entry_after.last_scan_ms
                == entry.last_scan_ms
            &&& complete ==> entry_after.last_scan_ms == now
            &&& complete && c.next_due_ms is Some && c.next_due_ms->0 <= now + policy.reconcile_ms
                ==> next == c.next_due_ms->0
            &&& complete && (c.next_due_ms is None || c.next_due_ms->0 > now + policy.reconcile_ms)
                ==> next == now + policy.reconcile_ms
            &&& report.error is Some ==> report_after.error is Some && report_after.error->0@
                == report.error->0@
            &&& report.error is None ==> (report_after.error is Some <==> report.rechecks_due > 0)
            &&& entry_after.checkpoint == entry.checkpoint
            &&& report_after.watches_scanned == report.watches_scanned && report_after.fired
                == report.fired && report_after.blocked == report.blocked
        }),
{
}

/// The wait of a failing Space doubles with each failure in a row, up to the eighth and
/// never beyond the retry bound.
pub proof fn failing_spaces_wait_twice_as_long(policy: AttentionPolicy, failures: u32)
    requires
        policy.valid(),
    ensures
        scan::doubled(0) == 1,
        0 < failures <= 8 ==> scan::doubled(failures as nat) == 2 * scan::doubled(
            (failures - 1) as nat,
        ),
        failures > 8 ==> scan::doubled(failures as nat) == 256,
        scan::failure_wait(policy, failures) <= policy.blocked_retry_ms,
        policy.tick_ms * scan::doubled(failures as nat) <= policy.blocked_retry_ms
            ==> scan::failure_wait(policy, failures) == policy.tick_ms * scan::doubled(
            failures as nat,
        ),
{
}

// ---------------------------------------------------------------------------
// Watches
// ---------------------------------------------------------------------------

/// A Watch that was visited is counted once: as advanced, and where it fired or expired as
/// that too; as put off for its backoff; or as unavailable, with its error, and as a
/// conflict where it was one.
pub proof fn visits_are_counted(
    before: AttentionReport,
    after: AttentionReport,
    outcome: WatchOutcome,
)
    requires
        before.has_room(),
        before.blocked_wakes <= before.blocked,
        scan::watch_reported(before, after, outcome),
    ensures
        after.watches_scanned == before.watches_scanned + 1,
        after.wakes_scanned == before.wakes_scanned,
        after.actions_processed == before.actions_processed,
        match outcome {
            WatchOutcome::Advanced(step) => {
                &&& after.advanced == before.advanced + 1
                &&& after.fired == before.fired + (if step is Fired {
                    1int
                } else {
                    0
                })
                &&& after.expired == before.expired + (if step is Expired {
                    1int
                } else {
                    0
                })
                &&& after.blocked == before.blocked
                &&& after.error == before.error
            },
            WatchOutcome::BackedOff => {
                &&& after.advanced == before.advanced && after.fired == before.fired
                &&& after.blocked == before.blocked + 1
                &&& after.blocked_wakes == before.blocked_wakes
                &&& after.blocked_reasons.of("watch_retry_backoff"@) == before.blocked_reasons.of(
                    "watch_retry_backoff"@,
                ) + 1
            },
            WatchOutcome::Failed { conflict, message } => {
                &&& after.advanced == before.advanced && after.fired == before.fired
                &&& after.blocked == before.blocked + 1
                &&& after.blocked_wakes == before.blocked_wakes
                &&& after.conflicted == before.conflicted + (if conflict {
                    1int
                } else {
                    0
                })
                &&& after.error is Some && after.error->0@ == message@
                &&& after.blocked_reasons.of("native_watch_unavailable"@)
                    == before.blocked_reasons.of("native_watch_unavailable"@) + 1
            },
        },
{
}

/// Visiting goes on behind the Watch that was visited, and is looked at again no later than
/// at the next tick.
pub proof fn visits_go_on(entry: Entry, id: String, policy: AttentionPolicy, now: u64)
    requires
        policy.valid(),
        now + 3_600_000 <= u64::MAX,
    ensures
        ({
            let after = scan::visited_entry(entry, id, policy, now);
            &&& after.checkpoint.runnable_after@ == id@
            &&& after.checkpoint.next_due_ms is Some
            &&& after.checkpoint.next_due_ms->0 <= now + policy.tick_ms
            &&& entry.checkpoint.next_due_ms matches Some(t) ==> after.checkpoint.next_due_ms->0
                <= t
            &&& after.checkpoint.all_after == entry.checkpoint.all_after
            &&& after.registration == entry.registration
        }),
{
}

/// A page of Watches is the last one exactly where it was short and was visited to its end.
pub proof fn short_pages_are_the_last(
    before: Entry,
    after: Entry,
    rows: usize,
    exhausted: bool,
    policy: AttentionPolicy,
)
    requires
        scan::page_ended(before, after, rows, exhausted, policy),
        !before.checkpoint.runnable_done,
    ensures
        after.checkpoint.runnable_done <==> rows < policy.watches_per_space && !exhausted,
        after.checkpoint.runnable_done ==> after.checkpoint.runnable_after@.len() == 0,
        !after.checkpoint.runnable_done ==> after == before,
{
}

/// An armed Watch is put off only where a structured scan cannot advance it, and for its
/// own reason: it is of an earlier kind, or waits for an evaluator, which is there or is
/// not. Its due time is noted while it lies ahead.
pub proof fn inspections_say_what_is_left(
    entry: Entry,
    report: AttentionReport,
    entry_after: Entry,
    report_after: AttentionReport,
    row: WatchRow,
    semantic: bool,
    policy: AttentionPolicy,
    now: u64,
)
    requires
        scan::inspected(
            entry,
            report,
            entry_after,
            report_after,
            row,
            semantic,
            policy,
            now,
        ),
        report.blocked < usize::MAX,
        policy.valid(),
        now + 3_600_000 <= u64::MAX,
    ensures
        row.structured && row.generation is Some ==> report_after == report,
        !row.structured || row.generation is None ==> {
            let reason = if row.generation is None {
                "legacy_watch_requires_replacement"@
            } else if semantic {
                "semantic_evaluation_separate_pass"@
            } else {
                "semantic_evaluator_unavailable"@
            };
            &&& report_after.blocked == report.blocked + 1
            &&& report_after.blocked_reasons.of(reason) == report.blocked_reasons.of(reason) + 1
        },
        entry_after.checkpoint.all_after@ == row.id@,
        ({
            let next = entry_after.checkpoint.next_due_ms;
            let due = nexus::millis_of(row.due_at@);
            &&& due matches Some(t) ==> t <= now || (next is Some && next->0 <= t)
            &&& semantic && !row.structured ==> next is Some && next->0 <= now + policy.tick_ms
            &&& entry.checkpoint.next_due_ms matches Some(t) ==> next is Some && next->0 <= t
            &&& next is Some ==> next == entry.checkpoint.next_due_ms || (next == due && due->0 > now)
                || next->0
                == now + policy.tick_ms
        }),
{
}

// ---------------------------------------------------------------------------
// Wakes
// ---------------------------------------------------------------------------

/// The last failure of exactly this wake keeps it back until then.
pub open spec fn kept_back(
    blocked: Option<BlockedWatch>,
    version: u64,
    fence: u64,
    now: u64,
) -> bool {
    blocked is Some && blocked->0.version == version && blocked->0.generation == fence
        && blocked->0.retry_at_ms > now
}

/// With bindings installed, every wake runs that has not ended and does not wait for a later
/// time, as far as the pass permits. Without, or else, only a blocked wake is resumed: once
/// its own terms allow it and no recent failure of exactly this wake keeps it back.
pub proof fn wakes_run_or_resume(
    state: WakeState,
    version: u64,
    fence: u64,
    blocked: Option<BlockedWatch>,
    per_pass: Option<usize>,
    processed: usize,
    now: u64,
)
    ensures
        ({
            let r = scan::wake_step_of(state, version, fence, blocked, per_pass, processed, now);
            let ended = state is Completed || state is Cancelled;
            let waits = state is Pending && state->Pending_not_before_ms > now;
            let ready = state is Blocked && (state->resume is OnChange
                || state->resume->At_not_before_ms <= now);
            let runs = per_pass is Some && !ended && !waits;
            &&& runs && processed < per_pass->0 ==> r is RunAction
            &&& runs && processed >= per_pass->0 ==> r is OverBudget
            &&& !runs && ready && !kept_back(blocked, version, fence, now) ==> r is Resume
            &&& !runs && !(ready && !kept_back(blocked, version, fence, now)) ==> r is Recorded
        }),
{
}

/// A wake that is only recorded is looked at again: when it is due, when its lease expires,
/// or when it may be resumed, but no sooner than at the next tick. While a lease runs, the
/// Space is busy. Nothing that was noted earlier is lost.
pub proof fn recorded_wakes_are_looked_at_again(
    before: Entry,
    state: WakeState,
    version: u64,
    fence: u64,
    blocked: Option<BlockedWatch>,
    step: WakeStep,
    policy: AttentionPolicy,
    now: u64,
)
    requires
        policy.valid(),
        now + 3_600_000 <= u64::MAX,
    ensures
        ({
            let after = scan::wake_entry(
                before,
                state,
                version,
                fence,
                blocked,
                step,
                policy,
                now,
            );
            let next = after.checkpoint.next_due_ms;
            let soon = now + policy.tick_ms;
            &&& before.checkpoint.next_due_ms matches Some(t) ==> next is Some && next->0 <= t
            &&& after.checkpoint.running_until_ms >= before.checkpoint.running_until_ms
            &&& step is OverBudget ==> next is Some && next->0 <= soon
            &&& step is RunAction || step is Resume ==> after == before
            &&& step is Recorded && state is Pending ==> next is Some && (next->0 <= soon
                || next->0 <= state->Pending_not_before_ms)
            &&& step is Recorded && state is Running ==> next is Some && (next->0 <= soon || next->0
                <= state->lease.expires_at_ms) && after.checkpoint.running_until_ms
                >= state->lease.expires_at_ms
            &&& step is Recorded && state is Blocked ==> next is Some
            &&& step is Recorded && state is Blocked && state->resume is At
                && before.checkpoint.next_due_ms is None && !(blocked is Some
                && blocked->0.version == version && blocked->0.generation == fence) ==> next->0
                == (if state->resume->At_not_before_ms > soon {
                state->resume->At_not_before_ms as int
            } else {
                soon
            })
            &&& step is Recorded && state is Pending && before.checkpoint.next_due_ms is None
                ==> next == Some(greater(state->Pending_not_before_ms, soon as u64))
            &&& step is Recorded && state is Running && before.checkpoint.next_due_ms is None
                ==> next == Some(greater(state->lease.expires_at_ms, soon as u64))
            &&& step is Recorded && state is Running ==> after.checkpoint.running_until_ms
                == greater(before.checkpoint.running_until_ms, state->lease.expires_at_ms)
            &&& !(step is Recorded && state is Running) ==> after.checkpoint.running_until_ms
                == before.checkpoint.running_until_ms
            &&& step is Recorded && state is Blocked && blocked is Some && blocked->0.version
                == version && blocked->0.generation == fence && before.checkpoint.next_due_ms
                is None ==> next->0 >= blocked->0.retry_at_ms && next->0 >= soon && (next->0 == soon
                || next->0 == blocked->0.retry_at_ms || (state->resume is At && next->0
                == state->resume->At_not_before_ms))
            &&& step is Recorded && state is Blocked && state->resume is OnChange
                && before.checkpoint.next_due_ms is None && blocked is None ==> next->0 == soon
            &&& step is Recorded && (state is Completed || state is Cancelled) ==> after == before
            &&& after.registration == before.registration && after.rechecks == before.rechecks
        }),
{
}

/// The greater of the two.
pub open spec fn greater(a: u64, b: u64) -> u64 {
    if a >= b {
        a
    } else {
        b
    }
}

/// A wake that was read is counted once: as pending, and without bindings as put off for
/// that; as an action that runs; or as put off for its backoff.
pub proof fn read_wakes_are_counted(
    before: AttentionReport,
    after: AttentionReport,
    state: WakeState,
    version: u64,
    fence: u64,
    blocked: Option<BlockedWatch>,
    step: WakeStep,
    per_pass: Option<usize>,
    now: u64,
)
    requires
        before.has_room(),
        before.blocked_wakes <= before.blocked,
        scan::wake_reported(
            before,
            after,
            state,
            version,
            fence,
            blocked,
            step,
            per_pass,
            now,
        ),
    ensures
        step is OverBudget ==> after.budget_exhausted && after.actions_processed
            == before.actions_processed && after.blocked == before.blocked,
        step is RunAction ==> after.actions_processed == before.actions_processed + 1
            && after.blocked == before.blocked,
        step is Resume ==> after == before,
        step is Recorded && state is Pending ==> after.pending == before.pending + 1,
        step is Recorded && state is Pending && per_pass is None ==> after.blocked
            == before.blocked + 1 && after.blocked_wakes == before.blocked_wakes + 1
            && after.blocked_reasons.of("action_bindings_not_installed"@)
            == before.blocked_reasons.of("action_bindings_not_installed"@) + 1,
        step is Recorded && state is Pending && per_pass is Some ==> after.blocked
            == before.blocked,
        step is Recorded && state is Blocked && kept_back(blocked, version, fence, now)
            ==> after.blocked == before.blocked + 1 && after.blocked_reasons.of(
            "wake_resume_backoff"@,
        ) == before.blocked_reasons.of("wake_resume_backoff"@) + 1,
        step is Recorded && state is Blocked && !kept_back(blocked, version, fence, now)
            ==> after == before,
{
}

/// A processed wake is looked at again when it says so, else after the policy's interval,
/// and after a failure when the retry bound is over; a resumed one at the next tick.
pub proof fn processed_wakes_are_looked_at_again(
    outcome: ActionOutcome,
    resumed: bool,
    policy: AttentionPolicy,
    now: u64,
)
    requires
        policy.valid(),
        now + 3_600_000 <= u64::MAX,
    ensures
        outcome matches ActionOutcome::Processed { next_run_ms: Some(at), .. } ==> scan::action_due(
            outcome,
            policy,
            now,
        ) == at,
        outcome matches ActionOutcome::Processed { next_run_ms: None, .. } ==> scan::action_due(
            outcome,
            policy,
            now,
        ) == now + policy.reconcile_ms,
        outcome is Failed ==> scan::action_due(outcome, policy, now) == now
            + policy.blocked_retry_ms,
        resumed ==> scan::resume_again(resumed, policy, now) == now + policy.tick_ms,
        !resumed ==> scan::resume_again(resumed, policy, now) == now + policy.blocked_retry_ms,
{
}

/// What an action came to is counted under its state, and besides as put off where it gave
/// a reason; a failure keeps its error. A resumed wake is counted, one that was not is put
/// off.
pub proof fn processed_wakes_are_counted(
    before: AttentionReport,
    after: AttentionReport,
    outcome: ActionOutcome,
    resumed: bool,
)
    requires
        before.has_room(),
        before.blocked_wakes <= before.blocked,
    ensures
        scan::action_reported(before, after, outcome) ==> match outcome {
            ActionOutcome::Processed { state, reason, .. } => {
                &&& after.action_states.of(state@) == before.action_states.of(state@) + 1
                &&& after.blocked == before.blocked + (if reason {
                    1int
                } else {
                    0
                })
                &&& reason ==> after.blocked_reasons.of("action_blocked"@)
                    == before.blocked_reasons.of("action_blocked"@) + 1
            },
            ActionOutcome::Failed { message } => {
                &&& after.error is Some && after.error->0@ == message@
                &&& after.blocked == before.blocked + 1
                &&& after.blocked_reasons.of("action_configuration_or_source_unavailable"@)
                    == before.blocked_reasons.of("action_configuration_or_source_unavailable"@) + 1
            },
        },
        scan::resume_reported(before, after, resumed) ==> if resumed {
            after.resumed == before.resumed + 1 && after.blocked == before.blocked
        } else {
            after.resumed == before.resumed && after.blocked == before.blocked + 1
                && after.blocked_reasons.of("wake_resume_unverified"@)
                == before.blocked_reasons.of("wake_resume_unverified"@) + 1
        },
{
}

/// A page of wakes is left only once every wake of it was looked at, for the page behind
/// it; the wakes are done exactly where there is none.
pub proof fn wake_pages_follow_each_other(entry: Entry)
    ensures
        ({
            let after = scan::wakes_closed(entry);
            &&& entry.checkpoint.wake_pending@.len() > 0 ==> after == entry
            &&& entry.checkpoint.wake_pending@.len() == 0 ==> after.checkpoint.wake_cursor
                == entry.checkpoint.wake_page_cursor && after.checkpoint.wakes_done
                == entry.checkpoint.wake_page_complete && after.checkpoint.wake_page_cursor is None
        }),
{
}

// ---------------------------------------------------------------------------
// Rechecks
// ---------------------------------------------------------------------------

/// A recheck that was put is kept, in place of the first of its key or at the end; no other
/// recheck is lost or changed.
pub proof fn rechecks_are_kept(before: Seq<Recheck>, after: Seq<Recheck>, recheck: Recheck)
    requires
        work::recheck_put(before, after, recheck),
    ensures
        after.contains(recheck),
        before.len() <= after.len() <= before.len() + 1,
        after.len() == before.len() + 1 <==> forall|k: int|
            0 <= k < before.len() ==> (#[trigger] before[k]).key@ != recheck.key@,
        forall|k: int|
            0 <= k < before.len() && (#[trigger] before[k]).key@ != recheck.key@ ==> after[k]
                == before[k],
        before.len() <= 32 ==> after.len() <= 33,
{
    if work::has_key(before, recheck.key@) {
        let at = choose|at: int| #[trigger]
            work::is_place(before, recheck.key@, at) && after == before.update(at, recheck);
        assert(after[at] == recheck);
        assert(before[at].key@ == recheck.key@);
    } else {
        assert(after[before.len() as int] == recheck);
    }
}

/// After an expiry was noted, an expiry is awaited no later than it, unless there is no room
/// for it.
pub proof fn expiries_are_awaited(
    before: Entry,
    after: Entry,
    due: u64,
    r: Result<Scheduling, AttentionError>,
)
    requires
        work::expiry_noted(before, after, due, r),
    ensures
        r is Ok ==> exists|k: int|
            0 <= k < after.rechecks@.len() && (#[trigger] after.rechecks@[k]).key@
                == "native_projection_expiry"@ && !after.rechecks@[k].notified
                && after.rechecks@[k].due_at_ms <= due,
        r is Err ==> after == before,
        r == Ok::<Scheduling, AttentionError>(Scheduling::Kept) ==> after == before,
        r == Ok::<Scheduling, AttentionError>(Scheduling::Changed) ==> exists|k: int|
            0 <= k < after.rechecks@.len() && (#[trigger] after.rechecks@[k]).key@
                == "native_projection_expiry"@ && after.rechecks@[k].due_at_ms == due
                && after.rechecks@[k].source is DependencyInvalidation,
{
    if r == Ok::<Scheduling, AttentionError>(Scheduling::Changed) {
        let recheck = choose|recheck: Recheck| #[trigger]
            work::is_expiry(recheck, due) && work::recheck_put(
                before.rechecks@,
                after.rechecks@,
                recheck,
            );
        rechecks_are_kept(before.rechecks@, after.rechecks@, recheck);
        let k = choose|k: int| 0 <= k < after.rechecks@.len() && after.rechecks@[k] == recheck;
        assert(after.rechecks@[k].key@ == "native_projection_expiry"@);
    }
}

// ---------------------------------------------------------------------------
// Registration
// ---------------------------------------------------------------------------

/// A registration is for the instance that the engine knows, else for the one that the
/// database kept, and for a fresh one only where neither is there.
pub proof fn instances_are_kept(
    native: Option<AttentionConfig>,
    saved: Option<String>,
    fresh: Seq<char>,
)
    ensures
        native is Some ==> work::instance_of(native, saved, fresh)
            == native->0.scope.space_instance@,
        native is None && saved is Some ==> work::instance_of(native, saved, fresh) == saved->0@,
        native is None && saved is None ==> work::instance_of(native, saved, fresh) == fresh,
{
}

/// A Space is registered exactly where engine and database speak of one instance, the
/// actions are those that the engine knows, the evaluator's controller is the one that
/// acts, and the evaluator is the one that the engine knows.
pub proof fn registrations_agree(
    native: Option<AttentionConfig>,
    saved: Option<String>,
    installed: Installed,
)
    ensures
        work::registration_refused(native, saved, installed) is None <==> {
            &&& native is Some && saved is Some ==> saved->0@ == native->0.scope.space_instance@
            &&& installed.actions is Some && native is Some ==> native->0.pins.same_as(
                installed.actions->0,
            )
            &&& installed.actions is Some && installed.evaluator is Some
                ==> installed.action_principal@ == installed.semantic_principal@
            &&& native is Some && installed.evaluator is Some ==> native->0.pins.evaluator is Some
                && native->0.pins.evaluator->0.id@ == installed.evaluator->0.id@
                && native->0.pins.evaluator->0.digest@ == installed.evaluator->0.digest@
        },
        native is Some && saved is Some && saved->0@ != native->0.scope.space_instance@
            ==> work::registration_refused(native, saved, installed) == Some(
            AttentionError::DatabaseInstanceMismatch,
        ),
{
}

/// A Space without a native configuration starts with exactly what is installed: the policy
/// and binding of its actions, or the structured policy alone; and the installed evaluator.
pub proof fn registrations_start_with_what_is_installed(pins: RuntimePins, installed: Installed)
    requires
        work::starts_with_pins(pins, installed),
    ensures
        installed.actions is Some ==> pins.policy.id@ == installed.actions->0.policy.id@
            && pins.policy.digest@ == installed.actions->0.policy.digest@,
        installed.actions is None ==> pins.binding is None && pins.policy.id@
            == "nexus:structured-watch-v1"@,
        installed.evaluator is Some ==> pins.evaluator is Some && pins.evaluator->0.id@
            == installed.evaluator->0.id@,
        installed.evaluator is None && installed.actions is None ==> pins.evaluator is None,
{
}

/// A migration is for the expected version, or repeats the one that has just made the next.
pub proof fn migrations_are_of_their_version(
    version: u64,
    expected: u64,
    config: AttentionConfig,
    pin: Option<RuntimePin>,
)
    ensures
        version == expected ==> work::migration_current(version, expected, config, pin),
        version != expected && work::migration_current(version, expected, config, pin) ==> version
            == expected + 1 && crate::runtime::same_pin(config.pins.evaluator, pin),
        version == expected + 1 && crate::runtime::same_pin(config.pins.evaluator, pin)
            ==> work::migration_current(version, expected, config, pin),
{
}

// ---------------------------------------------------------------------------
// Status
// ---------------------------------------------------------------------------

/// The status shows attention as enabled exactly where host, policy and Space run it, and
/// actions only where they are installed and switched on besides; without bindings it says
/// so.
pub proof fn statuses_show_what_runs(
    automatic: bool,
    policy_enabled: bool,
    registered: Option<bool>,
    semantic: SemanticStatus,
    actions: Option<ActionFacts>,
    last_scan: Datum,
)
    ensures
        ({
            let v = status::status_value(
                automatic,
                policy_enabled,
                registered,
                semantic,
                actions,
                last_scan,
            );
            let enabled = automatic && policy_enabled && registered == Some(true);
            &&& v.at("structured_attention"@).at("enabled"@) == Datum::Bool(enabled)
            &&& v.at("structured_attention"@).at("registered"@) == Datum::Bool(
                registered is Some,
            )
            &&& v.at("actions"@).at("configured"@) == Datum::Bool(actions is Some)
            &&& v.at("actions"@).at("enabled"@) == Datum::Bool(
                enabled && actions is Some && actions->0.enabled,
            )
            &&& actions is None ==> v.at("actions"@).at("blocked_reason"@) == Datum::Text(
                "action_bindings_not_installed"@,
            ) && v.at("actions"@).at("pins"@) == Datum::Null
            &&& actions is Some ==> v.at("actions"@).at("blocked_reason"@) == Datum::Null && v.at(
                "actions"@,
            ).at("pins"@) == actions->0.pins.value()
            &&& v.at("last_scan"@) == last_scan
            &&& v.at("semantic_attention"@).at("configured"@) == Datum::Bool(semantic.configured)
            &&& v.at("semantic_attention"@).at("automatic"@) == Datum::Bool(semantic.automatic)
            &&& v.at("semantic_attention"@).at("running"@) == Datum::Bool(semantic.running)
        }),
{
    broadcast use json::with_is_read_back;

    reveal_strlit("semantic_attention");
    reveal_strlit("structured_attention");
    reveal_strlit("actions");
    reveal_strlit("last_scan");
    reveal_strlit("supported");
    reveal_strlit("enabled");
    reveal_strlit("registered");
    reveal_strlit("configured");
    reveal_strlit("ready");
    reveal_strlit("readiness");
    reveal_strlit("pins");
    reveal_strlit("blocked_reason");
    reveal_strlit("automatic");
    reveal_strlit("running");
    reveal_strlit("pin");
    reveal_strlit("reason");
    reveal_strlit("last_pass");
    assert("semantic_attention"@.len() == 18 && "structured_attention"@.len() == 20 && "actions"@.len() == 7 && "last_scan"@.len() == 9);
    assert("supported"@.len() == 9 && "enabled"@.len() == 7 && "registered"@.len() == 10 && "configured"@.len() == 10);
    assert("ready"@.len() == 5 && "readiness"@.len() == 9 && "pins"@.len() == 4 && "blocked_reason"@.len() == 14);
    assert("automatic"@.len() == 9 && "running"@.len() == 7 && "pin"@.len() == 3 && "reason"@.len() == 6);
    assert("last_pass"@.len() == 9 && "actions"@[0] == 'a' && "automatic"@[0] == 'a' && "configured"@[0] == 'c');
    assert("enabled"@[0] == 'e' && "last_pass"@[0] == 'l' && "last_pass"@[5] == 'p' && "last_scan"@[0] == 'l');
    assert("last_scan"@[5] == 's' && "readiness"@[0] == 'r' && "registered"@[0] == 'r' && "running"@[0] == 'r');
    assert("supported"@[0] == 's');
    let v = status::status_value(
        automatic,
        policy_enabled,
        registered,
        semantic,
        actions,
        last_scan,
    );
    assert(v.get("structured_attention"@) is Some);
    assert(v.get("actions"@) is Some);
    assert(v.get("last_scan"@) == Some(last_scan));
    assert(v.get("semantic_attention"@) == Some(status::semantic_value(semantic)));
    let a = v.at("structured_attention"@);
    assert(a.get("enabled"@) is Some);
    assert(a.get("registered"@) is Some);
    let b = v.at("actions"@);
    assert(b.get("configured"@) is Some);
    assert(b.get("enabled"@) is Some);
    assert(b.get("pins"@) is Some);
    assert(b.get("blocked_reason"@) is Some);
    let c = v.at("semantic_attention"@);
    assert(c.get("configured"@) == Some(Datum::Bool(semantic.configured)));
    assert(c.get("automatic"@) == Some(Datum::Bool(semantic.automatic)));
    assert(c.get("running"@) == Some(Datum::Bool(semantic.running)));
}

} // verus!
