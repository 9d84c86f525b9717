//! What holds of the steps of a scan.

use vstd::prelude::*;

use super::sweep::{Ask, Stage, Sweep, SweepError, Tick, Told};
use super::{AttentionError, Entry};

verus! {

/// A scan goes on only under the configuration that the Space was registered with: of the
/// same scope and pins. Else it ends, and says whether the configuration is missing or has
/// changed.
pub proof fn scans_keep_to_their_configuration(
    before: Sweep,
    after: Sweep,
    told: Told,
    tick: Tick,
    r: Result<Ask, SweepError>,
)
    requires
        before.moves(after, told, tick, r),
        before.stage is Configuration,
        told is Configuration,
    ensures
        told->Configuration_0 is None ==> r == Err::<Ask, SweepError>(
            SweepError::Attention(AttentionError::ConfigurationMissing),
        ) && after.entry == before.entry,
        told->Configuration_0 matches Some(c) ==> {
            let same = c.scope.space_id@ == before.entry.native_scope.space_id@
                && c.scope.space_instance@ == before.entry.native_scope.space_instance@
                && c.pins.same_as(before.entry.registration.pins);
            &&& !same ==> r == Err::<Ask, SweepError>(
                SweepError::Attention(AttentionError::ConfigurationChanged),
            ) && after.entry == before.entry
            &&& same && tick.in_time ==> r is Ok && r->Ok_0 is ReadRunnable && after.stage
                is RunnablePage && after.started == tick.now
            &&& same ==> r != Err::<Ask, SweepError>(
                SweepError::Attention(AttentionError::ConfigurationChanged),
            )
        },
{
}

/// The next Watch is advanced under its own identity, version and arming, unless a failure
/// of exactly these keeps it back; without an arming the scan ends.
pub proof fn watches_advance_as_they_were_read(
    before: Sweep,
    after: Sweep,
    told: Told,
    tick: Tick,
    r: Result<Ask, SweepError>,
)
    requires
        before.wf(),
        before.moves(after, told, tick, r),
        before.stage is Failure,
        told is Failure,
    ensures
        ({
            let row = before.rows@[before.next as int];
            let failure = told->Failure_0;
            let kept = row.generation is Some && failure is Some && failure->0.version
                == row.version && failure->0.generation == row.generation->0
                && failure->0.retry_at_ms > before.started;
            &&& row.generation is None ==> r == Err::<Ask, SweepError>(
                SweepError::Attention(AttentionError::GenerationMissing),
            )
            &&& row.generation is Some && !kept ==> r is Ok && r->Ok_0 is Advance
                && (r->Ok_0)->Advance_id@ == row.id@ && (r->Ok_0)->Advance_version == row.version
                && (r->Ok_0)->Advance_generation == row.generation->0 && after.entry
                == before.entry && after.report == before.report
            &&& kept ==> !(r is Ok && r->Ok_0 is Advance)
        }),
{
    if r is Ok && r->Ok_0 is Advance {
        super::sweep::recent_failures_are_left_alone(before, after, told, tick, r);
    }
}

/// A Watch that could not be advanced is noted under the version and arming that were
/// tried, with the first part of the message, until the retry bound is over.
pub proof fn refused_watches_are_noted(
    before: Sweep,
    after: Sweep,
    told: Told,
    tick: Tick,
    r: Result<Ask, SweepError>,
)
    requires
        before.moves(after, told, tick, r),
        before.stage is Advance,
        told is Refused,
    ensures
        r is Ok && r->Ok_0 is SaveFailure,
        ({
            let b = (r->Ok_0)->SaveFailure_0;
            let row = before.rows@[before.next as int];
            let message = (told->Refused_0).message@;
            &&& b.version == row.version
            &&& b.generation == row.generation->0
            &&& b.retry_at_ms == before.started + before.policy.blocked_retry_ms
            &&& message.len() <= 1024 ==> b.reason@ == message
            &&& message.len() > 1024 ==> b.reason@ == message.take(1024)
            &&& after.entry == before.entry && after.report == before.report && after.next
                == before.next
        }),
{
}

/// A wake is handed to the actions where bindings are installed, it has not ended, it does
/// not wait for a later time, and the pass permits it; the one that is handed over is the
/// one that was read.
pub proof fn wakes_are_handed_over(
    before: Sweep,
    after: Sweep,
    told: Told,
    tick: Tick,
    r: Result<Ask, SweepError>,
)
    requires
        before.moves(after, told, tick, r),
        before.stage is Wake,
        told is Wake,
        before.entry.checkpoint.wake_pending@.len() > 0,
    ensures
        ({
            let state = told->state;
            let ended = state is Completed || state is Cancelled;
            let waits = state is Pending && state->Pending_not_before_ms > tick.now;
            let first = before.entry.checkpoint.wake_pending@[0];
            let runs = before.per_pass is Some && !ended && !waits;
            &&& runs && before.report.actions_processed < before.per_pass->0 ==> r == Ok::<
                Ask,
                SweepError,
            >(Ask::Process(first)) && after.stage is Action
            &&& !runs || before.report.actions_processed >= before.per_pass->0 ==> !(r is Ok
                && r->Ok_0 is Process)
            &&& before.per_pass is None && state is Blocked ==> r is Ok && r->Ok_0 is ReadFailure
                && after.stage is WakeFailure
        }),
{
    if !(told->state is Blocked && before.per_pass is None) {
        let seen = super::sweep::WakeSeen {
            state: told->state,
            version: told->Wake_version,
            fence: told->fence,
            at: tick.now,
        };
        let read = Sweep { wake: Some(seen), ..before };
        assert(read.acts_on_wake(after, None, tick, r));
        let decided = choose|decided: Sweep| #[trigger]
            read.decides(decided, None) && match read.step_of(None) {
                super::scan::WakeStep::Recorded => decided.goes_on(after, tick, r),
                super::scan::WakeStep::OverBudget => decided.goes_on(after, tick, r),
                super::scan::WakeStep::RunAction => after == (Sweep {
                    stage: Stage::Action,
                    ..decided
                }) && super::sweep::proceeds(
                    r,
                    Ask::Process(read.entry.checkpoint.wake_pending@[0]),
                ),
                super::scan::WakeStep::Resume => after == (Sweep {
                    stage: Stage::Resume,
                    ..decided
                }) && super::sweep::proceeds(
                    r,
                    Ask::Resume {
                        reference: read.entry.checkpoint.wake_pending@[0],
                        version: read.wake->0.version,
                        fence: read.wake->0.fence,
                    },
                ),
            };
        super::laws::wakes_run_or_resume(
            seen.state,
            seen.version,
            seen.fence,
            None,
            before.per_pass,
            before.report.actions_processed,
            tick.now,
        );
    }
}

/// A blocked wake is resumed under the version and fence that were read.
pub proof fn wakes_are_resumed_as_they_were_read(
    before: Sweep,
    after: Sweep,
    told: Told,
    tick: Tick,
    r: Result<Ask, SweepError>,
)
    requires
        before.moves(after, told, tick, r),
        before.stage is WakeFailure,
        told is Failure,
        before.wake is Some,
        r is Ok,
        r->Ok_0 is Resume,
    ensures
        (r->Ok_0)->Resume_version == before.wake->0.version,
        (r->Ok_0)->Resume_fence == before.wake->0.fence,
        (r->Ok_0)->Resume_reference == before.entry.checkpoint.wake_pending@[0],
        after.stage is Resume,
{
}

/// A wake that was not resumed is noted under the version and fence that were tried, until
/// the retry bound is over.
pub proof fn unresumed_wakes_are_noted(
    before: Sweep,
    after: Sweep,
    told: Told,
    tick: Tick,
    r: Result<Ask, SweepError>,
)
    requires
        before.moves(after, told, tick, r),
        before.stage is Resume,
        told is NotResumed,
    ensures
        r is Ok && r->Ok_0 is SaveFailure,
        ({
            let b = (r->Ok_0)->SaveFailure_0;
            let seen = before.wake->0;
            let message = told->NotResumed_0@;
            &&& b.version == seen.version
            &&& b.generation == seen.fence
            &&& b.retry_at_ms == seen.at + before.policy.blocked_retry_ms
            &&& message.len() <= 1024 ==> b.reason@ == message
            &&& message.len() > 1024 ==> b.reason@ == message.take(1024)
        }),
        after.stage is WakeNoted,
{
}

/// A page of wakes that cannot be read fails the scan; where its cursor has become invalid
/// the pages start over.
pub proof fn unreadable_wakes_fail_the_scan(
    before: Sweep,
    after: Sweep,
    told: Told,
    tick: Tick,
    r: Result<Ask, SweepError>,
)
    requires
        before.moves(after, told, tick, r),
        before.stage is WakePage,
        told is WakesUnavailable,
    ensures
        r == Ok::<Ask, SweepError>(Ask::Fail),
        after.stage is Over,
        told->conflict ==> after.entry.checkpoint.wake_cursor is None,
        !told->conflict ==> after.entry == before.entry,
        after.entry.registration == before.entry.registration,
        after.entry.checkpoint.all_done == before.entry.checkpoint.all_done,
{
}

/// After an action its wake is read again.
pub proof fn acted_wakes_are_read_again(
    before: Sweep,
    after: Sweep,
    told: Told,
    tick: Tick,
    r: Result<Ask, SweepError>,
)
    requires
        before.moves(after, told, tick, r),
        before.stage is Action,
        told is Processed,
    ensures
        r == Ok::<Ask, SweepError>(Ask::ReadAgain(before.entry.checkpoint.wake_pending@[0])),
        after.stage is Reread,
        after.entry.checkpoint.next_due_ms is Some,
        before.entry.checkpoint.next_due_ms matches Some(t) ==> after.entry.checkpoint.next_due_ms->0
            <= t,
        after.entry.checkpoint.next_due_ms->0 <= super::scan::action_due(
            told->Processed_0,
            before.policy,
            before.wake->0.at,
        ),
{
}

/// A scan that failed counts one more failure, up to the machine's bound, keeps why, and is
/// tried again after the wait of that many failures; nothing else of the Space changes.
pub proof fn failed_scans_are_tried_again(
    sweep: Sweep,
    entry: Entry,
    message: Seq<char>,
    now: u64,
)
    requires
        sweep.failed(entry, message, now),
        sweep.policy.valid(),
        now + 3_600_000 <= u64::MAX,
    ensures
        sweep.entry.failures < u32::MAX ==> entry.failures == sweep.entry.failures + 1,
        sweep.entry.failures == u32::MAX ==> entry.failures == u32::MAX,
        entry.last_report.error is Some && entry.last_report.error->0@ == message,
        entry.registration.next_check_ms == now + super::scan::failure_wait(
            sweep.policy,
            entry.failures,
        ),
        entry.registration.next_check_ms <= now + sweep.policy.blocked_retry_ms,
        entry.checkpoint == sweep.entry.checkpoint,
        entry.rechecks == sweep.entry.rechecks,
        entry.registration.version == sweep.entry.registration.version,
        entry.registration.dirty_generation == sweep.entry.registration.dirty_generation,
        entry.last_report.watches_scanned == 0,
        !entry.last_report.scan_complete,
{
    super::laws::failing_spaces_wait_twice_as_long(sweep.policy, entry.failures);
}

/// What does not follow from the last question changes nothing.
pub proof fn answers_out_of_turn_change_nothing(
    before: Sweep,
    after: Sweep,
    told: Told,
    tick: Tick,
    r: Result<Ask, SweepError>,
)
    requires
        before.moves(after, told, tick, r),
    ensures
        before.stage is Over ==> after == before && r == Err::<Ask, SweepError>(
            SweepError::OutOfTurn,
        ),
        before.stage is Advance && !(told is Advanced) && !(told is Refused) ==> after == before
            && r is Err,
        before.stage is Wake && !(told is Wake) ==> after == before && r is Err,
        before.stage is Action && !(told is Processed) ==> after == before && r is Err,
{
}

/// No more actions may run in this pass.
pub open spec fn used_up(sweep: Sweep) -> bool {
    sweep.per_pass is Some && sweep.report.actions_processed >= sweep.per_pass->0
}

/// The wakes of a page are read one after the other, while there is time and an action may
/// still run; once none is left the page is closed.
pub proof fn wakes_are_read_in_turn(
    before: Sweep,
    after: Sweep,
    tick: Tick,
    r: Result<Ask, SweepError>,
)
    requires
        before.turns_to_wake(after, tick, r),
    ensures
        ({
            let pending = before.entry.checkpoint.wake_pending@;
            &&& pending.len() > 0 && tick.in_time && !used_up(before) ==> r == Ok::<
                Ask,
                SweepError,
            >(Ask::ReadWake(pending[0])) && after.stage is Wake && after.entry == before.entry
                && after.report == before.report
            &&& pending.len() == 0 || !tick.in_time || used_up(before) ==> r == Ok::<
                Ask,
                SweepError,
            >(Ask::Stop) && after.stage is Over
            &&& pending.len() > 0 && used_up(before) && !before.entry.checkpoint.wakes_done
                ==> after.report.budget_exhausted
            &&& pending.len() == 0 ==> after.entry.checkpoint.wakes_done
                == before.entry.checkpoint.wake_page_complete && after.entry.checkpoint.wake_cursor
                == before.entry.checkpoint.wake_page_cursor
            &&& pending.len() > 0 ==> after.entry.checkpoint.wake_pending
                == before.entry.checkpoint.wake_pending
        }),
{
}

/// A wake that was dealt with is taken off the page; the others wait in their order.
pub proof fn dealt_wakes_are_taken_off(before: Sweep, after: Sweep, i: int)
    requires
        before.leaves_wake(after),
        before.entry.checkpoint.wake_pending@.len() > 0,
        before.wakes < usize::MAX,
    ensures
        after.entry.checkpoint.wake_pending@.len() == before.entry.checkpoint.wake_pending@.len()
            - 1,
        0 <= i < after.entry.checkpoint.wake_pending@.len()
            ==> after.entry.checkpoint.wake_pending@[i]
            == before.entry.checkpoint.wake_pending@[i + 1],
        after.wakes == before.wakes + 1,
        after.report == before.report,
        after.entry.registration == before.entry.registration,
{
}

/// The diagnostic list is read where it is not done, and then the wakes where they are not;
/// each from where it stood, and while there is time.
pub proof fn lists_are_read_from_where_they_stood(
    before: Sweep,
    after: Sweep,
    tick: Tick,
    r: Result<Ask, SweepError>,
)
    ensures
        before.looks_at_all(after, tick, r) && !before.entry.checkpoint.all_done && tick.in_time
            ==> r == Ok::<Ask, SweepError>(Ask::ReadAll(before.entry.checkpoint.all_after))
            && after.stage is AllPage,
        before.looks_for_wakes(after, tick, r) && !before.entry.checkpoint.wakes_done
            && tick.in_time && before.entry.checkpoint.wake_pending@.len() == 0 ==> r == Ok::<
            Ask,
            SweepError,
        >(Ask::ListWakes(before.entry.checkpoint.wake_cursor)) && after.stage is WakePage,
        before.looks_for_wakes(after, tick, r) && (before.entry.checkpoint.wakes_done
            || !tick.in_time) ==> r == Ok::<Ask, SweepError>(Ask::Stop) && after.stage is Over,
        before.looks_at_all(after, tick, r) && before.entry.checkpoint.all_done
            && !before.entry.checkpoint.wakes_done && tick.in_time
            && before.entry.checkpoint.wake_pending@.len() == 0 ==> r == Ok::<Ask, SweepError>(
            Ask::ListWakes(before.entry.checkpoint.wake_cursor),
        ),
{
}

/// A page of wakes is taken over as it was listed, with what follows it.
pub proof fn listed_wakes_are_taken_over(
    before: Sweep,
    after: Sweep,
    page: super::scan::WakePage,
    tick: Tick,
    r: Result<Ask, SweepError>,
)
    requires
        before.wakes_move(after, page, tick, r),
        page.references@.len() > 0,
    ensures
        after.entry.checkpoint.wake_pending == page.references,
        after.entry.checkpoint.wake_page_cursor == page.next_cursor,
        after.entry.checkpoint.wake_page_complete == page.complete,
        tick.in_time && !used_up(before) ==> r == Ok::<Ask, SweepError>(
            Ask::ReadWake(page.references@[0]),
        ) && after.report.wakes_scanned == page.scanned,
{
}

/// Visiting the next Watch asks for its own last failure, while there is time; behind the
/// last one the lists follow.
pub proof fn watches_are_visited_in_turn(
    before: Sweep,
    after: Sweep,
    tick: Tick,
    r: Result<Ask, SweepError>,
)
    requires
        before.visits_next(after, tick, r),
    ensures
        before.next < before.rows@.len() && tick.in_time ==> r is Ok && r->Ok_0 is ReadFailure
            && Some((r->Ok_0)->ReadFailure_0@) == super::scan::blocked_key_of(
            before.space@,
            before.rows@[before.next as int].id@,
        ) && after.stage is Failure && after.next == before.next && after.entry == before.entry,
        before.next >= before.rows@.len() || !tick.in_time ==> !(r is Ok && r->Ok_0
            is ReadFailure),
{
    if before.next >= before.rows@.len() || !tick.in_time {
        let turned = choose|turned: Sweep| #[trigger]
            before.turns_page(turned) && turned.looks_at_all(after, tick, r);
        assert(turned.looks_at_all(after, tick, r));
    }
}

proof fn inspecting_keeps_the_end(
    entry: Entry,
    report: super::AttentionReport,
    entry_after: Entry,
    report_after: super::AttentionReport,
    rows: Seq<super::scan::WatchRow>,
    semantic: bool,
    policy: super::AttentionPolicy,
    now: u64,
)
    requires
        super::sweep::all_inspected(
            entry,
            report,
            entry_after,
            report_after,
            rows,
            semantic,
            policy,
            now,
        ),
    ensures
        entry_after.checkpoint.all_done == entry.checkpoint.all_done,
        rows.len() > 0 && !entry.checkpoint.all_done ==> entry_after.checkpoint.all_after@
            == rows.last().id@,
        entry_after.registration == entry.registration,
    decreases rows.len(),
{
    if rows.len() > 0 {
        let (e, p) = choose|e: Entry, p: super::AttentionReport|
            super::sweep::all_inspected(entry, report, e, p, rows.drop_last(), semantic, policy, now)
                && #[trigger] super::scan::inspected(
                e,
                p,
                entry_after,
                report_after,
                rows.last(),
                semantic,
                policy,
                now,
            );
        inspecting_keeps_the_end(entry, report, e, p, rows.drop_last(), semantic, policy, now);
    }
}

/// A short list of Watches is the last one; a full one goes on behind its last Watch.
pub proof fn short_lists_are_the_last(
    before: Sweep,
    after: Sweep,
    rows: Seq<super::scan::WatchRow>,
)
    requires
        before.inspects(after, rows),
    ensures
        after.entry.checkpoint.all_done <==> rows.len() < before.policy.watches_per_space,
        !after.entry.checkpoint.all_done && rows.len() > 0 ==> after.entry.checkpoint.all_after@
            == rows.last().id@,
        after.entry.registration == before.entry.registration,
{
    let opened = Entry {
        checkpoint: super::Checkpoint {
            all_done: rows.len() < before.policy.watches_per_space,
            ..before.entry.checkpoint
        },
        ..before.entry
    };
    inspecting_keeps_the_end(
        opened,
        before.report,
        after.entry,
        after.report,
        rows,
        before.semantic,
        before.policy,
        before.started,
    );
}

} // verus!
