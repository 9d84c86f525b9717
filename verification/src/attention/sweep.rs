//! The scan of one Space, step by step. Runnable Watches come first, so that no
//! number of others delays them; then all armed Watches; then wakes.

use vstd::prelude::*;

use super::scan::{self, ActionOutcome, BlockedWatch, NextWake, ScanStart, WakePage, WakeStep, WatchAdvance, WatchOutcome, WatchRow, MAX_POLICY_MS};
use super::{AttentionError, AttentionPolicy, AttentionReport, Checkpoint, Entry, MAX_RECHECKS};
use crate::runtime::AttentionConfig;
use crate::wake::WakeState;

verus! {

/// No list of rows or references in memory is longer than this.
pub const MAX_LIST: usize = 0x0fff_ffff;

/// A Watch that can be advanced without a model.
#[derive(Debug)]
pub struct RunnableRow {
    pub id: String,
    pub version: u64,
    pub generation: Option<u64>,
}

/// A wake while it is dealt with.
#[derive(Debug)]
pub struct WakeSeen {
    pub state: WakeState,
    pub version: u64,
    pub fence: u64,
    /// When it was read.
    pub at: u64,
}

/// An attempt on a Watch that failed.
#[derive(Debug)]
pub struct FailedAdvance {
    pub conflict: bool,
    pub message: String,
}

/// What the host is waited for.
#[derive(Clone, Copy, Debug, PartialEq, Eq, Structural)]
pub enum Stage {
    Configuration,
    RunnablePage,
    /// The last failure of the next runnable Watch.
    Failure,
    Advance,
    /// The failure of a Watch is being written.
    Noted,
    AllPage,
    WakePage,
    Wake,
    /// The last failure of a blocked wake.
    WakeFailure,
    Action,
    Reread,
    Resume,
    /// The failure of a wake is being written.
    WakeNoted,
    Over,
}

/// What the host does next.
#[derive(Debug)]
pub enum Ask {
    ReadConfiguration,
    /// Read the runnable Watches behind that one.
    ReadRunnable(String),
    /// Read the last failure under that key.
    ReadFailure(String),
    Advance { id: String, version: u64, generation: u64 },
    /// Write that failure.
    SaveFailure(BlockedWatch),
    /// Read all armed Watches behind that one.
    ReadAll(String),
    ListWakes(Option<String>),
    ReadWake(String),
    /// Hand the wake to the action bindings.
    Process(String),
    ReadAgain(String),
    Resume { reference: String, version: u64, fence: u64 },
    /// The page of wakes could not be read: the scan fails.
    Fail,
    Stop,
}

/// What the host reports.
#[derive(Debug)]
pub enum Told {
    Configuration(Option<AttentionConfig>),
    Runnable(Vec<RunnableRow>),
    Failure(Option<BlockedWatch>),
    Advanced(WatchAdvance),
    Refused(FailedAdvance),
    Saved,
    All(Vec<WatchRow>),
    Wakes(WakePage),
    WakesUnavailable { conflict: bool },
    Wake { state: WakeState, version: u64, fence: u64 },
    Processed(ActionOutcome),
    /// The wake, where it could be read again.
    Again(Option<WakeState>),
    Resumed,
    NotResumed(String),
}

/// Why a scan cannot go on.
#[derive(Clone, Copy, Debug, PartialEq, Eq, Structural)]
pub enum SweepError {
    OutOfTurn,
    Attention(AttentionError),
}

/// The moment of a report: the time, and whether any is left for the scan.
#[derive(Clone, Copy, Debug)]
pub struct Tick {
    pub now: u64,
    pub in_time: bool,
}

/// How far a scan has come.
#[derive(Debug)]
pub struct Sweep {
    pub stage: Stage,
    pub space: String,
    pub entry: Entry,
    pub report: AttentionReport,
    pub policy: AttentionPolicy,
    /// A semantic evaluator is installed.
    pub semantic: bool,
    /// How many actions one pass may run, where action bindings are installed.
    pub per_pass: Option<usize>,
    pub started: u64,
    pub rows: Vec<RunnableRow>,
    pub next: usize,
    pub refused: Option<FailedAdvance>,
    /// How many wakes were dealt with.
    pub wakes: usize,
    pub wake: Option<WakeSeen>,
}

pub open spec fn proceeds(r: Result<Ask, SweepError>, ask: Ask) -> bool {
    r == Ok::<Ask, SweepError>(ask)
}

pub open spec fn halts(r: Result<Ask, SweepError>, e: AttentionError) -> bool {
    r == Err::<Ask, SweepError>(SweepError::Attention(e))
}

impl Tick {
    pub open spec fn fits(self) -> bool {
        self.now <= u64::MAX - MAX_POLICY_MS
    }
}

/// No counter of the report exceeds the number of rows and wakes so far.
pub open spec fn counted(report: AttentionReport, watches: int, all: int, wakes: int) -> bool {
    &&& report.watches_scanned <= watches
    &&& report.advanced <= watches
    &&& report.fired <= watches
    &&& report.expired <= watches
    &&& report.conflicted <= watches
    &&& report.blocked <= watches + all + wakes
    &&& report.pending <= wakes
    &&& report.resumed <= wakes
    &&& report.actions_processed <= wakes
    &&& report.rechecks_due <= MAX_RECHECKS
}

impl Sweep {
    /// The scan looks at Watches.
    pub open spec fn at_watches(self) -> bool {
        self.stage == Stage::Failure || self.stage == Stage::Advance || self.stage == Stage::Noted
    }

    /// The scan deals with a wake.
    pub open spec fn at_wake(self) -> bool {
        self.stage == Stage::Wake || self.stage == Stage::WakeFailure || self.stage
            == Stage::Action || self.stage == Stage::Reread || self.stage == Stage::Resume
            || self.stage == Stage::WakeNoted
    }

    /// What was counted fits what was looked at.
    pub open spec fn wf(self) -> bool {
        &&& self.policy.valid()
        &&& self.report.wf()
        &&& self.started <= u64::MAX - MAX_POLICY_MS
        &&& self.entry.rechecks@.len() <= MAX_RECHECKS
        &&& self.wakes + self.entry.checkpoint.wake_pending@.len() <= MAX_LIST
        &&& match self.stage {
            Stage::Configuration => self.report.is_empty() && self.policy.enabled
                && self.entry.registration.enabled && self.wakes == 0,
            Stage::RunnablePage => counted(self.report, 0, 0, 0) && self.wakes == 0,
            Stage::AllPage => counted(self.report, MAX_LIST as int, 0, 0) && self.wakes == 0,
            Stage::Over => true,
            _ => if self.at_watches() {
                &&& self.wakes == 0
                &&& self.next < self.rows@.len() <= MAX_LIST
                &&& counted(self.report, self.next as int, 0, 0)
            } else {
                counted(self.report, MAX_LIST as int, MAX_LIST as int, self.wakes as int + if
                    self.stage == Stage::Action || self.stage == Stage::Reread {
                    1int
                } else {
                    0
                })
            },
        }
        &&& self.stage == Stage::Advance || self.stage == Stage::Noted
            ==> self.rows@[self.next as int].generation is Some
        &&& self.stage == Stage::Noted ==> self.refused is Some
        &&& self.stage == Stage::WakePage ==> self.wakes == 0
        &&& self.at_wake() ==> self.entry.checkpoint.wake_pending@.len() > 0
        &&& (self.at_wake() && self.stage != Stage::Wake) ==> self.wake is Some && self.wake->0.at
            <= u64::MAX - MAX_POLICY_MS
        &&& self.stage == Stage::Action ==> forall|state: Seq<char>| #[trigger]
            self.report.action_states.of(state) < self.report.actions_processed
        &&& self.stage == Stage::Action ==> self.report.blocked <= 2 * MAX_LIST + self.wakes
    }
}

// ---------------------------------------------------------------------------
// Wakes
// ---------------------------------------------------------------------------

impl Sweep {
    /// The scan ends.
    pub open spec fn finishes(self, after: Sweep, tick: Tick, r: Result<Ask, SweepError>) -> bool {
        &&& after == (Sweep {
            stage: Stage::Over,
            entry: after.entry,
            report: after.report,
            ..self
        })
        &&& scan::scan_finished(
            self.entry,
            self.report,
            after.entry,
            after.report,
            self.policy,
            self.started,
            !tick.in_time,
        )
        &&& proceeds(r, Ask::Stop)
    }

    fn finish(&mut self, tick: Tick) -> (r: Result<Ask, SweepError>)
        requires
            old(self).policy.valid(),
            old(self).report.wf(),
            old(self).started <= u64::MAX - MAX_POLICY_MS,
        ensures
            old(self).finishes(*final(self), tick, r),
            final(self).report.wf(),
    {
        scan::finish_scan(
            &mut self.entry,
            &mut self.report,
            &self.policy,
            self.started,
            !tick.in_time,
        );
        self.stage = Stage::Over;
        Ok(Ask::Stop)
    }

    /// The next wake of the page is read. The page ends with its last wake, with
    /// the time, or with the actions that a pass may run.
    pub open spec fn turns_to_wake(
        self,
        after: Sweep,
        tick: Tick,
        r: Result<Ask, SweepError>,
    ) -> bool {
        let pending = self.entry.checkpoint.wake_pending@;
        if pending.len() == 0 {
            (Sweep { entry: scan::wakes_closed(self.entry), ..self }).finishes(after, tick, r)
        } else if !tick.in_time {
            self.finishes(after, tick, r)
        } else if scan::actions_exhausted(self.report, self.per_pass) {
            (Sweep {
                report: AttentionReport { budget_exhausted: true, ..self.report },
                ..self
            }).finishes(after, tick, r)
        } else {
            after == (Sweep { stage: Stage::Wake, ..self }) && proceeds(
                r,
                Ask::ReadWake(pending[0]),
            )
        }
    }

    fn turn_to_wake(&mut self, tick: Tick) -> (r: Result<Ask, SweepError>)
        requires
            old(self).policy.valid(),
            old(self).report.wf(),
            old(self).started <= u64::MAX - MAX_POLICY_MS,
            old(self).entry.rechecks@.len() <= MAX_RECHECKS,
            old(self).wakes + old(self).entry.checkpoint.wake_pending@.len() <= MAX_LIST,
            counted(old(self).report, MAX_LIST as int, MAX_LIST as int, old(self).wakes as int),
        ensures
            old(self).turns_to_wake(*final(self), tick, r),
            final(self).wf(),
    {
        if self.entry.checkpoint.wake_pending.len() == 0 {
            scan::wakes_ended(&mut self.entry);
            return self.finish(tick);
        }
        if !tick.in_time {
            scan::wakes_ended(&mut self.entry);
            return self.finish(tick);
        }
        match scan::next_wake(&self.entry, &mut self.report, self.per_pass) {
            NextWake::Process(reference) => {
                self.stage = Stage::Wake;
                Ok(Ask::ReadWake(reference))
            },
            _ => self.finish(tick),
        }
    }

    /// The wake is dealt with.
    pub open spec fn leaves_wake(self, after: Sweep) -> bool {
        &&& after == (Sweep { entry: after.entry, wakes: (self.wakes + 1) as usize, ..self })
        &&& after.entry == (Entry {
            checkpoint: Checkpoint {
                wake_pending: after.entry.checkpoint.wake_pending,
                ..self.entry.checkpoint
            },
            ..self.entry
        })
        &&& after.entry.checkpoint.wake_pending@
            == self.entry.checkpoint.wake_pending@.drop_first()
    }

    /// The wake is dealt with, and the next one follows.
    pub open spec fn goes_on(self, after: Sweep, tick: Tick, r: Result<Ask, SweepError>) -> bool {
        exists|left: Sweep| #[trigger] self.leaves_wake(left) && left.turns_to_wake(after, tick, r)
    }

    fn go_on(&mut self, tick: Tick) -> (r: Result<Ask, SweepError>)
        requires
            old(self).policy.valid(),
            old(self).report.wf(),
            old(self).started <= u64::MAX - MAX_POLICY_MS,
            old(self).entry.rechecks@.len() <= MAX_RECHECKS,
            old(self).entry.checkpoint.wake_pending@.len() > 0,
            old(self).wakes + old(self).entry.checkpoint.wake_pending@.len() <= MAX_LIST,
            counted(
                old(self).report,
                MAX_LIST as int,
                MAX_LIST as int,
                old(self).wakes as int + 1,
            ),
        ensures
            old(self).goes_on(*final(self), tick, r),
            final(self).wf(),
    {
        scan::wake_done(&mut self.entry);
        self.wakes = self.wakes + 1;
        assert(old(self).leaves_wake(*self));
        self.turn_to_wake(tick)
    }

    /// What is done with the wake that was read.
    pub open spec fn step_of(self, failure: Option<BlockedWatch>) -> WakeStep {
        let seen = self.wake->0;
        scan::wake_step_of(
            seen.state,
            seen.version,
            seen.fence,
            failure,
            self.per_pass,
            self.report.actions_processed,
            seen.at,
        )
    }

    /// The wake is decided on.
    pub open spec fn decides(self, after: Sweep, failure: Option<BlockedWatch>) -> bool {
        let seen = self.wake->0;
        &&& after == (Sweep { entry: after.entry, report: after.report, ..self })
        &&& after.entry == scan::wake_entry(
            self.entry,
            seen.state,
            seen.version,
            seen.fence,
            failure,
            self.step_of(failure),
            self.policy,
            seen.at,
        )
        &&& scan::wake_reported(
            self.report,
            after.report,
            seen.state,
            seen.version,
            seen.fence,
            failure,
            self.step_of(failure),
            self.per_pass,
            seen.at,
        )
    }

    pub open spec fn acts_on_wake(
        self,
        after: Sweep,
        failure: Option<BlockedWatch>,
        tick: Tick,
        r: Result<Ask, SweepError>,
    ) -> bool {
        let reference = self.entry.checkpoint.wake_pending@[0];
        exists|decided: Sweep| #[trigger]
            self.decides(decided, failure) && match self.step_of(failure) {
                WakeStep::Recorded => decided.goes_on(after, tick, r),
                WakeStep::OverBudget => decided.goes_on(after, tick, r),
                WakeStep::RunAction => after == (Sweep { stage: Stage::Action, ..decided })
                    && proceeds(r, Ask::Process(reference)),
                WakeStep::Resume => after == (Sweep { stage: Stage::Resume, ..decided })
                    && proceeds(
                    r,
                    Ask::Resume {
                        reference,
                        version: self.wake->0.version,
                        fence: self.wake->0.fence,
                    },
                ),
            }
    }

    fn act_on_wake(&mut self, failure: Option<BlockedWatch>, tick: Tick) -> (r: Result<
        Ask,
        SweepError,
    >)
        requires
            old(self).policy.valid(),
            old(self).report.wf(),
            old(self).started <= u64::MAX - MAX_POLICY_MS,
            old(self).entry.rechecks@.len() <= MAX_RECHECKS,
            old(self).entry.checkpoint.wake_pending@.len() > 0,
            old(self).wakes + old(self).entry.checkpoint.wake_pending@.len() <= MAX_LIST,
            counted(old(self).report, MAX_LIST as int, MAX_LIST as int, old(self).wakes as int),
            old(self).wake is Some,
            old(self).wake->0.at <= u64::MAX - MAX_POLICY_MS,
        ensures
            old(self).acts_on_wake(*final(self), failure, tick, r),
            final(self).wf(),
    {
        let ghost before = *self;
        let (step, version, fence) = match &self.wake {
            Some(seen) => {
                let blocked = match &failure {
                    Some(b) => Some(b),
                    None => None,
                };
                let step = scan::wake_read(
                    &mut self.entry,
                    &mut self.report,
                    &seen.state,
                    seen.version,
                    seen.fence,
                    blocked,
                    self.per_pass,
                    &self.policy,
                    seen.at,
                );
                (step, seen.version, seen.fence)
            },
            None => return Err(SweepError::OutOfTurn),
        };
        assert(before.decides(*self, failure));
        match step {
            WakeStep::RunAction => {
                proof {
                    assert forall|state: Seq<char>| #[trigger] self.report.action_states.of(state)
                        < self.report.actions_processed by {
                        assert(before.report.action_states.of(state)
                            <= before.report.actions_processed);
                    }
                }
                self.stage = Stage::Action;
                Ok(Ask::Process(self.entry.checkpoint.wake_pending[0].clone()))
            },
            WakeStep::Resume => {
                self.stage = Stage::Resume;
                Ok(
                    Ask::Resume {
                        reference: self.entry.checkpoint.wake_pending[0].clone(),
                        version,
                        fence,
                    },
                )
            },
            _ => self.go_on(tick),
        }
    }

    /// The scan turns to wakes, where any are left and there is time.
    pub open spec fn looks_for_wakes(
        self,
        after: Sweep,
        tick: Tick,
        r: Result<Ask, SweepError>,
    ) -> bool {
        if self.entry.checkpoint.wakes_done || !tick.in_time {
            self.finishes(after, tick, r)
        } else if self.entry.checkpoint.wake_pending@.len() == 0 {
            after == (Sweep { stage: Stage::WakePage, ..self }) && proceeds(
                r,
                Ask::ListWakes(self.entry.checkpoint.wake_cursor),
            )
        } else {
            self.turns_to_wake(after, tick, r)
        }
    }

    fn look_for_wakes(&mut self, tick: Tick) -> (r: Result<Ask, SweepError>)
        requires
            old(self).policy.valid(),
            old(self).report.wf(),
            old(self).started <= u64::MAX - MAX_POLICY_MS,
            old(self).entry.rechecks@.len() <= MAX_RECHECKS,
            old(self).wakes == 0,
            old(self).entry.checkpoint.wake_pending@.len() <= MAX_LIST,
            counted(old(self).report, MAX_LIST as int, MAX_LIST as int, 0),
        ensures
            old(self).looks_for_wakes(*final(self), tick, r),
            final(self).wf(),
    {
        if self.entry.checkpoint.wakes_done || !tick.in_time {
            return self.finish(tick);
        }
        if self.entry.checkpoint.wake_pending.len() == 0 {
            self.stage = Stage::WakePage;
            return Ok(
                Ask::ListWakes(crate::runtime::optional_copy(&self.entry.checkpoint.wake_cursor)),
            );
        }
        self.turn_to_wake(tick)
    }
}

// ---------------------------------------------------------------------------
// Watches
// ---------------------------------------------------------------------------

impl Sweep {
    /// The scan turns to all armed Watches, where any are left and there is time.
    pub open spec fn looks_at_all(
        self,
        after: Sweep,
        tick: Tick,
        r: Result<Ask, SweepError>,
    ) -> bool {
        if self.entry.checkpoint.all_done || !tick.in_time {
            self.looks_for_wakes(after, tick, r)
        } else {
            after == (Sweep { stage: Stage::AllPage, ..self }) && proceeds(
                r,
                Ask::ReadAll(self.entry.checkpoint.all_after),
            )
        }
    }

    fn look_at_all(&mut self, tick: Tick) -> (r: Result<Ask, SweepError>)
        requires
            old(self).policy.valid(),
            old(self).report.wf(),
            old(self).started <= u64::MAX - MAX_POLICY_MS,
            old(self).entry.rechecks@.len() <= MAX_RECHECKS,
            old(self).wakes == 0,
            old(self).entry.checkpoint.wake_pending@.len() <= MAX_LIST,
            counted(old(self).report, MAX_LIST as int, 0, 0),
        ensures
            old(self).looks_at_all(*final(self), tick, r),
            final(self).wf(),
    {
        if self.entry.checkpoint.all_done || !tick.in_time {
            return self.look_for_wakes(tick);
        }
        self.stage = Stage::AllPage;
        Ok(Ask::ReadAll(self.entry.checkpoint.all_after.clone()))
    }

    /// The page of runnable Watches ends.
    pub open spec fn turns_page(self, after: Sweep) -> bool {
        &&& after == (Sweep { entry: after.entry, ..self })
        &&& scan::page_ended(
            self.entry,
            after.entry,
            self.rows@.len() as usize,
            self.next < self.rows@.len(),
            self.policy,
        )
    }

    /// The next runnable Watch is visited. The page ends with its last Watch, or
    /// with the time.
    pub open spec fn visits_next(
        self,
        after: Sweep,
        tick: Tick,
        r: Result<Ask, SweepError>,
    ) -> bool {
        if self.next >= self.rows@.len() || !tick.in_time {
            exists|turned: Sweep| #[trigger]
                self.turns_page(turned) && turned.looks_at_all(after, tick, r)
        } else {
            &&& after == (Sweep { stage: Stage::Failure, ..self })
            &&& r matches Ok(Ask::ReadFailure(key)) && scan::blocked_key_of(
                self.space@,
                self.rows@[self.next as int].id@,
            ) == Some(key@)
        }
    }

    fn visit_next(&mut self, tick: Tick) -> (r: Result<Ask, SweepError>)
        requires
            old(self).policy.valid(),
            old(self).report.wf(),
            old(self).started <= u64::MAX - MAX_POLICY_MS,
            old(self).entry.rechecks@.len() <= MAX_RECHECKS,
            old(self).wakes == 0,
            old(self).entry.checkpoint.wake_pending@.len() <= MAX_LIST,
            old(self).next <= old(self).rows@.len() <= MAX_LIST,
            counted(old(self).report, old(self).next as int, 0, 0),
        ensures
            old(self).visits_next(*final(self), tick, r),
            final(self).wf(),
    {
        if self.next >= self.rows.len() || !tick.in_time {
            let exhausted = self.next < self.rows.len();
            let rows: usize = self.rows.len();
            scan::runnable_page_ended(&mut self.entry, rows, exhausted, &self.policy);
            assert(old(self).turns_page(*self));
            return self.look_at_all(tick);
        }
        let key = scan::blocked_key(self.space.as_str(), self.rows[self.next].id.as_str());
        self.stage = Stage::Failure;
        Ok(Ask::ReadFailure(key))
    }

    /// The visit of a runnable Watch is recorded.
    pub open spec fn records_visit(self, after: Sweep, outcome: WatchOutcome) -> bool {
        &&& after == (Sweep {
            entry: scan::visited_entry(
                self.entry,
                self.rows@[self.next as int].id,
                self.policy,
                self.started,
            ),
            report: after.report,
            next: (self.next + 1) as usize,
            ..self
        })
        &&& scan::watch_reported(self.report, after.report, outcome)
    }

    pub open spec fn visited(
        self,
        after: Sweep,
        outcome: WatchOutcome,
        tick: Tick,
        r: Result<Ask, SweepError>,
    ) -> bool {
        exists|noted: Sweep| #[trigger]
            self.records_visit(noted, outcome) && noted.visits_next(after, tick, r)
    }

    fn record_visit(&mut self, outcome: WatchOutcome, tick: Tick) -> (r: Result<Ask, SweepError>)
        requires
            old(self).wf(),
            old(self).at_watches(),
        ensures
            old(self).visited(*final(self), outcome, tick, r),
            final(self).wf(),
    {
        let id = self.rows[self.next].id.clone();
        scan::watch_visited(
            &mut self.entry,
            &mut self.report,
            id,
            outcome,
            &self.policy,
            self.started,
        );
        self.next = self.next + 1;
        assert(old(self).records_visit(*self, outcome));
        self.visit_next(tick)
    }
}

// ---------------------------------------------------------------------------
// The reports
// ---------------------------------------------------------------------------

/// All rows were inspected, one after the other.
pub open spec fn all_inspected(
    entry: Entry,
    report: AttentionReport,
    entry_after: Entry,
    report_after: AttentionReport,
    rows: Seq<WatchRow>,
    semantic: bool,
    policy: AttentionPolicy,
    now: u64,
) -> bool
    decreases rows.len(),
{
    if rows.len() == 0 {
        entry_after == entry && report_after == report
    } else {
        exists|e: Entry, p: AttentionReport|
            all_inspected(entry, report, e, p, rows.drop_last(), semantic, policy, now)
                && #[trigger] scan::inspected(
                e,
                p,
                entry_after,
                report_after,
                rows.last(),
                semantic,
                policy,
                now,
            )
    }
}

fn copy_row(row: &WatchRow) -> (r: WatchRow)
    ensures
        r == *row,
{
    WatchRow {
        id: row.id.clone(),
        structured: row.structured,
        generation: row.generation,
        due_at: row.due_at.clone(),
    }
}

impl Sweep {
    /// Starts a scan. One of a Space that is switched off ends at once.
    pub fn begin(
        space: String,
        entry: Entry,
        policy: AttentionPolicy,
        semantic: bool,
        per_pass: Option<usize>,
        now: u64,
    ) -> (r: (Sweep, Ask))
        requires
            policy.valid(),
            now <= u64::MAX - MAX_POLICY_MS,
            entry.rechecks@.len() <= MAX_RECHECKS,
            entry.checkpoint.wake_pending@.len() <= MAX_LIST,
        ensures
            r.0.wf(),
            r.0 == (Sweep {
                stage: r.0.stage,
                space,
                entry,
                report: r.0.report,
                policy,
                semantic,
                per_pass,
                started: now,
                rows: r.0.rows,
                next: 0,
                refused: None,
                wakes: 0,
                wake: None,
            }),
            if policy.enabled && entry.registration.enabled {
                r.0.stage == Stage::Configuration && r.1 == Ask::ReadConfiguration
                    && r.0.report.is_empty()
            } else {
                r.0.stage == Stage::Over && r.1 == Ask::Stop && exists|blank: AttentionReport|
                    #[trigger] blank.is_empty() && blank.deferred(
                        r.0.report,
                        "attention_disabled"@,
                        true,
                    )
            },
    {
        let mut report = AttentionReport::new();
        let mut stage = Stage::Configuration;
        let mut ask = Ask::ReadConfiguration;
        if !policy.enabled || !entry.registration.enabled {
            let ghost blank = report;
            report.defer("attention_disabled", true);
            assert(blank.is_empty() && blank.deferred(report, "attention_disabled"@, true));
            stage = Stage::Over;
            ask = Ask::Stop;
        }
        let sweep = Sweep {
            stage,
            space,
            entry,
            report,
            policy,
            semantic,
            per_pass,
            started: now,
            rows: Vec::new(),
            next: 0,
            refused: None,
            wakes: 0,
            wake: None,
        };
        (sweep, ask)
    }

    /// The scan begins from that moment on.
    pub open spec fn begins(self, after: Sweep, now: u64) -> bool {
        &&& after == (Sweep {
            entry: after.entry,
            report: AttentionReport {
                rechecks_due: scan::due_count(self.entry.rechecks@, now) as usize,
                ..self.report
            },
            started: now,
            ..self
        })
        &&& scan::begun(self.entry, after.entry, now)
    }

    /// A scan needs the configuration that the Space is registered with.
    pub open spec fn configuration_moves(
        self,
        after: Sweep,
        config: Option<AttentionConfig>,
        tick: Tick,
        r: Result<Ask, SweepError>,
    ) -> bool {
        match config {
            None => halts(r, AttentionError::ConfigurationMissing) && after.entry == self.entry,
            Some(c) => if !(c.scope.same_as(self.entry.native_scope) && c.pins.same_as(
                self.entry.registration.pins,
            )) {
                halts(r, AttentionError::ConfigurationChanged) && after.entry == self.entry
            } else {
                exists|begun: Sweep| #[trigger]
                    self.begins(begun, tick.now) && if tick.in_time {
                        after == (Sweep { stage: Stage::RunnablePage, ..begun }) && proceeds(
                            r,
                            Ask::ReadRunnable(begun.entry.checkpoint.runnable_after),
                        )
                    } else {
                        begun.looks_at_all(after, tick, r)
                    }
            },
        }
    }

    fn on_configuration(&mut self, config: Option<AttentionConfig>, tick: Tick) -> (r: Result<
        Ask,
        SweepError,
    >)
        requires
            old(self).wf(),
            old(self).stage == Stage::Configuration,
            tick.fits(),
        ensures
            old(self).configuration_moves(*final(self), config, tick, r),
            r is Ok ==> final(self).wf(),
    {
        let known = match &config {
            Some(c) => Some(c),
            None => None,
        };
        match scan::begin_scan(&mut self.entry, &mut self.report, &self.policy, known, tick.now) {
            Ok(ScanStart::Running) => {},
            Ok(ScanStart::Disabled) => return Err(SweepError::OutOfTurn),
            Err(e) => return Err(SweepError::Attention(e)),
        }
        self.started = tick.now;
        proof {
            due_is_counted(old(self).entry.rechecks@, tick.now);
            assert(old(self).begins(*self, tick.now));
        }
        if tick.in_time {
            self.stage = Stage::RunnablePage;
            Ok(Ask::ReadRunnable(self.entry.checkpoint.runnable_after.clone()))
        } else {
            self.look_at_all(tick)
        }
    }

    pub open spec fn runnable_moves(
        self,
        after: Sweep,
        rows: Vec<RunnableRow>,
        tick: Tick,
        r: Result<Ask, SweepError>,
    ) -> bool {
        (Sweep { rows, next: 0, ..self }).visits_next(after, tick, r)
    }

    /// A Watch whose last failure is too recent is left alone.
    pub open spec fn failure_moves(
        self,
        after: Sweep,
        failure: Option<BlockedWatch>,
        tick: Tick,
        r: Result<Ask, SweepError>,
    ) -> bool {
        let row = self.rows@[self.next as int];
        match row.generation {
            None => halts(r, AttentionError::GenerationMissing) && after.entry == self.entry,
            Some(generation) => if failure matches Some(b) && b.concerns(row.version, generation)
                && b.retry_at_ms > self.started {
                self.visited(after, WatchOutcome::BackedOff, tick, r)
            } else {
                after == (Sweep { stage: Stage::Advance, ..self }) && proceeds(
                    r,
                    Ask::Advance { id: row.id, version: row.version, generation },
                )
            },
        }
    }

    fn on_failure(&mut self, failure: Option<BlockedWatch>, tick: Tick) -> (r: Result<
        Ask,
        SweepError,
    >)
        requires
            old(self).wf(),
            old(self).stage == Stage::Failure,
        ensures
            old(self).failure_moves(*final(self), failure, tick, r),
            r is Ok ==> final(self).wf(),
    {
        let version: u64 = self.rows[self.next].version;
        let generation: u64 = match self.rows[self.next].generation {
            Some(generation) => generation,
            None => return Err(SweepError::Attention(AttentionError::GenerationMissing)),
        };
        let last = match &failure {
            Some(b) => Some(b),
            None => None,
        };
        if scan::backed_off(last, version, generation, self.started) {
            return self.record_visit(WatchOutcome::BackedOff, tick);
        }
        self.stage = Stage::Advance;
        Ok(Ask::Advance { id: self.rows[self.next].id.clone(), version, generation })
    }

    /// A failed attempt is written before the Watch counts as visited.
    pub open spec fn refused_moves(
        self,
        after: Sweep,
        refused: FailedAdvance,
        r: Result<Ask, SweepError>,
    ) -> bool {
        let row = self.rows@[self.next as int];
        &&& after == (Sweep { stage: Stage::Noted, refused: Some(refused), ..self })
        &&& r matches Ok(Ask::SaveFailure(b)) && b.version == row.version && b.generation
            == row.generation->0 && b.retry_at_ms == self.started + self.policy.blocked_retry_ms
            && b.reason@ == crate::assess::head(refused.message@, 1024)
    }

    fn on_refused(&mut self, refused: FailedAdvance) -> (r: Result<Ask, SweepError>)
        requires
            old(self).wf(),
            old(self).stage == Stage::Advance,
        ensures
            old(self).refused_moves(*final(self), refused, r),
            final(self).wf(),
    {
        let generation: u64 = match self.rows[self.next].generation {
            Some(generation) => generation,
            None => return Err(SweepError::OutOfTurn),
        };
        let failure = BlockedWatch::new(
            self.rows[self.next].version,
            generation,
            refused.message.as_str(),
            &self.policy,
            self.started,
        );
        self.refused = Some(refused);
        self.stage = Stage::Noted;
        Ok(Ask::SaveFailure(failure))
    }

    pub open spec fn noted_moves(self, after: Sweep, tick: Tick, r: Result<Ask, SweepError>) -> bool {
        let refused = self.refused->0;
        self.visited(
            after,
            WatchOutcome::Failed { conflict: refused.conflict, message: refused.message },
            tick,
            r,
        )
    }

    fn on_noted(&mut self, tick: Tick) -> (r: Result<Ask, SweepError>)
        requires
            old(self).wf(),
            old(self).stage == Stage::Noted,
        ensures
            old(self).noted_moves(*final(self), tick, r),
            final(self).wf(),
    {
        let outcome = match &self.refused {
            Some(refused) => WatchOutcome::Failed {
                conflict: refused.conflict,
                message: refused.message.clone(),
            },
            None => return Err(SweepError::OutOfTurn),
        };
        self.record_visit(outcome, tick)
    }

    /// The page of all armed Watches was inspected.
    pub open spec fn inspects(self, after: Sweep, rows: Seq<WatchRow>) -> bool {
        let opened = Entry {
            checkpoint: Checkpoint {
                all_done: rows.len() < self.policy.watches_per_space,
                ..self.entry.checkpoint
            },
            ..self.entry
        };
        &&& after == (Sweep { entry: after.entry, report: after.report, ..self })
        &&& all_inspected(
            opened,
            self.report,
            after.entry,
            after.report,
            rows,
            self.semantic,
            self.policy,
            self.started,
        )
    }

    pub open spec fn all_moves(
        self,
        after: Sweep,
        rows: Seq<WatchRow>,
        tick: Tick,
        r: Result<Ask, SweepError>,
    ) -> bool {
        exists|inspected: Sweep| #[trigger]
            self.inspects(inspected, rows) && inspected.looks_for_wakes(after, tick, r)
    }

    fn on_all(&mut self, rows: Vec<WatchRow>, tick: Tick) -> (r: Result<Ask, SweepError>)
        requires
            old(self).wf(),
            old(self).stage == Stage::AllPage,
            rows@.len() <= MAX_LIST,
        ensures
            old(self).all_moves(*final(self), rows@, tick, r),
            final(self).wf(),
    {
        let count: usize = rows.len();
        scan::inspection_started(&mut self.entry, count, &self.policy);
        let ghost opened = self.entry;
        let ghost counts = self.report;
        let mut i: usize = 0;
        proof {
            assert(rows@.take(0) =~= Seq::empty());
        }
        while i < rows.len()
            invariant
                i <= rows@.len() <= MAX_LIST,
                *self == (Sweep { entry: self.entry, report: self.report, ..*old(self) }),
                self.policy.valid(),
                self.report.wf(),
                self.started <= u64::MAX - MAX_POLICY_MS,
                counted(self.report, MAX_LIST as int, i as int, 0),
                all_inspected(
                    opened,
                    counts,
                    self.entry,
                    self.report,
                    rows@.take(i as int),
                    self.semantic,
                    self.policy,
                    self.started,
                ),
                self.entry.rechecks == old(self).entry.rechecks,
                self.entry.checkpoint.wake_pending == old(self).entry.checkpoint.wake_pending,
            decreases rows.len() - i,
        {
            let ghost e = self.entry;
            let ghost p = self.report;
            scan::watch_inspected(
                &mut self.entry,
                &mut self.report,
                copy_row(&rows[i]),
                self.semantic,
                &self.policy,
                self.started,
            );
            proof {
                assert(rows@.take(i + 1).drop_last() =~= rows@.take(i as int));
                assert(rows@.take(i + 1).last() == rows@[i as int]);
                assert(all_inspected(
                    opened,
                    counts,
                    e,
                    p,
                    rows@.take(i + 1).drop_last(),
                    self.semantic,
                    self.policy,
                    self.started,
                ));
                assert(scan::inspected(
                    e,
                    p,
                    self.entry,
                    self.report,
                    rows@.take(i + 1).last(),
                    self.semantic,
                    self.policy,
                    self.started,
                ));
                assert(all_inspected(
                    opened,
                    counts,
                    self.entry,
                    self.report,
                    rows@.take(i + 1),
                    self.semantic,
                    self.policy,
                    self.started,
                ));
            }
            i = i + 1;
        }
        proof {
            assert(rows@.take(i as int) =~= rows@);
            assert(old(self).inspects(*self, rows@));
        }
        self.look_for_wakes(tick)
    }

    pub open spec fn wakes_move(
        self,
        after: Sweep,
        page: WakePage,
        tick: Tick,
        r: Result<Ask, SweepError>,
    ) -> bool {
        (Sweep {
            entry: Entry {
                checkpoint: Checkpoint {
                    wake_pending: page.references,
                    wake_page_cursor: page.next_cursor,
                    wake_page_complete: page.complete,
                    ..self.entry.checkpoint
                },
                ..self.entry
            },
            report: AttentionReport { wakes_scanned: page.scanned, ..self.report },
            ..self
        }).turns_to_wake(after, tick, r)
    }

    /// The wake was read. The last failure of a blocked one is looked at first,
    /// unless the action bindings deal with it.
    pub open spec fn wake_moves(
        self,
        after: Sweep,
        seen: WakeSeen,
        tick: Tick,
        r: Result<Ask, SweepError>,
    ) -> bool {
        let read = Sweep { wake: Some(seen), ..self };
        if seen.state is Blocked && self.per_pass is None {
            &&& after == (Sweep { stage: Stage::WakeFailure, ..read })
            &&& r matches Ok(Ask::ReadFailure(key)) && scan::blocked_key_of(
                self.space@,
                self.entry.checkpoint.wake_pending@[0]@,
            ) == Some(key@)
        } else {
            read.acts_on_wake(after, None, tick, r)
        }
    }

    fn on_wake(&mut self, seen: WakeSeen, tick: Tick) -> (r: Result<Ask, SweepError>)
        requires
            old(self).wf(),
            old(self).stage == Stage::Wake,
            seen.at <= u64::MAX - MAX_POLICY_MS,
        ensures
            old(self).wake_moves(*final(self), seen, tick, r),
            final(self).wf(),
    {
        let blocked = match &seen.state {
            WakeState::Blocked { .. } => true,
            _ => false,
        };
        self.wake = Some(seen);
        if blocked && self.per_pass.is_none() {
            self.stage = Stage::WakeFailure;
            let key = scan::blocked_key(
                self.space.as_str(),
                self.entry.checkpoint.wake_pending[0].as_str(),
            );
            return Ok(Ask::ReadFailure(key));
        }
        self.act_on_wake(None, tick)
    }

    /// The action bindings have dealt with the wake.
    pub open spec fn acted(self, after: Sweep, outcome: ActionOutcome) -> bool {
        &&& after == (Sweep {
            stage: Stage::Reread,
            entry: scan::noted(
                self.entry,
                Some(
                    super::earlier(
                        self.entry.checkpoint.next_due_ms,
                        scan::action_due(outcome, self.policy, self.wake->0.at),
                    ),
                ),
                self.entry.checkpoint.running_until_ms,
            ),
            report: after.report,
            ..self
        })
        &&& scan::action_reported(self.report, after.report, outcome)
    }

    fn on_action(&mut self, outcome: ActionOutcome) -> (r: Result<Ask, SweepError>)
        requires
            old(self).wf(),
            old(self).stage == Stage::Action,
        ensures
            old(self).acted(*final(self), outcome),
            proceeds(r, Ask::ReadAgain(old(self).entry.checkpoint.wake_pending@[0])),
            final(self).wf(),
    {
        let at: u64 = match &self.wake {
            Some(seen) => seen.at,
            None => return Err(SweepError::OutOfTurn),
        };
        scan::action_ran(&mut self.entry, &mut self.report, outcome, &self.policy, at);
        self.stage = Stage::Reread;
        Ok(Ask::ReadAgain(self.entry.checkpoint.wake_pending[0].clone()))
    }

    pub open spec fn reread_moves(
        self,
        after: Sweep,
        state: Option<WakeState>,
        tick: Tick,
        r: Result<Ask, SweepError>,
    ) -> bool {
        (Sweep {
            entry: match state {
                Some(own) => scan::reread_entry(self.entry, own),
                None => self.entry,
            },
            ..self
        }).goes_on(after, tick, r)
    }

    fn on_reread(&mut self, state: Option<WakeState>, tick: Tick) -> (r: Result<Ask, SweepError>)
        requires
            old(self).wf(),
            old(self).stage == Stage::Reread,
        ensures
            old(self).reread_moves(*final(self), state, tick, r),
            final(self).wf(),
    {
        if let Some(own) = &state {
            scan::wake_reread(&mut self.entry, own);
        }
        self.go_on(tick)
    }

    /// The engine was asked to resume the wake.
    pub open spec fn resumes(self, after: Sweep, resumed: bool) -> bool {
        &&& after == (Sweep {
            entry: scan::noted(
                self.entry,
                Some(
                    super::earlier(
                        self.entry.checkpoint.next_due_ms,
                        scan::resume_again(resumed, self.policy, self.wake->0.at),
                    ),
                ),
                self.entry.checkpoint.running_until_ms,
            ),
            report: after.report,
            ..self
        })
        &&& scan::resume_reported(self.report, after.report, resumed)
    }

    pub open spec fn resume_moves(
        self,
        after: Sweep,
        resumed: bool,
        tick: Tick,
        r: Result<Ask, SweepError>,
    ) -> bool {
        exists|told: Sweep| #[trigger] self.resumes(told, resumed) && told.goes_on(after, tick, r)
    }

    fn on_resume(&mut self, resumed: bool, tick: Tick) -> (r: Result<Ask, SweepError>)
        requires
            old(self).wf(),
            old(self).stage == Stage::Resume || old(self).stage == Stage::WakeNoted,
        ensures
            old(self).resume_moves(*final(self), resumed, tick, r),
            final(self).wf(),
    {
        let at: u64 = match &self.wake {
            Some(seen) => seen.at,
            None => return Err(SweepError::OutOfTurn),
        };
        scan::resume_ended(&mut self.entry, &mut self.report, resumed, &self.policy, at);
        assert(old(self).resumes(*self, resumed));
        self.go_on(tick)
    }

    /// A refused resume is written before the wake counts as dealt with.
    pub open spec fn not_resumed_moves(
        self,
        after: Sweep,
        message: Seq<char>,
        r: Result<Ask, SweepError>,
    ) -> bool {
        let seen = self.wake->0;
        &&& after == (Sweep { stage: Stage::WakeNoted, ..self })
        &&& r matches Ok(Ask::SaveFailure(b)) && b.version == seen.version && b.generation
            == seen.fence && b.retry_at_ms == seen.at + self.policy.blocked_retry_ms && b.reason@
            == crate::assess::head(message, 1024)
    }

    fn on_not_resumed(&mut self, message: String) -> (r: Result<Ask, SweepError>)
        requires
            old(self).wf(),
            old(self).stage == Stage::Resume,
        ensures
            old(self).not_resumed_moves(*final(self), message@, r),
            final(self).wf(),
    {
        let failure = match &self.wake {
            Some(seen) => BlockedWatch::new(
                seen.version,
                seen.fence,
                message.as_str(),
                &self.policy,
                seen.at,
            ),
            None => return Err(SweepError::OutOfTurn),
        };
        self.stage = Stage::WakeNoted;
        Ok(Ask::SaveFailure(failure))
    }

    /// What one report leads to.
    pub open spec fn moves(
        self,
        after: Sweep,
        told: Told,
        tick: Tick,
        r: Result<Ask, SweepError>,
    ) -> bool {
        match (self.stage, told) {
            (Stage::Configuration, Told::Configuration(config)) => self.configuration_moves(
                after,
                config,
                tick,
                r,
            ),
            (Stage::RunnablePage, Told::Runnable(rows)) => self.runnable_moves(
                after,
                rows,
                tick,
                r,
            ),
            (Stage::Failure, Told::Failure(failure)) => self.failure_moves(
                after,
                failure,
                tick,
                r,
            ),
            (Stage::Advance, Told::Advanced(step)) => self.visited(
                after,
                WatchOutcome::Advanced(step),
                tick,
                r,
            ),
            (Stage::Advance, Told::Refused(refused)) => self.refused_moves(after, refused, r),
            (Stage::Noted, Told::Saved) => self.noted_moves(after, tick, r),
            (Stage::AllPage, Told::All(rows)) => self.all_moves(after, rows@, tick, r),
            (Stage::WakePage, Told::Wakes(page)) => self.wakes_move(after, page, tick, r),
            (Stage::WakePage, Told::WakesUnavailable { conflict }) => {
                &&& after == (Sweep {
                    stage: Stage::Over,
                    entry: if conflict {
                        Entry {
                            checkpoint: Checkpoint { wake_cursor: None, ..self.entry.checkpoint },
                            ..self.entry
                        }
                    } else {
                        self.entry
                    },
                    ..self
                })
                &&& proceeds(r, Ask::Fail)
            },
            (Stage::Wake, Told::Wake { state, version, fence }) => self.wake_moves(
                after,
                WakeSeen { state, version, fence, at: tick.now },
                tick,
                r,
            ),
            (Stage::WakeFailure, Told::Failure(failure)) => self.acts_on_wake(
                after,
                failure,
                tick,
                r,
            ),
            (Stage::Action, Told::Processed(outcome)) => self.acted(after, outcome) && proceeds(
                r,
                Ask::ReadAgain(self.entry.checkpoint.wake_pending@[0]),
            ),
            (Stage::Reread, Told::Again(state)) => self.reread_moves(after, state, tick, r),
            (Stage::Resume, Told::Resumed) => self.resume_moves(after, true, tick, r),
            (Stage::Resume, Told::NotResumed(message)) => self.not_resumed_moves(
                after,
                message@,
                r,
            ),
            (Stage::WakeNoted, Told::Saved) => self.resume_moves(after, false, tick, r),
            _ => after == self && r == Err::<Ask, SweepError>(SweepError::OutOfTurn),
        }
    }

    /// Takes a report over, and says what the host does next.
    pub fn step(&mut self, told: Told, tick: Tick) -> (r: Result<Ask, SweepError>)
        requires
            old(self).wf(),
            tick.fits(),
            told matches Told::Runnable(rows) ==> rows@.len() <= MAX_LIST,
            told matches Told::All(rows) ==> rows@.len() <= MAX_LIST,
            told matches Told::Wakes(page) ==> page.references@.len() <= MAX_LIST,
        ensures
            old(self).moves(*final(self), told, tick, r),
            r is Ok ==> final(self).wf(),
    {
        match (self.stage, told) {
            (Stage::Configuration, Told::Configuration(config)) => self.on_configuration(
                config,
                tick,
            ),
            (Stage::RunnablePage, Told::Runnable(rows)) => {
                self.rows = rows;
                self.next = 0;
                self.visit_next(tick)
            },
            (Stage::Failure, Told::Failure(failure)) => self.on_failure(failure, tick),
            (Stage::Advance, Told::Advanced(step)) => self.record_visit(
                WatchOutcome::Advanced(step),
                tick,
            ),
            (Stage::Advance, Told::Refused(refused)) => self.on_refused(refused),
            (Stage::Noted, Told::Saved) => self.on_noted(tick),
            (Stage::AllPage, Told::All(rows)) => self.on_all(rows, tick),
            (Stage::WakePage, Told::Wakes(page)) => {
                scan::wake_page_read(&mut self.entry, &mut self.report, page);
                self.turn_to_wake(tick)
            },
            (Stage::WakePage, Told::WakesUnavailable { conflict }) => {
                scan::wake_page_failed(&mut self.entry, conflict);
                self.stage = Stage::Over;
                Ok(Ask::Fail)
            },
            (Stage::Wake, Told::Wake { state, version, fence }) => self.on_wake(
                WakeSeen { state, version, fence, at: tick.now },
                tick,
            ),
            (Stage::WakeFailure, Told::Failure(failure)) => self.act_on_wake(failure, tick),
            (Stage::Action, Told::Processed(outcome)) => self.on_action(outcome),
            (Stage::Reread, Told::Again(state)) => self.on_reread(state, tick),
            (Stage::Resume, Told::Resumed) => self.on_resume(true, tick),
            (Stage::Resume, Told::NotResumed(message)) => self.on_not_resumed(message),
            (Stage::WakeNoted, Told::Saved) => self.on_resume(false, tick),
            _ => Err(SweepError::OutOfTurn),
        }
    }

    /// The entry after a scan that came to its end: no failure in a row is left.
    pub fn close(self) -> (entry: Entry)
        ensures
            entry == (Entry { failures: 0, last_report: self.report, ..self.entry }),
    {
        let mut entry = self.entry;
        entry.failures = 0;
        entry.last_report = self.report;
        entry
    }

    /// The entry after a scan that failed.
    pub open spec fn failed(self, entry: Entry, message: Seq<char>, now: u64) -> bool {
        let failures = if self.entry.failures < u32::MAX {
            (self.entry.failures + 1) as u32
        } else {
            u32::MAX
        };
        &&& entry == (Entry {
            failures,
            registration: super::Registration {
                next_check_ms: (now + scan::failure_wait(self.policy, failures)) as u64,
                ..self.entry.registration
            },
            last_report: entry.last_report,
            ..self.entry
        })
        &&& entry.last_report.error matches Some(error) && error@ == message
        &&& exists|blank: AttentionReport| #[trigger]
            blank.is_empty() && entry.last_report == (AttentionReport {
                error: entry.last_report.error,
                ..blank
            })
    }

    /// Gives a scan up: what it counted is dropped, what it got done stays.
    pub fn fail(self, message: String, now: u64) -> (entry: Entry)
        requires
            self.policy.valid(),
            now <= u64::MAX - MAX_POLICY_MS,
        ensures
            self.failed(entry, message@, now),
    {
        let mut entry = self.entry;
        let report = scan::scan_failed(&mut entry, &self.policy, now, message);
        entry.last_report = report;
        entry
    }
}

proof fn due_is_counted(rechecks: Seq<super::Recheck>, now: u64)
    ensures
        scan::due_count(rechecks, now) <= rechecks.len(),
    decreases rechecks.len(),
{
    if rechecks.len() > 0 {
        due_is_counted(rechecks.drop_last(), now);
    }
}

// ---------------------------------------------------------------------------
// Laws
// ---------------------------------------------------------------------------

impl Stage {
    /// The part of the scan that it belongs to.
    pub open spec fn part(self) -> nat {
        match self {
            Stage::Configuration => 0,
            Stage::RunnablePage => 1,
            Stage::Failure => 2,
            Stage::Advance => 2,
            Stage::Noted => 2,
            Stage::AllPage => 3,
            Stage::WakePage => 4,
            Stage::Over => 6,
            _ => 5,
        }
    }

    /// How far one Watch or one wake is dealt with.
    pub open spec fn within(self) -> nat {
        match self {
            Stage::Failure => 0,
            Stage::Advance => 1,
            Stage::Noted => 2,
            Stage::Wake => 0,
            Stage::WakeFailure => 1,
            Stage::Action => 2,
            Stage::Resume => 2,
            Stage::Reread => 3,
            Stage::WakeNoted => 3,
            _ => 0,
        }
    }
}

impl Sweep {
    /// How many wakes of the page are left.
    pub open spec fn wakes_left(self) -> nat {
        self.entry.checkpoint.wake_pending@.len()
    }

    /// A new Watch, a new wake or a new page is begun.
    pub open spec fn begins_something(self, r: Result<Ask, SweepError>) -> bool {
        ||| self.stage == Stage::Failure
        ||| r matches Ok(Ask::ReadRunnable(_))
        ||| r matches Ok(Ask::ReadAll(_))
        ||| r matches Ok(Ask::ListWakes(_))
        ||| r matches Ok(Ask::ReadWake(_))
    }

    /// Where a turn to wakes leads.
    pub open spec fn in_wakes(self, before: Sweep, tick: Tick, r: Result<Ask, SweepError>) -> bool {
        &&& !(r matches Ok(Ask::Process(_)))
        &&& !(r matches Ok(Ask::Resume { .. }))
        &&& !(r matches Ok(Ask::Advance { .. }))
        &&& self.begins_something(r) ==> tick.in_time
        &&& self.stage == Stage::Over || (self.stage == Stage::Wake && self.wakes_left()
            == before.wakes_left())
        &&& self.per_pass == before.per_pass
    }

    proof fn turning_to_wakes(self, after: Sweep, tick: Tick, r: Result<Ask, SweepError>)
        requires
            self.turns_to_wake(after, tick, r),
        ensures
            after.in_wakes(self, tick, r),
    {
    }

    proof fn going_on(self, after: Sweep, tick: Tick, r: Result<Ask, SweepError>)
        requires
            self.goes_on(after, tick, r),
            self.wakes_left() > 0,
        ensures
            exists|left: Sweep| #[trigger]
                after.in_wakes(left, tick, r) && left.wakes_left() + 1 == self.wakes_left()
                    && left.per_pass == self.per_pass,
    {
        let left = choose|left: Sweep| #[trigger]
            self.leaves_wake(left) && left.turns_to_wake(after, tick, r);
        left.turning_to_wakes(after, tick, r);
        assert(after.in_wakes(left, tick, r));
    }

    /// Where the search for wakes, or for all Watches, leads.
    pub open spec fn in_pages(self, before: Sweep, tick: Tick, r: Result<Ask, SweepError>) -> bool {
        &&& !(r matches Ok(Ask::Process(_)))
        &&& !(r matches Ok(Ask::Resume { .. }))
        &&& !(r matches Ok(Ask::Advance { .. }))
        &&& self.begins_something(r) ==> tick.in_time
        &&& self.stage.part() >= 3
    }

    proof fn looking_for_wakes(self, after: Sweep, tick: Tick, r: Result<Ask, SweepError>)
        requires
            self.looks_for_wakes(after, tick, r),
        ensures
            after.in_pages(self, tick, r),
            after.stage.part() >= 4,
    {
        if !self.entry.checkpoint.wakes_done && tick.in_time && self.wakes_left() > 0 {
            self.turning_to_wakes(after, tick, r);
        }
    }

    proof fn looking_at_all(self, after: Sweep, tick: Tick, r: Result<Ask, SweepError>)
        requires
            self.looks_at_all(after, tick, r),
        ensures
            after.in_pages(self, tick, r),
    {
        if self.entry.checkpoint.all_done || !tick.in_time {
            self.looking_for_wakes(after, tick, r);
        }
    }

    proof fn visiting_next(self, after: Sweep, tick: Tick, r: Result<Ask, SweepError>)
        requires
            self.visits_next(after, tick, r),
        ensures
            after.in_pages(self, tick, r) || (after == (Sweep { stage: Stage::Failure, ..self })
                && tick.in_time && r matches Ok(Ask::ReadFailure(_))),
    {
        if self.next >= self.rows@.len() || !tick.in_time {
            let turned = choose|turned: Sweep| #[trigger]
                self.turns_page(turned) && turned.looks_at_all(after, tick, r);
            turned.looking_at_all(after, tick, r);
        }
    }

    /// Where a report leads.
    pub open spec fn leads_on(self, after: Sweep, tick: Tick, r: Result<Ask, SweepError>) -> bool {
        &&& after.stage.part() > self.stage.part() || (after.stage.part() == self.stage.part()
            == 2 && (after.next > self.next || (after.next == self.next && after.stage.within()
            > self.stage.within()))) || (after.stage.part() == self.stage.part() == 5 && (
        after.wakes_left() < self.wakes_left() || (after.wakes_left() == self.wakes_left()
            && after.stage.within() > self.stage.within())))
        &&& after.begins_something(r) ==> tick.in_time
        &&& r matches Ok(Ask::Process(_)) ==> self.per_pass is Some && after.per_pass
            == self.per_pass && self.report.actions_processed < self.per_pass->0
            && after.report.actions_processed == self.report.actions_processed + 1
        &&& r matches Ok(Ask::Advance { .. }) ==> self.stage == Stage::Failure
        &&& r matches Ok(Ask::Resume { .. }) ==> after.stage == Stage::Resume
    }

    proof fn visiting(
        self,
        after: Sweep,
        outcome: WatchOutcome,
        tick: Tick,
        r: Result<Ask, SweepError>,
    )
        requires
            self.wf(),
            self.at_watches(),
            self.visited(after, outcome, tick, r),
        ensures
            self.leads_on(after, tick, r),
    {
        let noted = choose|noted: Sweep| #[trigger]
            self.records_visit(noted, outcome) && noted.visits_next(after, tick, r);
        noted.visiting_next(after, tick, r);
    }

    proof fn acting_on_wake(
        self,
        after: Sweep,
        failure: Option<BlockedWatch>,
        tick: Tick,
        r: Result<Ask, SweepError>,
    )
        requires
            self.acts_on_wake(after, failure, tick, r),
            self.wake is Some,
            self.wakes_left() > 0,
            self.report.actions_processed < MAX_LIST,
            self.stage == Stage::Wake || self.stage == Stage::WakeFailure,
        ensures
            self.leads_on(after, tick, r),
    {
        let reference = self.entry.checkpoint.wake_pending@[0];
        let decided = choose|decided: Sweep| #[trigger]
            self.decides(decided, failure) && match self.step_of(failure) {
                WakeStep::Recorded => decided.goes_on(after, tick, r),
                WakeStep::OverBudget => decided.goes_on(after, tick, r),
                WakeStep::RunAction => after == (Sweep { stage: Stage::Action, ..decided })
                    && proceeds(r, Ask::Process(reference)),
                WakeStep::Resume => after == (Sweep { stage: Stage::Resume, ..decided })
                    && proceeds(
                    r,
                    Ask::Resume {
                        reference,
                        version: self.wake->0.version,
                        fence: self.wake->0.fence,
                    },
                ),
            };
        if self.step_of(failure) == WakeStep::Recorded || self.step_of(failure)
            == WakeStep::OverBudget {
            decided.going_on(after, tick, r);
        }
    }

    #[verifier::rlimit(40)]
    proof fn moving_leads_on(self, after: Sweep, told: Told, tick: Tick, r: Result<Ask, SweepError>)
        requires
            self.wf(),
            self.moves(after, told, tick, r),
            r is Ok,
        ensures
            self.leads_on(after, tick, r),
    {
        match (self.stage, told) {
            (Stage::Configuration, Told::Configuration(config)) => {
                let begun = choose|begun: Sweep| #[trigger]
                    self.begins(begun, tick.now) && if tick.in_time {
                        after == (Sweep { stage: Stage::RunnablePage, ..begun }) && proceeds(
                            r,
                            Ask::ReadRunnable(begun.entry.checkpoint.runnable_after),
                        )
                    } else {
                        begun.looks_at_all(after, tick, r)
                    };
                if !tick.in_time {
                    begun.looking_at_all(after, tick, r);
                }
            },
            (Stage::RunnablePage, Told::Runnable(rows)) => {
                (Sweep { rows, next: 0, ..self }).visiting_next(after, tick, r);
            },
            (Stage::Failure, Told::Failure(failure)) => {
                if after.stage != Stage::Advance {
                    self.visiting(after, WatchOutcome::BackedOff, tick, r);
                } else if self.visited(after, WatchOutcome::BackedOff, tick, r) {
                    self.visiting(after, WatchOutcome::BackedOff, tick, r);
                }
            },
            (Stage::Advance, Told::Advanced(step)) => {
                self.visiting(after, WatchOutcome::Advanced(step), tick, r);
            },
            (Stage::Noted, Told::Saved) => {
                let refused = self.refused->0;
                self.visiting(
                    after,
                    WatchOutcome::Failed { conflict: refused.conflict, message: refused.message },
                    tick,
                    r,
                );
            },
            (Stage::AllPage, Told::All(rows)) => {
                let inspected = choose|inspected: Sweep| #[trigger]
                    self.inspects(inspected, rows@) && inspected.looks_for_wakes(after, tick, r);
                inspected.looking_for_wakes(after, tick, r);
            },
            (Stage::WakePage, Told::Wakes(page)) => {
                (Sweep {
                    entry: Entry {
                        checkpoint: Checkpoint {
                            wake_pending: page.references,
                            wake_page_cursor: page.next_cursor,
                            wake_page_complete: page.complete,
                            ..self.entry.checkpoint
                        },
                        ..self.entry
                    },
                    report: AttentionReport { wakes_scanned: page.scanned, ..self.report },
                    ..self
                }).turning_to_wakes(after, tick, r);
            },
            (Stage::Wake, Told::Wake { state, version, fence }) => {
                if !(state is Blocked && self.per_pass is None) {
                    (Sweep {
                        wake: Some(WakeSeen { state, version, fence, at: tick.now }),
                        ..self
                    }).acting_on_wake(after, None, tick, r);
                }
            },
            (Stage::WakeFailure, Told::Failure(failure)) => {
                self.acting_on_wake(after, failure, tick, r);
            },
            (Stage::Reread, Told::Again(state)) => {
                (Sweep {
                    entry: match state {
                        Some(own) => scan::reread_entry(self.entry, own),
                        None => self.entry,
                    },
                    ..self
                }).going_on(after, tick, r);
            },
            (Stage::Resume, Told::Resumed) => {
                let told = choose|told: Sweep| #[trigger]
                    self.resumes(told, true) && told.goes_on(after, tick, r);
                told.going_on(after, tick, r);
            },
            (Stage::WakeNoted, Told::Saved) => {
                let told = choose|told: Sweep| #[trigger]
                    self.resumes(told, false) && told.goes_on(after, tick, r);
                told.going_on(after, tick, r);
            },
            _ => {},
        }
    }
}

/// Every scan comes to an end: a report leads to a later part of the scan, to the
/// next Watch or wake, or further with the one at hand.
pub proof fn scans_come_to_an_end(
    before: Sweep,
    after: Sweep,
    told: Told,
    tick: Tick,
    r: Result<Ask, SweepError>,
)
    requires
        before.wf(),
        before.moves(after, told, tick, r),
        r is Ok,
    ensures
        after.stage.part() > before.stage.part() || (after.stage.part() == before.stage.part()
            == 2 && (after.next > before.next || (after.next == before.next && after.stage.within()
            > before.stage.within()))) || (after.stage.part() == before.stage.part() == 5 && (
        after.wakes_left() < before.wakes_left() || (after.wakes_left() == before.wakes_left()
            && after.stage.within() > before.stage.within()))),
{
    before.moving_leads_on(after, told, tick, r);
}

/// Once a scan is out of time it begins no other Watch, no other wake and no other
/// page; what is at hand is brought to its end.
pub proof fn nothing_begins_out_of_time(
    before: Sweep,
    after: Sweep,
    told: Told,
    tick: Tick,
    r: Result<Ask, SweepError>,
)
    requires
        before.wf(),
        before.moves(after, told, tick, r),
        r is Ok,
        !tick.in_time,
    ensures
        !after.begins_something(r),
{
    before.moving_leads_on(after, told, tick, r);
}

/// No pass hands more wakes to the action bindings than they allow, and each one is
/// counted before it is handed over.
pub proof fn actions_stay_within_their_budget(
    before: Sweep,
    after: Sweep,
    told: Told,
    tick: Tick,
    r: Result<Ask, SweepError>,
)
    requires
        before.wf(),
        before.moves(after, told, tick, r),
        r matches Ok(Ask::Process(_)),
    ensures
        after.per_pass matches Some(most) && after.report.actions_processed <= most,
        after.report.actions_processed == before.report.actions_processed + 1,
{
    before.moving_leads_on(after, told, tick, r);
}

/// A Watch whose last failure is too recent is not attempted again, and neither is
/// one that lacks a generation.
pub proof fn recent_failures_are_left_alone(
    before: Sweep,
    after: Sweep,
    told: Told,
    tick: Tick,
    r: Result<Ask, SweepError>,
)
    requires
        before.wf(),
        before.moves(after, told, tick, r),
        r matches Ok(Ask::Advance { .. }),
    ensures
        before.stage == Stage::Failure,
        before.rows@[before.next as int].generation matches Some(generation) && !(told
            matches Told::Failure(Some(b)) && b.concerns(
            before.rows@[before.next as int].version,
            generation,
        ) && b.retry_at_ms > before.started),
{
    before.moving_leads_on(after, told, tick, r);
    if told matches Told::Failure(failure) {
        if before.visited(after, WatchOutcome::BackedOff, tick, r) {
            let noted = choose|noted: Sweep| #[trigger]
                before.records_visit(noted, WatchOutcome::BackedOff) && noted.visits_next(
                    after,
                    tick,
                    r,
                );
            noted.visiting_next(after, tick, r);
        }
    }
}

} // verus!
