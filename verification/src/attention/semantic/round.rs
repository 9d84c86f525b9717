//! One bounded pass over the Watches that need a model, step by step. The Watch
//! that is being judged is noted before anything is done to it, so that a pass
//! that was cut short is taken up where it was.

use vstd::prelude::*;

use super::judging::{self, Judging, Terms};
use super::runtime::{self, Cursor, SemanticJob, SemanticPass};
use super::SemanticError;
use crate::json::Json;
use crate::wake::MAX_DELAY_MS;

verus! {

/// What the host is waited for.
#[derive(Clone, Copy, Debug, PartialEq, Eq, Structural)]
pub enum Stage {
    Cursor,
    /// The work of the Watch that is taken up.
    Job,
    Judging,
    /// The cursor is being written behind a Watch.
    Moved,
    Discovery,
    /// The work of a Watch that was found.
    Known,
    /// New work is being written.
    New,
    /// The cursor is being written at a Watch.
    Taken,
    Ending,
    Over,
}

/// What the host does next.
#[derive(Debug)]
pub enum Ask {
    ReadCursor,
    /// Read the work of that Watch.
    ReadJob(String),
    /// Whatever the judgment of the Watch asks for.
    Judge(judging::Ask),
    SaveCursor,
    /// Find the Watches behind the cursor, with that query.
    Discover(String),
    /// Write new work.
    SaveNew(SemanticJob),
    Stop,
}

/// What the host reports.
#[derive(Debug)]
pub enum Told {
    Cursor(Option<Cursor>),
    Job(Option<SemanticJob>),
    Judge(judging::Told),
    Saved,
    Rows(Json),
}

/// The moment of a report: the time, and whether any is left for the pass.
#[derive(Clone, Copy, Debug)]
pub struct Tick {
    pub now: u64,
    pub in_time: bool,
}

/// How far a pass has come.
#[derive(Debug)]
pub struct Round {
    pub stage: Stage,
    pub cursor: Cursor,
    pub pass: SemanticPass,
    /// The Watch that is dealt with.
    pub watch: String,
    /// The Watches that were found, and which comes next.
    pub rows: Vec<Json>,
    pub next: usize,
    /// They have been looked for.
    pub found: bool,
    pub judging: Option<Judging>,
}

pub open spec fn proceeds(r: Result<Ask, SemanticError>, ask: Ask) -> bool {
    r == Ok::<Ask, SemanticError>(ask)
}

pub open spec fn fails(r: Result<Ask, SemanticError>, e: SemanticError) -> bool {
    r == Err::<Ask, SemanticError>(e)
}

/// What was counted fits the Watches that were taken up.
pub open spec fn counted(pass: SemanticPass, before: int) -> bool {
    &&& pass.calls <= pass.scanned
    &&& pass.advanced + before <= pass.scanned
    &&& pass.fired + before <= pass.scanned
    &&& pass.expired + before <= pass.scanned
    &&& pass.deferred + before <= pass.scanned
}

impl Round {
    /// A Watch is taken up and not counted out yet.
    pub open spec fn busy(self) -> bool {
        self.stage == Stage::Job || self.stage == Stage::Judging
    }

    pub open spec fn wf(self, terms: Terms) -> bool {
        &&& terms.config.limits.valid()
        &&& self.pass.input_tokens <= terms.config.limits.pass_input_tokens
        &&& self.pass.scanned <= terms.config.limits.watches_per_pass
        &&& counted(
            self.pass,
            if self.busy() {
                1
            } else {
                0
            },
        )
        &&& self.busy() ==> self.pass.calls < self.pass.scanned
        &&& self.stage == Stage::Cursor ==> !self.found && self.pass.scanned == 0
        &&& self.stage == Stage::Known ==> self.row_read()
        &&& self.stage == Stage::Known || self.stage == Stage::New || self.stage == Stage::Taken
            ==> self.found && self.next < self.rows@.len() && self.pass.scanned
            < terms.config.limits.watches_per_pass
        &&& self.stage == Stage::Discovery ==> !self.found
        &&& self.stage == Stage::Judging ==> self.judging is Some && self.judging->0.wf(terms)
            && self.judging->0.continues(self.pass)
        &&& self.found && (self.busy() || self.stage == Stage::Moved) ==> self.next
            < self.rows@.len()
    }
}

impl Judging {
    /// The pass is the one that the judgment began with, but for one call.
    pub open spec fn continues(self, pass: SemanticPass) -> bool {
        self.pass == pass || (!self.before_call() && self.pass == (SemanticPass {
            calls: (pass.calls + 1) as usize,
            input_tokens: self.pass.input_tokens,
            ..pass
        }))
    }
}

proof fn a_judgment_calls_once(
    before: Judging,
    after: Judging,
    told: judging::Told,
    terms: Terms,
    now: u64,
    r: Result<judging::Ask, SemanticError>,
    pass: SemanticPass,
)
    requires
        before.moves(after, told, terms, now, r),
        before.continues(pass),
        r is Ok,
    ensures
        after.continues(pass),
{
}

// ---------------------------------------------------------------------------
// Between two Watches
// ---------------------------------------------------------------------------

impl Round {
    /// The Watch was dealt with: what became of it is counted, and the cursor
    /// moves behind it.
    pub open spec fn ends_judgment(
        self,
        after: Round,
        judged: Judging,
        r: Result<Ask, SemanticError>,
    ) -> bool {
        &&& after == (Round {
            stage: Stage::Moved,
            cursor: after.cursor,
            pass: runtime::with_outcome(judged.pass, judged.job),
            judging: None,
            ..self
        })
        &&& after.cursor.after@ == self.watch@
        &&& after.cursor.pending is None
        &&& after.cursor.last == self.cursor.last
        &&& proceeds(r, Ask::SaveCursor)
    }

    fn end_judgment(&mut self, judged: Judging, Ghost(terms): Ghost<Terms>) -> (r: Result<
        Ask,
        SemanticError,
    >)
        requires
            old(self).wf(terms),
            old(self).busy(),
            judged.continues(old(self).pass),
            judged.pass.input_tokens <= terms.config.limits.pass_input_tokens,
        ensures
            old(self).ends_judgment(*final(self), judged, r),
            final(self).wf(terms),
    {
        let mut pass = judged.pass;
        runtime::count_outcome(&mut pass, &judged.job);
        self.pass = pass;
        self.cursor.move_on(self.watch.as_str());
        self.judging = None;
        self.stage = Stage::Moved;
        Ok(Ask::SaveCursor)
    }

    /// The pass is over; behind the last Watch the next one starts from the first.
    pub open spec fn finishes(
        self,
        after: Round,
        complete: bool,
        terms: Terms,
        r: Result<Ask, SemanticError>,
    ) -> bool {
        &&& after == (Round { stage: Stage::Ending, cursor: after.cursor, ..self })
        &&& after.cursor.after@ == if complete && self.rows@.len()
            < terms.config.limits.watches_per_pass {
            Seq::empty()
        } else {
            self.cursor.after@
        }
        &&& after.cursor.pending == self.cursor.pending
        &&& after.cursor.last == self.pass
        &&& proceeds(r, Ask::SaveCursor)
    }

    /// The next Watch is looked at, where the pass has room and time for it.
    pub open spec fn turns_to_next(
        self,
        after: Round,
        terms: Terms,
        tick: Tick,
        r: Result<Ask, SemanticError>,
    ) -> bool {
        if self.next >= self.rows@.len() {
            self.finishes(after, true, terms, r)
        } else if self.pass.scanned >= terms.config.limits.watches_per_pass || !tick.in_time {
            self.finishes(after, false, terms, r)
        } else {
            let row = self.rows@[self.next as int]@;
            match (
                runtime::nth(row, 0).as_text(),
                runtime::nth(row, 1).as_u64(),
                runtime::nth(row, 2).as_u64(),
            ) {
                (None, _, _) => fails(r, SemanticError::InvalidRowId),
                (Some(_), None, _) => fails(r, SemanticError::InvalidRowVersion),
                (Some(_), Some(_), None) => fails(r, SemanticError::InvalidRowGeneration),
                (Some(id), Some(_), Some(_)) => {
                    &&& after == (Round { stage: Stage::Known, watch: after.watch, ..self })
                    &&& after.watch@ == id
                    &&& r matches Ok(Ask::ReadJob(own)) && own@ == id
                },
            }
        }
    }

    fn turn_to_next(&mut self, terms: &Terms, tick: Tick) -> (r: Result<Ask, SemanticError>)
        requires
            terms.config.limits.valid(),
            old(self).pass.input_tokens <= terms.config.limits.pass_input_tokens,
            old(self).pass.scanned <= terms.config.limits.watches_per_pass,
            counted(old(self).pass, 0),
            old(self).found,
        ensures
            old(self).turns_to_next(*final(self), *terms, tick, r),
            r is Ok ==> final(self).wf(*terms),
    {
        let limits = &terms.config.limits;
        if self.next >= self.rows.len() {
            let rows: usize = self.rows.len();
            self.cursor.finish(&self.pass, true, rows, limits);
            self.stage = Stage::Ending;
            return Ok(Ask::SaveCursor);
        }
        if !runtime::may_scan(&self.pass, limits, tick.in_time) {
            let rows: usize = self.rows.len();
            self.cursor.finish(&self.pass, false, rows, limits);
            self.stage = Stage::Ending;
            return Ok(Ask::SaveCursor);
        }
        match runtime::read_row(&self.rows[self.next]) {
            Ok(row) => {
                let id = row.watch.clone();
                self.watch = row.watch;
                self.stage = Stage::Known;
                Ok(Ask::ReadJob(id))
            },
            Err(e) => Err(e),
        }
    }

    /// A Watch is taken up.
    pub open spec fn takes_up(self, after: Round, r: Result<Ask, SemanticError>) -> bool {
        &&& after == (Round {
            stage: Stage::Job,
            pass: (SemanticPass { scanned: (self.pass.scanned + 1) as usize, ..self.pass }),
            ..self
        })
        &&& r matches Ok(Ask::ReadJob(own)) && own@ == self.watch@
    }

    fn take_up(&mut self) -> (r: Result<Ask, SemanticError>)
        requires
            old(self).pass.scanned < usize::MAX,
        ensures
            old(self).takes_up(*final(self), r),
    {
        runtime::count_scanned(&mut self.pass);
        self.stage = Stage::Job;
        Ok(Ask::ReadJob(self.watch.clone()))
    }

    /// The query for Watches is asked.
    pub open spec fn discovers(
        self,
        after: Round,
        terms: Terms,
        r: Result<Ask, SemanticError>,
    ) -> bool {
        &&& after == (Round { stage: Stage::Discovery, ..self })
        &&& r matches Ok(Ask::Discover(query)) && query@ == runtime::discovery_query_of(
            terms.config.limits.watches_per_pass,
        )
    }

    fn discover(&mut self, terms: &Terms) -> (r: Result<Ask, SemanticError>)
        ensures
            old(self).discovers(*final(self), *terms, r),
    {
        self.stage = Stage::Discovery;
        Ok(Ask::Discover(runtime::discovery_query(&terms.config.limits)))
    }
}

// ---------------------------------------------------------------------------
// The reports
// ---------------------------------------------------------------------------

impl Round {
    /// Starts a pass.
    pub fn begin(terms: &Terms) -> (r: (Round, Ask))
        requires
            terms.config.limits.valid(),
        ensures
            r.0.wf(*terms),
            r.0.stage == Stage::Cursor,
            r.0.cursor.after@.len() == 0,
            r.0.cursor.pending is None,
            r.0.cursor.last.is_empty(),
            r.0.pass.is_empty(),
            r.0.watch@.len() == 0,
            r.0.rows@.len() == 0,
            r.0.next == 0,
            !r.0.found,
            r.0.judging is None,
            r.1 == Ask::ReadCursor,
    {
        let round = Round {
            stage: Stage::Cursor,
            cursor: Cursor::new(),
            pass: SemanticPass::new(),
            watch: String::new(),
            rows: Vec::new(),
            next: 0,
            found: false,
            judging: None,
        };
        (round, Ask::ReadCursor)
    }

    /// A Watch that was being judged comes first.
    pub open spec fn cursor_moves(
        self,
        after: Round,
        cursor: Option<Cursor>,
        terms: Terms,
        r: Result<Ask, SemanticError>,
    ) -> bool {
        match cursor {
            Some(stored) => match stored.pending {
                Some(watch) => exists|ready: Round|
                    ready == (Round { cursor: stored, watch: ready.watch, ..self })
                        && ready.watch@ == watch@ && #[trigger] ready.takes_up(after, r),
                None => (Round { cursor: stored, ..self }).discovers(after, terms, r),
            },
            None => exists|blank: Round|
                blank == (Round { cursor: blank.cursor, ..self })
                    && blank.cursor.after@.len() == 0 && blank.cursor.pending is None
                    && blank.cursor.last.is_empty() && #[trigger] blank.discovers(
                    after,
                    terms,
                    r,
                ),
        }
    }

    fn on_cursor(&mut self, cursor: Option<Cursor>, terms: &Terms) -> (r: Result<
        Ask,
        SemanticError,
    >)
        requires
            old(self).wf(*terms),
            old(self).stage == Stage::Cursor,
        ensures
            old(self).cursor_moves(*final(self), cursor, *terms, r),
            r is Ok ==> final(self).wf(*terms),
    {
        match cursor {
            Some(stored) => {
                let pending = crate::runtime::optional_copy(&stored.pending);
                self.cursor = stored;
                match pending {
                    Some(watch) => {
                        self.watch = watch;
                        let ghost ready = *self;
                        let r = self.take_up();
                        assert(ready.takes_up(*self, r));
                        r
                    },
                    None => self.discover(terms),
                }
            },
            None => {
                self.cursor = Cursor::new();
                let ghost blank = *self;
                let r = self.discover(terms);
                assert(blank.discovers(*self, *terms, r));
                r
            },
        }
    }

    /// The judgment of the Watch begins.
    pub open spec fn job_moves(
        self,
        after: Round,
        job: Option<SemanticJob>,
        terms: Terms,
        now: u64,
        r: Result<Ask, SemanticError>,
    ) -> bool {
        match job {
            None => fails(r, SemanticError::PendingMissing),
            Some(own) => {
                ||| fails(r, SemanticError::Undigestible) && own.ticket is None
                    && crate::nexus::digest_of(
                    runtime::preparation_value(
                        terms.native.scope,
                        terms.pin,
                        own.watch@,
                        own.version,
                        own.generation,
                    ),
                ) is None
                ||| exists|judging: Judging, ask: judging::Ask|
                    judging.pass == self.pass && #[trigger] judging.begins(own, terms, now, ask)
                        && if ask is Stop {
                        self.ends_judgment(after, judging, r)
                    } else {
                        after == (Round { stage: Stage::Judging, judging: Some(judging), ..self })
                            && proceeds(r, Ask::Judge(ask))
                    }
            },
        }
    }

    fn on_job(&mut self, job: Option<SemanticJob>, terms: &Terms, now: u64) -> (r: Result<
        Ask,
        SemanticError,
    >)
        requires
            old(self).wf(*terms),
            old(self).stage == Stage::Job,
        ensures
            old(self).job_moves(*final(self), job, *terms, now, r),
            r is Ok ==> final(self).wf(*terms),
    {
        let own = match job {
            Some(own) => own,
            None => return Err(SemanticError::PendingMissing),
        };
        match Judging::begin(own, self.pass.copy(), terms, now) {
            Ok((judging, ask)) => {
                assert(judging.begins(own, *terms, now, ask));
                match ask {
                    judging::Ask::Stop => self.end_judgment(judging, Ghost(*terms)),
                    _ => {
                        self.judging = Some(judging);
                        self.stage = Stage::Judging;
                        Ok(Ask::Judge(ask))
                    },
                }
            },
            Err(e) => Err(e),
        }
    }

    /// The judgment of the Watch goes on.
    pub open spec fn judging_moves(
        self,
        after: Round,
        told: judging::Told,
        terms: Terms,
        now: u64,
        r: Result<Ask, SemanticError>,
    ) -> bool {
        exists|judged: Judging, s: Result<judging::Ask, SemanticError>| #[trigger]
            self.judging->0.moves(judged, told, terms, now, s) && match s {
                Err(e) => fails(r, e),
                Ok(ask) => if ask is Stop {
                    self.ends_judgment(after, judged, r)
                } else {
                    after == (Round { judging: Some(judged), ..self }) && proceeds(
                        r,
                        Ask::Judge(ask),
                    )
                },
            }
    }

    fn on_judging(&mut self, told: judging::Told, terms: &Terms, now: u64) -> (r: Result<
        Ask,
        SemanticError,
    >)
        requires
            old(self).wf(*terms),
            old(self).stage == Stage::Judging,
            now <= u64::MAX - MAX_DELAY_MS,
        ensures
            old(self).judging_moves(*final(self), told, *terms, now, r),
            r is Ok ==> final(self).wf(*terms),
    {
        let mut judging = match self.judging.take() {
            Some(judging) => judging,
            None => return Err(SemanticError::OutOfTurn),
        };
        let ghost before = judging;
        let s = judging.step(told, terms, now);
        assert(before.moves(judging, told, *terms, now, s));
        match s {
            Ok(ask) => {
                proof {
                    a_judgment_calls_once(before, judging, told, *terms, now, s, self.pass);
                }
                match ask {
                    judging::Ask::Stop => {
                        self.judging = Some(judging);
                        let judged = match self.judging.take() {
                            Some(judged) => judged,
                            None => return Err(SemanticError::OutOfTurn),
                        };
                        self.stage = Stage::Job;
                        self.end_judgment(judged, Ghost(*terms))
                    },
                    _ => {
                        self.judging = Some(judging);
                        Ok(Ask::Judge(ask))
                    },
                }
            },
            Err(e) => Err(e),
        }
    }

    /// The Watches that were found are dealt with one by one.
    pub open spec fn rows_move(
        self,
        after: Round,
        rows: Json,
        terms: Terms,
        tick: Tick,
        r: Result<Ask, SemanticError>,
    ) -> bool {
        match rows {
            Json::Array(list) => (Round { rows: list, next: 0, found: true, ..self }).turns_to_next(
                after,
                terms,
                tick,
                r,
            ),
            _ => fails(r, SemanticError::DiscoveryUnavailable),
        }
    }

    /// A Watch that is armed anew gets new work; an evaluation that is not
    /// committed is never dropped for it.
    pub open spec fn known_moves(
        self,
        after: Round,
        stored: Option<SemanticJob>,
        r: Result<Ask, SemanticError>,
    ) -> bool {
        let row = self.rows@[self.next as int]@;
        let version = runtime::nth(row, 1).as_u64();
        let generation = runtime::nth(row, 2).as_u64();
        match stored {
            Some(own) => if version == Some(own.version) && generation == Some(own.generation) {
                self.notes_watch(after, r)
            } else if own.evaluation is Some {
                fails(r, SemanticError::PendingCommit)
            } else {
                self.makes_work(after, version->0, generation->0, r)
            },
            None => self.makes_work(after, version->0, generation->0, r),
        }
    }

    pub open spec fn makes_work(
        self,
        after: Round,
        version: u64,
        generation: u64,
        r: Result<Ask, SemanticError>,
    ) -> bool {
        &&& after == (Round { stage: Stage::New, ..self })
        &&& r matches Ok(Ask::SaveNew(job)) && job.is_new(self.watch@, version, generation)
    }

    /// The Watch is noted before anything is done to it.
    pub open spec fn notes_watch(self, after: Round, r: Result<Ask, SemanticError>) -> bool {
        &&& after == (Round { stage: Stage::Taken, cursor: after.cursor, ..self })
        &&& after.cursor.pending matches Some(own) && own@ == self.watch@
        &&& after.cursor == (Cursor { pending: after.cursor.pending, ..self.cursor })
        &&& proceeds(r, Ask::SaveCursor)
    }

    fn note_watch(&mut self) -> (r: Result<Ask, SemanticError>)
        ensures
            old(self).notes_watch(*final(self), r),
    {
        self.cursor.take_up(self.watch.as_str());
        self.stage = Stage::Taken;
        Ok(Ask::SaveCursor)
    }

    /// The row that is dealt with can be read.
    pub open spec fn row_read(self) -> bool {
        let row = self.rows@[self.next as int]@;
        &&& runtime::nth(row, 0).as_text() is Some
        &&& runtime::nth(row, 1).as_u64() is Some
        &&& runtime::nth(row, 2).as_u64() is Some
    }

    fn on_known(&mut self, stored: Option<SemanticJob>, Ghost(terms): Ghost<Terms>) -> (r: Result<
        Ask,
        SemanticError,
    >)
        requires
            old(self).wf(terms),
            old(self).stage == Stage::Known,
        ensures
            old(self).known_moves(*final(self), stored, r),
            r is Ok ==> final(self).wf(terms),
    {
        let row = match runtime::read_row(&self.rows[self.next]) {
            Ok(row) => row,
            Err(e) => return Err(e),
        };
        match runtime::needs_job(&stored, &row) {
            Ok(true) => {
                self.stage = Stage::New;
                Ok(
                    Ask::SaveNew(
                        SemanticJob::new(self.watch.as_str(), row.version, row.generation),
                    ),
                )
            },
            Ok(false) => self.note_watch(),
            Err(e) => Err(e),
        }
    }

    /// What one report leads to.
    pub open spec fn moves(
        self,
        after: Round,
        told: Told,
        terms: Terms,
        tick: Tick,
        r: Result<Ask, SemanticError>,
    ) -> bool {
        match (self.stage, told) {
            (Stage::Cursor, Told::Cursor(cursor)) => self.cursor_moves(after, cursor, terms, r),
            (Stage::Job, Told::Job(job)) => self.job_moves(after, job, terms, tick.now, r),
            (Stage::Judging, Told::Judge(report)) => self.judging_moves(
                after,
                report,
                terms,
                tick.now,
                r,
            ),
            (Stage::Moved, Told::Saved) => if self.found {
                (Round { next: (self.next + 1) as usize, ..self }).turns_to_next(
                    after,
                    terms,
                    tick,
                    r,
                )
            } else {
                self.discovers(after, terms, r)
            },
            (Stage::Discovery, Told::Rows(rows)) => self.rows_move(after, rows, terms, tick, r),
            (Stage::Known, Told::Job(stored)) => self.known_moves(after, stored, r),
            (Stage::New, Told::Saved) => self.notes_watch(after, r),
            (Stage::Taken, Told::Saved) => self.takes_up(after, r),
            (Stage::Ending, Told::Saved) => after == (Round { stage: Stage::Over, ..self })
                && proceeds(r, Ask::Stop),
            _ => after == self && fails(r, SemanticError::OutOfTurn),
        }
    }

    /// Takes a report over, and says what the host does next.
    pub fn step(&mut self, told: Told, terms: &Terms, tick: Tick) -> (r: Result<
        Ask,
        SemanticError,
    >)
        requires
            old(self).wf(*terms),
            tick.now <= u64::MAX - MAX_DELAY_MS,
        ensures
            old(self).moves(*final(self), told, *terms, tick, r),
            r is Ok ==> final(self).wf(*terms),
    {
        match (self.stage, told) {
            (Stage::Cursor, Told::Cursor(cursor)) => self.on_cursor(cursor, terms),
            (Stage::Job, Told::Job(job)) => self.on_job(job, terms, tick.now),
            (Stage::Judging, Told::Judge(report)) => self.on_judging(report, terms, tick.now),
            (Stage::Moved, Told::Saved) => if self.found {
                let _count: usize = self.rows.len();
                self.next = self.next + 1;
                self.turn_to_next(terms, tick)
            } else {
                self.discover(terms)
            },
            (Stage::Discovery, Told::Rows(rows)) => match rows {
                Json::Array(list) => {
                    self.rows = list;
                    self.next = 0;
                    self.found = true;
                    self.turn_to_next(terms, tick)
                },
                _ => Err(SemanticError::DiscoveryUnavailable),
            },
            (Stage::Known, Told::Job(stored)) => self.on_known(stored, Ghost(*terms)),
            (Stage::New, Told::Saved) => self.note_watch(),
            (Stage::Taken, Told::Saved) => self.take_up(),
            (Stage::Ending, Told::Saved) => {
                self.stage = Stage::Over;
                Ok(Ask::Stop)
            },
            _ => Err(SemanticError::OutOfTurn),
        }
    }
}

// ---------------------------------------------------------------------------
// Laws
// ---------------------------------------------------------------------------

/// A Watch is judged only after the cursor that names it was written, and the
/// cursor moves behind it only once it has been dealt with: a pass that is cut
/// short anywhere in between finds the Watch again.
pub proof fn judged_watches_are_noted_first(
    before: Round,
    after: Round,
    told: Told,
    terms: Terms,
    tick: Tick,
    r: Result<Ask, SemanticError>,
)
    requires
        before.wf(terms),
        before.moves(after, told, terms, tick, r),
        r is Ok,
    ensures
        after.stage == Stage::Job ==> (before.stage == Stage::Taken && told is Saved) || (
        before.stage == Stage::Cursor && (told matches Told::Cursor(Some(stored))
            && stored.pending is Some)),
        after.stage == Stage::Taken ==> (after.cursor.pending matches Some(own) && own@
            == after.watch@),
        after.stage == Stage::Judging ==> before.stage == Stage::Job || before.stage
            == Stage::Judging,
        after.stage == Stage::Moved ==> (before.stage == Stage::Job || before.stage
            == Stage::Judging) && after.cursor.after@ == before.watch@,
        before.stage == Stage::Judging || before.stage == Stage::Job ==> after.stage
            == Stage::Moved || after.cursor == before.cursor,
{
}

/// No pass takes up more Watches than it may, and none begins another once it is
/// out of time.
pub proof fn passes_stay_within_their_watches(
    before: Round,
    after: Round,
    told: Told,
    terms: Terms,
    tick: Tick,
    r: Result<Ask, SemanticError>,
)
    requires
        before.wf(terms),
        before.moves(after, told, terms, tick, r),
        r is Ok,
    ensures
        after.stage == Stage::Known ==> tick.in_time && after.pass.scanned
            < terms.config.limits.watches_per_pass,
        after.stage == Stage::Job ==> after.pass.scanned <= terms.config.limits.watches_per_pass,
{
}

} // verus!
