//! A recall that answers in prose, step by step: its turns are counted and timed
//! across compactions, and every way out of it is written down.

use vstd::prelude::*;

use super::session::{self, ConversationStatus, RecallFailure, Turns};

verus! {

/// What the host is waited for.
#[derive(Clone, Copy, Debug, PartialEq, Eq, Structural)]
pub enum Stage {
    /// The conversation is being opened.
    Opening,
    Context,
    Compaction,
    Turn,
    /// The conversation is being written between two turns.
    Writing,
    /// The conversation is being written after its last turn.
    Last,
    Over,
}

/// What the host does next.
#[derive(Debug, PartialEq, Eq)]
pub enum Ask {
    /// Keep the conversation, with its input.
    Open,
    ReadContext,
    /// Compact the runner if it needs it, within that many milliseconds.
    Compact { left_ms: u64 },
    /// Let the model take a turn, within that many milliseconds.
    Turn { left_ms: u64 },
    Persist(ConversationStatus),
    /// The recall failed: the reason is recorded and answered.
    Fail(String),
    /// The runner failed: its error is recorded and returned.
    FailRunner,
    /// The recall is over: its last output is the answer.
    Answer,
    /// The runner ended without any output.
    NoOutput,
}

/// What the host reports.
#[derive(Debug)]
pub enum Told {
    Opened,
    Context {
        reference: String,
        prompt: String,
        primer: String,
        notes: String,
        counterparty: String,
        datetime: String,
    },
    /// The runner was compacted, and counts that many turns now; or needed none.
    Compacted(Option<usize>),
    /// The model took a turn.
    Took { runner_turns: usize, failed: bool, done: bool },
    /// The runner has no further turn.
    NoTurn,
    Saved,
    TimedOut,
    RunnerFailed,
}

#[derive(Clone, Copy, Debug, PartialEq, Eq, Structural)]
pub struct OutOfTurn;

/// How far a recall has come.
#[derive(Debug)]
pub struct Prose {
    pub stage: Stage,
    pub turns: Turns,
    pub limit: usize,
    pub persist_every: usize,
    pub started: u64,
    pub status: ConversationStatus,
    /// There is an output.
    pub answered: bool,
    /// What the model is instructed with.
    pub instructions: String,
}

pub open spec fn proceeds(r: Result<Ask, OutOfTurn>, ask: Ask) -> bool {
    r == Ok::<Ask, OutOfTurn>(ask)
}

impl Prose {
    /// Starts a recall, unless its input is too large.
    pub fn begin(
        tokens: usize,
        max_tokens: usize,
        max_rounds: usize,
        persist_every: usize,
        now: u64,
    ) -> (r: Result<(Prose, Ask), String>)
        ensures
            match r {
                Ok((prose, ask)) => {
                    &&& tokens <= max_tokens
                    &&& ask == Ask::Open
                    &&& prose.stage == Stage::Opening
                    &&& prose.turns == (Turns {
                        total: 0,
                        accounted: 0,
                        unpersisted: 0,
                        persisted_history: 0,
                        replace_initial_input: true,
                    })
                    &&& prose.limit == if max_rounds == 0 {
                        session::RECALL_MAX_MODEL_TURNS
                    } else {
                        max_rounds
                    }
                    &&& prose.persist_every == persist_every
                    &&& prose.started == now
                    &&& prose.status == ConversationStatus::Working
                    &&& !prose.answered
                },
                Err(message) => tokens > max_tokens && message@ == session::too_large_message(
                    tokens,
                    max_tokens,
                ),
            },
    {
        if let Err(message) = session::check_input_size(tokens, max_tokens) {
            return Err(message);
        }
        let prose = Prose {
            stage: Stage::Opening,
            turns: Turns::new(),
            limit: session::max_model_turns(max_rounds),
            persist_every,
            started: now,
            status: ConversationStatus::Working,
            answered: false,
            instructions: String::new(),
        };
        Ok((prose, Ask::Open))
    }

    /// The recall fails, and says why.
    pub open spec fn fails(
        self,
        after: Prose,
        failure: RecallFailure,
        r: Result<Ask, OutOfTurn>,
    ) -> bool {
        &&& after == (Prose { stage: Stage::Over, status: ConversationStatus::Failed, ..self })
        &&& r matches Ok(Ask::Fail(reason)) && reason@ == session::failure_text(
            failure,
            self.limit,
        )
    }

    fn fail(&mut self, failure: RecallFailure) -> (r: Result<Ask, OutOfTurn>)
        ensures
            old(self).fails(*final(self), failure, r),
    {
        self.stage = Stage::Over;
        self.status = ConversationStatus::Failed;
        Ok(Ask::Fail(session::failure_reason(failure, self.limit)))
    }

    /// Another turn starts with a look at the runner's size, unless the turns or
    /// the time are used up.
    pub open spec fn starts_turn(
        self,
        after: Prose,
        now: u64,
        r: Result<Ask, OutOfTurn>,
    ) -> bool {
        if self.turns.total >= self.limit {
            self.fails(after, RecallFailure::TurnLimit, r)
        } else {
            match session::time_left(self.started, now) {
                Some(left_ms) => after == (Prose { stage: Stage::Compaction, ..self }) && proceeds(
                    r,
                    Ask::Compact { left_ms },
                ),
                None => self.fails(after, RecallFailure::Timeout, r),
            }
        }
    }

    fn start_turn(&mut self, now: u64) -> (r: Result<Ask, OutOfTurn>)
        ensures
            old(self).starts_turn(*final(self), now, r),
    {
        match self.turns.may_start(self.limit, self.started, now) {
            Ok(left_ms) => {
                self.stage = Stage::Compaction;
                Ok(Ask::Compact { left_ms })
            },
            Err(failure) => self.fail(failure),
        }
    }

    /// A compaction counts as a turn; the turn itself follows in what is left of
    /// the time.
    pub open spec fn compacted_moves(
        self,
        after: Prose,
        compacted: Option<usize>,
        now: u64,
        r: Result<Ask, OutOfTurn>,
    ) -> bool {
        let counted = match compacted {
            Some(runner_turns) => Prose {
                turns: (Turns {
                    total: session::saturated(self.turns.total + 1),
                    accounted: runner_turns,
                    persisted_history: 0,
                    replace_initial_input: false,
                    ..self.turns
                }),
                ..self
            },
            None => self,
        };
        match session::time_left(self.started, now) {
            Some(left_ms) => after == (Prose { stage: Stage::Turn, ..counted }) && proceeds(
                r,
                Ask::Turn { left_ms },
            ),
            None => counted.fails(after, RecallFailure::Timeout, r),
        }
    }

    fn on_compacted(&mut self, compacted: Option<usize>, now: u64) -> (r: Result<Ask, OutOfTurn>)
        ensures
            old(self).compacted_moves(*final(self), compacted, now, r),
    {
        if let Some(runner_turns) = compacted {
            self.turns.compacted(runner_turns);
        }
        match session::recall_time_remaining(self.started, now) {
            Some(left_ms) => {
                self.stage = Stage::Turn;
                Ok(Ask::Turn { left_ms })
            },
            None => self.fail(RecallFailure::Timeout),
        }
    }

    /// The status after a turn.
    pub open spec fn status_of(failed: bool, done: bool) -> ConversationStatus {
        if failed {
            ConversationStatus::Failed
        } else if done {
            ConversationStatus::Completed
        } else {
            ConversationStatus::Working
        }
    }

    /// The recall after a turn was counted.
    pub open spec fn counted(self, runner_turns: usize, failed: bool, done: bool) -> Prose {
        let due = failed || done || session::saturated(self.turns.unpersisted + 1)
            >= self.persist_every;
        Prose {
            turns: (Turns {
                total: session::saturated(self.turns.total + self.turns.fresh(runner_turns)),
                accounted: runner_turns,
                unpersisted: if due {
                    0
                } else {
                    session::saturated(self.turns.unpersisted + 1)
                },
                ..self.turns
            }),
            status: Self::status_of(failed, done),
            answered: true,
            ..self
        }
    }

    /// A turn that ends the recall is always written; any other only every so
    /// often.
    pub open spec fn took_moves(
        self,
        after: Prose,
        runner_turns: usize,
        failed: bool,
        done: bool,
        now: u64,
        r: Result<Ask, OutOfTurn>,
    ) -> bool {
        let counted = self.counted(runner_turns, failed, done);
        if failed || done || session::saturated(self.turns.unpersisted + 1) >= self.persist_every {
            after == (Prose { stage: Stage::Writing, ..counted }) && proceeds(
                r,
                Ask::Persist(counted.status),
            )
        } else {
            counted.starts_turn(after, now, r)
        }
    }

    fn on_took(&mut self, runner_turns: usize, failed: bool, done: bool, now: u64) -> (r: Result<
        Ask,
        OutOfTurn,
    >)
        ensures
            old(self).took_moves(*final(self), runner_turns, failed, done, now, r),
    {
        let outcome = self.turns.took_turn(runner_turns, failed, done, self.persist_every);
        self.status = outcome.status;
        self.answered = true;
        if outcome.persist {
            self.stage = Stage::Writing;
            return Ok(Ask::Persist(self.status));
        }
        self.start_turn(now)
    }

    /// The recall is over.
    pub open spec fn ends(self, after: Prose, r: Result<Ask, OutOfTurn>) -> bool {
        &&& after == (Prose { stage: Stage::Over, ..self })
        &&& proceeds(
            r,
            if self.answered {
                Ask::Answer
            } else {
                Ask::NoOutput
            },
        )
    }

    fn end(&mut self) -> (r: Result<Ask, OutOfTurn>)
        ensures
            old(self).ends(*final(self), r),
    {
        self.stage = Stage::Over;
        if self.answered {
            Ok(Ask::Answer)
        } else {
            Ok(Ask::NoOutput)
        }
    }

    /// The runner ended: what was not written yet is written now.
    pub open spec fn no_turn_moves(self, after: Prose, r: Result<Ask, OutOfTurn>) -> bool {
        if self.turns.unpersisted > 0 && self.status == ConversationStatus::Working {
            after == (Prose { stage: Stage::Last, ..self }) && proceeds(r, Ask::Persist(self.status))
        } else {
            self.ends(after, r)
        }
    }

    fn on_no_turn(&mut self) -> (r: Result<Ask, OutOfTurn>)
        ensures
            old(self).no_turn_moves(*final(self), r),
    {
        if self.turns.must_persist(self.status) {
            self.stage = Stage::Last;
            return Ok(Ask::Persist(self.status));
        }
        self.end()
    }

    pub open spec fn written_moves(self, after: Prose, now: u64, r: Result<Ask, OutOfTurn>) -> bool {
        if self.status == ConversationStatus::Failed || self.status
            == ConversationStatus::Completed {
            self.ends(after, r)
        } else {
            self.starts_turn(after, now, r)
        }
    }

    fn on_written(&mut self, now: u64) -> (r: Result<Ask, OutOfTurn>)
        ensures
            old(self).written_moves(*final(self), now, r),
    {
        match self.status {
            ConversationStatus::Failed => self.end(),
            ConversationStatus::Completed => self.end(),
            _ => self.start_turn(now),
        }
    }

    /// The model is at work.
    pub open spec fn running(self) -> bool {
        self.stage == Stage::Compaction || self.stage == Stage::Turn
    }

    /// What one report leads to.
    pub open spec fn moves(
        self,
        after: Prose,
        told: Told,
        now: u64,
        r: Result<Ask, OutOfTurn>,
    ) -> bool {
        match told {
            Told::TimedOut if self.running() => self.fails(after, RecallFailure::Timeout, r),
            Told::RunnerFailed if self.running() => after == (Prose {
                stage: Stage::Over,
                status: ConversationStatus::Failed,
                ..self
            }) && proceeds(r, Ask::FailRunner),
            Told::Opened if self.stage == Stage::Opening => after == (Prose {
                stage: Stage::Context,
                ..self
            }) && proceeds(r, Ask::ReadContext),
            Told::Context { reference, prompt, primer, notes, counterparty, datetime } if self.stage
                == Stage::Context => exists|told_of: Prose|
                told_of == (Prose { instructions: told_of.instructions, ..self })
                    && told_of.instructions@ == session::instructions_of(
                    reference@,
                    prompt@,
                    primer@,
                    notes@,
                    counterparty@,
                    datetime@,
                ) && #[trigger] told_of.starts_turn(after, now, r),
            Told::Compacted(compacted) if self.stage == Stage::Compaction => self.compacted_moves(
                after,
                compacted,
                now,
                r,
            ),
            Told::Took { runner_turns, failed, done } if self.stage == Stage::Turn =>
                self.took_moves(after, runner_turns, failed, done, now, r),
            Told::NoTurn if self.stage == Stage::Turn => self.no_turn_moves(after, r),
            Told::Saved if self.stage == Stage::Writing => self.written_moves(after, now, r),
            Told::Saved if self.stage == Stage::Last => self.ends(after, r),
            _ => after == self && r == Err::<Ask, OutOfTurn>(OutOfTurn),
        }
    }

    /// Takes a report over, and says what the host does next.
    pub fn step(&mut self, told: Told, now: u64) -> (r: Result<Ask, OutOfTurn>)
        ensures
            old(self).moves(*final(self), told, now, r),
    {
        match (self.stage, told) {
            (Stage::Compaction, Told::TimedOut) => self.fail(RecallFailure::Timeout),
            (Stage::Turn, Told::TimedOut) => self.fail(RecallFailure::Timeout),
            (Stage::Compaction, Told::RunnerFailed) => {
                self.stage = Stage::Over;
                self.status = ConversationStatus::Failed;
                Ok(Ask::FailRunner)
            },
            (Stage::Turn, Told::RunnerFailed) => {
                self.stage = Stage::Over;
                self.status = ConversationStatus::Failed;
                Ok(Ask::FailRunner)
            },
            (Stage::Opening, Told::Opened) => {
                self.stage = Stage::Context;
                Ok(Ask::ReadContext)
            },
            (
                Stage::Context,
                Told::Context { reference, prompt, primer, notes, counterparty, datetime },
            ) => {
                self.instructions = session::instructions(
                    reference.as_str(),
                    prompt.as_str(),
                    primer.as_str(),
                    notes.as_str(),
                    counterparty.as_str(),
                    datetime.as_str(),
                );
                let ghost told_of = *self;
                let r = self.start_turn(now);
                assert(told_of.starts_turn(*self, now, r));
                r
            },
            (Stage::Compaction, Told::Compacted(compacted)) => self.on_compacted(compacted, now),
            (Stage::Turn, Told::Took { runner_turns, failed, done }) => self.on_took(
                runner_turns,
                failed,
                done,
                now,
            ),
            (Stage::Turn, Told::NoTurn) => self.on_no_turn(),
            (Stage::Writing, Told::Saved) => self.on_written(now),
            (Stage::Last, Told::Saved) => self.end(),
            _ => Err(OutOfTurn),
        }
    }
}

// ---------------------------------------------------------------------------
// Laws
// ---------------------------------------------------------------------------

/// The model gets no turn beyond the limit of the recall and none out of its time;
/// what is left is never more than the whole.
pub proof fn turns_stay_within_their_limits(
    before: Prose,
    after: Prose,
    told: Told,
    now: u64,
    r: Result<Ask, OutOfTurn>,
)
    requires
        before.moves(after, told, now, r),
        r is Ok,
    ensures
        after.stage == Stage::Compaction ==> after.turns.total < after.limit,
        r matches Ok(Ask::Turn { left_ms }) ==> session::time_left(before.started, now) == Some(
            left_ms,
        ) && left_ms <= session::RECALL_TOTAL_TIMEOUT_MS,
        before.turns.total <= after.turns.total,
        after.limit == before.limit,
        after.started == before.started,
{
}

/// Whatever ends a recall with an answer was written before.
pub proof fn answers_are_written_first(
    before: Prose,
    after: Prose,
    told: Told,
    now: u64,
    r: Result<Ask, OutOfTurn>,
)
    requires
        before.moves(after, told, now, r),
        proceeds(r, Ask::Answer),
    ensures
        told is Saved || (before.stage == Stage::Turn && told is NoTurn && (
        before.turns.unpersisted == 0 || before.status != ConversationStatus::Working)),
        before.answered,
{
}

} // verus!
