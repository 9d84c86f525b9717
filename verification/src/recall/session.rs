//! A recall that answers in prose: its turns, its deadline and what is kept of
//! it.

use vstd::prelude::*;

use crate::text;

verus! {

/// The name that the recall is called by.
pub const NAME: &'static str = "recall_memory";

/// How long the context of a recall is waited for, in milliseconds.
pub const RECALL_CONTEXT_TIMEOUT_MS: u64 = 5_000;

/// How long a recall may take, in milliseconds.
pub const RECALL_TOTAL_TIMEOUT_MS: u64 = 180_000;

/// How long one read-only request may take, in seconds.
pub const READONLY_KIP_TIMEOUT_SECS: u64 = 15;

/// The turns of a recall in a Space without a policy of its own.
pub const RECALL_MAX_MODEL_TURNS: usize = 7;

/// How many earlier recalls a recall is shown.
pub const RECALL_HISTORY_LIMIT: usize = 1;

/// The turns that one recall may take. A policy of no turns at all is taken for
/// no policy, so that a Space keeps answering.
pub fn max_model_turns(recall_max_rounds: usize) -> (n: usize)
    ensures
        n == if recall_max_rounds == 0 {
            RECALL_MAX_MODEL_TURNS
        } else {
            recall_max_rounds
        },
        n > 0,
{
    if recall_max_rounds == 0 {
        RECALL_MAX_MODEL_TURNS
    } else {
        recall_max_rounds
    }
}

/// What is said of an input that is too large.
pub open spec fn too_large_message(tokens: usize, max: usize) -> Seq<char> {
    "Input too large: "@ + text::decimal(tokens as nat)
        + " tokens (estimated), max allowed is "@ + text::decimal(max as nat) + " tokens"@
}

/// Refuses an input that is too large, before anything is stored of it.
pub fn check_input_size(tokens: usize, max: usize) -> (r: Result<(), String>)
    ensures
        match r {
            Ok(()) => tokens <= max,
            Err(message) => tokens > max && message@ == too_large_message(tokens, max),
        },
{
    if tokens <= max {
        return Ok(());
    }
    let mut out = "Input too large: ".to_owned();
    out.append(text::decimal_text(tokens as u64).as_str());
    out.append(" tokens (estimated), max allowed is ");
    out.append(text::decimal_text(max as u64).as_str());
    out.append(" tokens");
    Err(out)
}

/// The time that is left of a recall.
pub open spec fn time_left(started: u64, now: u64) -> Option<u64> {
    let elapsed = if now >= started {
        now - started
    } else {
        0
    };
    if elapsed <= RECALL_TOTAL_TIMEOUT_MS {
        Some((RECALL_TOTAL_TIMEOUT_MS - elapsed) as u64)
    } else {
        None
    }
}

/// The milliseconds that are left of a recall; none, once it is out of time. A
/// clock that goes back takes nothing away.
pub fn recall_time_remaining(started: u64, now: u64) -> (r: Option<u64>)
    ensures
        r == time_left(started, now),
{
    let elapsed: u64 = if now >= started {
        now - started
    } else {
        0
    };
    if elapsed <= RECALL_TOTAL_TIMEOUT_MS {
        Some(RECALL_TOTAL_TIMEOUT_MS - elapsed)
    } else {
        None
    }
}

// ---------------------------------------------------------------------------
// Turns
// ---------------------------------------------------------------------------

/// How a recall stands between its turns.
#[derive(Debug)]
pub struct Turns {
    /// All turns of the model, those before a compaction included.
    pub total: usize,
    /// The turns of the current runner that are in the total.
    pub accounted: usize,
    /// The turns that were not persisted yet.
    pub unpersisted: usize,
    /// The messages of the runner that are in the conversation.
    pub persisted_history: usize,
    /// The first message is still the input.
    pub replace_initial_input: bool,
}

/// Why a recall ends without an answer.
#[derive(Clone, Copy, Debug, PartialEq, Eq, Structural)]
pub enum RecallFailure {
    TurnLimit,
    Timeout,
}

pub open spec fn failure_text(failure: RecallFailure, limit: usize) -> Seq<char> {
    match failure {
        RecallFailure::TurnLimit => "recall exceeded model turn limit of "@ + text::decimal(
            limit as nat,
        ),
        RecallFailure::Timeout => "recall timed out after 180 seconds"@,
    }
}

/// The reason that is recorded for a failure.
pub fn failure_reason(failure: RecallFailure, limit: usize) -> (r: String)
    ensures
        r@ == failure_text(failure, limit),
{
    match failure {
        RecallFailure::TurnLimit => {
            let mut out = "recall exceeded model turn limit of ".to_owned();
            out.append(text::decimal_text(limit as u64).as_str());
            out
        },
        RecallFailure::Timeout => "recall timed out after 180 seconds".to_owned(),
    }
}

#[derive(Clone, Copy, Debug, PartialEq, Eq, Structural)]
pub enum ConversationStatus {
    Submitted,
    Working,
    Idle,
    Completed,
    Cancelled,
    Failed,
}

/// What one turn comes to.
#[derive(Clone, Copy, Debug, PartialEq, Eq, Structural)]
pub struct TurnOutcome {
    pub status: ConversationStatus,
    /// The conversation has to be written now.
    pub persist: bool,
    /// The recall is over.
    pub stop: bool,
}

pub open spec fn saturated(a: int) -> usize {
    if a > usize::MAX {
        usize::MAX
    } else {
        a as usize
    }
}

impl Turns {
    pub fn new() -> (r: Turns)
        ensures
            r == (Turns {
                total: 0,
                accounted: 0,
                unpersisted: 0,
                persisted_history: 0,
                replace_initial_input: true,
            }),
    {
        Turns {
            total: 0,
            accounted: 0,
            unpersisted: 0,
            persisted_history: 0,
            replace_initial_input: true,
        }
    }

    /// Whether another turn may start, and how long it may take.
    pub fn may_start(&self, limit: usize, started: u64, now: u64) -> (r: Result<u64, RecallFailure>)
        ensures
            r == if self.total >= limit {
                Err::<u64, RecallFailure>(RecallFailure::TurnLimit)
            } else {
                match time_left(started, now) {
                    Some(left) => Ok::<u64, RecallFailure>(left),
                    None => Err::<u64, RecallFailure>(RecallFailure::Timeout),
                }
            },
    {
        if self.total >= limit {
            return Err(RecallFailure::TurnLimit);
        }
        match recall_time_remaining(started, now) {
            Some(left) => Ok(left),
            None => Err(RecallFailure::Timeout),
        }
    }

    /// A compaction took a turn of its own, and started a new runner.
    pub fn compacted(&mut self, runner_turns: usize)
        ensures
            *final(self) == (Turns {
                total: saturated(old(self).total + 1),
                accounted: runner_turns,
                persisted_history: 0,
                replace_initial_input: false,
                ..*old(self)
            }),
    {
        self.total = self.total.saturating_add(1);
        self.accounted = runner_turns;
        self.persisted_history = 0;
        self.replace_initial_input = false;
    }

    /// The turns that a runner took since they were last counted.
    pub open spec fn fresh(self, runner_turns: usize) -> int {
        if runner_turns >= self.accounted {
            runner_turns - self.accounted
        } else {
            0
        }
    }

    /// Counts a turn. A conversation that is still going on is written only every
    /// so often; one that has ended always is.
    pub fn took_turn(
        &mut self,
        runner_turns: usize,
        failed: bool,
        done: bool,
        persist_every: usize,
    ) -> (r: TurnOutcome)
        ensures
            r.status == if failed {
                ConversationStatus::Failed
            } else if done {
                ConversationStatus::Completed
            } else {
                ConversationStatus::Working
            },
            r.stop == (failed || done),
            r.persist == (r.stop || saturated(old(self).unpersisted + 1) >= persist_every),
            *final(self) == (Turns {
                total: saturated(old(self).total + old(self).fresh(runner_turns)),
                accounted: runner_turns,
                unpersisted: if r.persist {
                    0
                } else {
                    saturated(old(self).unpersisted + 1)
                },
                ..*old(self)
            }),
    {
        let fresh: usize = if runner_turns >= self.accounted {
            runner_turns - self.accounted
        } else {
            0
        };
        self.total = self.total.saturating_add(fresh);
        self.accounted = runner_turns;
        let status = if failed {
            ConversationStatus::Failed
        } else if done {
            ConversationStatus::Completed
        } else {
            ConversationStatus::Working
        };
        self.unpersisted = self.unpersisted.saturating_add(1);
        let stop = failed || done;
        let persist = stop || self.unpersisted >= persist_every;
        if persist {
            self.unpersisted = 0;
        }
        TurnOutcome { status, persist, stop }
    }

    /// Whether the end of a recall still has to be written: only where its runner
    /// ended without an answer.
    pub fn must_persist(&self, status: ConversationStatus) -> (r: bool)
        ensures
            r == (self.unpersisted > 0 && status == ConversationStatus::Working),
    {
        self.unpersisted > 0 && match status {
            ConversationStatus::Working => true,
            _ => false,
        }
    }
}

// ---------------------------------------------------------------------------
// Context
// ---------------------------------------------------------------------------

/// An earlier conversation.
#[derive(Clone, Copy, Debug)]
pub struct PastConversation {
    pub id: u64,
    pub status: ConversationStatus,
}

/// An earlier conversation may be shown: it was completed, after the boundary.
pub open spec fn may_be_shown(c: PastConversation, boundary: u64) -> bool {
    c.status == ConversationStatus::Completed && c.id > boundary
}

/// The newest conversation that may be shown; conversations come newest first.
pub fn shown_history(conversations: &Vec<PastConversation>, boundary: u64) -> (r: Option<u64>)
    ensures
        match r {
            Some(id) => exists|i: int|
                #![trigger conversations@[i]]
                0 <= i < conversations@.len() && conversations@[i].id == id && may_be_shown(
                    conversations@[i],
                    boundary,
                ) && forall|k: int|
                    0 <= k < i ==> !may_be_shown(#[trigger] conversations@[k], boundary),
            None => forall|k: int|
                0 <= k < conversations@.len() ==> !may_be_shown(
                    #[trigger] conversations@[k],
                    boundary,
                ),
        },
{
    let mut i: usize = 0;
    while i < conversations.len()
        invariant
            i <= conversations.len(),
            forall|k: int| 0 <= k < i ==> !may_be_shown(#[trigger] conversations@[k], boundary),
        decreases conversations.len() - i,
    {
        let c = conversations[i];
        let completed = match c.status {
            ConversationStatus::Completed => true,
            _ => false,
        };
        if completed && c.id > boundary {
            assert(may_be_shown(conversations@[i as int], boundary));
            return Some(c.id);
        }
        i = i + 1;
    }
    None
}

/// What the model of a recall is instructed with.
pub open spec fn instructions_of(
    reference: Seq<char>,
    prompt: Seq<char>,
    primer: Seq<char>,
    notes: Seq<char>,
    counterparty: Seq<char>,
    datetime: Seq<char>,
) -> Seq<char> {
    reference + "\n\n---\n\n"@ + prompt + "\n\n---\n\n# `DESCRIBE PRIMER` Result:\n"@ + primer
        + "\n\n---\n\n# Your Notes:\n"@ + notes + "\n\n# Counterparty profile:\n"@ + counterparty
        + "\n\n# Current Datetime: "@ + datetime
}

pub fn instructions(
    reference: &str,
    prompt: &str,
    primer: &str,
    notes: &str,
    counterparty: &str,
    datetime: &str,
) -> (r: String)
    ensures
        r@ == instructions_of(
            reference@,
            prompt@,
            primer@,
            notes@,
            counterparty@,
            datetime@,
        ),
{
    let mut out = reference.to_owned();
    out.append("\n\n---\n\n");
    out.append(prompt);
    out.append("\n\n---\n\n# `DESCRIBE PRIMER` Result:\n");
    out.append(primer);
    out.append("\n\n---\n\n# Your Notes:\n");
    out.append(notes);
    out.append("\n\n# Counterparty profile:\n");
    out.append(counterparty);
    out.append("\n\n# Current Datetime: ");
    out.append(datetime);
    out
}

/// What a read-only request is told that took too long.
pub open spec fn timeout_text(seconds: u64) -> Seq<char> {
    "read-only KIP execution timed out after "@ + text::decimal(seconds as nat)
        + " seconds; memory is busy, retry later"@
}

pub fn timeout_message(seconds: u64) -> (r: String)
    ensures
        r@ == timeout_text(seconds),
{
    let mut out = "read-only KIP execution timed out after ".to_owned();
    out.append(text::decimal_text(seconds).as_str());
    out.append(" seconds; memory is busy, retry later");
    out
}

// ---------------------------------------------------------------------------
// Laws
// ---------------------------------------------------------------------------

/// Every turn counts, across compactions too: the count never goes down, and what
/// a runner took before it was compacted stays in it.
pub proof fn turns_are_never_forgotten(before: Turns, runner_turns: usize)
    ensures
        saturated(before.total + 1) >= before.total,
        saturated(before.total + before.fresh(runner_turns)) >= before.total,
        before.total < usize::MAX ==> saturated(before.total + 1) > before.total,
{
}

/// The time that is left only shrinks, and never exceeds the whole.
pub proof fn time_only_runs_out(started: u64, now: u64, later: u64)
    requires
        now <= later,
    ensures
        time_left(started, now) is None ==> time_left(started, later) is None,
        time_left(started, later) matches Some(b) ==> time_left(started, now) matches Some(a) && b
            <= a && a <= RECALL_TOTAL_TIMEOUT_MS,
{
}

} // verus!
