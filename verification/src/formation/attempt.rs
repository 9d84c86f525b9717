//! One attempt at a conversation, step by step: its source and its predecessors
//! are looked at before any of it reaches a model.

use vstd::prelude::*;

use super::SourceVerdict;
use crate::recall::session::ConversationStatus;
use crate::text;

verus! {

/// What the host is waited for.
#[derive(Clone, Copy, Debug, PartialEq, Eq, Structural)]
pub enum Stage {
    Source,
    Predecessor,
    Input,
    Context,
    /// The verdict on the conversation is being written.
    Verdict,
    /// The model is at work.
    Run,
    Over,
}

/// What the host does next.
#[derive(Debug)]
pub enum Ask {
    /// Ask whether the source may be formed.
    CheckSource,
    /// Ask whether a predecessor of the revision failed.
    CheckPredecessor,
    /// Read the input of the conversation.
    ReadInput,
    /// Read what surrounds the input, and capture it under that key.
    ReadContext { observation_key: String, history: bool },
    /// Write the status and its reason.
    Persist { status: ConversationStatus, reason: String },
    /// Let the model form the input; a review follows it where one is given.
    Run { instructions: String, review: Option<String> },
    Stop,
}

/// What the host reports.
#[derive(Debug)]
pub enum Told {
    Source { verdict: SourceVerdict, reason: String },
    /// The predecessor that failed, if one did.
    Predecessor(Option<String>),
    /// The size of the input in tokens and in messages, where there is one.
    Input(Option<(usize, usize)>),
    Context {
        system: String,
        primer: String,
        notes: String,
        counterparty: String,
        evidence: Option<String>,
        intent: Option<String>,
        datetime: String,
        /// What the model is told when it reviews its own pass.
        review_instructions: String,
    },
    Saved,
    Ran,
}

#[derive(Clone, Copy, Debug, PartialEq, Eq, Structural)]
pub struct OutOfTurn;

#[derive(Debug)]
pub struct Attempt {
    pub stage: Stage,
    pub conversation: u64,
    /// What the owner of the memory has changed so far, where the owner can.
    pub epoch: Option<u64>,
    pub tokens: usize,
    pub messages: usize,
}

pub open spec fn optional_view(s: Option<String>, otherwise: Seq<char>) -> Seq<char> {
    match s {
        Some(own) => own@,
        None => otherwise,
    }
}

impl Attempt {
    /// Starts an attempt. Without an owner's control there is no source to check.
    pub fn begin(conversation: u64, controlled: bool, epoch: Option<u64>) -> (r: (Attempt, Ask))
        ensures
            r.0 == (Attempt {
                stage: if controlled {
                    Stage::Source
                } else {
                    Stage::Predecessor
                },
                conversation,
                epoch,
                tokens: 0,
                messages: 0,
            }),
            r.1 == if controlled {
                Ask::CheckSource
            } else {
                Ask::CheckPredecessor
            },
    {
        if controlled {
            (
                Attempt { stage: Stage::Source, conversation, epoch, tokens: 0, messages: 0 },
                Ask::CheckSource,
            )
        } else {
            (
                Attempt { stage: Stage::Predecessor, conversation, epoch, tokens: 0, messages: 0 },
                Ask::CheckPredecessor,
            )
        }
    }

    /// The conversation ends here, with that status and reason.
    pub open spec fn settles(
        self,
        after: Attempt,
        status: ConversationStatus,
        reason: Seq<char>,
        r: Result<Ask, OutOfTurn>,
    ) -> bool {
        &&& after == (Attempt { stage: Stage::Verdict, ..self })
        &&& r matches Ok(Ask::Persist { status: own, reason: text }) && own == status && text@
            == reason
    }

    fn settle(&mut self, status: ConversationStatus, reason: String) -> (r: Result<Ask, OutOfTurn>)
        ensures
            old(self).settles(*final(self), status, reason@, r),
    {
        self.stage = Stage::Verdict;
        Ok(Ask::Persist { status, reason })
    }

    /// A source that is busy stays in the queue; one that is suppressed is never
    /// formed.
    pub open spec fn source_moves(
        self,
        after: Attempt,
        verdict: SourceVerdict,
        reason: Seq<char>,
        r: Result<Ask, OutOfTurn>,
    ) -> bool {
        match verdict {
            SourceVerdict::Open => after == (Attempt { stage: Stage::Predecessor, ..self }) && r
                == Ok::<Ask, OutOfTurn>(Ask::CheckPredecessor),
            SourceVerdict::Busy => self.settles(after, ConversationStatus::Submitted, reason, r),
            SourceVerdict::Suppressed => self.settles(
                after,
                ConversationStatus::Cancelled,
                reason,
                r,
            ),
        }
    }

    /// A revision whose predecessor failed is cancelled, and says so.
    pub open spec fn predecessor_moves(
        self,
        after: Attempt,
        blocker: Option<String>,
        r: Result<Ask, OutOfTurn>,
    ) -> bool {
        match blocker {
            Some(own) => self.settles(
                after,
                ConversationStatus::Cancelled,
                "predecessor_failed:"@ + own@,
                r,
            ),
            None => after == (Attempt { stage: Stage::Input, ..self }) && r == Ok::<Ask, OutOfTurn>(
                Ask::ReadInput,
            ),
        }
    }

    /// A conversation without an input failed.
    pub open spec fn input_moves(
        self,
        after: Attempt,
        input: Option<(usize, usize)>,
        r: Result<Ask, OutOfTurn>,
    ) -> bool {
        match input {
            None => self.settles(after, ConversationStatus::Failed, super::NO_PROMPT@, r),
            Some((tokens, messages)) => {
                &&& after == (Attempt { stage: Stage::Context, tokens, messages, ..self })
                &&& r matches Ok(Ask::ReadContext { observation_key, history })
                    && observation_key@ == "formation:conversation:"@ + text::decimal(
                    self.conversation as nat,
                ) && history == !(self.epoch matches Some(e) && e > 0)
            },
        }
    }

    pub open spec fn context_moves(
        self,
        after: Attempt,
        system: Seq<char>,
        primer: Seq<char>,
        notes: Seq<char>,
        counterparty: Seq<char>,
        evidence: Seq<char>,
        intent: Seq<char>,
        datetime: Seq<char>,
        review_instructions: Seq<char>,
        r: Result<Ask, OutOfTurn>,
    ) -> bool {
        &&& after == (Attempt { stage: Stage::Run, ..self })
        &&& r matches Ok(Ask::Run { instructions, review }) && instructions@
            == super::instructions_of(
            system,
            primer,
            notes,
            counterparty,
            evidence,
            intent,
            datetime,
        ) && match review {
            Some(prompt) => self.tokens >= super::REVIEW_MIN_INPUT_TOKENS && prompt@
                == super::review_text(review_instructions, self.conversation, self.messages),
            None => self.tokens < super::REVIEW_MIN_INPUT_TOKENS,
        }
    }

    /// What one report leads to.
    pub open spec fn moves(self, after: Attempt, told: Told, r: Result<Ask, OutOfTurn>) -> bool {
        match (self.stage, told) {
            (Stage::Source, Told::Source { verdict, reason }) => self.source_moves(
                after,
                verdict,
                reason@,
                r,
            ),
            (Stage::Predecessor, Told::Predecessor(blocker)) => self.predecessor_moves(
                after,
                blocker,
                r,
            ),
            (Stage::Input, Told::Input(input)) => self.input_moves(after, input, r),
            (
                Stage::Context,
                Told::Context {
                    system,
                    primer,
                    notes,
                    counterparty,
                    evidence,
                    intent,
                    datetime,
                    review_instructions,
                },
            ) => self.context_moves(
                after,
                system@,
                primer@,
                notes@,
                counterparty@,
                optional_view(evidence, "none"@),
                optional_view(intent, "none (an ordinary Formation submission)"@),
                datetime@,
                review_instructions@,
                r,
            ),
            (Stage::Verdict, Told::Saved) => after == (Attempt { stage: Stage::Over, ..self }) && r
                == Ok::<Ask, OutOfTurn>(Ask::Stop),
            (Stage::Run, Told::Ran) => after == (Attempt { stage: Stage::Over, ..self }) && r
                == Ok::<Ask, OutOfTurn>(Ask::Stop),
            _ => after == self && r == Err::<Ask, OutOfTurn>(OutOfTurn),
        }
    }

    /// Takes a report over, and says what the host does next.
    pub fn step(&mut self, told: Told) -> (r: Result<Ask, OutOfTurn>)
        ensures
            old(self).moves(*final(self), told, r),
    {
        match (self.stage, told) {
            (Stage::Source, Told::Source { verdict, reason }) => match super::source_status(
                verdict,
            ) {
                Some(status) => self.settle(status, reason),
                None => {
                    self.stage = Stage::Predecessor;
                    Ok(Ask::CheckPredecessor)
                },
            },
            (Stage::Predecessor, Told::Predecessor(blocker)) => match blocker {
                Some(own) => {
                    let (status, reason) = super::predecessor_failed(own.as_str());
                    self.settle(status, reason)
                },
                None => {
                    self.stage = Stage::Input;
                    Ok(Ask::ReadInput)
                },
            },
            (Stage::Input, Told::Input(input)) => match input {
                Some((tokens, messages)) => {
                    self.tokens = tokens;
                    self.messages = messages;
                    self.stage = Stage::Context;
                    Ok(
                        Ask::ReadContext {
                            observation_key: super::observation_key(self.conversation),
                            history: super::shows_history(self.epoch),
                        },
                    )
                },
                None => self.settle(ConversationStatus::Failed, super::NO_PROMPT.to_owned()),
            },
            (
                Stage::Context,
                Told::Context {
                    system,
                    primer,
                    notes,
                    counterparty,
                    evidence,
                    intent,
                    datetime,
                    review_instructions,
                },
            ) => {
                let shown = match &evidence {
                    Some(own) => Some(own.as_str()),
                    None => None,
                };
                let directive = match &intent {
                    Some(own) => Some(own.as_str()),
                    None => None,
                };
                let instructions = super::instructions(
                    system.as_str(),
                    primer.as_str(),
                    notes.as_str(),
                    counterparty.as_str(),
                    shown,
                    directive,
                    datetime.as_str(),
                );
                let review = super::plan_review(
                    self.tokens,
                    review_instructions.as_str(),
                    self.conversation,
                    self.messages,
                );
                self.stage = Stage::Run;
                Ok(Ask::Run { instructions, review })
            },
            (Stage::Verdict, Told::Saved) => {
                self.stage = Stage::Over;
                Ok(Ask::Stop)
            },
            (Stage::Run, Told::Ran) => {
                self.stage = Stage::Over;
                Ok(Ask::Stop)
            },
            _ => Err(OutOfTurn),
        }
    }
}

// ---------------------------------------------------------------------------
// Laws
// ---------------------------------------------------------------------------

/// Nothing of a conversation reaches a model whose source is not open or whose
/// predecessor failed: the model's turn comes only after both were looked at.
pub proof fn models_come_last(before: Attempt, after: Attempt, told: Told, r: Result<
    Ask,
    OutOfTurn,
>)
    requires
        before.moves(after, told, r),
        r is Ok,
    ensures
        r matches Ok(Ask::Run { .. }) ==> before.stage == Stage::Context,
        after.stage == Stage::Context ==> before.stage == Stage::Input,
        after.stage == Stage::Input ==> before.stage == Stage::Predecessor && told
            == Told::Predecessor(None),
        after.stage == Stage::Predecessor ==> before.stage == Stage::Source && (told
            matches Told::Source { verdict, .. } && verdict == SourceVerdict::Open),
{
}

} // verus!
