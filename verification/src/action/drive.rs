//! The work of one wake, step by step: the host does what it is asked for and
//! reports back, and every decision between two reports is made here.

use vstd::prelude::*;

use super::context::Capture;
use super::gate::{self, Answer, Entry, Route};
use super::journal::{Job, PreparedGate, Reply, MAX_ROUNDS};
use super::request::{ActionKind, ClarificationResponse, ContextRequest, Proposal, Status};
use super::{ActionBindings, ActionError};
use crate::text;
use crate::wake::{WakeRecord, WakeState, MAX_DELAY_MS};

verus! {

/// What the host is waited for.
#[derive(Clone, Copy, Debug, PartialEq, Eq, Structural)]
pub enum Phase {
    Parent,
    Reply,
    Lease,
    /// The context that the delivery of a question needs.
    DeliveryContext,
    DeliveryAnswer,
    Needs,
    Context,
    Input,
    Suggestion,
    Weight,
    Silence,
    Prepared,
    Authorization,
    Duplicate,
    /// A decision that replaces an action.
    Replacement,
    Saved,
    Fresh,
    Refenced,
    Over,
}

impl Phase {
    /// How far the end is, at most.
    pub open spec fn rank(self) -> nat {
        match self {
            Phase::Parent => 16,
            Phase::Reply => 15,
            Phase::Lease => 14,
            Phase::DeliveryContext => 13,
            Phase::DeliveryAnswer => 12,
            Phase::Needs => 13,
            Phase::Context => 12,
            Phase::Input => 11,
            Phase::Suggestion => 10,
            Phase::Weight => 9,
            Phase::Silence => 8,
            Phase::Prepared => 7,
            Phase::Authorization => 6,
            Phase::Duplicate => 5,
            Phase::Replacement => 4,
            Phase::Saved => 3,
            Phase::Fresh => 2,
            Phase::Refenced => 1,
            Phase::Over => 0,
        }
    }
}

/// The reason that the engine keeps for a wake that work cannot go on with; the
/// journal tells why.
pub const BLOCK_REASON: &'static str = "binding_unavailable";

/// What the host does next.
#[derive(Debug)]
pub enum Ask {
    /// Read and confirm the work of the parent wake.
    ReadParent(String),
    /// Read the answer to the question of that wake.
    ReadReply(String),
    /// Hold the wake under a live lease.
    Acquire,
    /// Ask the policy which context it needs.
    Consult,
    ReadContext(ContextRequest),
    /// Look whether the question of that wake was answered.
    CheckAnswer { gate: String, recipient: String, deadline: u64 },
    /// Count the tokens of the policy's input.
    CountInput,
    /// Ask the policy for a suggestion.
    Suggest,
    /// Count the tokens of the suggestion.
    CountProposal,
    /// Ask the policy whether the work may be left undone.
    AllowSilence,
    /// Turn the decision into a native command.
    Prepare(Proposal),
    /// Ask policy and adapter to authorise the prepared request.
    Authorize,
    /// Look for another wake that owns the same operation.
    Deduplicate,
    /// Read the context of the prepared decision afresh.
    Revalidate,
    /// Write the journal.
    Save,
    Commit,
    Dispatch,
    Block,
    Stop,
}

/// What the host reports.
#[derive(Debug)]
pub enum Told {
    Parent(Job),
    Reply(Option<Reply>),
    Leased,
    Needs(ContextRequest),
    Context(Capture),
    Answered(bool),
    Tokens(usize),
    Suggestion(Proposal),
    Silence(bool),
    Prepared(PreparedGate),
    /// Why the request was not authorised, if it was not.
    Authorization(Option<String>),
    /// Who owns the operation, if another wake does.
    Duplicate(Option<String>),
    Saved,
}

/// How far the work of a wake has come.
#[derive(Debug)]
pub struct Drive {
    pub phase: Phase,
    pub parent: Option<Job>,
    pub timed_out: bool,
    pub reply: Option<ClarificationResponse>,
    /// The work is the delivery of a question.
    pub delivering: bool,
    pub capture: Option<Capture>,
    pub proposal: Option<Proposal>,
    /// The action that waits for its authorisation.
    pub prepared: Option<PreparedGate>,
}

/// A step that failed: nothing more is asked for.
pub open spec fn fails(r: Result<Ask, ActionError>, e: ActionError) -> bool {
    r matches Err(own) && own == e
}

// ---------------------------------------------------------------------------
// Up to the lease
// ---------------------------------------------------------------------------

impl Drive {
    /// Only the phase and the parent differ.
    pub open spec fn with_parent(self, phase: Phase, parent: Option<Job>) -> Drive {
        Drive { phase, parent, ..self }
    }

    /// Where a wake leads, once its parent is known.
    pub open spec fn routes(
        self,
        after: Drive,
        job: Job,
        parent: Option<Job>,
        wake: WakeRecord,
        r: Result<Ask, ActionError>,
    ) -> bool {
        if gate::continues_as(wake, "dispatch"@) {
            if parent is Some {
                r == Ok::<Ask, ActionError>(Ask::Dispatch) && after == self.with_parent(
                    Phase::Over,
                    parent,
                )
            } else {
                fails(r, ActionError::DispatchParentMissing)
            }
        } else if job.status.state@ == "blocked"@ {
            r == Ok::<Ask, ActionError>(Ask::Stop) && after == self.with_parent(
                Phase::Over,
                parent,
            )
        } else if gate::continues_as(wake, "answer"@) {
            match parent {
                None => fails(r, ActionError::AnswerParentMissing),
                Some(own) => if own.prepared is None {
                    fails(r, ActionError::AnswerPreparationMissing)
                } else {
                    (r matches Ok(Ask::ReadReply(g)) && g@ == own.wake_ref@) && after
                        == self.with_parent(Phase::Reply, parent)
                },
            }
        } else {
            r == Ok::<Ask, ActionError>(Ask::Acquire) && after == self.with_parent(
                Phase::Lease,
                parent,
            )
        }
    }

    fn route(&mut self, job: &Job, parent: Option<Job>, wake: &WakeRecord) -> (r: Result<
        Ask,
        ActionError,
    >)
        ensures
            old(self).routes(*final(self), *job, parent, *wake, r),
    {
        let to = match gate::route(wake, job, parent.is_some()) {
            Ok(to) => to,
            Err(e) => return Err(e),
        };
        let asked = match to {
            Route::Answer => match &parent {
                None => return Err(ActionError::AnswerParentMissing),
                Some(own) => if own.prepared.is_none() {
                    return Err(ActionError::AnswerPreparationMissing);
                } else {
                    Some(own.wake_ref.clone())
                },
            },
            _ => None,
        };
        self.parent = parent;
        match (to, asked) {
            (Route::Answer, Some(wake_ref)) => {
                self.phase = Phase::Reply;
                Ok(Ask::ReadReply(wake_ref))
            },
            (Route::Dispatch, _) => {
                self.phase = Phase::Over;
                Ok(Ask::Dispatch)
            },
            (Route::Idle, _) => {
                self.phase = Phase::Over;
                Ok(Ask::Stop)
            },
            _ => {
                self.phase = Phase::Lease;
                Ok(Ask::Acquire)
            },
        }
    }

    /// Nothing has been read yet.
    pub open spec fn is_blank(self) -> bool {
        &&& self.parent is None
        &&& !self.timed_out
        &&& self.reply is None
        &&& !self.delivering
        &&& self.capture is None
        &&& self.proposal is None
        &&& self.prepared is None
    }

    /// How the work of a wake starts.
    pub open spec fn begins(
        after: Drive,
        before: Job,
        job: Job,
        wake: WakeRecord,
        r: Result<Ask, ActionError>,
    ) -> bool {
        match wake.state {
            WakeState::Cancelled { .. } => {
                &&& r == Ok::<Ask, ActionError>(Ask::Stop)
                &&& after.phase == Phase::Over
                &&& job.status@ == (Status { state: "cancelled"@, ..before.status@ })
            },
            WakeState::Completed { .. } => {
                &&& r == Ok::<Ask, ActionError>(
                    if before.prepared is Some {
                        Ask::Commit
                    } else {
                        Ask::Stop
                    },
                )
                &&& after.phase == Phase::Over
                &&& job.status@ == before.status@
            },
            _ => {
                &&& job.status@ == before.status@
                &&& match wake.parent_ref {
                    Some(parent) => (r matches Ok(Ask::ReadParent(p)) && p@ == parent@)
                        && after.phase == Phase::Parent && after.is_blank(),
                    None => exists|blank: Drive| #[trigger]
                        blank.is_blank() && blank.phase == Phase::Parent && blank.routes(
                            after,
                            job,
                            None,
                            wake,
                            r,
                        ),
                }
            },
        }
    }

    /// Starts the work of a wake.
    pub fn begin(wake: &WakeRecord, job: &mut Job) -> (r: (Drive, Result<Ask, ActionError>))
        ensures
            *final(job) == (Job { status: final(job).status, ..*old(job) }),
            Drive::begins(r.0, *old(job), *final(job), *wake, r.1),
            r.1 is Ok ==> r.0.wf(),
    {
        let mut drive = Drive {
            phase: Phase::Parent,
            parent: None,
            timed_out: false,
            reply: None,
            delivering: false,
            capture: None,
            proposal: None,
            prepared: None,
        };
        match gate::enter(wake, job) {
            Entry::Cancelled => {
                drive.phase = Phase::Over;
                (drive, Ok(Ask::Stop))
            },
            Entry::Done => {
                drive.phase = Phase::Over;
                (drive, Ok(Ask::Stop))
            },
            Entry::Replay => {
                drive.phase = Phase::Over;
                (drive, Ok(Ask::Commit))
            },
            Entry::Work => match &wake.parent_ref {
                Some(parent) => (drive, Ok(Ask::ReadParent(parent.clone()))),
                None => {
                    let ghost blank = drive;
                    assert(blank.is_blank() && blank.phase == Phase::Parent);
                    let r = drive.route(job, None, wake);
                    (drive, r)
                },
            },
        }
    }

    fn on_parent(&mut self, job: &mut Job, parent: Job, wake: &WakeRecord) -> (r: Result<
        Ask,
        ActionError,
    >)
        ensures
            old(self).parent_moves(*final(self), *old(job), *final(job), parent, *wake, r),
    {
        if parent.rounds > MAX_ROUNDS {
            return Err(ActionError::JournalMismatch);
        }
        let parent = Some(parent);
        gate::inherit_rounds(job, &parent, wake);
        self.route(job, parent, wake)
    }

    pub open spec fn parent_moves(
        self,
        after: Drive,
        before: Job,
        job: Job,
        parent: Job,
        wake: WakeRecord,
        r: Result<Ask, ActionError>,
    ) -> bool {
        if parent.rounds > MAX_ROUNDS {
            fails(r, ActionError::JournalMismatch) && job == before
        } else {
            &&& job.rounds == gate::inherited_rounds(before, Some(parent), wake)
            &&& job == (Job { rounds: job.rounds, ..before })
            &&& self.routes(after, job, Some(parent), wake, r)
        }
    }

    /// What an answer, or its absence, leads to.
    pub open spec fn reply_moves(
        self,
        after: Drive,
        before: Job,
        job: Job,
        saved: Option<Reply>,
        wake: WakeRecord,
        now: u64,
        bindings: ActionBindings,
        r: Result<Ask, ActionError>,
    ) -> bool {
        &&& job == (Job { status: job.status, rounds: job.rounds, ..before })
        &&& match self.parent {
            Some(own) => match own.prepared {
                Some(prepared) => match saved {
                    Some(reply) => job.same_beside_status(before) && job.status@ == before.status@
                        && if gate::reply_correlates(reply, wake, own, prepared) {
                        r == Ok::<Ask, ActionError>(Ask::Acquire) && after == (Drive {
                            phase: Phase::Lease,
                            reply: Some(reply.response),
                            ..self
                        })
                    } else {
                        fails(r, ActionError::ReplyCorrelation)
                    },
                    None => if prepared.reply_deadline_ms matches Some(t) && t > now {
                        &&& r == Ok::<Ask, ActionError>(Ask::Stop)
                        &&& after == (Drive { phase: Phase::Over, ..self })
                        &&& job.same_beside_status(before)
                        &&& job.status@ == (Status {
                            state: "awaiting_reply"@,
                            next_run_ms: Some((now + gate::answer_poll(bindings.limits)) as u64),
                            ..before.status@
                        })
                    } else {
                        &&& r == Ok::<Ask, ActionError>(Ask::Acquire)
                        &&& after == (Drive { phase: Phase::Lease, timed_out: true, ..self })
                        &&& job == (Job {
                            rounds: bindings.limits.max_retries,
                            status: job.status,
                            ..before
                        })
                        &&& job.status@ == before.status@
                    },
                },
                None => fails(r, ActionError::AnswerPreparationMissing),
            },
            None => fails(r, ActionError::AnswerParentMissing),
        }
    }

    fn on_reply(
        &mut self,
        job: &mut Job,
        saved: Option<Reply>,
        wake: &WakeRecord,
        now: u64,
        bindings: &ActionBindings,
    ) -> (r: Result<Ask, ActionError>)
        requires
            now <= u64::MAX - MAX_DELAY_MS,
        ensures
            old(self).reply_moves(
                *final(self),
                *old(job),
                *final(job),
                saved,
                *wake,
                now,
                *bindings,
                r,
            ),
    {
        match gate::answer_step(job, &self.parent, wake, saved, now, &bindings.limits) {
            Err(e) => Err(e),
            Ok(Answer::Waiting) => {
                self.phase = Phase::Over;
                Ok(Ask::Stop)
            },
            Ok(Answer::TimedOut) => {
                self.timed_out = true;
                self.phase = Phase::Lease;
                Ok(Ask::Acquire)
            },
            Ok(Answer::Reply(response)) => {
                self.reply = Some(response);
                self.phase = Phase::Lease;
                Ok(Ask::Acquire)
            },
        }
    }
}

impl Job {
    /// Only the status differs.
    pub open spec fn same_beside_status(self, other: Job) -> bool {
        self == (Job { status: self.status, ..other })
    }
}

// ---------------------------------------------------------------------------
// Under the lease
// ---------------------------------------------------------------------------

impl Drive {
    /// What is done under the lease.
    pub open spec fn lease_moves(
        self,
        after: Drive,
        before: Job,
        job: Job,
        wake: WakeRecord,
        r: Result<Ask, ActionError>,
    ) -> bool {
        if gate::continues_as(wake, "manual"@) && before.status.operator_retries == 0 {
            &&& r == Ok::<Ask, ActionError>(Ask::Block)
            &&& after == (Drive { phase: Phase::Over, ..self })
            &&& job.same_beside_status(before)
            &&& job.status@ == (Status {
                reason: Some("retry_limit_requires_operator"@),
                ..before.status@
            })
        } else {
            &&& job.same_beside_status(before)
            &&& job.status@ == before.status@
            &&& match before.prepared {
                Some(prepared) => if prepared.expected != wake.version || prepared.fence
                    != wake.fence {
                    r == Ok::<Ask, ActionError>(Ask::Revalidate) && after == (Drive {
                        phase: Phase::Fresh,
                        ..self
                    })
                } else {
                    r == Ok::<Ask, ActionError>(Ask::Commit) && after == (Drive {
                        phase: Phase::Over,
                        ..self
                    })
                },
                None => if gate::continues_as(wake, "clarification"@) {
                    match gate::clarification_refused(self.parent) {
                        Some(e) => fails(r, e),
                        None => (r matches Ok(Ask::ReadContext(context))
                            && gate::is_delivery_context(
                            context,
                            self.parent->0.prepared->0.capture.request,
                            self.parent->0.status.decision_ref->0@,
                        )) && after == (Drive {
                            phase: Phase::DeliveryContext,
                            delivering: true,
                            ..self
                        }),
                    }
                } else {
                    r == Ok::<Ask, ActionError>(Ask::Consult) && after == (Drive {
                        phase: Phase::Needs,
                        ..self
                    })
                },
            }
        }
    }

    fn on_lease(&mut self, job: &mut Job, wake: &WakeRecord) -> (r: Result<Ask, ActionError>)
        ensures
            old(self).lease_moves(*final(self), *old(job), *final(job), *wake, r),
    {
        if gate::waits_for_operator(job, wake) {
            self.phase = Phase::Over;
            return Ok(Ask::Block);
        }
        match &job.prepared {
            Some(prepared) => if gate::must_revalidate(prepared, wake) {
                self.phase = Phase::Fresh;
                Ok(Ask::Revalidate)
            } else {
                self.phase = Phase::Over;
                Ok(Ask::Commit)
            },
            None => if gate::is_continuation(wake, "clarification") {
                match gate::clarification_context(&self.parent) {
                    Ok(context) => {
                        self.delivering = true;
                        self.phase = Phase::DeliveryContext;
                        Ok(Ask::ReadContext(context))
                    },
                    Err(e) => Err(e),
                }
            } else {
                self.phase = Phase::Needs;
                Ok(Ask::Consult)
            },
        }
    }

    /// Whose answer is looked for before a question is delivered.
    pub open spec fn delivery_context_moves(
        self,
        after: Drive,
        capture: Capture,
        r: Result<Ask, ActionError>,
    ) -> bool {
        match self.parent {
            Some(own) => match own.prepared {
                Some(prepared) => match (prepared.recipient, prepared.reply_deadline_ms) {
                    (None, _) => fails(r, ActionError::RecipientMissing),
                    (Some(_), None) => fails(r, ActionError::DeadlineMissing),
                    (Some(recipient), Some(deadline)) => (r matches Ok(
                        Ask::CheckAnswer { gate, recipient: asked, deadline: until },
                    ) && gate@ == own.wake_ref@ && asked@ == recipient@ && until == deadline)
                        && after == (Drive {
                        phase: Phase::DeliveryAnswer,
                        capture: Some(capture),
                        ..self
                    }),
                },
                None => fails(r, ActionError::ClarificationPreparationMissing),
            },
            None => fails(r, ActionError::ClarificationParentMissing),
        }
    }

    fn on_delivery_context(&mut self, capture: Capture) -> (r: Result<Ask, ActionError>)
        ensures
            old(self).delivery_context_moves(*final(self), capture, r),
    {
        let (wake_ref, terms) = match &self.parent {
            Some(own) => match &own.prepared {
                Some(prepared) => (own.wake_ref.clone(), gate::question_terms(prepared)),
                None => return Err(ActionError::ClarificationPreparationMissing),
            },
            None => return Err(ActionError::ClarificationParentMissing),
        };
        match terms {
            Ok((recipient, deadline)) => {
                self.capture = Some(capture);
                self.phase = Phase::DeliveryAnswer;
                Ok(Ask::CheckAnswer { gate: wake_ref, recipient, deadline })
            },
            Err(e) => Err(e),
        }
    }

    /// What becomes of the delivery of a question.
    pub open spec fn delivery_answer_moves(
        self,
        after: Drive,
        answered: bool,
        now: u64,
        r: Result<Ask, ActionError>,
    ) -> bool {
        if gate::clarification_refused(self.parent) is Some {
            fails(r, gate::clarification_refused(self.parent)->0)
        } else if self.capture is None {
            fails(r, ActionError::OutOfTurn)
        } else {
            let prepared = self.parent->0.prepared->0;
            let decision = self.parent->0.status.decision_ref->0@;
            if gate::question_missing(prepared, answered, now, self.capture->0) {
                fails(r, ActionError::QuestionUnavailable)
            } else {
                (r matches Ok(Ask::Prepare(p)) && gate::delivers_as(
                    p,
                    prepared,
                    decision,
                    answered,
                    now,
                    self.capture->0,
                )) && after == (Drive { phase: Phase::Prepared, ..self })
            }
        }
    }

    fn on_delivery_answer(&mut self, answered: bool, now: u64) -> (r: Result<Ask, ActionError>)
        ensures
            old(self).delivery_answer_moves(*final(self), answered, now, r),
    {
        let decided = match &self.parent {
            None => return Err(ActionError::ClarificationParentMissing),
            Some(own) => match &own.prepared {
                None => return Err(ActionError::ClarificationPreparationMissing),
                Some(prepared) => {
                    if !text::same(prepared.decision.as_str(), "ask") {
                        return Err(ActionError::NotAnAsk);
                    }
                    match (&own.status.decision_ref, &self.capture) {
                        (None, _) => return Err(ActionError::AskDecisionUnavailable),
                        (Some(_), None) => return Err(ActionError::OutOfTurn),
                        (Some(decision), Some(capture)) => gate::clarification_proposal(
                            prepared,
                            decision.as_str(),
                            answered,
                            now,
                            capture,
                        ),
                    }
                },
            },
        };
        match decided {
            Ok(proposal) => {
                self.phase = Phase::Prepared;
                Ok(Ask::Prepare(proposal))
            },
            Err(e) => Err(e),
        }
    }
}

// ---------------------------------------------------------------------------
// The policy's decision
// ---------------------------------------------------------------------------

impl Drive {
    /// Whether the policy is asked at all.
    pub open spec fn input_moves(
        self,
        after: Drive,
        tokens: usize,
        bindings: ActionBindings,
        r: Result<Ask, ActionError>,
    ) -> bool {
        match self.capture {
            None => fails(r, ActionError::OutOfTurn),
            Some(capture) => match gate::early_reason(
                tokens,
                bindings.limits,
                self.timed_out,
                capture,
            ) {
                Some(reason) => {
                    &&& r == Ok::<Ask, ActionError>(Ask::CountProposal)
                    &&& after.proposal matches Some(p) && p.defers(reason)
                    &&& after == (Drive {
                        phase: Phase::Weight,
                        proposal: after.proposal,
                        ..self
                    })
                },
                None => r == Ok::<Ask, ActionError>(Ask::Suggest) && after == (Drive {
                    phase: Phase::Suggestion,
                    ..self
                }),
            },
        }
    }

    fn on_input(&mut self, tokens: usize, bindings: &ActionBindings) -> (r: Result<
        Ask,
        ActionError,
    >)
        ensures
            old(self).input_moves(*final(self), tokens, *bindings, r),
    {
        let early = match &self.capture {
            None => return Err(ActionError::OutOfTurn),
            Some(capture) => gate::early_proposal(
                tokens,
                &bindings.limits,
                self.timed_out,
                capture,
            ),
        };
        match early {
            Some(proposal) => {
                self.proposal = Some(proposal);
                self.phase = Phase::Weight;
                Ok(Ask::CountProposal)
            },
            None => {
                self.phase = Phase::Suggestion;
                Ok(Ask::Suggest)
            },
        }
    }

    /// What becomes of a suggestion.
    pub open spec fn weight_moves(
        self,
        after: Drive,
        tokens: usize,
        bindings: ActionBindings,
        r: Result<Ask, ActionError>,
    ) -> bool {
        if self.capture is None || self.proposal is None {
            fails(r, ActionError::OutOfTurn)
        } else {
            let proposal = self.proposal->0;
            match gate::objection(proposal, tokens, bindings, self.capture->0) {
                Some(reason) => (r matches Ok(Ask::Prepare(p)) && p.defers(reason)) && after == (
                Drive { phase: Phase::Prepared, proposal: None, ..self }),
                None => if proposal is Silence {
                    r == Ok::<Ask, ActionError>(Ask::AllowSilence) && after == (Drive {
                        phase: Phase::Silence,
                        ..self
                    })
                } else {
                    r == Ok::<Ask, ActionError>(Ask::Prepare(proposal)) && after == (Drive {
                        phase: Phase::Prepared,
                        proposal: None,
                        ..self
                    })
                },
            }
        }
    }

    fn on_weight(&mut self, tokens: usize, bindings: &ActionBindings) -> (r: Result<
        Ask,
        ActionError,
    >)
        ensures
            old(self).weight_moves(*final(self), tokens, *bindings, r),
    {
        if self.capture.is_none() {
            return Err(ActionError::OutOfTurn);
        }
        let proposal = match self.proposal.take() {
            Some(proposal) => proposal,
            None => return Err(ActionError::OutOfTurn),
        };
        let vetted = match &self.capture {
            Some(capture) => gate::vet_proposal(proposal, tokens, bindings, capture),
            None => return Err(ActionError::OutOfTurn),
        };
        let silent = match &vetted {
            Proposal::Silence { .. } => true,
            _ => false,
        };
        if silent {
            self.proposal = Some(vetted);
            self.phase = Phase::Silence;
            Ok(Ask::AllowSilence)
        } else {
            self.phase = Phase::Prepared;
            Ok(Ask::Prepare(vetted))
        }
    }

    /// Whether the work may be left undone.
    pub open spec fn silence_moves(
        self,
        after: Drive,
        allowed: bool,
        r: Result<Ask, ActionError>,
    ) -> bool {
        match self.proposal {
            None => fails(r, ActionError::OutOfTurn),
            Some(proposal) => (r matches Ok(Ask::Prepare(p)) && if proposal is Silence && !allowed {
                p.defers("silence_not_authorized_by_policy"@)
            } else {
                p == proposal
            }) && after == (Drive { phase: Phase::Prepared, proposal: None, ..self }),
        }
    }

    fn on_silence(&mut self, allowed: bool) -> (r: Result<Ask, ActionError>)
        ensures
            old(self).silence_moves(*final(self), allowed, r),
    {
        match self.proposal.take() {
            None => Err(ActionError::OutOfTurn),
            Some(proposal) => {
                self.phase = Phase::Prepared;
                Ok(Ask::Prepare(gate::silence_decided(proposal, allowed)))
            },
        }
    }
}

// ---------------------------------------------------------------------------
// The prepared decision
// ---------------------------------------------------------------------------

impl Drive {
    /// The decision that the journal keeps.
    pub open spec fn keeps(self, kept: Option<PreparedGate>, prepared: PreparedGate) -> bool {
        kept matches Some(own) && if self.delivering {
            gate::held_as(prepared, own)
        } else {
            own == prepared
        }
    }

    /// The decision goes into the journal.
    pub open spec fn settles(
        self,
        after: Drive,
        before: Job,
        job: Job,
        prepared: PreparedGate,
        r: Result<Ask, ActionError>,
    ) -> bool {
        &&& r == Ok::<Ask, ActionError>(Ask::Save)
        &&& after == (Drive { phase: Phase::Saved, prepared: None, ..self })
        &&& job == (Job { prepared: job.prepared, ..before })
        &&& self.keeps(job.prepared, prepared)
    }

    fn settle(&mut self, job: &mut Job, prepared: PreparedGate) -> (r: Result<Ask, ActionError>)
        ensures
            old(self).settles(*final(self), *old(job), *final(job), prepared, r),
    {
        let mut prepared = prepared;
        if self.delivering {
            gate::hold_delivery(&mut prepared);
        }
        job.prepared = Some(prepared);
        self.prepared = None;
        self.phase = Phase::Saved;
        Ok(Ask::Save)
    }

    /// An action waits for its authorisation, anything else is settled.
    pub open spec fn prepared_moves(
        self,
        after: Drive,
        before: Job,
        job: Job,
        prepared: PreparedGate,
        r: Result<Ask, ActionError>,
    ) -> bool {
        if prepared.request is None {
            self.settles(after, before, job, prepared, r)
        } else {
            &&& r == Ok::<Ask, ActionError>(Ask::Authorize)
            &&& after == (Drive {
                phase: Phase::Authorization,
                prepared: Some(prepared),
                ..self
            })
            &&& job == before
        }
    }

    fn on_prepared(&mut self, job: &mut Job, prepared: PreparedGate) -> (r: Result<
        Ask,
        ActionError,
    >)
        ensures
            old(self).prepared_moves(*final(self), *old(job), *final(job), prepared, r),
    {
        if prepared.request.is_none() {
            return self.settle(job, prepared);
        }
        self.prepared = Some(prepared);
        self.phase = Phase::Authorization;
        Ok(Ask::Authorize)
    }

    /// What replaces an action that is not authorised.
    pub open spec fn unauthorized(self, proposal: Proposal, error: Seq<char>) -> bool {
        proposal.defers(
            gate::cut_reason(
                if self.delivering {
                    "clarification_authorization_unavailable: "@
                } else {
                    "authorization_unavailable: "@
                },
                error,
            ),
        )
    }

    /// The action is some business of the host's: it may be a duplicate.
    pub open spec fn is_business(prepared: PreparedGate) -> bool {
        prepared.request matches Some(request) && request.kind == ActionKind::Business
    }

    pub open spec fn authorization_moves(
        self,
        after: Drive,
        before: Job,
        job: Job,
        error: Option<String>,
        bindings: ActionBindings,
        r: Result<Ask, ActionError>,
    ) -> bool {
        match self.prepared {
            None => fails(r, ActionError::OutOfTurn) && job == before,
            Some(prepared) => match error {
                Some(e) => {
                    &&& r matches Ok(Ask::Prepare(p)) && self.unauthorized(p, e@)
                    &&& after == (Drive { phase: Phase::Replacement, prepared: None, ..self })
                    &&& job == if self.delivering {
                        (Job { rounds: bindings.limits.max_retries, ..before })
                    } else {
                        before
                    }
                },
                None => if !self.delivering && Drive::is_business(prepared) {
                    &&& r == Ok::<Ask, ActionError>(Ask::Deduplicate)
                    &&& after == (Drive { phase: Phase::Duplicate, ..self })
                    &&& job == before
                } else {
                    self.settles(after, before, job, prepared, r)
                },
            },
        }
    }

    fn on_authorization(
        &mut self,
        job: &mut Job,
        error: Option<String>,
        bindings: &ActionBindings,
    ) -> (r: Result<Ask, ActionError>)
        ensures
            old(self).authorization_moves(
                *final(self),
                *old(job),
                *final(job),
                error,
                *bindings,
                r,
            ),
    {
        let prepared = match self.prepared.take() {
            Some(prepared) => prepared,
            None => return Err(ActionError::OutOfTurn),
        };
        match error {
            Some(e) => {
                let proposal = if self.delivering {
                    gate::delivery_unauthorized(job, &bindings.limits, e.as_str())
                } else {
                    gate::action_unauthorized(e.as_str())
                };
                self.phase = Phase::Replacement;
                Ok(Ask::Prepare(proposal))
            },
            None => {
                let business = match &prepared.request {
                    Some(request) => match request.kind {
                        ActionKind::Business => true,
                        ActionKind::DeliverClarification => false,
                    },
                    None => false,
                };
                if !self.delivering && business {
                    self.prepared = Some(prepared);
                    self.phase = Phase::Duplicate;
                    Ok(Ask::Deduplicate)
                } else {
                    self.settle(job, prepared)
                }
            },
        }
    }

    /// What becomes of an action that another wake may own.
    pub open spec fn duplicate_moves(
        self,
        after: Drive,
        before: Job,
        job: Job,
        owner: Option<String>,
        r: Result<Ask, ActionError>,
    ) -> bool {
        match self.prepared {
            None => fails(r, ActionError::OutOfTurn) && job == before,
            Some(prepared) => match owner {
                Some(reason) => {
                    &&& r matches Ok(Ask::Prepare(p)) && gate::duplicate_as(p, reason@)
                    &&& after == (Drive { phase: Phase::Replacement, prepared: None, ..self })
                    &&& job == before
                },
                None => self.settles(after, before, job, prepared, r),
            },
        }
    }

    fn on_duplicate(&mut self, job: &mut Job, owner: Option<String>) -> (r: Result<
        Ask,
        ActionError,
    >)
        ensures
            old(self).duplicate_moves(*final(self), *old(job), *final(job), owner, r),
    {
        let prepared = match self.prepared.take() {
            Some(prepared) => prepared,
            None => return Err(ActionError::OutOfTurn),
        };
        match owner {
            Some(reason) => {
                self.phase = Phase::Replacement;
                Ok(Ask::Prepare(gate::duplicate_proposal(reason)))
            },
            None => self.settle(job, prepared),
        }
    }

    /// What replaces an action is no action itself.
    pub open spec fn replacement_moves(
        self,
        after: Drive,
        before: Job,
        job: Job,
        prepared: PreparedGate,
        r: Result<Ask, ActionError>,
    ) -> bool {
        if prepared.request is Some {
            fails(r, ActionError::OutOfTurn) && job == before
        } else {
            self.settles(after, before, job, prepared, r)
        }
    }

    fn on_replacement(&mut self, job: &mut Job, prepared: PreparedGate) -> (r: Result<
        Ask,
        ActionError,
    >)
        ensures
            old(self).replacement_moves(*final(self), *old(job), *final(job), prepared, r),
    {
        if prepared.request.is_some() {
            return Err(ActionError::OutOfTurn);
        }
        self.settle(job, prepared)
    }

    /// The wake moved on while a question was being prepared for delivery.
    pub open spec fn moved_on(self, job: Job, wake: WakeRecord) -> bool {
        self.delivering && (job.prepared matches Some(p) && (p.expected != wake.version || p.fence
            != wake.fence))
    }

    pub open spec fn saved_moves(
        self,
        after: Drive,
        job: Job,
        wake: WakeRecord,
        r: Result<Ask, ActionError>,
    ) -> bool {
        if self.moved_on(job, wake) {
            r == Ok::<Ask, ActionError>(Ask::Revalidate) && after == (Drive {
                phase: Phase::Fresh,
                ..self
            })
        } else {
            r == Ok::<Ask, ActionError>(Ask::Commit) && after == (Drive {
                phase: Phase::Over,
                ..self
            })
        }
    }

    fn on_saved(&mut self, job: &Job, wake: &WakeRecord) -> (r: Result<Ask, ActionError>)
        ensures
            old(self).saved_moves(*final(self), *job, *wake, r),
    {
        let again = match &job.prepared {
            Some(prepared) => self.delivering && gate::must_revalidate(prepared, wake),
            None => false,
        };
        if again {
            self.phase = Phase::Fresh;
            Ok(Ask::Revalidate)
        } else {
            self.phase = Phase::Over;
            Ok(Ask::Commit)
        }
    }

    /// A decision is bound to the wake as it stands only if its context is current.
    pub open spec fn fresh_moves(
        self,
        after: Drive,
        before: Job,
        job: Job,
        fresh: Capture,
        wake: WakeRecord,
        r: Result<Ask, ActionError>,
    ) -> bool {
        match before.prepared {
            None => fails(r, ActionError::OutOfTurn) && job == before,
            Some(prepared) => match prepared.capture.stale(fresh, prepared.decision@ == "ask"@) {
                Some(e) => fails(r, e) && job == before,
                None => {
                    &&& r == Ok::<Ask, ActionError>(Ask::Save)
                    &&& after == (Drive { phase: Phase::Refenced, ..self })
                    &&& job == (Job {
                        prepared: Some(
                            PreparedGate { expected: wake.version, fence: wake.fence, ..prepared },
                        ),
                        ..before
                    })
                },
            },
        }
    }

    fn on_fresh(&mut self, job: &mut Job, fresh: &Capture, wake: &WakeRecord) -> (r: Result<
        Ask,
        ActionError,
    >)
        ensures
            old(self).fresh_moves(*final(self), *old(job), *final(job), *fresh, *wake, r),
    {
        let mut prepared = match job.prepared.take() {
            Some(prepared) => prepared,
            None => return Err(ActionError::OutOfTurn),
        };
        let asks = text::same(prepared.decision.as_str(), "ask");
        if let Err(e) = prepared.capture.revalidate(fresh, asks) {
            job.prepared = Some(prepared);
            return Err(e);
        }
        gate::refence(&mut prepared, wake);
        job.prepared = Some(prepared);
        self.phase = Phase::Refenced;
        Ok(Ask::Save)
    }
}

// ---------------------------------------------------------------------------
// Steps
// ---------------------------------------------------------------------------

impl Drive {
    /// An action that waits for its authorisation is one.
    pub open spec fn wf(self) -> bool {
        (self.phase == Phase::Authorization || self.phase == Phase::Duplicate) ==> (self.prepared
            matches Some(p) && p.request is Some)
    }

    /// What one report leads to.
    pub open spec fn moves(
        self,
        after: Drive,
        before: Job,
        job: Job,
        told: Told,
        wake: WakeRecord,
        now: u64,
        bindings: ActionBindings,
        r: Result<Ask, ActionError>,
    ) -> bool {
        match (self.phase, told) {
            (Phase::Parent, Told::Parent(parent)) => self.parent_moves(
                after,
                before,
                job,
                parent,
                wake,
                r,
            ),
            (Phase::Reply, Told::Reply(saved)) => self.reply_moves(
                after,
                before,
                job,
                saved,
                wake,
                now,
                bindings,
                r,
            ),
            (Phase::Lease, Told::Leased) => self.lease_moves(after, before, job, wake, r),
            (Phase::DeliveryContext, Told::Context(capture)) => job == before
                && self.delivery_context_moves(after, capture, r),
            (Phase::DeliveryAnswer, Told::Answered(answered)) => job == before
                && self.delivery_answer_moves(after, answered, now, r),
            (Phase::Needs, Told::Needs(request)) => job == before && r == Ok::<Ask, ActionError>(
                Ask::ReadContext(request),
            ) && after == (Drive { phase: Phase::Context, ..self }),
            (Phase::Context, Told::Context(capture)) => job == before && r == Ok::<
                Ask,
                ActionError,
            >(Ask::CountInput) && after == (Drive {
                phase: Phase::Input,
                capture: Some(capture),
                ..self
            }),
            (Phase::Input, Told::Tokens(tokens)) => job == before && self.input_moves(
                after,
                tokens,
                bindings,
                r,
            ),
            (Phase::Suggestion, Told::Suggestion(proposal)) => job == before && r == Ok::<
                Ask,
                ActionError,
            >(Ask::CountProposal) && after == (Drive {
                phase: Phase::Weight,
                proposal: Some(proposal),
                ..self
            }),
            (Phase::Weight, Told::Tokens(tokens)) => job == before && self.weight_moves(
                after,
                tokens,
                bindings,
                r,
            ),
            (Phase::Silence, Told::Silence(allowed)) => job == before && self.silence_moves(
                after,
                allowed,
                r,
            ),
            (Phase::Prepared, Told::Prepared(prepared)) => self.prepared_moves(
                after,
                before,
                job,
                prepared,
                r,
            ),
            (Phase::Authorization, Told::Authorization(error)) => self.authorization_moves(
                after,
                before,
                job,
                error,
                bindings,
                r,
            ),
            (Phase::Duplicate, Told::Duplicate(owner)) => self.duplicate_moves(
                after,
                before,
                job,
                owner,
                r,
            ),
            (Phase::Replacement, Told::Prepared(prepared)) => self.replacement_moves(
                after,
                before,
                job,
                prepared,
                r,
            ),
            (Phase::Saved, Told::Saved) => job == before && self.saved_moves(after, job, wake, r),
            (Phase::Fresh, Told::Context(fresh)) => self.fresh_moves(
                after,
                before,
                job,
                fresh,
                wake,
                r,
            ),
            (Phase::Refenced, Told::Saved) => job == before && r == Ok::<Ask, ActionError>(
                Ask::Commit,
            ) && after == (Drive { phase: Phase::Over, ..self }),
            _ => job == before && after == self && fails(r, ActionError::OutOfTurn),
        }
    }

    /// Takes a report over, and says what the host does next.
    pub fn step(
        &mut self,
        job: &mut Job,
        told: Told,
        wake: &WakeRecord,
        now: u64,
        bindings: &ActionBindings,
    ) -> (r: Result<Ask, ActionError>)
        requires
            old(self).wf(),
            now <= u64::MAX - MAX_DELAY_MS,
        ensures
            old(self).moves(*final(self), *old(job), *final(job), told, *wake, now, *bindings, r),
            r is Ok ==> final(self).wf(),
    {
        match (self.phase, told) {
            (Phase::Parent, Told::Parent(parent)) => self.on_parent(job, parent, wake),
            (Phase::Reply, Told::Reply(saved)) => self.on_reply(job, saved, wake, now, bindings),
            (Phase::Lease, Told::Leased) => self.on_lease(job, wake),
            (Phase::DeliveryContext, Told::Context(capture)) => self.on_delivery_context(capture),
            (Phase::DeliveryAnswer, Told::Answered(answered)) => self.on_delivery_answer(
                answered,
                now,
            ),
            (Phase::Needs, Told::Needs(request)) => {
                self.phase = Phase::Context;
                Ok(Ask::ReadContext(request))
            },
            (Phase::Context, Told::Context(capture)) => {
                self.capture = Some(capture);
                self.phase = Phase::Input;
                Ok(Ask::CountInput)
            },
            (Phase::Input, Told::Tokens(tokens)) => self.on_input(tokens, bindings),
            (Phase::Suggestion, Told::Suggestion(proposal)) => {
                self.proposal = Some(proposal);
                self.phase = Phase::Weight;
                Ok(Ask::CountProposal)
            },
            (Phase::Weight, Told::Tokens(tokens)) => self.on_weight(tokens, bindings),
            (Phase::Silence, Told::Silence(allowed)) => self.on_silence(allowed),
            (Phase::Prepared, Told::Prepared(prepared)) => self.on_prepared(job, prepared),
            (Phase::Authorization, Told::Authorization(error)) => self.on_authorization(
                job,
                error,
                bindings,
            ),
            (Phase::Duplicate, Told::Duplicate(owner)) => self.on_duplicate(job, owner),
            (Phase::Replacement, Told::Prepared(prepared)) => self.on_replacement(job, prepared),
            (Phase::Saved, Told::Saved) => self.on_saved(job, wake),
            (Phase::Fresh, Told::Context(fresh)) => self.on_fresh(job, &fresh, wake),
            (Phase::Refenced, Told::Saved) => {
                self.phase = Phase::Over;
                Ok(Ask::Commit)
            },
            _ => Err(ActionError::OutOfTurn),
        }
    }
}

// ---------------------------------------------------------------------------
// Laws
// ---------------------------------------------------------------------------

/// Every step comes closer to the end: the work of a wake is done after at most
/// sixteen of them.
pub proof fn work_comes_to_an_end(
    before: Drive,
    after: Drive,
    old_job: Job,
    job: Job,
    told: Told,
    wake: WakeRecord,
    now: u64,
    bindings: ActionBindings,
    r: Result<Ask, ActionError>,
)
    requires
        before.moves(after, old_job, job, told, wake, now, bindings, r),
        r is Ok,
    ensures
        after.phase.rank() < before.phase.rank() <= 16,
{
}

/// An action is kept only after policy and adapter authorised exactly it, and,
/// where it is business, after no other wake was found to own it. Everything else
/// that is kept is no action, or was kept before.
pub proof fn only_authorized_actions_are_kept(
    before: Drive,
    after: Drive,
    old_job: Job,
    job: Job,
    told: Told,
    wake: WakeRecord,
    now: u64,
    bindings: ActionBindings,
    r: Result<Ask, ActionError>,
)
    requires
        before.moves(after, old_job, job, told, wake, now, bindings, r),
        job.prepared matches Some(p) && p.request is Some,
    ensures
        ({
            let request = job.prepared->0.request;
            ||| old_job.prepared matches Some(p) && p.request == request
            ||| told == Told::Authorization(None) && (before.prepared matches Some(p) && p.request
                == request) && (before.delivering || request->0.kind != ActionKind::Business)
            ||| told == Told::Duplicate(None) && (before.prepared matches Some(p) && p.request
                == request)
        }),
{
}

/// The policy is asked for a suggestion only with an input that fits, never after
/// a question went unanswered, and never in a context that only a deferral can
/// follow from.
pub proof fn suggestions_are_asked_for_in_time(
    before: Drive,
    after: Drive,
    old_job: Job,
    job: Job,
    told: Told,
    wake: WakeRecord,
    now: u64,
    bindings: ActionBindings,
    r: Result<Ask, ActionError>,
)
    requires
        before.moves(after, old_job, job, told, wake, now, bindings, r),
        r == Ok::<Ask, ActionError>(Ask::Suggest),
    ensures
        !before.timed_out,
        told matches Told::Tokens(tokens) && tokens <= bindings.limits.recall.context_tokens,
        before.capture matches Some(capture) && (capture.insufficient matches Some(p) ==> p@
            == super::context::PREMISE_UNKNOWN@),
{
}

/// Work is left undone only where the policy allowed it, where the question was
/// answered already, or where the operation was committed by another wake.
pub proof fn silence_is_never_assumed(
    before: Drive,
    after: Drive,
    old_job: Job,
    job: Job,
    told: Told,
    wake: WakeRecord,
    now: u64,
    bindings: ActionBindings,
    r: Result<Ask, ActionError>,
)
    requires
        before.moves(after, old_job, job, told, wake, now, bindings, r),
        r matches Ok(Ask::Prepare(p)) && p is Silence,
    ensures
        told == Told::Silence(true) || told == Told::Answered(true) || (told matches Told::Duplicate(
            Some(reason),
        ) && text::is_prefix("duplicate_committed_operation:"@, reason@)),
{
}

/// A decision is committed only once the journal holds it.
pub proof fn commits_follow_the_journal(
    before: Drive,
    after: Drive,
    old_job: Job,
    job: Job,
    told: Told,
    wake: WakeRecord,
    now: u64,
    bindings: ActionBindings,
    r: Result<Ask, ActionError>,
)
    requires
        before.moves(after, old_job, job, told, wake, now, bindings, r),
        r == Ok::<Ask, ActionError>(Ask::Commit),
    ensures
        told is Saved || before.phase == Phase::Lease && old_job.prepared is Some,
        job.prepared == old_job.prepared,
        after.phase == Phase::Over,
{
}

} // verus!
