//! The dispatch of a committed action, step by step. Nothing reaches an adapter
//! before the engine has said so, and nothing is sent twice on a guess.

use vstd::prelude::*;

use super::context::Capture;
use super::dispatch::{self, DispatchStep, LookupStatus, Permission};
use super::journal::Job;
use super::request::{ActionKind, ActionRequest, DeliveryStatus, DispatchPermit, Status};
use super::{ActionBindings, ActionError};
use crate::json::{Datum, Json};
use crate::nexus;
use crate::wake::{WakeRecord, MAX_DELAY_MS};

verus! {

/// What the host is waited for.
#[derive(Clone, Copy, Debug, PartialEq, Eq, Structural)]
pub enum Stage {
    /// The attempt as the engine committed it.
    Attempt,
    /// The dispatch that the journal knows of.
    Known,
    /// The dispatch under the identity that follows from the attempt.
    Derived,
    Answer,
    Cancelled,
    FinishLease,
    Finished,
    LookupSaved,
    LookedUp,
    HoldLease,
    ExhaustedLease,
    Lease,
    Authorization,
    Fresh,
    Saved,
    Permit,
    Delivery,
    Over,
}

impl Stage {
    /// How far the end is, at most.
    pub open spec fn rank(self) -> nat {
        match self {
            Stage::Attempt => 10,
            Stage::Known => 9,
            Stage::Derived => 8,
            Stage::Answer => 7,
            Stage::Lease => 6,
            Stage::Authorization => 5,
            Stage::Fresh => 4,
            Stage::Saved => 3,
            Stage::FinishLease => 2,
            Stage::LookupSaved => 2,
            Stage::Permit => 2,
            Stage::Cancelled => 1,
            Stage::Finished => 1,
            Stage::LookedUp => 1,
            Stage::HoldLease => 1,
            Stage::ExhaustedLease => 1,
            Stage::Delivery => 1,
            Stage::Over => 0,
        }
    }
}

/// What the host does next.
#[derive(Debug)]
pub enum Do {
    /// Read the attempt and the material that it was selected by.
    ReadAttempt(String),
    /// Read the native record of that dispatch.
    ReadDispatch(String),
    /// Look whether the question of that wake was answered.
    CheckAnswer { gate: String, recipient: String, deadline: u64 },
    CancelWake,
    /// Hold the wake under a live lease.
    Acquire,
    FinishWake,
    /// Write the journal.
    Save,
    /// Ask the target what became of that dispatch.
    LookUp(String),
    /// Block the wake, for that reason.
    Block(&'static str),
    Authorize,
    Revalidate,
    /// Ask the engine for a permit.
    Begin { idempotent: bool, lookup: bool },
    /// Call the adapter.
    Deliver(DispatchPermit),
    Stop,
}

/// What the host reports.
#[derive(Debug)]
pub enum Heard {
    Attempt { row: Json, material: Json },
    Dispatch(Option<Json>),
    Answered(bool),
    Leased,
    Done,
    Saved,
    Observed(LookupStatus),
    Authorized,
    Context(Capture),
    Permit(Json),
    /// What the adapter reported, if it did.
    Delivery(Option<DeliveryStatus>),
}

/// How far a dispatch has come.
#[derive(Debug)]
pub struct Sending {
    pub stage: Stage,
    /// The work that committed the action.
    pub parent: Job,
    /// The native record of what was started before.
    pub prior: Option<Json>,
}

pub open spec fn fails(r: Result<Do, ActionError>, e: ActionError) -> bool {
    r matches Err(own) && own == e
}

pub open spec fn prior_view(prior: Option<Json>) -> Option<Datum> {
    match prior {
        Some(record) => Some(record@),
        None => None,
    }
}

impl Sending {
    /// The parent has committed an action.
    pub open spec fn wf(self) -> bool {
        dispatch::dispatch_refused(self.parent) is None
    }

    pub open spec fn request(self) -> ActionRequest {
        self.parent.prepared->0.request->0
    }

    pub open spec fn attempt(self) -> Seq<char> {
        self.parent.status.attempt_ref->0@
    }

    /// Starts the dispatch of what a parent committed.
    pub fn begin(parent: Job) -> (r: Result<(Sending, Do), ActionError>)
        ensures
            match r {
                Ok((sending, step)) => {
                    &&& dispatch::dispatch_refused(parent) is None
                    &&& sending.stage == Stage::Attempt
                    &&& sending.parent == parent
                    &&& sending.prior is None
                    &&& sending.wf()
                    &&& step matches Do::ReadAttempt(id) && id@ == parent.status.attempt_ref->0@
                },
                Err(e) => dispatch::dispatch_refused(parent) == Some(e),
            },
    {
        let attempt = match dispatch::fixed_request(&parent) {
            Ok((_, attempt)) => attempt.clone(),
            Err(e) => return Err(e),
        };
        Ok((Sending { stage: Stage::Attempt, parent, prior: None }, Do::ReadAttempt(attempt)))
    }

    /// The identity of the dispatch that follows from the attempt.
    pub open spec fn derived(self, wake: WakeRecord) -> Option<Seq<char>> {
        super::request::dispatch_reference_of(wake.scope, self.request().attempt_id@)
    }

    /// The engine committed exactly this request: the dispatch is that of its
    /// decision, and what was started before is looked for.
    pub open spec fn attempt_moves(
        self,
        after: Sending,
        before: Job,
        job: Job,
        row: Datum,
        material: Datum,
        wake: WakeRecord,
        bindings: ActionBindings,
        r: Result<Do, ActionError>,
    ) -> bool {
        let request = self.request();
        match nexus::digest_of(request.value()) {
            Some(digest) if dispatch::is_committed(row, material, request, bindings, digest) => {
                &&& job == (Job { status: job.status, ..before })
                &&& job.status@ == (Status {
                    decision_ref: self.parent.status@.decision_ref,
                    attempt_ref: self.parent.status@.attempt_ref,
                    ..before.status@
                })
                &&& match before.status.dispatch_ref {
                    Some(known) => (r matches Ok(Do::ReadDispatch(id)) && id@ == known@) && after
                        == (Sending { stage: Stage::Known, ..self }),
                    None => (r matches Ok(Do::ReadDispatch(id)) && self.derived(wake) == Some(id@))
                        && after == (Sending { stage: Stage::Derived, ..self }),
                }
            },
            _ => {
                &&& job == before
                &&& if nexus::digest_of(request.value()) is None
                    && dispatch::attempt_facet(row).at("attempt_id"@) == Datum::Text(
                    request.attempt_id@,
                ) {
                    fails(r, ActionError::Undigestible)
                } else {
                    fails(r, ActionError::RequestDiffers)
                }
            },
        }
    }

    fn on_attempt(
        &mut self,
        job: &mut Job,
        row: &Json,
        material: &Json,
        wake: &WakeRecord,
        bindings: &ActionBindings,
    ) -> (r: Result<Do, ActionError>)
        requires
            old(self).wf(),
        ensures
            old(self).attempt_moves(
                *final(self),
                *old(job),
                *final(job),
                row@,
                material@,
                *wake,
                *bindings,
                r,
            ),
    {
        let derived = match dispatch::fixed_request(&self.parent) {
            Ok((request, _)) => {
                if let Err(e) = dispatch::check_committed(row, material, request, bindings) {
                    return Err(e);
                }
                super::request::dispatch_reference(&wake.scope, request.attempt_id.as_str())
            },
            Err(e) => return Err(e),
        };
        let known = crate::runtime::optional_copy(&job.status.dispatch_ref);
        dispatch::adopt_parent(job, &self.parent);
        match known {
            Some(id) => {
                self.stage = Stage::Known;
                Ok(Do::ReadDispatch(id))
            },
            None => {
                self.stage = Stage::Derived;
                Ok(Do::ReadDispatch(derived))
            },
        }
    }

    /// What is done once it is known what was started before: a question is not
    /// delivered before it was looked whether it has been answered.
    pub open spec fn prior_moves(
        self,
        after: Sending,
        job: Job,
        prior: Option<Json>,
        wake: WakeRecord,
        bindings: ActionBindings,
        r: Result<Do, ActionError>,
        left: Job,
    ) -> bool {
        let request = self.request();
        let known = Sending { prior, ..self };
        if request.kind == ActionKind::DeliverClarification {
            &&& left == job
            &&& match (
                request.payload@.text_at("correlation"@),
                request.payload@.text_at("recipient"@),
                request.payload@.at("reply_deadline_ms"@).as_u64(),
            ) {
                (None, _, _) => fails(r, ActionError::CorrelationMissing),
                (Some(_), None, _) => fails(r, ActionError::RecipientMissing),
                (Some(_), Some(_), None) => fails(r, ActionError::DeadlineMissing),
                (Some(gate), Some(recipient), Some(deadline)) => (r matches Ok(
                    Do::CheckAnswer { gate: own, recipient: asked, deadline: until },
                ) && own@ == gate && asked@ == recipient && until == deadline) && after == (
                Sending { stage: Stage::Answer, ..known }),
            }
        } else {
            known.decides(after, job, left, false, wake, bindings, r)
        }
    }

    /// What follows from what was started before.
    pub open spec fn decides(
        self,
        after: Sending,
        before: Job,
        job: Job,
        answered: bool,
        wake: WakeRecord,
        bindings: ActionBindings,
        r: Result<Do, ActionError>,
    ) -> bool {
        match dispatch::next_step(
            before,
            self.request().kind,
            prior_view(self.prior),
            answered,
            bindings,
        ) {
            Err(e) => fails(r, e) && job == before,
            Ok(DispatchStep::Cancel) => job == before && r == Ok::<Do, ActionError>(Do::CancelWake)
                && after == (Sending { stage: Stage::Cancelled, ..self }),
            Ok(DispatchStep::Finish) => job == before && r == Ok::<Do, ActionError>(Do::Acquire)
                && after == (Sending { stage: Stage::FinishLease, ..self }),
            Ok(DispatchStep::Idle) => job == before && r == Ok::<Do, ActionError>(Do::Stop)
                && after == (Sending { stage: Stage::Over, ..self }),
            Ok(DispatchStep::Lookup) => if before.status.attempts < u32::MAX {
                &&& r == Ok::<Do, ActionError>(Do::Save)
                &&& after == (Sending { stage: Stage::LookupSaved, ..self })
                &&& one_more_attempt(before, job)
            } else {
                fails(r, ActionError::RetryCounter) && job == before
            },
            Ok(DispatchStep::Hold) => {
                &&& held_back(
                    before,
                    job,
                    "dispatch_requires_independent_outcome_or_authoritative_lookup"@,
                    wake.state is Blocked,
                )
                &&& if wake.state is Blocked {
                    r == Ok::<Do, ActionError>(Do::Stop) && after == (Sending {
                        stage: Stage::Over,
                        ..self
                    })
                } else {
                    r == Ok::<Do, ActionError>(Do::Acquire) && after == (Sending {
                        stage: Stage::HoldLease,
                        ..self
                    })
                }
            },
            Ok(DispatchStep::Exhausted) => {
                &&& held_back(before, job, "dispatch_retry_budget_exhausted"@, false)
                &&& if wake.state is Blocked {
                    r == Ok::<Do, ActionError>(Do::Stop) && after == (Sending {
                        stage: Stage::Over,
                        ..self
                    })
                } else {
                    r == Ok::<Do, ActionError>(Do::Acquire) && after == (Sending {
                        stage: Stage::ExhaustedLease,
                        ..self
                    })
                }
            },
            Ok(DispatchStep::Begin) => job == before && r == Ok::<Do, ActionError>(Do::Acquire)
                && after == (Sending { stage: Stage::Lease, ..self }),
        }
    }

    fn decide(
        &mut self,
        job: &mut Job,
        answered: bool,
        wake: &WakeRecord,
        bindings: &ActionBindings,
    ) -> (r: Result<Do, ActionError>)
        requires
            old(self).wf(),
        ensures
            old(self).decides(
                *final(self),
                *old(job),
                *final(job),
                answered,
                *wake,
                *bindings,
                r,
            ),
    {
        let kind = match dispatch::fixed_request(&self.parent) {
            Ok((request, _)) => request.kind,
            Err(e) => return Err(e),
        };
        let prior = match &self.prior {
            Some(record) => Some(record),
            None => None,
        };
        let step = match dispatch::dispatch_step(job, kind, prior, answered, bindings) {
            Ok(step) => step,
            Err(e) => return Err(e),
        };
        match step {
            DispatchStep::Cancel => {
                self.stage = Stage::Cancelled;
                Ok(Do::CancelWake)
            },
            DispatchStep::Finish => {
                self.stage = Stage::FinishLease;
                Ok(Do::Acquire)
            },
            DispatchStep::Idle => {
                self.stage = Stage::Over;
                Ok(Do::Stop)
            },
            DispatchStep::Lookup => {
                if job.status.attempts == u32::MAX {
                    return Err(ActionError::RetryCounter);
                }
                dispatch::count_attempt(job);
                self.stage = Stage::LookupSaved;
                Ok(Do::Save)
            },
            DispatchStep::Hold => if dispatch::held(job, wake) {
                self.stage = Stage::HoldLease;
                Ok(Do::Acquire)
            } else {
                self.stage = Stage::Over;
                Ok(Do::Stop)
            },
            DispatchStep::Exhausted => if dispatch::exhausted(job, wake) {
                self.stage = Stage::ExhaustedLease;
                Ok(Do::Acquire)
            } else {
                self.stage = Stage::Over;
                Ok(Do::Stop)
            },
            DispatchStep::Begin => {
                self.stage = Stage::Lease;
                Ok(Do::Acquire)
            },
        }
    }

    fn prior_known(
        &mut self,
        job: &mut Job,
        prior: Option<Json>,
        wake: &WakeRecord,
        bindings: &ActionBindings,
    ) -> (r: Result<Do, ActionError>)
        requires
            old(self).wf(),
        ensures
            old(self).prior_moves(
                *final(self),
                *old(job),
                prior,
                *wake,
                *bindings,
                r,
                *final(job),
            ),
    {
        let terms = match dispatch::fixed_request(&self.parent) {
            Ok((request, _)) => match request.kind {
                ActionKind::DeliverClarification => Some(
                    dispatch::delivery_terms(&request.payload),
                ),
                ActionKind::Business => None,
            },
            Err(e) => return Err(e),
        };
        match terms {
            Some(Ok((gate, recipient, deadline))) => {
                self.prior = prior;
                self.stage = Stage::Answer;
                Ok(Do::CheckAnswer { gate, recipient, deadline })
            },
            Some(Err(e)) => Err(e),
            None => {
                self.prior = prior;
                self.decide(job, false, wake, bindings)
            },
        }
    }

    /// A dispatch that the journal knows of may be missing: then the one under the
    /// identity of the attempt is looked for.
    pub open spec fn known_moves(
        self,
        after: Sending,
        before: Job,
        job: Job,
        found: Option<Json>,
        wake: WakeRecord,
        bindings: ActionBindings,
        r: Result<Do, ActionError>,
    ) -> bool {
        match found {
            Some(_) => self.prior_moves(after, before, found, wake, bindings, r, job),
            None => job == before && (r matches Ok(Do::ReadDispatch(id)) && self.derived(wake)
                == Some(id@)) && after == (Sending { stage: Stage::Derived, ..self }),
        }
    }

    fn on_known(
        &mut self,
        job: &mut Job,
        found: Option<Json>,
        wake: &WakeRecord,
        bindings: &ActionBindings,
    ) -> (r: Result<Do, ActionError>)
        requires
            old(self).wf(),
        ensures
            old(self).known_moves(
                *final(self),
                *old(job),
                *final(job),
                found,
                *wake,
                *bindings,
                r,
            ),
    {
        if found.is_some() {
            return self.prior_known(job, found, wake, bindings);
        }
        let derived = match dispatch::fixed_request(&self.parent) {
            Ok((request, _)) => super::request::dispatch_reference(
                &wake.scope,
                request.attempt_id.as_str(),
            ),
            Err(e) => return Err(e),
        };
        self.stage = Stage::Derived;
        Ok(Do::ReadDispatch(derived))
    }

    /// A dispatch that was found under the identity of its attempt is the one.
    pub open spec fn derived_moves(
        self,
        after: Sending,
        before: Job,
        job: Job,
        found: Option<Json>,
        wake: WakeRecord,
        bindings: ActionBindings,
        r: Result<Do, ActionError>,
    ) -> bool {
        match found {
            Some(_) => exists|known: Job|
                known == (Job { status: known.status, ..before }) && known.status@ == (Status {
                    dispatch_ref: self.derived(wake),
                    ..before.status@
                }) && #[trigger] self.prior_moves(after, known, found, wake, bindings, r, job),
            None => self.prior_moves(after, before, found, wake, bindings, r, job),
        }
    }

    fn on_derived(
        &mut self,
        job: &mut Job,
        found: Option<Json>,
        wake: &WakeRecord,
        bindings: &ActionBindings,
    ) -> (r: Result<Do, ActionError>)
        requires
            old(self).wf(),
        ensures
            old(self).derived_moves(
                *final(self),
                *old(job),
                *final(job),
                found,
                *wake,
                *bindings,
                r,
            ),
    {
        if found.is_some() {
            match dispatch::fixed_request(&self.parent) {
                Ok((request, _)) => dispatch::recover_dispatch(job, wake, request),
                Err(e) => return Err(e),
            }
        }
        let ghost known = *job;
        let r = self.prior_known(job, found, wake, bindings);
        assert(old(self).prior_moves(*self, known, found, *wake, *bindings, r, *job));
        r
    }
}

/// One attempt more was counted, and nothing else changed.
pub open spec fn one_more_attempt(before: Job, job: Job) -> bool {
    &&& job == (Job { status: job.status, ..before })
    &&& job.status@ == (Status { attempts: (before.status.attempts + 1) as u32, ..before.status@ })
}

/// The work is held back, for that reason; it is blocked where its wake is.
pub open spec fn held_back(before: Job, job: Job, reason: Seq<char>, blocked: bool) -> bool {
    &&& job == (Job { status: job.status, ..before })
    &&& job.status@ == (Status {
        reason: Some(reason),
        state: if blocked {
            "blocked"@
        } else {
            before.status@.state
        },
        next_run_ms: if blocked {
            None
        } else {
            before.status@.next_run_ms
        },
        ..before.status@
    })
}

// ---------------------------------------------------------------------------
// Sending
// ---------------------------------------------------------------------------

impl Sending {
    /// Right before a dispatch its context is read afresh, and the attempt is
    /// counted before it is made.
    pub open spec fn fresh_moves(
        self,
        after: Sending,
        before: Job,
        job: Job,
        fresh: Capture,
        r: Result<Do, ActionError>,
    ) -> bool {
        match self.parent.prepared->0.capture.stale(
            fresh,
            self.request().kind == ActionKind::DeliverClarification,
        ) {
            Some(e) => fails(r, e) && job == before,
            None => if before.status.attempts < u32::MAX {
                &&& r == Ok::<Do, ActionError>(Do::Save)
                &&& after == (Sending { stage: Stage::Saved, ..self })
                &&& one_more_attempt(before, job)
            } else {
                fails(r, ActionError::RetryCounter) && job == before
            },
        }
    }

    fn on_fresh(&mut self, job: &mut Job, fresh: &Capture) -> (r: Result<Do, ActionError>)
        requires
            old(self).wf(),
        ensures
            old(self).fresh_moves(*final(self), *old(job), *final(job), *fresh, r),
    {
        let delivers = match dispatch::fixed_request(&self.parent) {
            Ok((request, _)) => match request.kind {
                ActionKind::DeliverClarification => true,
                ActionKind::Business => false,
            },
            Err(e) => return Err(e),
        };
        if let Some(prepared) = &self.parent.prepared {
            if let Err(e) = prepared.capture.revalidate(fresh, delivers) {
                return Err(e);
            }
        }
        if job.status.attempts == u32::MAX {
            return Err(ActionError::RetryCounter);
        }
        dispatch::count_attempt(job);
        self.stage = Stage::Saved;
        Ok(Do::Save)
    }

    /// The engine is asked for a permit, as the adapter stands now.
    pub open spec fn saved_moves(
        self,
        after: Sending,
        bindings: ActionBindings,
        r: Result<Do, ActionError>,
    ) -> bool {
        match dispatch::adapter(bindings, self.request().kind) {
            None => fails(r, ActionError::BindingUnavailable),
            Some(idempotent) => r == Ok::<Do, ActionError>(
                Do::Begin { idempotent, lookup: bindings.lookup is Some },
            ) && after == (Sending { stage: Stage::Permit, ..self }),
        }
    }

    fn on_saved(&mut self, bindings: &ActionBindings) -> (r: Result<Do, ActionError>)
        requires
            old(self).wf(),
        ensures
            old(self).saved_moves(*final(self), *bindings, r),
    {
        let adapter = match dispatch::fixed_request(&self.parent) {
            Ok((request, _)) => dispatch::executor(bindings, request.kind),
            Err(e) => return Err(e),
        };
        match adapter {
            Ok(idempotent) => {
                self.stage = Stage::Permit;
                Ok(Do::Begin { idempotent, lookup: bindings.lookup.is_some() })
            },
            Err(e) => Err(e),
        }
    }

    /// Only a permit for exactly this attempt, under a live lease, leads to the
    /// adapter.
    pub open spec fn permit_moves(
        self,
        after: Sending,
        before: Job,
        job: Job,
        permit: Datum,
        wake: WakeRecord,
        now: u64,
        bindings: ActionBindings,
        r: Result<Do, ActionError>,
    ) -> bool {
        let refused = dispatch::permit_refused(permit, self.request().attempt_id@, wake);
        &&& job == (Job { status: job.status, ..before })
        &&& job.status@ == dispatch::permitted_status(
            before.status@,
            permit,
            refused,
            now,
            bindings.limits,
        )
        &&& match refused {
            Some(e) => fails(r, e),
            None => if permit.text_at("action"@) == Some("dispatch"@) {
                (r matches Ok(Do::Deliver(p)) && dispatch::is_permit(
                    p,
                    permit,
                    wake,
                    self.attempt(),
                )) && after == (Sending { stage: Stage::Delivery, ..self })
            } else {
                r == Ok::<Do, ActionError>(Do::Stop) && after == (Sending {
                    stage: Stage::Over,
                    ..self
                })
            },
        }
    }

    fn on_permit(
        &mut self,
        job: &mut Job,
        permit: &Json,
        wake: &WakeRecord,
        now: u64,
        bindings: &ActionBindings,
    ) -> (r: Result<Do, ActionError>)
        requires
            old(self).wf(),
            bindings.limits.bounded(),
            now <= u64::MAX - MAX_DELAY_MS,
        ensures
            old(self).permit_moves(
                *final(self),
                *old(job),
                *final(job),
                permit@,
                *wake,
                now,
                *bindings,
                r,
            ),
    {
        let allowed = match dispatch::fixed_request(&self.parent) {
            Ok((request, attempt)) => dispatch::permitted(
                job,
                permit,
                request,
                attempt.as_str(),
                wake,
                now,
                &bindings.limits,
            ),
            Err(e) => {
                assert(false);
                return Err(e);
            },
        };
        match allowed {
            Ok(Permission::Dispatch(p)) => {
                self.stage = Stage::Delivery;
                Ok(Do::Deliver(p))
            },
            Ok(Permission::Settled) => {
                self.stage = Stage::Over;
                Ok(Do::Stop)
            },
            Err(e) => Err(e),
        }
    }

    /// What one report leads to.
    pub open spec fn moves(
        self,
        after: Sending,
        before: Job,
        job: Job,
        heard: Heard,
        wake: WakeRecord,
        now: u64,
        bindings: ActionBindings,
        r: Result<Do, ActionError>,
    ) -> bool {
        match (self.stage, heard) {
            (Stage::Attempt, Heard::Attempt { row, material }) => self.attempt_moves(
                after,
                before,
                job,
                row@,
                material@,
                wake,
                bindings,
                r,
            ),
            (Stage::Known, Heard::Dispatch(found)) => self.known_moves(
                after,
                before,
                job,
                found,
                wake,
                bindings,
                r,
            ),
            (Stage::Derived, Heard::Dispatch(found)) => self.derived_moves(
                after,
                before,
                job,
                found,
                wake,
                bindings,
                r,
            ),
            (Stage::Answer, Heard::Answered(answered)) => self.decides(
                after,
                before,
                job,
                answered,
                wake,
                bindings,
                r,
            ),
            (Stage::Cancelled, Heard::Done) => {
                &&& self.ends(after, r)
                &&& job == (Job { status: job.status, ..before })
                &&& job.status@ == (Status {
                    state: "cancelled"@,
                    reason: Some("clarification_answered_before_delivery"@),
                    next_run_ms: None,
                    ..before.status@
                })
            },
            (Stage::FinishLease, Heard::Leased) => job == before && r == Ok::<Do, ActionError>(
                Do::FinishWake,
            ) && after == (Sending { stage: Stage::Finished, ..self }),
            (Stage::Finished, Heard::Done) => {
                &&& self.ends(after, r)
                &&& job == (Job { status: job.status, ..before })
                &&& job.status@ == (Status {
                    state: "completed"@,
                    next_run_ms: None,
                    ..before.status@
                })
            },
            (Stage::LookupSaved, Heard::Saved) => job == before && match before.status.dispatch_ref {
                Some(known) => (r matches Ok(Do::LookUp(id)) && id@ == known@) && after == (
                Sending { stage: Stage::LookedUp, ..self }),
                None => fails(r, ActionError::DispatchReferenceMissing),
            },
            (Stage::LookedUp, Heard::Observed(observed)) => {
                &&& self.ends(after, r)
                &&& job == (Job {
                    status: job.status,
                    delivery: dispatch::looked_up(observed, before.delivery),
                    ..before
                })
                &&& job.status@ == (Status {
                    state: dispatch::lookup_state(observed),
                    next_run_ms: Some((now + bindings.limits.retry_ms) as u64),
                    ..before.status@
                })
            },
            (Stage::HoldLease, Heard::Leased) => job == before && r == Ok::<Do, ActionError>(
                Do::Block("outcome_unknown"),
            ) && after == (Sending { stage: Stage::Over, ..self }),
            (Stage::ExhaustedLease, Heard::Leased) => job == before && r == Ok::<Do, ActionError>(
                Do::Block("budget_exhausted"),
            ) && after == (Sending { stage: Stage::Over, ..self }),
            (Stage::Lease, Heard::Leased) => job == before && r == Ok::<Do, ActionError>(
                Do::Authorize,
            ) && after == (Sending { stage: Stage::Authorization, ..self }),
            (Stage::Authorization, Heard::Authorized) => job == before && r == Ok::<
                Do,
                ActionError,
            >(Do::Revalidate) && after == (Sending { stage: Stage::Fresh, ..self }),
            (Stage::Fresh, Heard::Context(fresh)) => self.fresh_moves(after, before, job, fresh, r),
            (Stage::Saved, Heard::Saved) => job == before && self.saved_moves(after, bindings, r),
            (Stage::Permit, Heard::Permit(permit)) => self.permit_moves(
                after,
                before,
                job,
                permit@,
                wake,
                now,
                bindings,
                r,
            ),
            (Stage::Delivery, Heard::Delivery(report)) => {
                &&& self.ends(after, r)
                &&& job == (Job {
                    status: job.status,
                    delivery: Some(
                        match report {
                            Some(status) => status,
                            None => DeliveryStatus::Unknown,
                        },
                    ),
                    ..before
                })
                &&& job.status@ == (Status {
                    state: if report is None || report == Some(DeliveryStatus::Unknown) {
                        "outcome_unknown"@
                    } else {
                        "awaiting_outcome"@
                    },
                    next_run_ms: Some((now + bindings.limits.retry_ms) as u64),
                    ..before.status@
                })
            },
            _ => job == before && after == self && fails(r, ActionError::OutOfTurn),
        }
    }

    pub open spec fn ends(self, after: Sending, r: Result<Do, ActionError>) -> bool {
        r == Ok::<Do, ActionError>(Do::Stop) && after == (Sending { stage: Stage::Over, ..self })
    }

    fn stop(&mut self) -> (r: Result<Do, ActionError>)
        ensures
            old(self).ends(*final(self), r),
    {
        self.stage = Stage::Over;
        Ok(Do::Stop)
    }

    /// Takes a report over, and says what the host does next.
    pub fn step(
        &mut self,
        job: &mut Job,
        heard: Heard,
        wake: &WakeRecord,
        now: u64,
        bindings: &ActionBindings,
    ) -> (r: Result<Do, ActionError>)
        requires
            old(self).wf(),
            bindings.limits.bounded(),
            now <= u64::MAX - MAX_DELAY_MS,
        ensures
            old(self).moves(*final(self), *old(job), *final(job), heard, *wake, now, *bindings, r),
            r is Ok ==> final(self).wf(),
    {
        match (self.stage, heard) {
            (Stage::Attempt, Heard::Attempt { row, material }) => self.on_attempt(
                job,
                &row,
                &material,
                wake,
                bindings,
            ),
            (Stage::Known, Heard::Dispatch(found)) => self.on_known(job, found, wake, bindings),
            (Stage::Derived, Heard::Dispatch(found)) => self.on_derived(job, found, wake, bindings),
            (Stage::Answer, Heard::Answered(answered)) => self.decide(
                job,
                answered,
                wake,
                bindings,
            ),
            (Stage::Cancelled, Heard::Done) => {
                dispatch::cancelled(job);
                self.stop()
            },
            (Stage::FinishLease, Heard::Leased) => {
                self.stage = Stage::Finished;
                Ok(Do::FinishWake)
            },
            (Stage::Finished, Heard::Done) => {
                dispatch::completed(job);
                self.stop()
            },
            (Stage::LookupSaved, Heard::Saved) => match &job.status.dispatch_ref {
                Some(known) => {
                    self.stage = Stage::LookedUp;
                    Ok(Do::LookUp(known.clone()))
                },
                None => Err(ActionError::DispatchReferenceMissing),
            },
            (Stage::LookedUp, Heard::Observed(observed)) => {
                dispatch::lookup_observed(job, observed, now, &bindings.limits);
                self.stop()
            },
            (Stage::HoldLease, Heard::Leased) => {
                self.stage = Stage::Over;
                Ok(Do::Block("outcome_unknown"))
            },
            (Stage::ExhaustedLease, Heard::Leased) => {
                self.stage = Stage::Over;
                Ok(Do::Block("budget_exhausted"))
            },
            (Stage::Lease, Heard::Leased) => {
                self.stage = Stage::Authorization;
                Ok(Do::Authorize)
            },
            (Stage::Authorization, Heard::Authorized) => {
                self.stage = Stage::Fresh;
                Ok(Do::Revalidate)
            },
            (Stage::Fresh, Heard::Context(fresh)) => self.on_fresh(job, &fresh),
            (Stage::Saved, Heard::Saved) => self.on_saved(bindings),
            (Stage::Permit, Heard::Permit(permit)) => self.on_permit(
                job,
                &permit,
                wake,
                now,
                bindings,
            ),
            (Stage::Delivery, Heard::Delivery(report)) => {
                dispatch::delivered(job, report, now, &bindings.limits);
                self.stop()
            },
            _ => Err(ActionError::OutOfTurn),
        }
    }
}

// ---------------------------------------------------------------------------
// Laws
// ---------------------------------------------------------------------------

/// Every step comes closer to the end: a dispatch is done with after at most ten
/// of them.
pub proof fn dispatches_come_to_an_end(
    before: Sending,
    after: Sending,
    old_job: Job,
    job: Job,
    heard: Heard,
    wake: WakeRecord,
    now: u64,
    bindings: ActionBindings,
    r: Result<Do, ActionError>,
)
    requires
        before.moves(after, old_job, job, heard, wake, now, bindings, r),
        r is Ok,
    ensures
        after.stage.rank() < before.stage.rank() <= 10,
        after.parent == before.parent,
{
}

/// The way to an adapter is the same for every action, and none of its steps can
/// be left out: a lease, the authorisation of policy and adapter, a context that
/// is still current, an attempt that the journal counts, and the engine's permit
/// for exactly this attempt.
pub proof fn adapters_are_called_last(
    before: Sending,
    after: Sending,
    old_job: Job,
    job: Job,
    heard: Heard,
    wake: WakeRecord,
    now: u64,
    bindings: ActionBindings,
    r: Result<Do, ActionError>,
)
    requires
        before.moves(after, old_job, job, heard, wake, now, bindings, r),
        r is Ok,
    ensures
        after.stage == Stage::Authorization ==> before.stage == Stage::Lease && heard is Leased,
        after.stage == Stage::Fresh ==> before.stage == Stage::Authorization && heard
            is Authorized,
        after.stage == Stage::Saved ==> before.stage == Stage::Fresh && (heard matches Heard::Context(
            fresh,
        ) && before.parent.prepared->0.capture.stale(
            fresh,
            before.request().kind == ActionKind::DeliverClarification,
        ) is None) && job.status.attempts == old_job.status.attempts + 1,
        after.stage == Stage::Permit ==> before.stage == Stage::Saved && heard is Saved,
        r->Ok_0 matches Do::Deliver(p) ==> before.stage == Stage::Permit && (heard
            matches Heard::Permit(permit) && dispatch::permit_refused(
            permit@,
            before.request().attempt_id@,
            wake,
        ) is None && dispatch::is_permit(p, permit@, wake, before.attempt())),
{
}

/// A dispatch that was started before leads to a new attempt only where it is
/// known not to have been taken up, or where its target takes it for the same one.
pub proof fn nothing_starts_twice(
    before: Sending,
    after: Sending,
    old_job: Job,
    job: Job,
    answered: bool,
    wake: WakeRecord,
    bindings: ActionBindings,
    r: Result<Do, ActionError>,
)
    requires
        before.decides(after, old_job, job, answered, wake, bindings, r),
        r is Ok,
        after.stage == Stage::Lease,
    ensures
        before.prior is None || dispatch::stands(prior_view(before.prior), "ready"@)
            || dispatch::adapter(bindings, before.request().kind) == Some(true)
            && !dispatch::stands(prior_view(before.prior), "outcome_unknown"@),
{
}

} // verus!
