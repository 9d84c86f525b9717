//! The preparation of a commit, step by step: what a decision rests on is checked
//! against the receipt of its delivery, and the request of an action is stored
//! before the command that commits it is written.

use vstd::prelude::*;

use super::context::Capture;
use super::journal::PreparedGate;
use super::native::{self, DeliveryReceipt, GatePlan, UsedMemory};
use super::request::Proposal;
use super::{ActionBindings, ActionError};
use crate::json::{Datum, Json};
use crate::text;
use crate::wake::{WakeRecord, MAX_DELAY_MS};

verus! {

/// What the host is waited for.
#[derive(Clone, Copy, Debug, PartialEq, Eq, Structural)]
pub enum Stage {
    Receipt,
    /// The present content of what is used.
    Used,
    Issue,
    Selection,
    Over,
}

/// What the host does next.
#[derive(Debug)]
pub enum Ask {
    /// Read the receipt that the request names.
    ReadReceipt,
    /// Read these elements as they stand, and digest them.
    ReadUsed(Vec<String>),
    /// Issue a receipt for the packet, under that label.
    Issue(String),
    /// Store the material, bound to these sources.
    Store { material: Json, sources: Vec<String> },
    Stop,
}

/// What the host reports.
#[derive(Debug)]
pub enum Told {
    Receipt(DeliveryReceipt),
    Used(Vec<UsedMemory>),
    Issued(Json),
    /// The material was stored at that time.
    Stored { selection: Json, started_at: String },
}

/// How far a preparation has come.
#[derive(Debug)]
pub struct Preparing {
    pub stage: Stage,
    pub rounds: u32,
    pub capture: Option<Capture>,
    pub proposal: Option<Proposal>,
    /// What is used, by its identities.
    pub used: Vec<String>,
    pub receipt: Option<DeliveryReceipt>,
    pub plan: Option<GatePlan>,
    pub prepared: Option<PreparedGate>,
}

pub open spec fn fails(r: Result<Ask, ActionError>, e: ActionError) -> bool {
    r matches Err(own) && own == e
}

pub open spec fn proceeds(r: Result<Ask, ActionError>, ask: Ask) -> bool {
    r matches Ok(own) && own == ask
}

/// The label of a receipt that is issued for a wake.
pub open spec fn label_of(wake_ref: Seq<char>, rounds: u32) -> Seq<char> {
    "gate:"@ + wake_ref + ":"@ + text::decimal(rounds as nat)
}

fn label(wake_ref: &str, rounds: u32) -> (r: String)
    ensures
        r@ == label_of(wake_ref@, rounds),
{
    let mut out = "gate:".to_owned();
    out.append(wake_ref);
    out.append(":");
    out.append(text::decimal_text(rounds as u64).as_str());
    out
}

fn used_by(proposal: &Proposal) -> (r: Vec<String>)
    ensures
        text::views(r@) == proposal.used(),
{
    match proposal {
        Proposal::Act { used_refs, .. } => text::copy_list(used_refs),
        Proposal::Ask { used_refs, .. } => text::copy_list(used_refs),
        Proposal::Silence { used_refs, .. } => text::copy_list(used_refs),
        Proposal::Defer { .. } => {
            let none: Vec<String> = Vec::new();
            assert(text::views(none@) =~= Seq::empty());
            none
        },
    }
}

fn append_all(list: &mut Vec<String>, more: &Vec<String>)
    ensures
        text::views(final(list)@) == text::views(old(list)@) + text::views(more@),
{
    let ghost before = text::views(list@);
    let mut i: usize = 0;
    proof {
        assert(text::views(more@).take(0) =~= Seq::empty());
        assert(before + Seq::<Seq<char>>::empty() =~= before);
    }
    while i < more.len()
        invariant
            i <= more.len(),
            text::views(list@) == before + text::views(more@).take(i as int),
        decreases more.len() - i,
    {
        let ghost now = text::views(list@);
        list.push(more[i].clone());
        proof {
            assert(text::views(list@) =~= now.push(more@[i as int]@));
            assert(text::views(more@).take(i + 1) =~= text::views(more@).take(i as int).push(
                more@[i as int]@,
            ));
            assert(before + text::views(more@).take(i + 1) =~= now.push(more@[i as int]@));
        }
        i = i + 1;
    }
    assert(text::views(more@).take(i as int) =~= text::views(more@));
}

/// The host answered for exactly these identities.
pub open spec fn answers(used: Seq<UsedMemory>, ids: Seq<String>) -> bool {
    used.len() == ids.len() && forall|i: int|
        0 <= i < ids.len() ==> (#[trigger] used[i]).id@ == ids[i]@
}

fn answered(used: &Vec<UsedMemory>, ids: &Vec<String>) -> (r: bool)
    ensures
        r == answers(used@, ids@),
{
    if used.len() != ids.len() {
        return false;
    }
    let mut i: usize = 0;
    while i < ids.len()
        invariant
            i <= ids.len(),
            used@.len() == ids@.len(),
            forall|k: int| 0 <= k < i ==> (#[trigger] used@[k]).id@ == ids@[k]@,
        decreases ids.len() - i,
    {
        if !text::same(used[i].id.as_str(), ids[i].as_str()) {
            assert(used@[i as int].id@ != ids@[i as int]@);
            return false;
        }
        i = i + 1;
    }
    true
}

impl Preparing {
    pub open spec fn wf(self) -> bool {
        &&& self.stage == Stage::Receipt || self.stage == Stage::Used || self.stage
            == Stage::Issue ==> self.proposal is Some
        &&& self.stage != Stage::Over ==> self.capture is Some
        &&& self.stage == Stage::Used ==> self.receipt is Some
        &&& self.stage == Stage::Selection ==> self.plan is Some && self.plan->0.request is Some
    }

    /// The plan is sealed.
    pub open spec fn seals(
        self,
        after: Preparing,
        plan: GatePlan,
        selection: Datum,
        started_at: Seq<char>,
        bindings: ActionBindings,
        wake: WakeRecord,
        r: Result<Ask, ActionError>,
    ) -> bool {
        match native::request_digest_of(plan) {
            None => fails(r, ActionError::Undigestible),
            Some(digest) => {
                let command = native::command_of(
                    plan,
                    bindings,
                    wake,
                    self.capture->0,
                    digest,
                    selection,
                    started_at,
                );
                if text::utf8_len(command) > native::MAX_COMMIT_BYTES {
                    fails(r, ActionError::CommitTooLarge)
                } else {
                    &&& after.stage == Stage::Over
                    &&& after.prepared matches Some(own) && own.command@ == command
                        && own.continuations == plan.continuations && own.expected == wake.version
                        && own.fence == wake.fence && own.decision@ == plan.decision@
                        && own.capture == self.capture->0 && own.request == plan.request
                        && own.recipient == plan.recipient && own.reply_deadline_ms
                        == plan.reply_deadline_ms && own.clarification_payload
                        == plan.clarification_payload
                    &&& proceeds(r, Ask::Stop)
                }
            },
        }
    }

    /// The decision becomes a plan; the request of an action is stored before it
    /// can be committed.
    pub open spec fn plans(
        self,
        after: Preparing,
        bindings: ActionBindings,
        wake: WakeRecord,
        now: u64,
        started_at: Seq<char>,
        r: Result<Ask, ActionError>,
    ) -> bool {
        let proposal = self.proposal->0;
        if proposal is Ask && bindings.clarification is None {
            fails(r, ActionError::ClarificationBindingMissing)
        } else {
            exists|plan: GatePlan| #[trigger]
                plan.carries_out(
                    proposal,
                    bindings,
                    wake,
                    self.rounds,
                    self.capture->0.request,
                    now,
                ) && match plan.request {
                    Some(request) => {
                        &&& after == (Preparing {
                            stage: Stage::Selection,
                            proposal: None,
                            plan: Some(plan),
                            ..self
                        })
                        &&& r matches Ok(Ask::Store { material, sources }) && material@
                            == native::selection_value(bindings, request) && text::views(sources@)
                            == text::views(self.capture->0.retrieved@)
                    },
                    None => self.seals(
                        after,
                        plan,
                        Datum::Null,
                        started_at,
                        bindings,
                        wake,
                        r,
                    ),
                }
        }
    }

    fn seal(
        &mut self,
        plan: GatePlan,
        selection: &Json,
        started_at: &str,
        bindings: &ActionBindings,
        wake: &WakeRecord,
    ) -> (r: Result<Ask, ActionError>)
        requires
            old(self).capture is Some,
        ensures
            old(self).seals(
                *final(self),
                plan,
                selection@,
                started_at@,
                *bindings,
                *wake,
                r,
            ),
            r is Ok ==> final(self).stage == Stage::Over,
    {
        let capture = match self.capture.take() {
            Some(capture) => capture,
            None => {
                assert(false);
                return Err(ActionError::OutOfTurn);
            },
        };
        match native::seal_gate(plan, bindings, wake, capture, selection, started_at) {
            Ok(prepared) => {
                self.prepared = Some(prepared);
                self.stage = Stage::Over;
                Ok(Ask::Stop)
            },
            Err(e) => Err(e),
        }
    }

    fn make_plan(
        &mut self,
        bindings: &ActionBindings,
        wake: &WakeRecord,
        now: u64,
        started_at: &str,
    ) -> (r: Result<Ask, ActionError>)
        requires
            old(self).proposal is Some,
            old(self).capture is Some,
            bindings.refused() is None,
            now <= u64::MAX - MAX_DELAY_MS,
        ensures
            old(self).plans(*final(self), *bindings, *wake, now, started_at@, r),
            r is Ok ==> final(self).wf(),
    {
        let proposal = match self.proposal.take() {
            Some(proposal) => proposal,
            None => return Err(ActionError::OutOfTurn),
        };
        let ghost request = self.capture->0.request;
        let made = match &self.capture {
            Some(capture) => native::plan_gate(
                bindings,
                wake,
                self.rounds,
                &capture.request,
                proposal,
                now,
            ),
            None => return Err(ActionError::OutOfTurn),
        };
        let plan = match made {
            Ok(plan) => plan,
            Err(e) => return Err(e),
        };
        assert(plan.carries_out(proposal, *bindings, *wake, self.rounds, request, now));
        if let Some(fixed) = &plan.request {
            let material = native::selection_material(bindings, fixed);
            let sources = match &self.capture {
                Some(capture) => text::copy_list(&capture.retrieved),
                None => return Err(ActionError::OutOfTurn),
            };
            self.plan = Some(plan);
            self.stage = Stage::Selection;
            return Ok(Ask::Store { material, sources });
        }
        self.seal(plan, &Json::Null, started_at, bindings, wake)
    }

    /// Nothing was heard of these yet.
    pub open spec fn is_fresh(self, capture: Capture, proposal: Proposal, rounds: u32) -> bool {
        &&& self.stage == Stage::Receipt
        &&& self.rounds == rounds
        &&& self.capture == Some(capture)
        &&& self.proposal == Some(proposal)
        &&& self.used@.len() == 0
        &&& self.receipt is None
        &&& self.plan is None
        &&& self.prepared is None
    }

    /// How a preparation starts: with the receipt that the request names, with a
    /// new one, or where no receipts are kept with the plan.
    pub open spec fn begins(
        self,
        after: Preparing,
        receipts: bool,
        bindings: ActionBindings,
        wake: WakeRecord,
        now: u64,
        started_at: Seq<char>,
        r: Result<Ask, ActionError>,
    ) -> bool {
        if !receipts {
            self.plans(after, bindings, wake, now, started_at, r)
        } else if self.capture->0.request.recall_receipt is Some {
            after == (Preparing { stage: Stage::Receipt, ..self }) && proceeds(r, Ask::ReadReceipt)
        } else {
            &&& after == (Preparing { stage: Stage::Issue, ..self })
            &&& r matches Ok(Ask::Issue(own)) && own@ == label_of(wake.wake_ref@, self.rounds)
        }
    }

    /// Starts a preparation.
    pub fn begin(
        capture: Capture,
        proposal: Proposal,
        rounds: u32,
        receipts: bool,
        bindings: &ActionBindings,
        wake: &WakeRecord,
        now: u64,
        started_at: &str,
    ) -> (r: (Preparing, Result<Ask, ActionError>))
        requires
            bindings.refused() is None,
            now <= u64::MAX - MAX_DELAY_MS,
        ensures
            exists|start: Preparing| #[trigger]
                start.is_fresh(capture, proposal, rounds) && start.begins(
                    r.0,
                    receipts,
                    *bindings,
                    *wake,
                    now,
                    started_at@,
                    r.1,
                ),
            r.1 is Ok ==> r.0.wf(),
    {
        let mut preparing = Preparing {
            stage: Stage::Receipt,
            rounds,
            capture: Some(capture),
            proposal: Some(proposal),
            used: Vec::new(),
            receipt: None,
            plan: None,
            prepared: None,
        };
        let ghost start = preparing;
        assert(start.is_fresh(capture, proposal, rounds));
        let known = match &preparing.capture {
            Some(own) => own.request.recall_receipt.is_some(),
            None => false,
        };
        let r = if !receipts {
            preparing.make_plan(bindings, wake, now, started_at)
        } else if known {
            Ok(Ask::ReadReceipt)
        } else {
            preparing.stage = Stage::Issue;
            Ok(Ask::Issue(label(wake.wake_ref.as_str(), rounds)))
        };
        assert(start.begins(preparing, receipts, *bindings, *wake, now, started_at@, r));
        (preparing, r)
    }

    /// Only a complete and bounded delivery carries an action; everything that is
    /// used or applied is looked at.
    pub open spec fn receipt_moves(
        self,
        after: Preparing,
        receipt: DeliveryReceipt,
        r: Result<Ask, ActionError>,
    ) -> bool {
        if !receipt.verified() {
            fails(r, ActionError::ReceiptUnverified)
        } else {
            &&& after == (Preparing {
                stage: Stage::Used,
                used: after.used,
                receipt: Some(receipt),
                ..self
            })
            &&& text::views(after.used@) == self.proposal->0.used() + text::views(
                self.capture->0.request.applied_revisions@,
            )
            &&& r matches Ok(Ask::ReadUsed(ids)) && text::views(ids@) == text::views(after.used@)
        }
    }

    fn on_receipt(&mut self, receipt: DeliveryReceipt) -> (r: Result<Ask, ActionError>)
        requires
            old(self).wf(),
            old(self).stage == Stage::Receipt,
        ensures
            old(self).receipt_moves(*final(self), receipt, r),
            r is Ok ==> final(self).wf(),
    {
        let nothing: Vec<UsedMemory> = Vec::new();
        if let Err(e) = native::check_receipt(&receipt, &nothing) {
            return Err(e);
        }
        let mut used = match &self.proposal {
            Some(proposal) => used_by(proposal),
            None => return Err(ActionError::OutOfTurn),
        };
        match &self.capture {
            Some(capture) => append_all(&mut used, &capture.request.applied_revisions),
            None => return Err(ActionError::OutOfTurn),
        }
        let ids = text::copy_list(&used);
        self.used = used;
        self.receipt = Some(receipt);
        self.stage = Stage::Used;
        Ok(Ask::ReadUsed(ids))
    }

    /// The capture with the receipt of its delivery.
    pub open spec fn receipted(self, ready: Preparing, receipt: Datum) -> bool {
        &&& ready == (Preparing { capture: ready.capture, receipt: None, ..self })
        &&& ready.capture matches Some(own) && own == (Capture {
            receipt: own.receipt,
            ..self.capture->0
        }) && (own.receipt matches Some(noted) && noted@ == receipt)
    }

    /// What is used was delivered and is unchanged, or nothing is prepared.
    pub open spec fn used_moves(
        self,
        after: Preparing,
        used: Seq<UsedMemory>,
        bindings: ActionBindings,
        wake: WakeRecord,
        now: u64,
        started_at: Seq<char>,
        r: Result<Ask, ActionError>,
    ) -> bool {
        if !answers(used, self.used@) {
            fails(r, ActionError::OutOfTurn)
        } else if !self.receipt->0.verified() {
            fails(r, ActionError::ReceiptUnverified)
        } else if !(forall|i: int|
            0 <= i < used.len() ==> self.receipt->0.covers(#[trigger] used[i])) {
            fails(r, ActionError::UsedMemoryChanged)
        } else {
            match self.capture->0.request.recall_receipt {
                None => fails(r, ActionError::OutOfTurn),
                Some(reference) => exists|ready: Preparing| #[trigger]
                    self.receipted(ready, reference@) && ready.plans(
                        after,
                        bindings,
                        wake,
                        now,
                        started_at,
                        r,
                    ),
            }
        }
    }

    fn note_receipt(&mut self, receipt: Json) -> (r: Result<(), ActionError>)
        requires
            old(self).capture is Some,
        ensures
            r is Ok,
            old(self).receipted(*final(self), receipt@),
    {
        let mut capture = match self.capture.take() {
            Some(capture) => capture,
            None => {
                assert(false);
                return Err(ActionError::OutOfTurn);
            },
        };
        capture.receipt = Some(receipt);
        self.capture = Some(capture);
        self.receipt = None;
        Ok(())
    }

    fn on_used(
        &mut self,
        used: &Vec<UsedMemory>,
        bindings: &ActionBindings,
        wake: &WakeRecord,
        now: u64,
        started_at: &str,
    ) -> (r: Result<Ask, ActionError>)
        requires
            old(self).wf(),
            old(self).stage == Stage::Used,
            bindings.refused() is None,
            now <= u64::MAX - MAX_DELAY_MS,
        ensures
            old(self).used_moves(
                *final(self),
                used@,
                *bindings,
                *wake,
                now,
                started_at@,
                r,
            ),
            r is Ok ==> final(self).wf(),
    {
        if !answered(used, &self.used) {
            return Err(ActionError::OutOfTurn);
        }
        let checked = match &self.receipt {
            Some(receipt) => native::check_receipt(receipt, used),
            None => Err(ActionError::OutOfTurn),
        };
        if let Err(e) = checked {
            return Err(e);
        }
        let named = match &self.capture {
            Some(capture) => match &capture.request.recall_receipt {
                Some(reference) => Some(reference.copy()),
                None => None,
            },
            None => None,
        };
        let reference = match named {
            Some(reference) => reference,
            None => return Err(ActionError::OutOfTurn),
        };
        if let Err(e) = self.note_receipt(reference) {
            return Err(e);
        }
        let ghost ready = *self;
        let r = self.make_plan(bindings, wake, now, started_at);
        assert(old(self).receipted(
            ready,
            old(self).capture->0.request.recall_receipt->0@,
        ));
        r
    }

    pub open spec fn issued_moves(
        self,
        after: Preparing,
        receipt: Datum,
        bindings: ActionBindings,
        wake: WakeRecord,
        now: u64,
        started_at: Seq<char>,
        r: Result<Ask, ActionError>,
    ) -> bool {
        exists|ready: Preparing| #[trigger]
            self.receipted(ready, receipt) && ready.plans(
                after,
                bindings,
                wake,
                now,
                started_at,
                r,
            )
    }

    fn on_issued(
        &mut self,
        receipt: Json,
        bindings: &ActionBindings,
        wake: &WakeRecord,
        now: u64,
        started_at: &str,
    ) -> (r: Result<Ask, ActionError>)
        requires
            old(self).wf(),
            old(self).stage == Stage::Issue,
            bindings.refused() is None,
            now <= u64::MAX - MAX_DELAY_MS,
        ensures
            old(self).issued_moves(
                *final(self),
                receipt@,
                *bindings,
                *wake,
                now,
                started_at@,
                r,
            ),
            r is Ok ==> final(self).wf(),
    {
        let ghost given = receipt@;
        if let Err(e) = self.note_receipt(receipt) {
            return Err(e);
        }
        let ghost ready = *self;
        let r = self.make_plan(bindings, wake, now, started_at);
        assert(old(self).receipted(ready, given));
        r
    }

    /// What one report leads to.
    pub open spec fn moves(
        self,
        after: Preparing,
        told: Told,
        bindings: ActionBindings,
        wake: WakeRecord,
        now: u64,
        started_at: Seq<char>,
        r: Result<Ask, ActionError>,
    ) -> bool {
        match (self.stage, told) {
            (Stage::Receipt, Told::Receipt(receipt)) => self.receipt_moves(after, receipt, r),
            (Stage::Used, Told::Used(used)) => self.used_moves(
                after,
                used@,
                bindings,
                wake,
                now,
                started_at,
                r,
            ),
            (Stage::Issue, Told::Issued(receipt)) => self.issued_moves(
                after,
                receipt@,
                bindings,
                wake,
                now,
                started_at,
                r,
            ),
            (Stage::Selection, Told::Stored { selection, started_at: at }) => self.seals(
                after,
                self.plan->0,
                selection@,
                at@,
                bindings,
                wake,
                r,
            ),
            _ => after == self && fails(r, ActionError::OutOfTurn),
        }
    }

    /// Takes a report over, and says what the host does next.
    pub fn step(
        &mut self,
        told: Told,
        bindings: &ActionBindings,
        wake: &WakeRecord,
        now: u64,
        started_at: &str,
    ) -> (r: Result<Ask, ActionError>)
        requires
            old(self).wf(),
            bindings.refused() is None,
            now <= u64::MAX - MAX_DELAY_MS,
        ensures
            old(self).moves(*final(self), told, *bindings, *wake, now, started_at@, r),
            r is Ok ==> final(self).wf(),
    {
        match (self.stage, told) {
            (Stage::Receipt, Told::Receipt(receipt)) => self.on_receipt(receipt),
            (Stage::Used, Told::Used(used)) => self.on_used(&used, bindings, wake, now, started_at),
            (Stage::Issue, Told::Issued(receipt)) => self.on_issued(
                receipt,
                bindings,
                wake,
                now,
                started_at,
            ),
            (Stage::Selection, Told::Stored { selection, started_at: at }) => {
                let plan = match self.plan.take() {
                    Some(plan) => plan,
                    None => {
                        assert(false);
                        return Err(ActionError::OutOfTurn);
                    },
                };
                self.seal(plan, &selection, at.as_str(), bindings, wake)
            },
            _ => Err(ActionError::OutOfTurn),
        }
    }
}

// ---------------------------------------------------------------------------
// Laws
// ---------------------------------------------------------------------------

/// No action is sealed whose request was not stored before: what asks to seal one
/// is the report of its storage.
pub proof fn actions_are_stored_before_they_are_sealed(
    before: Preparing,
    after: Preparing,
    told: Told,
    bindings: ActionBindings,
    wake: WakeRecord,
    now: u64,
    started_at: Seq<char>,
    r: Result<Ask, ActionError>,
)
    requires
        before.wf(),
        before.moves(after, told, bindings, wake, now, started_at, r),
        proceeds(r, Ask::Stop),
        after.prepared matches Some(own) && own.request is Some,
    ensures
        before.stage == Stage::Selection,
        told is Stored,
{
}

/// Where the request names a receipt, nothing is planned before everything that
/// is used was found in it, unchanged.
pub proof fn used_memories_were_delivered(
    before: Preparing,
    after: Preparing,
    told: Told,
    bindings: ActionBindings,
    wake: WakeRecord,
    now: u64,
    started_at: Seq<char>,
    r: Result<Ask, ActionError>,
)
    requires
        before.wf(),
        before.stage == Stage::Used,
        before.moves(after, told, bindings, wake, now, started_at, r),
        r is Ok,
    ensures
        told matches Told::Used(used) && answers(used@, before.used@) && (forall|i: int|
            0 <= i < used@.len() ==> before.receipt->0.covers(#[trigger] used@[i])),
{
}

} // verus!
