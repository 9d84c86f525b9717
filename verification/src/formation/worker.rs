//! The worker that forms one conversation after another, step by step. It owns
//! the writer's slot from the first conversation to the last.

use vstd::prelude::*;

use super::{AfterAttempt, ProcessingGate, QueueRead, WorkerStep};
use crate::recall::session::ConversationStatus;

verus! {

/// What the host is waited for.
#[derive(Clone, Copy, Debug, PartialEq, Eq, Structural)]
pub enum Stage {
    First,
    Pause,
    Second,
    Marker,
    Maintenance,
    Queue,
    /// The queue once more, after the slot was given back.
    Again,
    Over,
}

/// How long a worker waits before it tries a conversation again.
pub const WAIT_SECONDS: u64 = 60;

/// What the host does next.
#[derive(Clone, Copy, Debug, PartialEq, Eq, Structural)]
pub enum Ask {
    /// Form that conversation, and tell the host's hooks of its end.
    Form(u64),
    /// Wait before the one retry.
    Wait,
    /// Write that everything up to that conversation was formed.
    SaveMarker(u64),
    /// Offer maintenance a turn after that conversation.
    OfferMaintenance(u64),
    /// Read the queue behind that conversation.
    ReadQueue(u64),
    End,
}

/// What the host reports.
#[derive(Clone, Copy, Debug, PartialEq, Eq, Structural)]
pub enum Told {
    Formed(ConversationStatus),
    Waited,
    /// The marker was written, or could not be.
    Marked,
    Maintenance { started: bool },
    Queue(QueueRead),
}

#[derive(Clone, Copy, Debug, PartialEq, Eq, Structural)]
pub struct OutOfTurn;

#[derive(Debug)]
pub struct Worker {
    pub stage: Stage,
    /// The conversation at hand.
    pub current: u64,
}

pub open spec fn proceeds(r: Result<Ask, OutOfTurn>, ask: Ask) -> bool {
    r == Ok::<Ask, OutOfTurn>(ask)
}

impl Worker {
    /// Starts a worker, if nobody has the slot.
    pub fn begin(gate: &mut ProcessingGate, id: u64, maintenance_running: bool) -> (r: Option<
        (Worker, Ask),
    >)
        ensures
            match r {
                Some((worker, ask)) => {
                    &&& !old(gate).maintenance && !maintenance_running && old(gate).formation == 0
                    &&& *final(gate) == (ProcessingGate { formation: id, ..*old(gate) })
                    &&& worker == (Worker { stage: Stage::First, current: id })
                    &&& ask == Ask::Form(id)
                },
                None => (old(gate).maintenance || maintenance_running || old(gate).formation != 0)
                    && *final(gate) == *old(gate),
            },
    {
        if gate.enter(id, maintenance_running) {
            Some((Worker { stage: Stage::First, current: id }, Ask::Form(id)))
        } else {
            None
        }
    }

    /// A failure is tried once more; what does not come to its end stops the
    /// worker and frees the slot; all else is marked.
    pub open spec fn formed_moves(
        self,
        after: Worker,
        before: ProcessingGate,
        gate: ProcessingGate,
        status: ConversationStatus,
        processed: Option<u64>,
        r: Result<Ask, OutOfTurn>,
    ) -> bool {
        if self.stage == Stage::First && status == ConversationStatus::Failed {
            &&& gate == before
            &&& after == (Worker { stage: Stage::Pause, ..self })
            &&& proceeds(r, Ask::Wait)
        } else if super::has_ended(status) {
            &&& gate == before
            &&& after == (Worker { stage: Stage::Marker, ..self })
            &&& proceeds(
                r,
                Ask::SaveMarker(
                    if super::marker(processed) >= self.current {
                        super::marker(processed)
                    } else {
                        self.current
                    },
                ),
            )
        } else {
            &&& gate == (ProcessingGate { formation: 0, ..before })
            &&& after == (Worker { stage: Stage::Over, ..self })
            &&& proceeds(r, Ask::End)
        }
    }

    fn on_formed(
        &mut self,
        gate: &mut ProcessingGate,
        status: ConversationStatus,
        processed: Option<u64>,
    ) -> (r: Result<Ask, OutOfTurn>)
        ensures
            old(self).formed_moves(
                *final(self),
                *old(gate),
                *final(gate),
                status,
                processed,
                r,
            ),
    {
        let first = match self.stage {
            Stage::First => true,
            _ => false,
        };
        match super::attempted(gate, status, first) {
            AfterAttempt::Retry => {
                self.stage = Stage::Pause;
                Ok(Ask::Wait)
            },
            AfterAttempt::Stop => {
                self.stage = Stage::Over;
                Ok(Ask::End)
            },
            AfterAttempt::Advance => {
                self.stage = Stage::Marker;
                Ok(Ask::SaveMarker(super::high_water(processed, self.current)))
            },
        }
    }

    /// The slot goes from one conversation to the next. With an empty queue it is
    /// given back, and the queue read once more: a submission may have come while
    /// the slot was still taken.
    pub open spec fn queue_moves(
        self,
        after: Worker,
        before: ProcessingGate,
        gate: ProcessingGate,
        read: QueueRead,
        r: Result<Ask, OutOfTurn>,
    ) -> bool {
        match read {
            QueueRead::Next(id) => if before.formation == self.current {
                &&& gate == (ProcessingGate { formation: id, ..before })
                &&& after == (Worker { stage: Stage::First, current: id })
                &&& proceeds(r, Ask::Form(id))
            } else {
                &&& gate == before
                &&& after == (Worker { stage: Stage::Over, ..self })
                &&& proceeds(r, Ask::End)
            },
            QueueRead::Empty => {
                &&& gate == (ProcessingGate { formation: 0, ..before })
                &&& after == (Worker { stage: Stage::Again, ..self })
                &&& proceeds(r, Ask::ReadQueue(self.current))
            },
            QueueRead::Failed => {
                &&& gate == (ProcessingGate { formation: 0, ..before })
                &&& after == (Worker { stage: Stage::Over, ..self })
                &&& proceeds(r, Ask::End)
            },
        }
    }

    /// Behind a free slot a submission is taken up only by whoever gets the slot.
    pub open spec fn again_moves(
        self,
        after: Worker,
        before: ProcessingGate,
        gate: ProcessingGate,
        read: QueueRead,
        maintenance_running: bool,
        r: Result<Ask, OutOfTurn>,
    ) -> bool {
        if read is Next && !before.maintenance && !maintenance_running && before.formation == 0 {
            let id = read->Next_0;
            &&& gate == (ProcessingGate { formation: id, ..before })
            &&& after == (Worker { stage: Stage::First, current: id })
            &&& proceeds(r, Ask::Form(id))
        } else {
            &&& gate == before
            &&& after == (Worker { stage: Stage::Over, ..self })
            &&& proceeds(r, Ask::End)
        }
    }

    fn take_step(&mut self, step: WorkerStep) -> (r: Result<Ask, OutOfTurn>)
        ensures
            match step {
                WorkerStep::Process(id) => *final(self) == (Worker {
                    stage: Stage::First,
                    current: id,
                }) && proceeds(r, Ask::Form(id)),
                WorkerStep::ReadAgain => *final(self) == (Worker {
                    stage: Stage::Again,
                    ..*old(self)
                }) && proceeds(r, Ask::ReadQueue(old(self).current)),
                WorkerStep::End => *final(self) == (Worker { stage: Stage::Over, ..*old(self) })
                    && proceeds(r, Ask::End),
            },
    {
        match step {
            WorkerStep::Process(id) => {
                self.current = id;
                self.stage = Stage::First;
                Ok(Ask::Form(id))
            },
            WorkerStep::ReadAgain => {
                self.stage = Stage::Again;
                Ok(Ask::ReadQueue(self.current))
            },
            WorkerStep::End => {
                self.stage = Stage::Over;
                Ok(Ask::End)
            },
        }
    }

    /// What one report leads to.
    pub open spec fn moves(
        self,
        after: Worker,
        before: ProcessingGate,
        gate: ProcessingGate,
        told: Told,
        processed: Option<u64>,
        maintenance_running: bool,
        r: Result<Ask, OutOfTurn>,
    ) -> bool {
        match (self.stage, told) {
            (Stage::First, Told::Formed(status)) => self.formed_moves(
                after,
                before,
                gate,
                status,
                processed,
                r,
            ),
            (Stage::Second, Told::Formed(status)) => self.formed_moves(
                after,
                before,
                gate,
                status,
                processed,
                r,
            ),
            (Stage::Pause, Told::Waited) => gate == before && after == (Worker {
                stage: Stage::Second,
                ..self
            }) && proceeds(r, Ask::Form(self.current)),
            (Stage::Marker, Told::Marked) => gate == before && after == (Worker {
                stage: Stage::Maintenance,
                ..self
            }) && proceeds(r, Ask::OfferMaintenance(self.current)),
            (Stage::Maintenance, Told::Maintenance { started }) => gate == before && if started {
                after == (Worker { stage: Stage::Over, ..self }) && proceeds(r, Ask::End)
            } else {
                after == (Worker { stage: Stage::Queue, ..self }) && proceeds(
                    r,
                    Ask::ReadQueue(self.current),
                )
            },
            (Stage::Queue, Told::Queue(read)) => self.queue_moves(after, before, gate, read, r),
            (Stage::Again, Told::Queue(read)) => self.again_moves(
                after,
                before,
                gate,
                read,
                maintenance_running,
                r,
            ),
            _ => gate == before && after == self && r == Err::<Ask, OutOfTurn>(OutOfTurn),
        }
    }

    /// Takes a report over, and says what the host does next. The slot is looked at
    /// and changed in one go.
    pub fn step(
        &mut self,
        gate: &mut ProcessingGate,
        told: Told,
        processed: Option<u64>,
        maintenance_running: bool,
    ) -> (r: Result<Ask, OutOfTurn>)
        ensures
            old(self).moves(
                *final(self),
                *old(gate),
                *final(gate),
                told,
                processed,
                maintenance_running,
                r,
            ),
    {
        match (self.stage, told) {
            (Stage::First, Told::Formed(status)) => self.on_formed(gate, status, processed),
            (Stage::Second, Told::Formed(status)) => self.on_formed(gate, status, processed),
            (Stage::Pause, Told::Waited) => {
                self.stage = Stage::Second;
                Ok(Ask::Form(self.current))
            },
            (Stage::Marker, Told::Marked) => {
                self.stage = Stage::Maintenance;
                Ok(Ask::OfferMaintenance(self.current))
            },
            (Stage::Maintenance, Told::Maintenance { started }) => if started {
                self.stage = Stage::Over;
                Ok(Ask::End)
            } else {
                self.stage = Stage::Queue;
                Ok(Ask::ReadQueue(self.current))
            },
            (Stage::Queue, Told::Queue(read)) => {
                let step = super::queue_read(gate, self.current, read);
                self.take_step(step)
            },
            (Stage::Again, Told::Queue(read)) => {
                let step = super::queue_reread(gate, maintenance_running, read);
                self.take_step(step)
            },
            _ => Err(OutOfTurn),
        }
    }
}

// ---------------------------------------------------------------------------
// Laws
// ---------------------------------------------------------------------------

impl Worker {
    /// The worker has the slot, or is about to end.
    pub open spec fn holds(self, gate: ProcessingGate) -> bool {
        self.stage == Stage::Over || self.stage == Stage::Again || gate.formation == self.current
    }
}

/// A conversation is formed only by the worker that has the slot for it, and while
/// maintenance does not run no other conversation gets in between.
pub proof fn workers_form_under_the_slot(
    before: Worker,
    after: Worker,
    gate_before: ProcessingGate,
    gate: ProcessingGate,
    told: Told,
    processed: Option<u64>,
    maintenance_running: bool,
    r: Result<Ask, OutOfTurn>,
)
    requires
        before.holds(gate_before),
        before.moves(after, gate_before, gate, told, processed, maintenance_running, r),
    ensures
        after.holds(gate),
        r matches Ok(Ask::Form(id)) ==> gate.formation == id && after.current == id,
{
}

/// A worker that ends leaves no slot behind that it took: it gives its own back,
/// leaves it to maintenance, or finds that another has it.
pub proof fn ended_workers_free_the_slot(
    before: Worker,
    after: Worker,
    gate_before: ProcessingGate,
    gate: ProcessingGate,
    told: Told,
    processed: Option<u64>,
    maintenance_running: bool,
    r: Result<Ask, OutOfTurn>,
)
    requires
        before.moves(after, gate_before, gate, told, processed, maintenance_running, r),
        proceeds(r, Ask::End),
    ensures
        gate.formation == 0 || gate.formation != before.current || before.stage == Stage::Again
            || told == (Told::Maintenance { started: true }),
{
}

/// A conversation is tried twice at most: after the second attempt none follows
/// that is for the same conversation.
pub proof fn conversations_are_tried_twice_at_most(
    before: Worker,
    after: Worker,
    gate_before: ProcessingGate,
    gate: ProcessingGate,
    told: Told,
    processed: Option<u64>,
    maintenance_running: bool,
    r: Result<Ask, OutOfTurn>,
)
    requires
        before.moves(after, gate_before, gate, told, processed, maintenance_running, r),
        before.stage == Stage::Second,
        r is Ok,
    ensures
        after.stage == Stage::Marker || after.stage == Stage::Over,
{
}

} // verus!
