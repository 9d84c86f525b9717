//! Formation: submitted conversations become memory, one at a time and in the
//! order of their submission.

use vstd::prelude::*;

use crate::recall::session::ConversationStatus;
use crate::text;

pub mod attempt;
pub mod counterparty;
pub mod laws;
pub mod worker;

verus! {

/// The name that formation is called by.
pub const NAME: &'static str = "formation_memory";

/// An input of that many tokens is reviewed once for what was overlooked.
pub const REVIEW_MIN_INPUT_TOKENS: usize = 10_000;

/// The most messages of one input that become evidence by themselves.
pub const MAX_INGESTED_MESSAGES: usize = 16;

// ---------------------------------------------------------------------------
// The review
// ---------------------------------------------------------------------------

/// The messages that became evidence: the last ones of the input.
pub open spec fn captured(message_count: usize) -> usize {
    if message_count < MAX_INGESTED_MESSAGES {
        message_count
    } else {
        MAX_INGESTED_MESSAGES
    }
}

/// Which bindings the review may name, and which messages they stand for.
pub open spec fn bindings_text(message_count: usize) -> Seq<char> {
    if message_count == 0 {
        "No input-message Evidence bindings are available."@
    } else {
        "Host write-time Evidence bindings :msg1 through :msg"@ + text::decimal(
            captured(message_count) as nat,
        ) + " refer to input messages "@ + text::decimal(
            (message_count - captured(message_count) + 1) as nat,
        ) + " through "@ + text::decimal(message_count as nat)
            + " (1-based). Earlier messages have no automatic Evidence binding. Read committed Evidence by ids from write receipts or Assertion/Activity links; :msgN is not a read parameter."@
    }
}

/// What the model is told when it reviews its own pass: the host's instructions,
/// and what the pass was about.
pub open spec fn review_text(
    instructions: Seq<char>,
    conversation_id: u64,
    message_count: usize,
) -> Seq<char> {
    instructions + "\n\nHost review scope: formation conversation "@ + text::decimal(
        conversation_id as nat,
    ) + ", "@ + text::decimal(message_count as nat) + " input messages. "@ + bindings_text(
        message_count,
    )
}

/// The prompt of a review.
pub fn review_prompt(instructions: &str, conversation_id: u64, message_count: usize) -> (r: String)
    ensures
        r@ == review_text(instructions@, conversation_id, message_count),
{
    let mut out = instructions.to_owned();
    out.append("\n\nHost review scope: formation conversation ");
    out.append(text::decimal_text(conversation_id).as_str());
    out.append(", ");
    out.append(text::decimal_text(message_count as u64).as_str());
    out.append(" input messages. ");
    let ghost head = out@;
    if message_count == 0 {
        out.append("No input-message Evidence bindings are available.");
    } else {
        let last: usize = if message_count < MAX_INGESTED_MESSAGES {
            message_count
        } else {
            MAX_INGESTED_MESSAGES
        };
        out.append("Host write-time Evidence bindings :msg1 through :msg");
        out.append(text::decimal_text(last as u64).as_str());
        out.append(" refer to input messages ");
        out.append(text::decimal_text((message_count - last + 1) as u64).as_str());
        out.append(" through ");
        out.append(text::decimal_text(message_count as u64).as_str());
        out.append(
            " (1-based). Earlier messages have no automatic Evidence binding. Read committed Evidence by ids from write receipts or Assertion/Activity links; :msgN is not a read parameter.",
        );
        assert(out@ =~= head + bindings_text(message_count));
    }
    out
}

/// The review of an input, where it needs one.
pub fn plan_review(
    tokens: usize,
    instructions: &str,
    conversation_id: u64,
    message_count: usize,
) -> (r: Option<String>)
    ensures
        match r {
            Some(prompt) => tokens >= REVIEW_MIN_INPUT_TOKENS && prompt@ == review_text(
                instructions@,
                conversation_id,
                message_count,
            ),
            None => tokens < REVIEW_MIN_INPUT_TOKENS,
        },
{
    if tokens >= REVIEW_MIN_INPUT_TOKENS {
        Some(review_prompt(instructions, conversation_id, message_count))
    } else {
        None
    }
}

/// Whether a turn ends the pass: an idle runner is done unless a review is due.
pub fn turn_is_done(done: bool, idle: bool, review_due: bool) -> (r: bool)
    ensures
        r == (done || idle && !review_due),
{
    done || idle && !review_due
}

/// What follows a turn.
#[derive(Debug)]
pub enum Flow {
    /// The runner goes on with this prompt: the review.
    FollowUp(String),
    Continue,
    Break,
}

/// What follows a turn: at the first idle boundary the review, and never a second
/// one.
pub fn after_turn(review: &mut Option<String>, idle: bool, done: bool) -> (r: Flow)
    ensures
        if idle && *old(review) is Some {
            r == Flow::FollowUp((*old(review))->0) && *final(review) is None
        } else {
            *final(review) == *old(review) && if done {
                r is Break
            } else {
                r is Continue
            }
        },
{
    if idle {
        if let Some(prompt) = review.take() {
            return Flow::FollowUp(prompt);
        }
    }
    if done {
        Flow::Break
    } else {
        Flow::Continue
    }
}

// ---------------------------------------------------------------------------
// The writer's slot
// ---------------------------------------------------------------------------

/// Who may write: at most one conversation, and none while maintenance runs.
#[derive(Debug)]
pub struct ProcessingGate {
    /// The conversation that is being processed; zero, where none is.
    pub formation: u64,
    pub maintenance: bool,
}

impl ProcessingGate {
    pub fn new() -> (r: ProcessingGate)
        ensures
            r == (ProcessingGate { formation: 0, maintenance: false }),
    {
        ProcessingGate { formation: 0, maintenance: false }
    }

    pub fn is_processing(&self) -> (r: bool)
        ensures
            r == (self.formation != 0),
    {
        self.formation != 0
    }

    /// Takes the slot for a conversation, if nobody has it.
    pub fn enter(&mut self, id: u64, maintenance_running: bool) -> (r: bool)
        ensures
            r == (!old(self).maintenance && !maintenance_running && old(self).formation == 0),
            *final(self) == if r {
                (ProcessingGate { formation: id, ..*old(self) })
            } else {
                *old(self)
            },
    {
        if self.maintenance || maintenance_running || self.formation != 0 {
            return false;
        }
        self.formation = id;
        true
    }

    /// Hands the slot from one conversation to the next; only its owner can.
    pub fn hand_over(&mut self, from: u64, to: u64) -> (r: bool)
        ensures
            r == (old(self).formation == from),
            *final(self) == if r {
                (ProcessingGate { formation: to, ..*old(self) })
            } else {
                *old(self)
            },
    {
        if self.formation != from {
            return false;
        }
        self.formation = to;
        true
    }

    /// Gives the slot back.
    pub fn release(&mut self)
        ensures
            *final(self) == (ProcessingGate { formation: 0, ..*old(self) }),
    {
        self.formation = 0;
    }
}

/// Why processing is not started.
#[derive(Clone, Copy, Debug, PartialEq, Eq, Structural)]
pub enum StartError {
    Busy(u64),
    Maintenance,
    NothingPending(u64),
}

impl StartError {
    pub open spec fn text(self) -> Seq<char> {
        match self {
            StartError::Busy(id) => "FormationAgent is already processing conversation "@
                + text::decimal(id as nat),
            StartError::Maintenance =>
                "MaintenanceAgent is processing, formation will resume when maintenance completes"@,
            StartError::NothingPending(id) =>
                "No pending formation conversation found starting from "@ + text::decimal(
                id as nat,
            ),
        }
    }

    pub fn message(&self) -> (r: String)
        ensures
            r@ == self.text(),
    {
        match self {
            StartError::Busy(id) => {
                let mut out = "FormationAgent is already processing conversation ".to_owned();
                out.append(text::decimal_text(*id).as_str());
                out
            },
            StartError::Maintenance =>
                "MaintenanceAgent is processing, formation will resume when maintenance completes".to_owned(),
            StartError::NothingPending(id) => {
                let mut out = "No pending formation conversation found starting from ".to_owned();
                out.append(text::decimal_text(*id).as_str());
                out
            },
        }
    }
}

/// Whether processing may start, and after which conversation the queue is read.
pub fn start_process(gate: &ProcessingGate, maintenance_running: bool, conversation: u64) -> (r:
    Result<u64, StartError>)
    ensures
        r == if gate.formation != 0 {
            Err::<u64, StartError>(StartError::Busy(gate.formation))
        } else if maintenance_running {
            Err::<u64, StartError>(StartError::Maintenance)
        } else {
            Ok::<u64, StartError>(
                if conversation > 0 {
                    (conversation - 1) as u64
                } else {
                    0
                },
            )
        },
{
    if gate.formation != 0 {
        return Err(StartError::Busy(gate.formation));
    }
    if maintenance_running {
        return Err(StartError::Maintenance);
    }
    Ok(
        if conversation > 0 {
            conversation - 1
        } else {
            0
        },
    )
}

/// How a new submission is taken up.
#[derive(Clone, Copy, Debug, PartialEq, Eq, Structural)]
pub enum Resume {
    /// Someone is at work, and will find it.
    Queued,
    /// Earlier ones may be waiting: the queue is read after this conversation.
    FromQueue(u64),
    /// It is the next one.
    Own,
}

/// The conversation up to which everything was processed.
pub open spec fn marker(processed: Option<u64>) -> u64 {
    match processed {
        Some(id) => id,
        None => 0,
    }
}

/// How a new submission is taken up: never before one that was submitted earlier.
pub fn resume(idle: bool, maintenance_running: bool, processed: Option<u64>, id: u64) -> (r: Resume)
    ensures
        r == if !idle || maintenance_running {
            Resume::Queued
        } else if marker(processed) + 1 < id {
            Resume::FromQueue(marker(processed))
        } else {
            Resume::Own
        },
{
    if !idle || maintenance_running {
        return Resume::Queued;
    }
    let done: u64 = match processed {
        Some(n) => n,
        None => 0,
    };
    if done < id && id - done > 1 {
        Resume::FromQueue(done)
    } else {
        Resume::Own
    }
}

// ---------------------------------------------------------------------------
// The queue
// ---------------------------------------------------------------------------

/// A conversation of the queue.
#[derive(Debug)]
pub struct QueuedConversation {
    pub id: u64,
    pub status: ConversationStatus,
    pub label: Option<String>,
}

/// The conversation is one of formation.
pub open spec fn is_formation(label: Option<String>) -> bool {
    label matches Some(l) ==> l@ == "formation"@
}

fn formation_label(label: &Option<String>) -> (r: bool)
    ensures
        r == is_formation(*label),
{
    match label {
        Some(l) => text::same(l.as_str(), "formation"),
        None => true,
    }
}

pub open spec fn has_ended(status: ConversationStatus) -> bool {
    status == ConversationStatus::Completed || status == ConversationStatus::Cancelled
}

fn ended(status: ConversationStatus) -> (r: bool)
    ensures
        r == has_ended(status),
{
    match status {
        ConversationStatus::Completed => true,
        ConversationStatus::Cancelled => true,
        _ => false,
    }
}

/// The conversation waits to be processed.
pub open spec fn is_pending(c: QueuedConversation) -> bool {
    !has_ended(c.status) && is_formation(c.label)
}

/// What a page of the queue shows.
#[derive(Clone, Copy, Debug, PartialEq, Eq, Structural)]
pub enum PageScan {
    /// The first conversation that waits, by its place.
    Found(usize),
    /// None on this page: the next page follows this conversation.
    After(u64),
    /// The queue has ended.
    End,
}

/// The first conversation of a page that waits to be processed.
pub fn scan_page(page: &Vec<QueuedConversation>) -> (r: PageScan)
    ensures
        match r {
            PageScan::Found(i) => i < page@.len() && is_pending(page@[i as int]) && forall|k: int|
                0 <= k < i ==> !is_pending(#[trigger] page@[k]),
            PageScan::After(id) => page@.len() > 0 && id == page@.last().id && forall|k: int|
                0 <= k < page@.len() ==> !is_pending(#[trigger] page@[k]),
            PageScan::End => page@.len() == 0,
        },
{
    if page.len() == 0 {
        return PageScan::End;
    }
    let mut i: usize = 0;
    while i < page.len()
        invariant
            i <= page.len(),
            page.len() > 0,
            forall|k: int| 0 <= k < i ==> !is_pending(#[trigger] page@[k]),
        decreases page.len() - i,
    {
        if !ended(page[i].status) && formation_label(&page[i].label) {
            return PageScan::Found(i);
        }
        assert(!is_pending(page@[i as int]));
        i = i + 1;
    }
    PageScan::After(page[page.len() - 1].id)
}

/// What follows an attempt at a conversation.
#[derive(Clone, Copy, Debug, PartialEq, Eq, Structural)]
pub enum AfterAttempt {
    /// Wait, and try once more.
    Retry,
    /// Leave it to an operator or to the next submission; the slot is free.
    Stop,
    /// It is done.
    Advance,
}

/// How long to wait before the one retry, in seconds.
pub const RETRY_DELAY_SECS: u64 = 60;

/// What follows an attempt: a failure is retried once, and what does not come to
/// its end stops the queue.
pub fn attempted(gate: &mut ProcessingGate, status: ConversationStatus, first: bool) -> (r:
    AfterAttempt)
    ensures
        r == if first && status == ConversationStatus::Failed {
            AfterAttempt::Retry
        } else if has_ended(status) {
            AfterAttempt::Advance
        } else {
            AfterAttempt::Stop
        },
        *final(gate) == if r == AfterAttempt::Stop {
            (ProcessingGate { formation: 0, ..*old(gate) })
        } else {
            *old(gate)
        },
{
    let failed = match status {
        ConversationStatus::Failed => true,
        _ => false,
    };
    if first && failed {
        return AfterAttempt::Retry;
    }
    if ended(status) {
        return AfterAttempt::Advance;
    }
    gate.release();
    AfterAttempt::Stop
}

/// The marker after a conversation: it never goes back.
pub fn high_water(processed: Option<u64>, id: u64) -> (r: u64)
    ensures
        r == if marker(processed) >= id {
            marker(processed)
        } else {
            id
        },
{
    match processed {
        Some(n) => if n >= id {
            n
        } else {
            id
        },
        None => id,
    }
}

/// What the queue holds after a conversation.
#[derive(Clone, Copy, Debug, PartialEq, Eq, Structural)]
pub enum QueueRead {
    Next(u64),
    Empty,
    Failed,
}

/// What the worker does next.
#[derive(Clone, Copy, Debug, PartialEq, Eq, Structural)]
pub enum WorkerStep {
    Process(u64),
    /// The slot was given back: the queue is read once more, for a submission that
    /// came while it was taken.
    ReadAgain,
    End,
}

/// What follows a read of the queue while the slot is still held.
pub fn queue_read(gate: &mut ProcessingGate, current: u64, read: QueueRead) -> (r: WorkerStep)
    ensures
        match read {
            QueueRead::Next(id) => if old(gate).formation == current {
                r == WorkerStep::Process(id) && *final(gate) == (ProcessingGate {
                    formation: id,
                    ..*old(gate)
                })
            } else {
                r == WorkerStep::End && *final(gate) == *old(gate)
            },
            QueueRead::Empty => r == WorkerStep::ReadAgain && *final(gate) == (ProcessingGate {
                formation: 0,
                ..*old(gate)
            }),
            QueueRead::Failed => r == WorkerStep::End && *final(gate) == (ProcessingGate {
                formation: 0,
                ..*old(gate)
            }),
        },
{
    match read {
        QueueRead::Next(id) => if gate.hand_over(current, id) {
            WorkerStep::Process(id)
        } else {
            WorkerStep::End
        },
        QueueRead::Empty => {
            gate.release();
            WorkerStep::ReadAgain
        },
        QueueRead::Failed => {
            gate.release();
            WorkerStep::End
        },
    }
}

/// What follows the second read, after the slot was given back.
pub fn queue_reread(gate: &mut ProcessingGate, maintenance_running: bool, read: QueueRead) -> (r:
    WorkerStep)
    ensures
        match read {
            QueueRead::Next(id) => if !old(gate).maintenance && !maintenance_running && old(
                gate,
            ).formation == 0 {
                r == WorkerStep::Process(id) && *final(gate) == (ProcessingGate {
                    formation: id,
                    ..*old(gate)
                })
            } else {
                r == WorkerStep::End && *final(gate) == *old(gate)
            },
            _ => r == WorkerStep::End && *final(gate) == *old(gate),
        },
{
    match read {
        QueueRead::Next(id) => if gate.enter(id, maintenance_running) {
            WorkerStep::Process(id)
        } else {
            WorkerStep::End
        },
        _ => WorkerStep::End,
    }
}

// ---------------------------------------------------------------------------
// The history
// ---------------------------------------------------------------------------

/// How many completed conversations a pass is shown, and how many are looked at.
pub const HISTORY_LEN: usize = 2;

pub const SCAN_LIMIT: u64 = 32;

/// The walk back from the newest conversation.
#[derive(Debug)]
pub struct HistoryScan {
    pub next: u64,
    pub scanned: u64,
    /// Newest first.
    pub kept: Vec<u64>,
}

impl HistoryScan {
    pub open spec fn wf(self) -> bool {
        self.scanned <= SCAN_LIMIT && self.kept@.len() <= HISTORY_LEN && forall|i: int, j: int|
            0 <= i < j < self.kept@.len() ==> self.kept@[i] > self.kept@[j]
    }

    /// Everything that was kept comes after what is still to be looked at.
    pub open spec fn ahead(self) -> bool {
        forall|i: int| 0 <= i < self.kept@.len() ==> #[trigger] self.kept@[i] > self.next
    }

    pub fn new(newest: u64) -> (r: HistoryScan)
        ensures
            r.wf(),
            r.ahead(),
            r.next == newest,
            r.scanned == 0,
            r.kept@.len() == 0,
    {
        HistoryScan { next: newest, scanned: 0, kept: Vec::new() }
    }

    pub fn wants_more(&self) -> (r: bool)
        ensures
            r == (self.next > 0 && self.scanned < SCAN_LIMIT && self.kept@.len() < HISTORY_LEN),
    {
        self.next > 0 && self.scanned < SCAN_LIMIT && self.kept.len() < HISTORY_LEN
    }

    /// The conversation belongs into the history.
    pub open spec fn keeps(read: Option<QueuedConversation>, boundary: u64) -> bool {
        read matches Some(c) && c.id > boundary && c.status == ConversationStatus::Completed
            && is_formation(c.label)
    }

    /// Takes over what was read under the next identity.
    pub fn take(&mut self, read: &Option<QueuedConversation>, boundary: u64)
        requires
            old(self).wf(),
            old(self).ahead(),
            old(self).next > 0,
            old(self).scanned < SCAN_LIMIT,
            old(self).kept@.len() < HISTORY_LEN,
            read matches Some(c) ==> c.id == old(self).next,
        ensures
            final(self).wf(),
            final(self).ahead(),
            final(self).next == old(self).next - 1,
            final(self).scanned == old(self).scanned + 1,
            final(self).kept@ == if Self::keeps(*read, boundary) {
                old(self).kept@.push(old(self).next)
            } else {
                old(self).kept@
            },
    {
        self.scanned = self.scanned + 1;
        if let Some(c) = read {
            let completed = match c.status {
                ConversationStatus::Completed => true,
                _ => false,
            };
            if c.id > boundary && completed && formation_label(&c.label) {
                self.kept.push(c.id);
            }
        }
        self.next = self.next - 1;
    }
}

// ---------------------------------------------------------------------------
// One pass
// ---------------------------------------------------------------------------

/// Whether the source of a conversation may be formed.
#[derive(Clone, Copy, Debug, PartialEq, Eq, Structural)]
pub enum SourceVerdict {
    Open,
    /// Not now: the conversation stays in the queue.
    Busy,
    /// Never: the conversation is cancelled.
    Suppressed,
}

/// The status that a source which is not open leaves its conversation in.
pub fn source_status(verdict: SourceVerdict) -> (r: Option<ConversationStatus>)
    ensures
        r == match verdict {
            SourceVerdict::Open => None::<ConversationStatus>,
            SourceVerdict::Busy => Some(ConversationStatus::Submitted),
            SourceVerdict::Suppressed => Some(ConversationStatus::Cancelled),
        },
{
    match verdict {
        SourceVerdict::Open => None,
        SourceVerdict::Busy => Some(ConversationStatus::Submitted),
        SourceVerdict::Suppressed => Some(ConversationStatus::Cancelled),
    }
}

/// A revision whose predecessor failed is cancelled, and says which one that was.
pub fn predecessor_failed(blocker: &str) -> (r: (ConversationStatus, String))
    ensures
        r.0 == ConversationStatus::Cancelled,
        r.1@ == "predecessor_failed:"@ + blocker@,
{
    let mut out = "predecessor_failed:".to_owned();
    out.append(blocker);
    (ConversationStatus::Cancelled, out)
}

/// What a conversation without a prompt is recorded with.
pub const NO_PROMPT: &'static str = "No prompt found";

/// The key of an observation: one for each conversation, the same for each retry.
pub fn observation_key(conversation_id: u64) -> (r: String)
    ensures
        r@ == "formation:conversation:"@ + text::decimal(conversation_id as nat),
{
    let mut out = "formation:conversation:".to_owned();
    out.append(text::decimal_text(conversation_id).as_str());
    out
}

/// Whether a pass is shown earlier conversations: not once the owner of the
/// memory has changed something.
pub fn shows_history(epoch: Option<u64>) -> (r: bool)
    ensures
        r == !(epoch matches Some(e) && e > 0),
{
    match epoch {
        Some(e) => e == 0,
        None => true,
    }
}

/// What the model of a pass is instructed with.
pub open spec fn instructions_of(
    system: Seq<char>,
    primer: Seq<char>,
    notes: Seq<char>,
    counterparty: Seq<char>,
    evidence: Seq<char>,
    intent: Seq<char>,
    datetime: Seq<char>,
) -> Seq<char> {
    system + "\n\n---\n\n# `DESCRIBE PRIMER` Result:\n"@ + primer
        + "\n\n---\n\n# Your Notes:\n"@ + notes + "\n\n# Counterparty Profile:\n"@ + counterparty
        + "\n\n# Captured Evidence:\n"@ + evidence + "\n\n# Memory Interface Intent:\n"@ + intent
        + "\n\n# Current Datetime: "@ + datetime
}

pub fn instructions(
    system: &str,
    primer: &str,
    notes: &str,
    counterparty: &str,
    evidence: Option<&str>,
    intent: Option<&str>,
    datetime: &str,
) -> (r: String)
    ensures
        r@ == instructions_of(
            system@,
            primer@,
            notes@,
            counterparty@,
            match evidence {
                Some(e) => e@,
                None => "none"@,
            },
            match intent {
                Some(i) => i@,
                None => "none (an ordinary Formation submission)"@,
            },
            datetime@,
        ),
{
    let mut out = system.to_owned();
    out.append("\n\n---\n\n# `DESCRIBE PRIMER` Result:\n");
    out.append(primer);
    out.append("\n\n---\n\n# Your Notes:\n");
    out.append(notes);
    out.append("\n\n# Counterparty Profile:\n");
    out.append(counterparty);
    out.append("\n\n# Captured Evidence:\n");
    let shown = match evidence {
        Some(e) => e,
        None => "none",
    };
    out.append(shown);
    out.append("\n\n# Memory Interface Intent:\n");
    let directive = match intent {
        Some(i) => i,
        None => "none (an ordinary Formation submission)",
    };
    out.append(directive);
    out.append("\n\n# Current Datetime: ");
    out.append(datetime);
    out
}

// ---------------------------------------------------------------------------
// Counterparties
// ---------------------------------------------------------------------------

/// How a counterparty is written.
#[derive(Debug)]
pub struct PersonWrite {
    pub command: &'static str,
    pub key: String,
    pub name: String,
    /// Another caller may have created the person meanwhile; then that one stands.
    pub tolerates_conflict: bool,
}

/// Creating never overwrites a name that is there; an explicit name always does.
pub const CREATE_PERSON: &'static str =
    "CREATE CONCEPT ?person { TYPE \"Person\" NAME :name SET FIELDS { key: :key } }";

pub const UPSERT_PERSON: &'static str =
    "UPSERT CONCEPT ?person {\n  MATCH { type: \"Person\", key: :key }\n  SET FIELDS { name: :name }\n}";

/// How a counterparty is written: under its key, which is its identity; without a
/// name of its own it is named by it, and nothing that exists is renamed.
pub fn person_write(counterparty: &str, name: Option<String>) -> (r: PersonWrite)
    ensures
        r.key@ == counterparty@,
        r.tolerates_conflict == (name is None),
        match name {
            Some(n) => r.command@ == UPSERT_PERSON@ && r.name@ == n@,
            None => r.command@ == CREATE_PERSON@ && r.name@ == counterparty@,
        },
{
    match name {
        Some(n) => PersonWrite {
            command: UPSERT_PERSON,
            key: counterparty.to_owned(),
            name: n,
            tolerates_conflict: false,
        },
        None => PersonWrite {
            command: CREATE_PERSON,
            key: counterparty.to_owned(),
            name: counterparty.to_owned(),
            tolerates_conflict: true,
        },
    }
}

// ---------------------------------------------------------------------------
// Laws
// ---------------------------------------------------------------------------

/// Processing an older conversation again never rewinds the marker, and what was
/// just processed is behind it.
pub proof fn the_marker_never_goes_back(processed: Option<u64>, id: u64, after: u64)
    requires
        after == if marker(processed) >= id {
            marker(processed)
        } else {
            id
        },
    ensures
        after >= marker(processed),
        after >= id,
        after == marker(processed) || after == id,
{
}

/// No two conversations are processed at once: while one has the slot, no other
/// can take it, and only its owner can hand it on.
pub proof fn one_conversation_at_a_time(
    gate: ProcessingGate,
    taken: bool,
    handed: bool,
    other: u64,
    maintenance_running: bool,
)
    requires
        gate.formation != 0,
        gate.formation != other,
        taken == (!gate.maintenance && !maintenance_running && gate.formation == 0),
        handed == (gate.formation == other),
    ensures
        !taken,
        !handed,
{
}

/// The window of evidence ends with the last message, and holds every message of
/// a short input.
pub proof fn the_window_ends_with_the_input(message_count: usize)
    requires
        message_count > 0,
    ensures
        captured(message_count) >= 1,
        (message_count - captured(message_count) + 1) + captured(message_count) - 1
            == message_count,
        message_count <= MAX_INGESTED_MESSAGES ==> message_count - captured(message_count) + 1 == 1,
{
}

} // verus!
