//! What holds of the queue, of one attempt and of the worker.

use vstd::prelude::*;

use super::attempt::{self, Attempt};
use super::counterparty::{self, Counterparty};
use super::worker::{self, Worker};
use super::{HistoryScan, ProcessingGate, QueuedConversation};
use crate::text;

verus! {

// ---------------------------------------------------------------------------
// The queue
// ---------------------------------------------------------------------------

/// At most sixteen messages are captured, and all of a shorter input.
pub proof fn captures_are_bounded(message_count: usize)
    ensures
        super::captured(message_count) < 17,
        message_count < 17 ==> super::captured(message_count) == message_count,
        message_count > 16 ==> super::captured(message_count) == 16,
{
}

/// A conversation waits until it is completed or cancelled, whether it failed, was
/// submitted or is at work; one that is labelled for something else never does.
pub proof fn conversations_wait_until_they_end(c: QueuedConversation)
    ensures
        super::is_pending(c) ==> !(c.status is Completed) && !(c.status is Cancelled),
        c.label is None && !(c.status is Completed) && !(c.status is Cancelled)
            ==> super::is_pending(c),
        c.label is Some && c.label->0@ == "formation"@ && !(c.status is Completed) && !(c.status
            is Cancelled) ==> super::is_pending(c),
        c.label is Some && c.label->0@ != "formation"@ ==> !super::is_pending(c),
        super::has_ended(c.status) <==> c.status is Completed || c.status is Cancelled,
{
}

/// History is what was formed to its end since the boundary.
pub proof fn history_is_what_was_formed(c: QueuedConversation, boundary: u64)
    ensures
        !HistoryScan::keeps(None, boundary),
        HistoryScan::keeps(Some(c), boundary) ==> c.id > boundary && c.status is Completed,
        c.id > boundary && c.status is Completed && c.label is None ==> HistoryScan::keeps(
            Some(c),
            boundary,
        ),
        c.label is Some && c.label->0@ != "formation"@ ==> !HistoryScan::keeps(Some(c), boundary),
{
}

/// Before anything was formed the marker stands at zero.
pub proof fn markers_start_at_zero(id: u64)
    ensures
        super::marker(None) == 0,
        super::marker(Some(id)) == id,
{
}

// ---------------------------------------------------------------------------
// One attempt
// ---------------------------------------------------------------------------

/// The input is told where its evidence begins: messages that are captured are the last
/// ones, named from one on.
pub proof fn reviews_name_the_captured_messages(message_count: usize)
    requires
        message_count > 0,
    ensures
        ({
            let first = if message_count <= 16 {
                1int
            } else {
                message_count - 15
            };
            let named = if message_count <= 16 {
                message_count as int
            } else {
                16
            };
            super::bindings_text(message_count)
                == "Host write-time Evidence bindings :msg1 through :msg"@ + text::decimal(
                named as nat,
            ) + " refer to input messages "@ + text::decimal(first as nat) + " through "@
                + text::decimal(message_count as nat)
                + " (1-based). Earlier messages have no automatic Evidence binding. Read committed Evidence by ids from write receipts or Assertion/Activity links; :msgN is not a read parameter."@
        }),
        super::bindings_text(0) == "No input-message Evidence bindings are available."@,
{
}

/// A source that is busy puts its conversation back, with the reason; one that is
/// suppressed, or whose predecessor failed, is cancelled; without an input the
/// conversation fails. Only an open source with an input goes on.
pub proof fn attempts_end_for_their_reason(
    before: Attempt,
    after: Attempt,
    told: attempt::Told,
    r: Result<attempt::Ask, attempt::OutOfTurn>,
)
    requires
        before.moves(after, told, r),
    ensures
        before.stage is Source ==> (told matches attempt::Told::Source { verdict, reason } ==> {
            &&& verdict is Open ==> r == Ok::<attempt::Ask, attempt::OutOfTurn>(
                attempt::Ask::CheckPredecessor,
            )
            &&& verdict is Busy ==> r is Ok && r->Ok_0 is Persist && (r->Ok_0)->status is Submitted
                && (r->Ok_0)->reason@ == reason@ && after.stage is Verdict
            &&& verdict is Suppressed ==> r is Ok && r->Ok_0 is Persist && (r->Ok_0)->status
                is Cancelled && (r->Ok_0)->reason@ == reason@ && after.stage is Verdict
        }),
        before.stage is Predecessor ==> (told matches attempt::Told::Predecessor(blocker) ==> {
            &&& blocker is Some ==> r is Ok && r->Ok_0 is Persist && (r->Ok_0)->status is Cancelled
                && (r->Ok_0)->reason@ == "predecessor_failed:"@ + blocker->0@
            &&& blocker is None ==> r == Ok::<attempt::Ask, attempt::OutOfTurn>(
                attempt::Ask::ReadInput,
            )
        }),
        before.stage is Input ==> (told matches attempt::Told::Input(input) ==> {
            &&& input is None ==> r is Ok && r->Ok_0 is Persist && (r->Ok_0)->status is Failed
                && (r->Ok_0)->reason@ == "No prompt found"@
            &&& input is Some ==> r is Ok && r->Ok_0 is ReadContext && after.tokens == (input->0).0
                && after.messages == (input->0).1 && (r->Ok_0)->history == (before.epoch is None
                || before.epoch->0 == 0) && (r->Ok_0)->observation_key@
                == "formation:conversation:"@ + text::decimal(before.conversation as nat)
        }),
        after.conversation == before.conversation,
        after.epoch == before.epoch,
        r is Err ==> after == before,
{
}

/// A long input is reviewed, and only a long one: from ten thousand tokens on.
pub proof fn long_inputs_are_reviewed(
    before: Attempt,
    after: Attempt,
    told: attempt::Told,
    r: Result<attempt::Ask, attempt::OutOfTurn>,
)
    requires
        before.moves(after, told, r),
        r is Ok,
        r->Ok_0 is Run,
    ensures
        (r->Ok_0)->review is Some <==> before.tokens > 9_999,
        told is Context,
        (r->Ok_0)->review is Some ==> (r->Ok_0)->review->0@ == super::review_text(
            told->review_instructions@,
            before.conversation,
            before.messages,
        ),
{
}

/// The text stands in the other, behind that many characters.
pub open spec fn stands_in(whole: Seq<char>, part: Seq<char>, at: int) -> bool {
    0 <= at && at + part.len() <= whole.len() && whole.subrange(at, at + part.len()) == part
}

/// The instructions begin with the system's own, end with the time, and hold each part
/// under its heading.
pub proof fn instructions_hold_every_part(
    system: Seq<char>,
    primer: Seq<char>,
    notes: Seq<char>,
    counterparty: Seq<char>,
    evidence: Seq<char>,
    intent: Seq<char>,
    datetime: Seq<char>,
)
    ensures
        ({
            let all = super::instructions_of(
                system,
                primer,
                notes,
                counterparty,
                evidence,
                intent,
                datetime,
            );
            &&& stands_in(all, system, 0)
            &&& exists|at: int| #[trigger]
                stands_in(all, "\n\n---\n\n# `DESCRIBE PRIMER` Result:\n"@ + primer, at)
            &&& exists|at: int| #[trigger]
                stands_in(all, "\n\n---\n\n# Your Notes:\n"@ + notes, at)
            &&& exists|at: int| #[trigger]
                stands_in(all, "\n\n# Counterparty Profile:\n"@ + counterparty, at)
            &&& exists|at: int| #[trigger]
                stands_in(all, "\n\n# Captured Evidence:\n"@ + evidence, at)
            &&& exists|at: int| #[trigger]
                stands_in(all, "\n\n# Memory Interface Intent:\n"@ + intent, at)
            &&& stands_in(
                all,
                "\n\n# Current Datetime: "@ + datetime,
                all.len() - ("\n\n# Current Datetime: "@ + datetime).len(),
            )
        }),
{
    let all = super::instructions_of(
        system,
        primer,
        notes,
        counterparty,
        evidence,
        intent,
        datetime,
    );
    let p = "\n\n---\n\n# `DESCRIBE PRIMER` Result:\n"@ + primer;
    let n = "\n\n---\n\n# Your Notes:\n"@ + notes;
    let c = "\n\n# Counterparty Profile:\n"@ + counterparty;
    let e = "\n\n# Captured Evidence:\n"@ + evidence;
    let i = "\n\n# Memory Interface Intent:\n"@ + intent;
    let d = "\n\n# Current Datetime: "@ + datetime;
    assert(all =~= system + (p + (n + (c + (e + (i + d))))));
    let to_p = system.len() as int;
    let to_n = to_p + p.len();
    let to_c = to_n + n.len();
    let to_e = to_c + c.len();
    let to_i = to_e + e.len();
    let to_d = to_i + i.len();
    assert(all.subrange(0, to_p) =~= system);
    assert(all.subrange(to_p, to_n) =~= p);
    assert(all.subrange(to_n, to_c) =~= n);
    assert(all.subrange(to_c, to_e) =~= c);
    assert(all.subrange(to_e, to_i) =~= e);
    assert(all.subrange(to_i, to_d) =~= i);
    assert(all.subrange(to_d, to_d + d.len()) =~= d);
    assert(stands_in(all, p, to_p));
    assert(stands_in(all, n, to_n));
    assert(stands_in(all, c, to_c));
    assert(stands_in(all, e, to_e));
    assert(stands_in(all, i, to_i));
}

// ---------------------------------------------------------------------------
// The worker
// ---------------------------------------------------------------------------

/// A conversation that failed is tried once more, after a pause. One that has ended moves
/// the marker on, never back; any other leaves the slot.
pub proof fn formed_conversations_move_the_marker(
    before: Worker,
    after: Worker,
    gate_before: ProcessingGate,
    gate: ProcessingGate,
    told: worker::Told,
    processed: Option<u64>,
    maintenance_running: bool,
    r: Result<worker::Ask, worker::OutOfTurn>,
)
    requires
        before.moves(after, gate_before, gate, told, processed, maintenance_running, r),
        before.stage is First || before.stage is Second,
        told is Formed,
    ensures
        ({
            let status = told->Formed_0;
            let ended = status is Completed || status is Cancelled;
            &&& r is Ok
            &&& before.stage is First && status is Failed ==> r->Ok_0 is Wait && after.stage
                is Pause
            &&& before.stage is Second && status is Failed ==> r->Ok_0 is End && gate.formation == 0
            &&& ended ==> r->Ok_0 is SaveMarker && after.stage is Marker && gate == gate_before
            &&& ended && processed is None ==> r->Ok_0 == worker::Ask::SaveMarker(before.current)
            &&& ended && processed is Some && processed->0 >= before.current ==> r->Ok_0
                == worker::Ask::SaveMarker(processed->0)
            &&& ended && processed is Some && processed->0 < before.current ==> r->Ok_0
                == worker::Ask::SaveMarker(before.current)
            &&& !ended && !(status is Failed) ==> r->Ok_0 is End && gate.formation == 0
            &&& after.current == before.current
            &&& gate.maintenance == gate_before.maintenance
        }),
{
}

/// After the marker maintenance is offered a turn; where it takes it the worker ends, and
/// else reads on behind the conversation at hand. An empty queue is read once more with
/// the slot free, and the slot is taken again only where nobody else has it.
pub proof fn workers_go_on_with_the_queue(
    before: Worker,
    after: Worker,
    gate_before: ProcessingGate,
    gate: ProcessingGate,
    told: worker::Told,
    processed: Option<u64>,
    maintenance_running: bool,
    r: Result<worker::Ask, worker::OutOfTurn>,
)
    requires
        before.moves(after, gate_before, gate, told, processed, maintenance_running, r),
    ensures
        before.stage is Pause && told is Waited ==> r == Ok::<worker::Ask, worker::OutOfTurn>(
            worker::Ask::Form(before.current),
        ) && after.stage is Second,
        before.stage is Marker && told is Marked ==> r == Ok::<worker::Ask, worker::OutOfTurn>(
            worker::Ask::OfferMaintenance(before.current),
        ) && after.stage is Maintenance && gate == gate_before,
        before.stage is Maintenance && told is Maintenance && told->started ==> r == Ok::<
            worker::Ask,
            worker::OutOfTurn,
        >(worker::Ask::End) && after.stage is Over,
        before.stage is Maintenance && told is Maintenance && !told->started ==> r == Ok::<
            worker::Ask,
            worker::OutOfTurn,
        >(worker::Ask::ReadQueue(before.current)) && after.stage is Queue,
        before.stage is Queue && told is Queue && told->Queue_0 is Empty ==> r == Ok::<
            worker::Ask,
            worker::OutOfTurn,
        >(worker::Ask::ReadQueue(before.current)) && after.stage is Again && gate.formation == 0,
        before.stage is Queue && told is Queue && told->Queue_0 is Failed ==> r == Ok::<
            worker::Ask,
            worker::OutOfTurn,
        >(worker::Ask::End) && gate.formation == 0,
        before.stage is Queue && told is Queue && told->Queue_0 is Next && gate_before.formation
            == before.current ==> r == Ok::<worker::Ask, worker::OutOfTurn>(
            worker::Ask::Form((told->Queue_0)->Next_0),
        ) && gate.formation == (told->Queue_0)->Next_0 && after.stage is First,
        before.stage is Again && told is Queue ==> {
            let free = !gate_before.maintenance && !maintenance_running && gate_before.formation
                == 0;
            &&& told->Queue_0 is Next && free ==> r == Ok::<worker::Ask, worker::OutOfTurn>(
                worker::Ask::Form((told->Queue_0)->Next_0),
            ) && gate.formation == (told->Queue_0)->Next_0 && after.current
                == (told->Queue_0)->Next_0
            &&& !(told->Queue_0 is Next && free) ==> r == Ok::<worker::Ask, worker::OutOfTurn>(
                worker::Ask::End,
            ) && gate == gate_before
        },
        r is Err ==> after == before && gate == gate_before,
{
}

// ---------------------------------------------------------------------------
// The counterparty
// ---------------------------------------------------------------------------

/// A person who is found is given; one who is not is created under the key, and read back. A
/// conflict stops a rename, and means to anyone else that the person is there by now.
/// Whatever fails ends the call with its error.
pub proof fn counterparties_are_looked_up_first(
    before: Counterparty,
    told: counterparty::Told,
    after: Counterparty,
    r: Result<counterparty::Ask, counterparty::OutOfTurn>,
)
    requires
        before.moves(told, after, r),
    ensures
        after.key@ == before.key@,
        after.named == before.named,
        before.stage is Looking && (told is NotFound || (told is Found && told->Found_0@ is Null))
            ==> r is Ok && r->Ok_0 is Write && (r->Ok_0)->Write_0.key@ == before.key@
            && (r->Ok_0)->Write_0.name@ == before.key@ && (r->Ok_0)->Write_0.tolerates_conflict
            && after.stage is Writing,
        before.stage is Looking && told is Found && !(told->Found_0@ is Null) ==> r == Ok::<
            counterparty::Ask,
            counterparty::OutOfTurn,
        >(counterparty::Ask::Give(told->Found_0)) && after.stage is Ended,
        before.stage is Writing && told is Written ==> r is Ok && r->Ok_0 is Read
            && (r->Ok_0)->Read_key@ == before.key@ && after.stage is ReadingBack,
        before.stage is Writing && told is Conflict && before.named ==> r is Ok && r->Ok_0 is Fail
            && after.stage is Ended,
        before.stage is Writing && told is Conflict && !before.named ==> r is Ok && r->Ok_0 is Read
            && (r->Ok_0)->Read_key@ == before.key@ && after.stage is ReadingBack,
        before.stage is ReadingBack && told is Found ==> r == Ok::<
            counterparty::Ask,
            counterparty::OutOfTurn,
        >(counterparty::Ask::Give(told->Found_0)) && after.stage is Ended,
        before.stage is ReadingBack && told is NotFound ==> r is Ok && r->Ok_0 is Give
            && (r->Ok_0)->Give_0@ is Null,
        !(before.stage is Ended) && told is Failed ==> r is Ok && r->Ok_0 is Fail && after.stage
            is Ended,
        before.stage is Ended ==> r is Err && after.stage is Ended,
{
}

} // verus!
