//! What holds of reading a context and of preparing an action.

use vstd::prelude::*;

use super::context::{self, Capture};
use super::native::{self, DeliveryReceipt, GatePlan, UsedMemory};
use super::preparing::{self, Preparing};
use super::reading::{self, Reading};
use super::{ActionBindings, ActionError};
use crate::json::Datum;
use crate::text;
use crate::wake::WakeRecord;

verus! {

// ---------------------------------------------------------------------------
// Reading a context
// ---------------------------------------------------------------------------

/// A read is taken only where it is whole and within a quarter of a mebibyte.
pub proof fn reads_are_taken_whole(result: Datum, more: bool)
    ensures
        reading::unread(result, more) is None <==> !more && text::utf8_len(result.written())
            < 262_145,
        more ==> reading::unread(result, more) == Some(ActionError::IncompletePage),
        !more && text::utf8_len(result.written()) > 262_144 ==> reading::unread(result, more)
            == Some(ActionError::ByteBudget),
{
}

/// The anchor's projection gives the coordinate under which everything else is read; without
/// a projection or a coordinate nothing is.
pub proof fn anchors_give_the_coordinate(
    before: Reading,
    after: Reading,
    result: Datum,
    more: bool,
    r: Result<reading::Ask, ActionError>,
)
    requires
        before.anchor_moves(after, result, more, r),
    ensures
        r is Ok ==> {
            &&& !more
            &&& result is Array && result->Array_0.len() > 0
            &&& after.anchor@ == result->Array_0[0]
            &&& after.basis@ == result->Array_0[0].at("basis"@)
            &&& result->Array_0[0].at("basis"@).at("snapshot_seq"@) == Datum::Unsigned(after.seq)
            &&& after.stage is Commitments
            &&& r->Ok_0 is Read && (r->Ok_0)->Read_query@ == context::commitment_query_of(after.seq)
        },
        reading::unread(result, more) is None && (!(result is Array) || result->Array_0.len() == 0)
            ==> r == Err::<reading::Ask, ActionError>(ActionError::BeliefUnavailable),
        reading::unread(result, more) is None && result is Array && result->Array_0.len() > 0
            && !(result->Array_0[0].at("basis"@).at("snapshot_seq"@) is Unsigned) ==> r == Err::<
            reading::Ask,
            ActionError,
        >(ActionError::BasisSequenceMissing),
        reading::unread(result, more) matches Some(e) ==> r == Err::<reading::Ask, ActionError>(e),
{
}

/// An element is taken as it was read, with the version that it carries. The anchor keeps
/// its own projection; another Proposition is asked for one; nothing else has one.
pub proof fn elements_are_taken_with_their_projection(
    before: Reading,
    after: Reading,
    row: Datum,
    version: u64,
    belief: Option<Datum>,
)
    requires
        before.takes_row(after, row, version, belief),
    ensures
        after.rows@.len() == before.rows@.len() + 1,
        after.rows@.last().row@ == row,
        after.rows@.last().version == version,
        belief is Some <==> after.rows@.last().belief is Some,
        belief is Some ==> after.rows@.last().belief->0@ == belief->0,
        forall|i: int| 0 <= i < before.rows@.len() ==> #[trigger] after.rows@[i] == before.rows@[i],
        after.refs == before.refs && after.seq == before.seq && after.problem == before.problem,
{
    assert forall|i: int| 0 <= i < before.rows@.len() implies #[trigger] after.rows@[i]
        == before.rows@[i] by {
        assert(after.rows@.drop_last()[i] == after.rows@[i]);
    }
}

/// A Proposition other than the anchor is asked for its projection at the same coordinate.
pub proof fn propositions_are_asked_for_their_projection(
    before: Reading,
    after: Reading,
    result: Datum,
    more: bool,
    r: Result<reading::Ask, ActionError>,
)
    requires
        before.wf(),
        before.stage is Element,
        before.element_moves(after, result, more, r),
        reading::unread(result, more) is None,
    ensures
        ({
            let id = before.refs@[before.rows@.len() as int]@;
            let read = context::element_of(result, id);
            &&& read matches Err(e) ==> r == Err::<reading::Ask, ActionError>(e)
            &&& read is Ok && id != before.request.anchor@ && text::is_prefix("P-"@, id) ==> r is Ok
                && r->Ok_0 is Read && (r->Ok_0)->Read_query@ == context::belief_query_of(
                Some(before.seq),
            ) && (r->Ok_0)->Read_id is Some && (r->Ok_0)->Read_id->0@ == id && after.stage is Belief
                && after.rows == before.rows
        }),
{
}

/// A row is the element that was asked for, with its version, and nothing else is taken for
/// it.
pub proof fn rows_are_the_element_that_was_asked_for(rows: Datum, id: Seq<char>)
    ensures
        context::element_of(rows, id) matches Ok((row, version)) ==> rows is Array
            && rows->Array_0.len() > 0 && row == rows->Array_0[0] && row.at("id"@) == Datum::Text(
            id,
        ) && row.at("_system"@).at("version"@) == Datum::Unsigned(version),
        rows is Array && rows->Array_0.len() > 0 && rows->Array_0[0].at("id"@) == Datum::Text(id)
            && rows->Array_0[0].at("_system"@).at("version"@) is Unsigned ==> context::element_of(
            rows,
            id,
        ) is Ok,
        rows is Array && rows->Array_0.len() == 0 ==> context::element_of(rows, id) == Err::<
            (Datum, u64),
            ActionError,
        >(ActionError::ReferenceUnavailable),
        rows is Array && rows->Array_0.len() > 0 && rows->Array_0[0].at("id"@) != Datum::Text(id)
            ==> context::element_of(rows, id) == Err::<(Datum, u64), ActionError>(
            ActionError::ReferenceUnreadable,
        ),
{
}

/// More than thirty-two commitments leave the coverage incomplete; nothing that was planned
/// is read before.
pub proof fn many_commitments_leave_gaps(
    before: Reading,
    after: Reading,
    wake: WakeRecord,
    rows: Seq<Datum>,
)
    requires
        before.plans(after, wake, rows),
    ensures
        rows.len() > 32 ==> after.problem is Some && after.problem->0@
            == "constraint_coverage_incomplete"@,
        rows.len() <= 32 ==> after.problem is None,
        after.rows@.len() == 0,
        after.seq == before.seq,
        after.request == before.request,
{
}

/// What was captured is what was read: the request, the basis, the pins and every reference,
/// with the packet; its first problem is kept, and a packet that does not fit is one.
pub proof fn captures_hold_what_was_read(
    before: Reading,
    capture: Capture,
    packet: Datum,
    insufficient: bool,
)
    requires
        before.captured(capture, packet, insufficient),
        before.gathered is Some,
    ensures
        capture.packet@ == packet,
        capture.basis@ == before.basis@,
        capture.receipt is None,
        capture.pins == before.gathered->0.pins,
        text::views(capture.retrieved@) == text::views(before.refs@),
        before.gathered->0.insufficient is Some ==> capture.insufficient is Some
            && capture.insufficient->0@ == before.gathered->0.insufficient->0@,
        before.gathered->0.insufficient is None && insufficient ==> capture.insufficient is Some
            && capture.insufficient->0@ == "required_context_does_not_fit"@,
        before.gathered->0.insufficient is None && !insufficient ==> capture.insufficient is None,
{
}

// ---------------------------------------------------------------------------
// Preparing an action
// ---------------------------------------------------------------------------

/// Where receipts are kept, one that the request names is read, and one is issued else,
/// under the wake and its round.
pub proof fn receipts_are_read_or_issued(
    before: Preparing,
    after: Preparing,
    bindings: ActionBindings,
    wake: WakeRecord,
    now: u64,
    started_at: Seq<char>,
    r: Result<preparing::Ask, ActionError>,
)
    requires
        before.begins(after, true, bindings, wake, now, started_at, r),
        before.capture is Some,
    ensures
        before.capture->0.request.recall_receipt is Some ==> r == Ok::<preparing::Ask, ActionError>(
            preparing::Ask::ReadReceipt,
        ) && after.stage is Receipt,
        before.capture->0.request.recall_receipt is None ==> r is Ok && r->Ok_0 is Issue
            && (r->Ok_0)->Issue_0@ == "gate:"@ + wake.wake_ref@ + ":"@ + text::decimal(
            before.rounds as nat,
        ) && after.stage is Issue,
{
}

/// A receipt counts only where its inventory is complete and it delivered a bounded packet;
/// then everything that is used is read as it stands.
pub proof fn receipts_are_verified(
    before: Preparing,
    after: Preparing,
    receipt: DeliveryReceipt,
    r: Result<preparing::Ask, ActionError>,
)
    requires
        before.receipt_moves(after, receipt, r),
    ensures
        !receipt.complete_inventory || receipt.delivery@ != "bounded_packet"@ ==> r == Err::<
            preparing::Ask,
            ActionError,
        >(ActionError::ReceiptUnverified),
        receipt.complete_inventory && receipt.delivery@ == "bounded_packet"@ ==> r is Ok && r->Ok_0
            is ReadUsed && after.stage is Used && after.receipt == Some(receipt) && text::views(
            (r->Ok_0)->ReadUsed_0@,
        ) == before.proposal->0.used() + text::views(
            before.capture->0.request.applied_revisions@,
        ),
{
}

/// A memory is covered where the receipt pins its identity with the content that it has now.
pub proof fn receipts_cover_present_content(receipt: DeliveryReceipt, used: UsedMemory)
    ensures
        receipt.covers(used) ==> used.content_digest is Some && exists|i: int|
            0 <= i < receipt.pins@.len() && (#[trigger] receipt.pins@[i]).id@ == used.id@
                && receipt.pins@[i].content_digest@ == used.content_digest->0@,
        used.content_digest is None ==> !receipt.covers(used),
{
}

/// What is used goes on only where it was read for exactly the identities that were asked
/// for and the receipt covers all of it.
pub proof fn changed_memories_stop_the_action(
    before: Preparing,
    after: Preparing,
    used: Seq<UsedMemory>,
    bindings: ActionBindings,
    wake: WakeRecord,
    now: u64,
    started_at: Seq<char>,
    r: Result<preparing::Ask, ActionError>,
    i: int,
)
    requires
        before.used_moves(after, used, bindings, wake, now, started_at, r),
        before.receipt is Some,
        before.receipt->0.verified(),
        0 <= i < used.len(),
    ensures
        r is Ok ==> used.len() == before.used@.len() && used[i].id@ == before.used@[i]@
            && before.receipt->0.covers(used[i]),
        used.len() != before.used@.len() || used[i].id@ != before.used@[i]@ ==> r == Err::<
            preparing::Ask,
            ActionError,
        >(ActionError::OutOfTurn),
{
}

/// A prepared action keeps the wake's version and fence and what was captured and decided;
/// a commit of more than sixty-four kibibytes is refused.
pub proof fn prepared_actions_keep_the_wake(
    before: Preparing,
    after: Preparing,
    plan: GatePlan,
    selection: Datum,
    started_at: Seq<char>,
    bindings: ActionBindings,
    wake: WakeRecord,
    r: Result<preparing::Ask, ActionError>,
)
    requires
        before.seals(after, plan, selection, started_at, bindings, wake, r),
    ensures
        r is Ok ==> {
            &&& after.prepared is Some
            &&& after.prepared->0.expected == wake.version
            &&& after.prepared->0.fence == wake.fence
            &&& after.prepared->0.capture == before.capture->0
            &&& after.prepared->0.request == plan.request
            &&& after.prepared->0.recipient == plan.recipient
            &&& after.prepared->0.reply_deadline_ms == plan.reply_deadline_ms
            &&& text::utf8_len(after.prepared->0.command@) < 65_537
        },
        native::request_digest_of(plan) is None ==> r == Err::<preparing::Ask, ActionError>(
            ActionError::Undigestible,
        ),
{
}

} // verus!
