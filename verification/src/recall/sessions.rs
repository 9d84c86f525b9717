//! What holds of the turns of a recall and of what it sends.

use vstd::prelude::*;

use super::delivery::BudgetError;
use super::packet::{self, PacketFormat};
use super::passes;
use super::prose::{Ask, OutOfTurn, Prose, Told};
use super::ranks::{self, ContentPin};
use super::requests::{self, BoundedCall};
use super::session::{self, ConversationStatus, PastConversation, RecallFailure, Turns};
use super::RecallBudget;
use crate::json::{self, Datum};
use crate::text;

verus! {

// ---------------------------------------------------------------------------
// Turns
// ---------------------------------------------------------------------------

/// A recall has three minutes, whatever the clock did before it started.
pub proof fn recalls_have_three_minutes(started: u64, now: u64)
    ensures
        now <= started ==> session::time_left(started, now) == Some(180_000u64),
        started <= now <= started + 180_000 ==> session::time_left(started, now) is Some
            && session::time_left(started, now)->0 + (now - started) == 180_000,
        now > started + 180_000 ==> session::time_left(started, now) is None,
{
}

/// Only what the runner counts beyond what is accounted for is new; sums stop at the
/// machine's bound.
pub proof fn new_turns_are_counted(turns: Turns, runner_turns: usize, n: int)
    requires
        n >= 0,
    ensures
        runner_turns >= turns.accounted ==> turns.fresh(runner_turns) + turns.accounted
            == runner_turns,
        runner_turns < turns.accounted ==> turns.fresh(runner_turns) == 0,
        n <= usize::MAX ==> session::saturated(n) == n,
        n > usize::MAX ==> session::saturated(n) == usize::MAX,
{
}

/// A failure says which bound was met.
pub proof fn failures_say_which_bound(limit: usize, seconds: u64, tokens: usize)
    ensures
        session::failure_text(RecallFailure::TurnLimit, limit)
            == "recall exceeded model turn limit of "@ + text::decimal(limit as nat),
        session::failure_text(RecallFailure::Timeout, limit)
            == "recall timed out after 180 seconds"@,
        session::timeout_text(seconds) == "read-only KIP execution timed out after "@
            + text::decimal(seconds as nat) + " seconds; memory is busy, retry later"@,
        session::too_large_message(tokens, limit) == "Input too large: "@ + text::decimal(
            tokens as nat,
        ) + " tokens (estimated), max allowed is "@ + text::decimal(limit as nat) + " tokens"@,
{
}

/// Only a conversation that was completed since the boundary is shown.
pub proof fn shown_conversations_were_completed(c: PastConversation, boundary: u64)
    ensures
        session::may_be_shown(c, boundary) <==> c.status is Completed && c.id > boundary,
{
}

/// The instructions begin with the reference, end with the time, and hold each part under
/// its heading.
pub proof fn instructions_hold_every_part(
    reference: Seq<char>,
    prompt: Seq<char>,
    primer: Seq<char>,
    notes: Seq<char>,
    counterparty: Seq<char>,
    datetime: Seq<char>,
)
    ensures
        ({
            let all = session::instructions_of(
                reference,
                prompt,
                primer,
                notes,
                counterparty,
                datetime,
            );
            &&& stands_in(all, reference, 0)
            &&& stands_in(all, "\n\n---\n\n"@ + prompt, reference.len() as int)
            &&& exists|at: int| #[trigger]
                stands_in(all, "\n\n---\n\n# `DESCRIBE PRIMER` Result:\n"@ + primer, at)
            &&& exists|at: int| #[trigger]
                stands_in(all, "\n\n---\n\n# Your Notes:\n"@ + notes, at)
            &&& exists|at: int| #[trigger]
                stands_in(all, "\n\n# Counterparty profile:\n"@ + counterparty, at)
            &&& stands_in(
                all,
                "\n\n# Current Datetime: "@ + datetime,
                all.len() - ("\n\n# Current Datetime: "@ + datetime).len(),
            )
        }),
{
    let all = session::instructions_of(reference, prompt, primer, notes, counterparty, datetime);
    let q = "\n\n---\n\n"@ + prompt;
    let p = "\n\n---\n\n# `DESCRIBE PRIMER` Result:\n"@ + primer;
    let n = "\n\n---\n\n# Your Notes:\n"@ + notes;
    let c = "\n\n# Counterparty profile:\n"@ + counterparty;
    let d = "\n\n# Current Datetime: "@ + datetime;
    assert(all =~= reference + (q + (p + (n + (c + d)))));
    let to_q = reference.len() as int;
    let to_p = to_q + q.len();
    let to_n = to_p + p.len();
    let to_c = to_n + n.len();
    let to_d = to_c + c.len();
    assert(all.subrange(0, to_q) =~= reference);
    assert(all.subrange(to_q, to_p) =~= q);
    assert(all.subrange(to_p, to_n) =~= p);
    assert(all.subrange(to_n, to_c) =~= n);
    assert(all.subrange(to_c, to_d) =~= c);
    assert(all.subrange(to_d, to_d + d.len()) =~= d);
    assert(stands_in(all, p, to_p));
    assert(stands_in(all, n, to_n));
    assert(stands_in(all, c, to_c));
}

/// The text stands in the other, behind that many characters.
pub open spec fn stands_in(whole: Seq<char>, part: Seq<char>, at: int) -> bool {
    0 <= at && at + part.len() <= whole.len() && whole.subrange(at, at + part.len()) == part
}

/// A turn starts only while there are turns and time left, and is given the time that is
/// left; else the recall fails for the one or the other.
pub proof fn turns_start_within_bounds(
    before: Prose,
    after: Prose,
    now: u64,
    r: Result<Ask, OutOfTurn>,
)
    requires
        before.starts_turn(after, now, r),
    ensures
        r is Ok,
        before.turns.total >= before.limit ==> r->Ok_0 is Fail && (r->Ok_0)->Fail_0@
            == "recall exceeded model turn limit of "@ + text::decimal(before.limit as nat)
            && after.status is Failed && after.stage is Over,
        before.turns.total < before.limit && now > before.started + 180_000 ==> r->Ok_0 is Fail
            && (r->Ok_0)->Fail_0@ == "recall timed out after 180 seconds"@ && after.status
            is Failed,
        before.turns.total < before.limit && now <= before.started + 180_000 ==> r->Ok_0 is Compact
            && (r->Ok_0)->Compact_left_ms <= 180_000 && (now > before.started
            ==> (r->Ok_0)->Compact_left_ms + (now - before.started) == 180_000) && after.stage
            is Compaction && after.turns == before.turns,
{
}

/// A compaction counts as one turn, and the runner's own count starts anew from it.
pub proof fn compactions_count_as_a_turn(
    before: Prose,
    after: Prose,
    compacted: Option<usize>,
    now: u64,
    r: Result<Ask, OutOfTurn>,
)
    requires
        before.compacted_moves(after, compacted, now, r),
        before.turns.total < usize::MAX,
    ensures
        compacted matches Some(n) ==> after.turns.total == before.turns.total + 1
            && after.turns.accounted == n && after.turns.persisted_history == 0
            && !after.turns.replace_initial_input,
        compacted is None ==> after.turns == before.turns,
        r is Ok,
        now <= before.started + 180_000 ==> r->Ok_0 is Turn && after.stage is Turn,
        now > before.started + 180_000 ==> r->Ok_0 is Fail,
        after.turns.unpersisted == before.turns.unpersisted,
{
}

/// A turn is counted. The conversation is written once it has ended, or after as many turns
/// as were asked for, and as it then stands.
pub proof fn turns_are_counted_and_written(
    before: Prose,
    after: Prose,
    runner_turns: usize,
    failed: bool,
    done: bool,
    now: u64,
    r: Result<Ask, OutOfTurn>,
)
    requires
        before.took_moves(after, runner_turns, failed, done, now, r),
        before.turns.unpersisted < usize::MAX,
        before.turns.total + runner_turns <= usize::MAX,
    ensures
        ({
            let due = failed || done || before.turns.unpersisted + 1 >= before.persist_every;
            &&& due ==> r is Ok && r->Ok_0 is Persist && after.stage is Writing
                && after.turns.unpersisted == 0
            &&& !due ==> after.turns.unpersisted == before.turns.unpersisted + 1
            &&& due && failed ==> (r->Ok_0)->Persist_0 is Failed
            &&& due && !failed && done ==> (r->Ok_0)->Persist_0 is Completed
            &&& due && !failed && !done ==> (r->Ok_0)->Persist_0 is Working
            &&& runner_turns >= before.turns.accounted ==> after.turns.total == before.turns.total
                + (runner_turns - before.turns.accounted)
            &&& after.turns.accounted == runner_turns
            &&& after.answered
        }),
{
}

/// After the last turn the conversation is written where something of it was not; then the
/// answer is given, where there is one.
pub proof fn the_last_turn_is_written(before: Prose, after: Prose, r: Result<Ask, OutOfTurn>)
    requires
        before.no_turn_moves(after, r),
    ensures
        before.turns.unpersisted > 0 && before.status is Working ==> r == Ok::<Ask, OutOfTurn>(
            Ask::Persist(ConversationStatus::Working),
        ) && after.stage is Last,
        !(before.turns.unpersisted > 0 && before.status is Working) && before.answered ==> r == Ok::<
            Ask,
            OutOfTurn,
        >(Ask::Answer) && after.stage is Over,
        !(before.turns.unpersisted > 0 && before.status is Working) && !before.answered ==> r
            == Ok::<Ask, OutOfTurn>(Ask::NoOutput) && after.stage is Over,
{
}

/// A conversation that was written goes on unless it has failed or was completed.
pub proof fn written_conversations_go_on(
    before: Prose,
    after: Prose,
    now: u64,
    r: Result<Ask, OutOfTurn>,
)
    requires
        before.written_moves(after, now, r),
    ensures
        r is Ok,
        before.status is Failed || before.status is Completed ==> after.stage is Over && (r->Ok_0
            is Answer <==> before.answered),
        !(before.status is Failed) && !(before.status is Completed) ==> r->Ok_0 is Compact || r->Ok_0
            is Fail,
{
}

/// A runner that fails or runs out of time ends the recall, as failed; nothing else can.
pub proof fn failing_runners_end_the_recall(
    before: Prose,
    after: Prose,
    told: Told,
    now: u64,
    r: Result<Ask, OutOfTurn>,
)
    requires
        before.moves(after, told, now, r),
    ensures
        (before.stage is Compaction || before.stage is Turn) && told is RunnerFailed ==> r == Ok::<
            Ask,
            OutOfTurn,
        >(Ask::FailRunner) && after.status is Failed && after.stage is Over,
        (before.stage is Compaction || before.stage is Turn) && told is TimedOut ==> r is Ok
            && r->Ok_0 is Fail && (r->Ok_0)->Fail_0@ == "recall timed out after 180 seconds"@
            && after.status is Failed,
        before.stage is Opening && told is Opened ==> r == Ok::<Ask, OutOfTurn>(Ask::ReadContext)
            && after.stage is Context,
        before.stage is Over ==> after == before && r is Err,
        r is Err ==> after == before,
{
}

// ---------------------------------------------------------------------------
// Requests and packets
// ---------------------------------------------------------------------------

/// The tool that ends a recall takes a list of identities, needs it, and takes nothing
/// else.
pub proof fn selections_are_lists_of_identities()
    ensures
        ({
            let v = requests::selector_value();
            let p = v.at("parameters"@);
            &&& v.at("name"@) == Datum::Text(passes::SELECT@)
            &&& v.at("strict"@) == Datum::Bool(true)
            &&& p.at("type"@) == Datum::Text("object"@)
            &&& p.at("properties"@).at("selected_ids"@).at("type"@) == Datum::Text("array"@)
            &&& p.at("properties"@).at("selected_ids"@).at("items"@).at("type"@) == Datum::Text(
                "string"@,
            )
            &&& p.at("required"@) == json::text_list(seq!["selected_ids"@])
            &&& p.at("additionalProperties"@) == Datum::Bool(false)
        }),
{
    broadcast use json::with_is_read_back;

    reveal_strlit("name");
    reveal_strlit("description");
    reveal_strlit("strict");
    reveal_strlit("parameters");
    reveal_strlit("type");
    reveal_strlit("properties");
    reveal_strlit("selected_ids");
    reveal_strlit("items");
    reveal_strlit("required");
    reveal_strlit("additionalProperties");
    assert("name"@.len() == 4 && "description"@.len() == 11 && "strict"@.len() == 6 && "parameters"@.len() == 10);
    assert("type"@.len() == 4 && "properties"@.len() == 10 && "selected_ids"@.len() == 12 && "items"@.len() == 5);
    assert("required"@.len() == 8 && "additionalProperties"@.len() == 20 && "name"@[0] == 'n' && "parameters"@[1] == 'a');
    assert("properties"@[1] == 'r' && "type"@[0] == 't');
    let v = requests::selector_value();
    assert(v.get("name"@) is Some);
    assert(v.get("strict"@) is Some);
    assert(v.get("parameters"@) is Some);
    let p = v.at("parameters"@);
    assert(p.get("type"@) is Some);
    assert(p.get("properties"@) is Some);
    assert(p.get("required"@) is Some);
    assert(p.get("additionalProperties"@) is Some);
    let q = p.at("properties"@);
    assert(q.get("selected_ids"@) is Some);
    let s = q.at("selected_ids"@);
    assert(s.get("type"@) is Some);
    assert(s.get("items"@) is Some);
    assert(s.at("items"@).get("type"@) is Some);
}

/// A call is made with its own name and arguments; a read is bounded in each of its
/// operations, and is refused where it has no request.
pub proof fn calls_keep_their_arguments(
    call: passes::ToolCall,
    request: Option<Datum>,
    r: Result<BoundedCall, BudgetError>,
)
    requires
        requests::is_bounded(call, request, r),
    ensures
        call.name@ == "execute_kip_readonly"@ && request is None ==> r == Err::<
            BoundedCall,
            BudgetError,
        >(BudgetError::InvalidRequest),
        call.name@ == "execute_kip_readonly"@ && r is Ok ==> r->Ok_0 is Kip && request is Some
            && (r->Ok_0)->request@ == request->0,
        call.name@ != "execute_kip_readonly"@ ==> r is Ok && r->Ok_0 is Tool
            && (r->Ok_0)->name@ == call.name@,
        call.name@ != "execute_kip_readonly"@ && call.name@ != "wiki_search"@
            ==> (r->Ok_0)->args@ == call.args@,
        call.name@ == "wiki_search"@ ==> r is Ok && (r->Ok_0)->args@ == super::delivery::searched(
            call.args@,
        ),
{
    reveal_strlit("wiki_search");
    reveal_strlit("execute_kip_readonly");
    assert("wiki_search"@.len() == 11 && "execute_kip_readonly"@.len() == 20);
}

/// A slot has one Concept: something was found, all of it under one identity and content.
pub proof fn slots_hold_one_concept(found: Seq<ContentPin>)
    ensures
        ranks::holds_one_concept(found) ==> {
            &&& found.len() > 0
            &&& found[0].id@.len() >= 2 && found[0].id@[0] == 'C' && found[0].id@[1] == '-'
            &&& forall|i: int|
                0 <= i < found.len() ==> (#[trigger] found[i]).id@ == found[0].id@
                    && found[i].content_digest@ == found[0].content_digest@
        },
        found.len() == 0 ==> !ranks::holds_one_concept(found),
{
    reveal_strlit("C-");
    if ranks::holds_one_concept(found) {
        let id = found[0].id@;
        assert(id.subrange(0, 2)[0] == id[0]);
        assert(id.subrange(0, 2)[1] == id[1]);
    }
}

/// Where nothing was delivered the packet says so: the budget did not suffice, within its
/// limit, with no items, ready for nothing. What was delivered is the packet.
pub proof fn missing_packets_say_so(delivered: Datum, format: PacketFormat, budget: RecallBudget)
    ensures
        !(delivered is Null) ==> packet::packet_of(delivered, format, budget) == delivered,
        delivered is Null ==> {
            let v = packet::packet_of(delivered, format, budget);
            &&& v.at("format"@) == Datum::Text(format.name@)
            &&& v.at("status"@) == Datum::Text("budget_insufficient"@)
            &&& v.at("tokenizer"@) == Datum::Text(budget.tokenizer@)
            &&& v.at("token_limit"@) == Datum::Unsigned(budget.max_tokens as u64)
            &&& v.at("items"@) is Array && v.at("items"@)->Array_0.len() == 0
            &&& v.at("semantic_complete"@) == Datum::Bool(false)
            &&& v.at("action_ready"@) == Datum::Bool(false)
            &&& v.at("failed_reason"@) is Null
        },
{
    broadcast use json::with_is_read_back;

    reveal_strlit("format");
    reveal_strlit("status");
    reveal_strlit("failed_reason");
    reveal_strlit("tokenizer");
    reveal_strlit("token_limit");
    reveal_strlit("items");
    reveal_strlit("coverage");
    reveal_strlit("semantic_complete");
    reveal_strlit("action_ready");
    assert("format"@.len() == 6 && "status"@.len() == 6 && "failed_reason"@.len() == 13 && "tokenizer"@.len() == 9);
    assert("token_limit"@.len() == 11 && "items"@.len() == 5 && "coverage"@.len() == 8 && "semantic_complete"@.len() == 17);
    assert("action_ready"@.len() == 12 && "format"@[0] == 'f' && "status"@[0] == 's');
    if delivered is Null {
        let v = packet::packet_of(delivered, format, budget);
        assert(v.get("format"@) is Some);
        assert(v.get("status"@) is Some);
        assert(v.get("failed_reason"@) is Some);
        assert(v.get("tokenizer"@) is Some);
        assert(v.get("token_limit"@) is Some);
        assert(v.get("items"@) is Some);
        assert(v.get("semantic_complete"@) is Some);
        assert(v.get("action_ready"@) is Some);
    }
}

/// Each channel and each priority is written by its own name.
pub proof fn names_are_their_own(format: PacketFormat)
    ensures
        format.channel(super::Channel::Primer) == format.primer@,
        format.channel(super::Channel::Notes) == format.notes@,
        format.channel(super::Channel::Counterparty) == format.counterparty@,
        format.channel(super::Channel::History) == format.history@,
        format.channel(super::Channel::Kip) == format.kip@,
        format.channel(super::Channel::Wiki) == format.wiki@,
        format.channel(super::Channel::Procedures) == format.procedures@,
        format.priority(super::Priority::Required) == format.required@,
        format.priority(super::Priority::Warning) == format.warning@,
        format.priority(super::Priority::VerifiedProcedure) == format.verified_procedure@,
        format.priority(super::Priority::Relevant) == format.relevant@,
        format.priority(super::Priority::UnprovenProcedure) == format.unproven_procedure@,
{
}

} // verus!
