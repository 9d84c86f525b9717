//! What holds of a recall's reads, checks and prompts.

use vstd::prelude::*;

use super::budgeted::{self, Ask, Moment, OutOfTurn, Recall};
use super::delivery::{self, BudgetError, PlannerRequest};
use super::material::{self, Failure, Procedure};
use super::passes;
use super::Channel;
use crate::json::{self, Datum};
use crate::kip::Operation;
use crate::text;

verus! {

// ---------------------------------------------------------------------------
// Reads
// ---------------------------------------------------------------------------

/// A parameter is that of the operation, and only where it has none of that name the
/// request's.
pub proof fn own_parameters_come_first(
    name: Seq<char>,
    local: Option<Datum>,
    global: Option<Datum>,
)
    ensures
        local is Some && local->0.has(name) ==> delivery::bound(name, local, global) == Some(
            local->0.at(name),
        ),
        (local is None || !local->0.has(name)) && global is Some && global->0.has(name)
            ==> delivery::bound(name, local, global) == Some(global->0.at(name)),
        (local is None || !local->0.has(name)) && (global is None || !global->0.has(name))
            ==> delivery::bound(name, local, global) is None,
{
}

/// A read that passes has at most four operations, all of them queries or searches, and
/// each returns at most thirty-two rows.
pub proof fn reads_are_small(
    operations: Seq<Option<Operation>>,
    request: Datum,
    r: Result<Seq<u64>, BudgetError>,
    i: int,
)
    requires
        delivery::bounded(operations, request, r),
    ensures
        r is Ok ==> operations.len() <= 4 && (r->Ok_0).len() == operations.len(),
        r is Ok && 0 <= i < operations.len() ==> operations[i] is Some && (operations[i]->0 is Query
            || operations[i]->0 is Search) && (r->Ok_0)[i] <= 32,
        operations.len() > 4 ==> r == Err::<Seq<u64>, BudgetError>(BudgetError::TooManyOperations),
        operations.len() <= 4 && operations.contains(None) ==> r == Err::<Seq<u64>, BudgetError>(
            BudgetError::InvalidRequest,
        ),
{
    if r is Ok && 0 <= i < operations.len() {
        assert(delivery::operation_rows(operations[i], request, i) == Ok::<u64, BudgetError>(
            (r->Ok_0)[i],
        ));
    }
}

/// What changes the memory is refused as read-only, and what inspects it as unavailable.
pub proof fn changes_are_refused(operation: Option<Operation>, request: Datum, i: int)
    ensures
        operation == Some(Operation::Write) ==> delivery::operation_rows(operation, request, i)
            == Err::<u64, BudgetError>(BudgetError::ReadOnly),
        operation == Some(Operation::Meta) ==> delivery::operation_rows(operation, request, i)
            == Err::<u64, BudgetError>(BudgetError::MetaUnavailable),
        operation is None ==> delivery::operation_rows(operation, request, i) == Err::<
            u64,
            BudgetError,
        >(BudgetError::InvalidRequest),
        delivery::operation_rows(operation, request, i) matches Ok(n) ==> n <= 32,
{
}

/// The operation's own parameters are those that it carries in the request.
pub proof fn parameters_are_the_operations_own(request: Datum, list: Seq<Datum>, i: int)
    requires
        request.at("operations"@) == Datum::Array(list),
    ensures
        0 <= i < list.len() && list[i].has("parameters"@) ==> delivery::own_parameters(request, i)
            == Some(list[i].at("parameters"@)),
        0 <= i < list.len() && !list[i].has("parameters"@) ==> delivery::own_parameters(request, i)
            is None,
        i < 0 || i >= list.len() ==> delivery::own_parameters(request, i) is None,
        delivery::listed(request) == list.len(),
{
}

// ---------------------------------------------------------------------------
// Checks
// ---------------------------------------------------------------------------

/// One of the procedures is of that skill.
pub open spec fn some_procedure_of(procedures: Seq<Procedure>, skill: Seq<char>) -> bool {
    exists|k: int| 0 <= k < procedures.len() && (#[trigger] procedures[k]).skill@ == skill
}

/// Before delivery every skill is checked that was seen or recommended, and no other.
pub proof fn every_skill_is_checked(
    skills: Seq<Seq<char>>,
    procedures: Seq<Procedure>,
    skill: Seq<char>,
)
    ensures
        delivery::with_procedures(skills, procedures).contains(skill) <==> skills.contains(skill)
            || some_procedure_of(procedures, skill),
    decreases procedures.len(),
{
    if procedures.len() > 0 {
        let rest = procedures.drop_last();
        every_skill_is_checked(skills, rest, skill);
        let before = delivery::with_procedures(skills, rest);
        text::inserted_holds(before, procedures.last().skill@, skill);
        assert(procedures[procedures.len() - 1] == procedures.last());
        if some_procedure_of(rest, skill) {
            let k = choose|k: int| 0 <= k < rest.len() && (#[trigger] rest[k]).skill@ == skill;
            assert(procedures[k] == rest[k]);
        }
        if some_procedure_of(procedures, skill) {
            let k = choose|k: int|
                0 <= k < procedures.len() && (#[trigger] procedures[k]).skill@ == skill;
            if k < rest.len() {
                assert(rest[k] == procedures[k]);
            }
        }
    }
}

/// The next skill is checked until none is left; then the packet is made, and it is an
/// empty one where the planning failed or something required is missing.
pub proof fn skills_are_checked_in_turn(
    before: Recall,
    after: Recall,
    now: Moment,
    r: Result<Ask, OutOfTurn>,
)
    requires
        before.checks_next(after, now, r),
    ensures
        before.next < before.skills@.len() ==> r is Ok && r->Ok_0 is CheckProcedure
            && (r->Ok_0)->CheckProcedure_0@ == before.skills@[before.next as int]@ && after.material
            == before.material && after.next == before.next,
        before.next >= before.skills@.len() ==> r == Ok::<Ask, OutOfTurn>(
            Ask::Pack { empty: before.planner.failed || before.material.critical_missing },
        ) && after.delivered@.len() == before.material.items@.len(),
{
    if before.next >= before.skills@.len() {
        let list = super::items(before.material.items@);
        assert(super::items(after.delivered@).len() == after.delivered@.len());
        assert(list.len() == before.material.items@.len());
    }
}

/// With more than eight skills to check nothing is checked: the packet lacks something
/// required, and says why.
pub proof fn too_many_skills_are_missed(before: Recall, after: Recall)
    requires
        before.misses_checks(after),
    ensures
        after.material.critical_missing,
        after.material.failure == Some(Failure::ProcedureWindow),
        after.material.coverage.omitted@.contains(Channel::Procedures),
        super::items(after.material.items@) == super::items(before.material.items@),
        after.planner == before.planner && after.skills == before.skills && after.tools
            == before.tools && after.stage == before.stage,
{
    let stock = before.material.stock();
    assert(after.material.stock().critical);
    assert(after.material.stock().reach.omitted == material::noted(
        stock.reach.omitted,
        Channel::Procedures,
    ));
    if !stock.reach.omitted.contains(Channel::Procedures) {
        let list = stock.reach.omitted.push(Channel::Procedures);
        assert(list[stock.reach.omitted.len() as int] == Channel::Procedures);
    }
    assert(after.material.stock().items == stock.items);
}

/// A packet in which a permission ran out meanwhile is made anew without any; else the
/// recall closes with what was packed.
pub proof fn expired_packets_are_made_anew(
    before: Recall,
    after: Recall,
    insufficient: bool,
    now: Moment,
    r: Result<Ask, OutOfTurn>,
    i: int,
)
    requires
        before.packet_moves(after, insufficient, now, r),
        0 <= i < after.delivered@.len(),
    ensures
        r == Ok::<Ask, OutOfTurn>(Ask::Pack { empty: false }) ==> !(after.delivered@[i]@.channel
            is Procedures && after.delivered@[i]@.content.at("recommendation_allowed"@)
            == Datum::Bool(true)) && !before.planner.failed && !before.material.critical_missing,
        r is Ok && r->Ok_0 is Close ==> after.delivered@[i]@ == before.delivered@[i]@,
{
    if r == Ok::<Ask, OutOfTurn>(Ask::Pack { empty: false }) {
        let first = delivery::expired(before.delivered@[i]@, now.ms, now.timestamp@, false);
        assert(after.delivered@[i]@ == delivery::expired(first, now.ms, now.timestamp@, true));
        if delivery::is_permit(first) {
            super::laws::permissions_run_out(first, now.ms, now.timestamp@, true);
        }
    }
    if r is Ok && r->Ok_0 is Close {
        assert(super::items(after.delivered@)[i] == after.delivered@[i]@);
        assert(super::items(before.delivered@).len() == super::items(after.delivered@).len());
        assert(super::items(before.delivered@)[i] == before.delivered@[i]@);
    }
}

// ---------------------------------------------------------------------------
// Passes
// ---------------------------------------------------------------------------

/// A pass begins with all items visible, while passes are left.
pub proof fn passes_see_all_items(
    before: Recall,
    after: Recall,
    now: Moment,
    r: Result<Ask, OutOfTurn>,
)
    requires
        before.starts_pass(after, now, r),
        before.passes_left > 0,
    ensures
        r == Ok::<Ask, OutOfTurn>(Ask::CountRequest),
        after.passes_left == before.passes_left - 1,
        super::items(after.visible@) == super::items(before.material.items@),
        super::items(after.candidates@) == super::items(before.material.items@),
        after.before.queried@ == before.material.coverage.queried@,
        after.material == before.material,
        after.planner == before.planner,
{
    assert(after.before.reach().queried == after.before.queried@);
}

/// A request is paid for in full and never beyond the limit; one that does not fit makes an
/// optional item give way, or ends the planning where only required ones are left.
pub proof fn requests_fit_or_give_way(
    before: Recall,
    after: Recall,
    weight: usize,
    now: Moment,
    r: Result<Ask, OutOfTurn>,
)
    requires
        before.weight_moves(after, weight, now, r),
        before.planner.context_spent <= before.limit,
    ensures
        before.planner.context_spent + weight <= before.limit ==> r == Ok::<Ask, OutOfTurn>(
            Ask::ReadClock,
        ) && after.planner.context_spent == before.planner.context_spent + weight,
        before.planner.context_spent + weight > before.limit ==> r != Ok::<Ask, OutOfTurn>(
            Ask::ReadClock,
        ) || after.stage !is Clock,
{
}

/// A call counts, whatever comes of it; one that cannot be run fails the planning unless it
/// is the selection.
pub proof fn calls_are_counted(before: Recall, after: Recall)
    requires
        before.judges(after),
        before.planner.calls < usize::MAX,
    ensures
        ({
            let call = before.calls@[before.next as int];
            let step = passes::call_step(call, text::views(before.tools@));
            &&& after.planner.calls == before.planner.calls + 1
            &&& after.planner.context_spent == before.planner.context_spent
            &&& step is Stop && passes::call_selection(call) is None ==> after.planner.failed
            &&& step is Stop && passes::call_selection(call) is Some ==> after.planner.finished
                && after.planner.failed == before.planner.failed
                && text::views(after.planner.selected@) == passes::call_selection(call)->0
            &&& !(step is Stop) ==> after.planner.failed == before.planner.failed
                && after.planner.finished == before.planner.finished && after.planner.selected
                == before.planner.selected
            &&& after.material == before.material
        }),
{
}

/// A request of more than four mebibytes fits no pass.
pub proof fn large_requests_fit_no_pass(bytes: usize, tokens: usize)
    ensures
        bytes <= 4_194_304 ==> budgeted::weight_of(bytes, tokens) == tokens,
        bytes > 4_194_304 ==> budgeted::weight_of(bytes, tokens) == usize::MAX,
{
}

/// Each failure has its own name.
pub proof fn failures_are_named()
    ensures
        Failure::OutputBudget.name() == "recall_output_budget_exhausted"@,
        Failure::RequiredRead.name() == "recall_required_read_incomplete"@,
        Failure::ContextBudget.name() == "recall_context_budget_exhausted"@,
        Failure::Deadline.name() == "recall_deadline_reached"@,
        Failure::ModelUnavailable.name() == "recall_model_unavailable"@,
        Failure::PlannerIncomplete.name() == "recall_planner_incomplete"@,
        Failure::ProcedureWindow.name() == "recall_procedure_window_incomplete"@,
{
}

// ---------------------------------------------------------------------------
// Prompts
// ---------------------------------------------------------------------------

/// The prompt holds the question, the context, the items, what was observed, and how far
/// was read.
pub proof fn prompts_read_back(
    query: Seq<char>,
    context: Datum,
    items: Datum,
    observations: Seq<Datum>,
    coverage: Datum,
)
    ensures
        ({
            let v = budgeted::prompt_value(query, context, items, observations, coverage);
            &&& v.at("query"@) == Datum::Text(query)
            &&& v.at("context"@) == context
            &&& v.at("memory_items"@) == items
            &&& v.at("observations"@) == Datum::Array(observations)
            &&& v.at("coverage"@) == coverage
        }),
{
    broadcast use json::with_is_read_back;

    reveal_strlit("query");
    reveal_strlit("context");
    reveal_strlit("memory_items");
    reveal_strlit("observations");
    reveal_strlit("coverage");
    assert("query"@.len() == 5 && "context"@.len() == 7 && "memory_items"@.len() == 12 && "observations"@.len() == 12);
    assert("coverage"@.len() == 8 && "memory_items"@[0] == 'm' && "observations"@[0] == 'o');
    let v = budgeted::prompt_value(query, context, items, observations, coverage);
    assert(v.get("query"@) == Some(Datum::Text(query)));
    assert(v.get("context"@) == Some(context));
    assert(v.get("memory_items"@) == Some(items));
    assert(v.get("observations"@) == Some(Datum::Array(observations)));
    assert(v.get("coverage"@) == Some(coverage));
}

/// The planner is told which items the search found, and that there may be others; what the
/// language's reference says, or that it is unavailable, as an error.
pub proof fn observations_read_back(
    ids: Seq<Seq<char>>,
    name: Seq<char>,
    value: Datum,
    error: bool,
    primer: Datum,
)
    ensures
        budgeted::search_told(ids).at("query_search"@).at("item_ids"@) == json::text_list(ids),
        budgeted::search_told(ids).at("query_search"@).at("partial"@) == Datum::Bool(true),
        budgeted::reference_told(name, Some((value, error))).at("tool"@) == Datum::Text(name),
        budgeted::reference_told(name, Some((value, error))).at("reference"@) == value,
        budgeted::reference_told(name, Some((value, error))).at("is_error"@) == Datum::Bool(error),
        budgeted::reference_told(name, None).at("is_error"@) == Datum::Bool(true),
        budgeted::reference_told(name, None).at("reference"@).at("status"@) == Datum::Text(
            "unavailable"@,
        ),
        budgeted::primer_told(primer).at("primer"@) == primer,
{
    broadcast use json::with_is_read_back;

    reveal_strlit("query_search");
    reveal_strlit("item_ids");
    reveal_strlit("partial");
    reveal_strlit("tool");
    reveal_strlit("reference");
    reveal_strlit("is_error");
    reveal_strlit("status");
    reveal_strlit("hint");
    reveal_strlit("primer");
    assert("query_search"@.len() == 12 && "item_ids"@.len() == 8 && "partial"@.len() == 7 && "tool"@.len() == 4);
    assert("reference"@.len() == 9 && "is_error"@.len() == 8 && "status"@.len() == 6 && "hint"@.len() == 4);
    assert("primer"@.len() == 6 && "hint"@[0] == 'h' && "is_error"@[1] == 's' && "item_ids"@[1] == 't');
    assert("primer"@[0] == 'p' && "status"@[0] == 's' && "tool"@[0] == 't');
    assert(budgeted::search_told(ids).get("query_search"@) is Some);
    let s = budgeted::search_told(ids).at("query_search"@);
    assert(s.get("item_ids"@) == Some(json::text_list(ids)));
    assert(s.get("partial"@) is Some);
    let t = budgeted::reference_told(name, Some((value, error)));
    assert(t.get("tool"@) == Some(Datum::Text(name)));
    assert(t.get("reference"@) == Some(value));
    assert(t.get("is_error"@) is Some);
    let m = budgeted::reference_told(name, None);
    assert(m.get("is_error"@) is Some);
    assert(m.get("reference"@) is Some);
    assert(m.at("reference"@).get("status"@) is Some);
    assert(budgeted::primer_told(primer).get("primer"@) == Some(primer));
}

/// A read is observed by the item that it became, and as partial where it failed; one that
/// could not be made is observed as unavailable, and one that became no item not at all.
pub proof fn reads_are_observed(
    name: Seq<char>,
    id: Option<Seq<char>>,
    result: Option<(Datum, bool)>,
)
    ensures
        result is None ==> passes::observation(name, id, result) is Some && passes::observation(
            name,
            id,
            result,
        )->0.at("tool"@) == Datum::Text(name) && passes::observation(name, id, result)->0.at(
            "status"@,
        ) == Datum::Text("unavailable"@),
        result is Some && id is Some ==> passes::observation(name, id, result) is Some
            && passes::observation(name, id, result)->0.at("tool"@) == Datum::Text(name)
            && passes::observation(name, id, result)->0.at("item_id"@) == Datum::Text(id->0)
            && passes::observation(name, id, result)->0.at("partial"@) == Datum::Bool(
            (result->0).1,
        ),
        result is Some && id is None ==> passes::observation(name, id, result) is None,
{
    broadcast use json::with_is_read_back;

    reveal_strlit("tool");
    reveal_strlit("status");
    reveal_strlit("item_id");
    reveal_strlit("partial");
    assert("tool"@.len() == 4 && "status"@.len() == 6 && "item_id"@.len() == 7 && "partial"@.len() == 7);
    assert("item_id"@[0] == 'i' && "partial"@[0] == 'p');
    if passes::observation(name, id, result) is Some {
        let v = passes::observation(name, id, result)->0;
        assert(v.get("tool"@) == Some(Datum::Text(name)));
        if result is None {
            assert(v.get("status"@) is Some);
        } else {
            assert(v.get("item_id"@) is Some);
            assert(v.get("partial"@) is Some);
        }
    }
}

/// A request carries nothing beside its prompt exactly where no history, document, content
/// or schema is attached.
pub proof fn requests_carry_their_prompt_alone(r: PlannerRequest)
    ensures
        !r.carries_more() <==> r.chat_history == 0 && r.raw_history == 0 && r.documents == 0
            && r.content == 0 && !r.output_schema,
{
}

/// A check that became an item is remembered with the skill that was checked; nothing else
/// is.
pub proof fn checks_are_remembered(
    before: Seq<Procedure>,
    after: Seq<Procedure>,
    channel: Channel,
    id: Option<Seq<char>>,
    skill_ref: Option<Seq<char>>,
)
    requires
        passes::procedures_after(before, after, channel, id, skill_ref),
    ensures
        channel is Procedures && id is Some && skill_ref is Some ==> after.len() == before.len() + 1
            && after.last().item@ == id->0 && after.last().skill@ == skill_ref->0 && forall|i: int|
            0 <= i < before.len() ==> #[trigger] after[i] == before[i],
        !(channel is Procedures) || id is None || skill_ref is None ==> after == before,
{
    if channel is Procedures && id is Some && skill_ref is Some {
        assert forall|i: int| 0 <= i < before.len() implies #[trigger] after[i] == before[i] by {
            assert(after.drop_last()[i] == after[i]);
        }
    }
}

/// An item is named by `m` and its number, in at least three digits.
pub proof fn items_are_named_by_number(n: nat)
    ensures
        material::item_id(n).len() >= 4,
        material::item_id(n)[0] == 'm',
        material::item_id(n).skip(material::item_id(n).len() - text::decimal(n).len())
            == text::decimal(n),
{
    reveal_strlit("m");
    reveal_strlit("0");
    reveal_strlit("00");
    let digits = text::decimal(n);
    assert(digits.len() > 0);
    let id = material::item_id(n);
    assert(id.skip(id.len() - digits.len()) =~= digits);
}

/// Procedures are checked only where the host lists the tool for it and the planning did not
/// fail; else the packet is made at once.
pub proof fn checks_need_their_tool(
    before: Recall,
    after: Recall,
    now: Moment,
    r: Result<Ask, OutOfTurn>,
)
    requires
        before.refreshes(after, now, r),
    ensures
        before.planner.failed || !text::views(before.tools@).contains("check_procedure_status"@)
            ==> r is Ok && r->Ok_0 is Pack && super::items(after.delivered@).len() == super::items(
            before.material.items@,
        ).len(),
        r is Ok && r->Ok_0 is CheckProcedure ==> !before.planner.failed && text::views(
            before.tools@,
        ).contains("check_procedure_status"@),
{
}

/// The first thing that the planner is told is the primer; the commitments are read next.
pub proof fn planners_are_told_the_primer(
    before: Recall,
    after: Recall,
    primer: Datum,
    notes: Option<crate::json::Json>,
    profile: Option<crate::json::Json>,
    asked: bool,
    history: crate::json::Json,
    r: Result<Ask, OutOfTurn>,
)
    requires
        before.context_moves(after, primer, notes, profile, asked, history, r),
    ensures
        after.observations@.len() == 1,
        after.observations@[0]@.at("primer"@) == primer,
        after.notes == notes,
        after.history == history,
        r is Ok && r->Ok_0 is ReadConstraints,
        after.stage is Constraints,
{
    observations_read_back(Seq::empty(), Seq::empty(), Datum::Null, false, primer);
    assert(json::items_view(after.observations@).len() == after.observations@.len());
    assert(json::items_view(after.observations@)[0] == after.observations@[0]@);
}

/// What a reference said is told under the tool that was called, and the next call follows.
pub proof fn references_are_told(
    before: Recall,
    after: Recall,
    result: Option<(Datum, bool)>,
)
    requires
        before.learns(after, result),
        before.next < usize::MAX,
    ensures
        after.observations@.len() == before.observations@.len() + 1,
        after.observations@.last()@.at("tool"@) == Datum::Text(
            before.calls@[before.next as int].name@,
        ),
        result is Some ==> after.observations@.last()@.at("reference"@) == (result->0).0,
        after.next == before.next + 1,
        after.material == before.material,
{
    let name = before.calls@[before.next as int].name@;
    let value = match result {
        Some(r) => r.0,
        None => budgeted::reference_missing(),
    };
    let error = match result {
        Some(r) => r.1,
        None => true,
    };
    observations_read_back(Seq::empty(), name, value, error, Datum::Null);
    let list = json::items_view(after.observations@);
    assert(list.len() == after.observations@.len());
    assert(list.last() == after.observations@.last()@);
    assert(json::items_view(before.observations@).len() == before.observations@.len());
}

/// What the search found is told by its items, and its skills are among those to check.
pub proof fn found_skills_are_remembered(before: Recall, after: Recall, hits: budgeted::Hits)
    requires
        before.grounds(after, hits),
    ensures
        hits matches budgeted::Hits::Found(list) ==> text::views(after.material.skills@)
            == super::planner::discovered(
            before.material.found(Seq::empty()),
            before.material.max_items,
            super::planner::Discovery::Hits(&list),
        ).skills,
        !(hits is Found) ==> text::views(after.material.skills@) == text::views(
            before.material.skills@,
        ),
        after.observations@.len() == before.observations@.len() + 1,
        after.planner == before.planner,
        after.material.procedures == before.material.procedures,
{
    assert(json::items_view(after.observations@).len() == after.observations@.len());
    assert(json::items_view(before.observations@).len() == before.observations@.len());
}

/// Two requests ask the same exactly where instructions, prompt, tools and terms agree.
pub proof fn requests_ask_the_same_by_their_parts(a: PlannerRequest, b: PlannerRequest)
    ensures
        a.asks_as(b) <==> {
            &&& a.instructions@ == b.instructions@
            &&& a.prompt@ == b.prompt@
            &&& a.tools@ == b.tools@
            &&& a.max_output_tokens == b.max_output_tokens
            &&& a.tool_choice_required == b.tool_choice_required
            &&& a.effort is Some <==> b.effort is Some
            &&& a.effort is Some && b.effort is Some ==> a.effort->0@ == b.effort->0@
        },
{
}

/// Settling a recall counts no call and spends nothing; skills and checks stay as they were.
pub proof fn settling_spends_nothing(before: Recall, after: Recall)
    requires
        before.settles(after),
    ensures
        after.planner.calls == before.planner.calls,
        after.planner.context_spent == before.planner.context_spent,
        after.material.skills == before.material.skills,
        after.material.procedures == before.material.procedures,
        after.material.max_items == before.material.max_items,
        after.tools == before.tools && after.observations == before.observations && after.stage
            == before.stage,
{
}

/// The selecting call counts up to sixteen kibibytes of arguments, and says exactly what it
/// selects.
pub proof fn selecting_calls_are_bounded(call: passes::ToolCall)
    ensures
        text::utf8_len(call.args@.written()) <= 16_384 && call.name@ == "select_recall_items"@
            ==> passes::call_selection(call) == passes::selection(call.args@),
        text::utf8_len(call.args@.written()) > 16_384 || call.name@ != "select_recall_items"@
            ==> passes::call_selection(call) is None,
{
}

} // verus!
