//! What the steps of a budgeted recall come to.

use vstd::prelude::*;

use super::budgeted::{proceeds, Ask, Hits, Moment, OutOfTurn, Recall, Stage, Told};
use super::compact;
use super::laws;
use super::material::{Failure, Stock};
use super::passes;
use super::planner::{self, Discovery, Found};
use super::{Channel, Priority};
use crate::json::Datum;
use crate::text;

verus! {

// ---------------------------------------------------------------------------
// Hits
// ---------------------------------------------------------------------------

/// One of the named items is that element, or an earlier view of it.
pub open spec fn names_element(f: Found, element: Datum) -> bool {
    exists|k: int, j: int|
        #![trigger f.stock.items[k], f.ids[j]]
        0 <= k < f.stock.items.len() && 0 <= j < f.ids.len() && f.ids[j] == f.stock.items[k].id && (
        f.stock.items[k].content == compact::compacted(element, false) || (element.at("id"@) is Text
            && f.stock.items[k].content.at("id"@) == element.at("id"@)))
}

/// Everything of the first is in the second, in its place.
pub open spec fn grows(before: Found, after: Found) -> bool {
    &&& laws::starts_with(after.stock.items, before.stock.items)
    &&& before.ids.len() <= after.ids.len()
    &&& forall|j: int| 0 <= j < before.ids.len() ==> #[trigger] after.ids[j] == before.ids[j]
    &&& laws::reaches_as_far(after.stock.reach, before.stock.reach)
    &&& after.stock.critical == before.stock.critical
}

/// Every item from that index on is an element that was found, and optional.
pub open spec fn only_found(items: Seq<super::Item>, from: int) -> bool {
    forall|k: int|
        from <= k < items.len() ==> (#[trigger] items[k]).channel is Kip && (items[k].priority is Relevant
            || items[k].priority is UnprovenProcedure)
}

proof fn known_items_are_items(items: Seq<super::Item>, id: Datum)
    ensures
        planner::item_with(items, id) matches Some(name) ==> exists|k: int|
            0 <= k < items.len() && (#[trigger] items[k]).id == name && items[k].content.at("id"@)
                == id,
    decreases items.len(),
{
    if items.len() > 0 {
        if items.first().content.at("id"@) == id {
            assert(items[0].id == items.first().id);
        } else {
            let rest = items.drop_first();
            known_items_are_items(rest, id);
            if let Some(name) = planner::item_with(rest, id) {
                let k = choose|k: int|
                    0 <= k < rest.len() && (#[trigger] rest[k]).id == name && rest[k].content.at(
                        "id"@,
                    ) == id;
                assert(items[k + 1] == rest[k]);
            }
        }
    }
}

proof fn one_hit(f: Found, max_items: usize, hit: Datum)
    ensures
        ({
            let after = planner::with_hit(f, max_items, hit);
            let element = hit.at("element"@);
            &&& grows(f, after)
            &&& laws::says_something(element) ==> names_element(after, element)
                || after.stock.reach.omitted.contains(Channel::Kip)
            &&& only_found(after.stock.items, f.stock.items.len() as int)
        }),
{
    let after = planner::with_hit(f, max_items, hit);
    let element = hit.at("element"@);
    let priority = planner::element_priority(element);
    laws::offers_are_kept_or_missed(f.stock, max_items, Channel::Kip, priority, element);
    let known = if element.at("id"@) is Text {
        planner::item_with(f.stock.items, element.at("id"@))
    } else {
        None
    };
    known_items_are_items(f.stock.items, element.at("id"@));
    match known {
        Some(id) => {
            let k = choose|k: int|
                0 <= k < f.stock.items.len() && (#[trigger] f.stock.items[k]).id == id
                    && f.stock.items[k].content.at("id"@) == element.at("id"@);
            let j = f.ids.len() as int;
            assert(after.stock.items[k] == f.stock.items[k] && after.ids[j] == id);
        },
        None => {
            if after.stock.items.len() > f.stock.items.len() {
                let k = f.stock.items.len() as int;
                let j = f.ids.len() as int;
                assert(after.stock.items[k] == after.stock.items.last());
                assert(after.ids[j] == after.stock.items[k].id);
            }
        },
    }
}

proof fn growing_keeps_names(before: Found, after: Found, element: Datum)
    requires
        grows(before, after),
    ensures
        names_element(before, element) ==> names_element(after, element),
        before.stock.reach.omitted.contains(Channel::Kip) ==> after.stock.reach.omitted.contains(
            Channel::Kip,
        ),
{
    if names_element(before, element) {
        let (k, j) = choose|k: int, j: int|
            #![trigger before.stock.items[k], before.ids[j]]
            0 <= k < before.stock.items.len() && 0 <= j < before.ids.len() && before.ids[j]
                == before.stock.items[k].id && (before.stock.items[k].content == compact::compacted(
                element,
                false,
            ) || (element.at("id"@) is Text && before.stock.items[k].content.at("id"@)
                == element.at("id"@)));
        assert(after.stock.items[k] == before.stock.items[k] && after.ids[j] == before.ids[j]);
    }
}

proof fn all_hits(f: Found, max_items: usize, hits: Seq<Datum>)
    ensures
        ({
            let after = planner::with_hits(f, max_items, hits);
            &&& grows(f, after)
            &&& only_found(after.stock.items, f.stock.items.len() as int)
            &&& forall|i: int|
                0 <= i < hits.len() && laws::says_something((#[trigger] hits[i]).at("element"@))
                    ==> names_element(after, hits[i].at("element"@))
                    || after.stock.reach.omitted.contains(Channel::Kip)
        }),
    decreases hits.len(),
{
    if hits.len() > 0 {
        let rest = hits.drop_last();
        let before = planner::with_hits(f, max_items, rest);
        let after = planner::with_hits(f, max_items, hits);
        all_hits(f, max_items, rest);
        one_hit(before, max_items, hits.last());
        assert(hits.last() == hits[hits.len() - 1]);
        assert forall|i: int|
            0 <= i < hits.len() && laws::says_something((#[trigger] hits[i]).at("element"@)) implies
            names_element(after, hits[i].at("element"@)) || after.stock.reach.omitted.contains(
            Channel::Kip,
        ) by {
            if i < rest.len() {
                assert(rest[i] == hits[i]);
                growing_keeps_names(before, after, hits[i].at("element"@));
            }
        }
        assert forall|k: int| f.stock.items.len() <= k < after.stock.items.len() implies (
        #[trigger] after.stock.items[k]).channel is Kip && (after.stock.items[k].priority is Relevant
            || after.stock.items[k].priority is UnprovenProcedure) by {
            if k < before.stock.items.len() {
                assert(after.stock.items[k] == before.stock.items[k]);
            }
        }
    }
}

/// Each of the first eight hits is named to the planner as an item, its own or an earlier
/// view of the same element, or something is known to be left out. A search that found
/// nothing readable is left out too; one that was unavailable leaves a warning, or
/// something required is missing. No search counts as exhaustive, and none makes anything
/// required.
pub proof fn hits_are_named(f: Found, max_items: usize, outcome: Discovery<'_>)
    ensures
        ({
            let after = planner::discovered(f, max_items, outcome);
            let n = f.stock.items.len() as int;
            &&& laws::starts_with(after.stock.items, f.stock.items)
            &&& laws::reaches_as_far(after.stock.reach, f.stock.reach)
            &&& after.stock.reach.queried.contains(Channel::Kip)
            &&& after.stock.reach.partial.contains(Channel::Kip)
            &&& outcome matches Discovery::Hits(list) ==> {
                &&& only_found(after.stock.items, n)
                &&& after.stock.critical == f.stock.critical
                &&& forall|i: int|
                    0 <= i < list@.len() && i < 8 && laws::says_something(
                        (#[trigger] list@[i])@.at("element"@),
                    ) ==> names_element(after, list@[i]@.at("element"@))
                        || after.stock.reach.omitted.contains(Channel::Kip)
            }
            &&& !(outcome is Hits) ==> after.stock.reach.omitted.contains(Channel::Kip)
                && after.ids == f.ids
            &&& outcome is NoHits ==> after.stock.items == f.stock.items
            &&& outcome is Unavailable ==> after.stock.critical || laws::became_an_item(
                after.stock.items,
                n,
                Channel::Kip,
                Priority::Warning,
                compact::compacted(planner::search_warning_value(), true),
            )
        }),
{
    let read = Found { stock: f.stock.read(Channel::Kip, true), ..f };
    laws::marking(f.stock.reach, Channel::Kip, true);
    laws::leaving_out(read.stock.reach, Channel::Kip);
    match outcome {
        Discovery::Hits(list) => {
            let all = crate::json::items_view(list@);
            let first = planner::first_hits(all);
            all_hits(read, max_items, first);
            assert forall|i: int| 0 <= i < list@.len() && i < 8 implies first[i]
                == (#[trigger] list@[i])@ by {
                assert(all[i] == list@[i]@);
            }
        },
        Discovery::NoHits => {},
        Discovery::Unavailable => {
            let left = read.stock.left_out(Channel::Kip);
            let warning = planner::search_warning_value();
            laws::a_member_says_something(
                Datum::empty().with("query_search"@, Datum::Text("unavailable"@)),
                "meaning"@,
                Datum::Text("not evidence of absence"@),
            );
            laws::offers_are_kept_or_missed(
                left,
                max_items,
                Channel::Kip,
                Priority::Warning,
                warning,
            );
            let after = left.offered(max_items, Channel::Kip, Priority::Warning, warning);
            if after.items.len() > left.items.len() {
                assert(after.items[left.items.len() as int] == after.items.last());
            }
        },
    }
}

/// Behind the hits come the notes and the history: each becomes an item that may give
/// way, or is known to be left out. Neither makes anything required.
pub proof fn notes_and_history_come_last(recall: Recall, stock: Stock)
    ensures
        ({
            let after = recall.narrated(stock);
            let n = stock.items.len() as int;
            &&& laws::starts_with(after.items, stock.items)
            &&& laws::reaches_as_far(after.reach, stock.reach)
            &&& after.critical == stock.critical
            &&& recall.notes matches Some(notes) ==> !laws::says_something(notes@)
                || laws::became_an_item(after.items, n, Channel::Notes, Priority::Relevant, notes@)
                || after.reach.omitted.contains(Channel::Notes)
            &&& laws::says_something(recall.history@) ==> laws::became_an_item(
                after.items,
                n,
                Channel::History,
                Priority::Relevant,
                recall.history@,
            ) || after.reach.omitted.contains(Channel::History)
            &&& forall|k: int|
                n <= k < after.items.len() ==> (#[trigger] after.items[k]).priority is Relevant && (
                after.items[k].channel is Notes || after.items[k].channel is History)
        }),
{
    let most = recall.material.max_items;
    let noted = match recall.notes {
        Some(notes) => {
            laws::offers_are_kept_or_missed(
                stock,
                most,
                Channel::Notes,
                Priority::Relevant,
                notes@,
            );
            stock.offered(most, Channel::Notes, Priority::Relevant, notes@)
        },
        None => stock,
    };
    laws::offers_are_kept_or_missed(
        noted,
        most,
        Channel::History,
        Priority::Relevant,
        recall.history@,
    );
    let after = recall.narrated(stock);
    if noted.items.len() > stock.items.len() {
        let k = stock.items.len() as int;
        assert(noted.items[k] == noted.items.last());
        assert(after.items[k] == noted.items[k]);
    }
    if after.items.len() > noted.items.len() {
        assert(after.items[noted.items.len() as int] == after.items.last());
    }
}

// ---------------------------------------------------------------------------
// Failures
// ---------------------------------------------------------------------------

/// The recall has failed for that reason, and an empty packet is asked for.
pub open spec fn failed_for(after: Recall, failure: Failure, r: Result<Ask, OutOfTurn>) -> bool {
    &&& after.stage == Stage::Packet
    &&& after.planner.failed
    &&& after.material.failure == Some(failure)
    &&& proceeds(r, Ask::Pack { empty: true })
}

/// A recall whose packet cannot take the host's note or all that is required fails for its
/// output budget; one that misses something required fails for that; and no search is
/// made before either is settled.
pub proof fn required_parts_decide_first(
    before: Recall,
    after: Recall,
    told: Told,
    now: Moment,
    r: Result<Ask, OutOfTurn>,
)
    requires
        before.moves(after, told, now, r),
        r is Ok,
    ensures
        before.stage == Stage::Note ==> (told matches Told::Tried { insufficient } && (
        if insufficient {
            failed_for(after, Failure::OutputBudget, r)
        } else {
            after.stage == Stage::Context && proceeds(r, Ask::ReadContext)
        })),
        before.stage == Stage::Constraints ==> (told matches Told::Constraints(rows) && (
        rows is None || rows->0@.len() > 32 || before.material.critical_missing ==> failed_for(
            after,
            Failure::RequiredRead,
            r,
        )) && (!failed_for(after, Failure::RequiredRead, r) ==> after.stage == Stage::Required
            && proceeds(r, Ask::TryPacket) && !after.material.critical_missing)),
        before.stage == Stage::Required ==> (told matches Told::Tried { insufficient } && (
        if before.material.critical_missing {
            failed_for(after, Failure::RequiredRead, r)
        } else if insufficient {
            failed_for(after, Failure::OutputBudget, r)
        } else {
            after.stage == Stage::Search && r->Ok_0 is Search && after.material == before.material
        })),
{
    if before.stage == Stage::Constraints {
        if let Told::Constraints(rows) = told {
            let list = match rows {
                Some(list) => Some(crate::json::items_view(list@)),
                None => None,
            };
            laws::commitments_are_required(
                before.material.stock(),
                before.material.max_items,
                list,
            );
            if let Some(own) = rows {
                assert(crate::json::items_view(own@).len() == own@.len());
            }
            let read = choose|read: Recall| #[trigger]
                before.constrains(read, list) && read.stage == before.stage
                    && if read.material.critical_missing {
                    read.gives_up(after, Failure::RequiredRead, now, r)
                } else {
                    after == (Recall { stage: Stage::Required, ..read }) && proceeds(
                        r,
                        Ask::TryPacket,
                    )
                };
            assert(read.material.critical_missing == read.material.stock().critical);
        }
    }
}

proof fn ending_after_a_failure(
    before: Recall,
    after: Recall,
    now: Moment,
    r: Result<Ask, OutOfTurn>,
)
    requires
        before.ends(after, now, r),
        before.planner.failed,
        before.material.failure != Some(Failure::ContextBudget),
    ensures
        failed_for(
            after,
            match before.material.failure {
                Some(failure) => failure,
                None => Failure::PlannerIncomplete,
            },
            r,
        ),
{
    let settled = choose|settled: Recall| #[trigger]
        before.settles(settled) && settled.refreshes(after, now, r);
    assert(settled.planner.failed);
}

/// A model that cannot be reached, or that fails, fails the recall as unavailable; one
/// that runs out of time as late; and one that neither selects nor asks for calls that
/// may be made, as incomplete.
pub proof fn planning_fails_for_its_reason(
    before: Recall,
    after: Recall,
    told: Told,
    now: Moment,
    r: Result<Ask, OutOfTurn>,
)
    requires
        before.moves(after, told, now, r),
        r is Ok,
        !before.planner.failed,
        !before.material.critical_missing,
        before.material.failure is None,
    ensures
        before.stage == Stage::Clock ==> (told matches Told::Time { left } && (if left {
            after.stage == Stage::Model && proceeds(r, Ask::Complete)
        } else {
            failed_for(after, Failure::Deadline, r)
        })),
        before.stage == Stage::Model ==> (told matches Told::Reply(reply) && (reply is None
            || reply->0.failed ==> failed_for(after, Failure::ModelUnavailable, r)) && (reply
            matches Some(said) ==> {
            &&& !said.failed && said.calls@.len() == 0 && passes::reply_selection(said) is None
                ==> failed_for(after, Failure::PlannerIncomplete, r)
            &&& !said.failed && (said.calls@.len() > 4 || (said.calls@.len() > 0
                && before.planner.calls + said.calls@.len() > 16)) ==> failed_for(
                after,
                Failure::PlannerIncomplete,
                r,
            )
        })),
{
    if before.stage == Stage::Clock {
        if let Told::Time { left } = told {
            if !left {
                ending_after_a_failure(before.stalls(left), after, now, r);
            }
        }
    }
    if before.stage == Stage::Model {
        if let Told::Reply(reply) = told {
            if !before.asks_for_calls(reply) {
                let heeded = choose|heeded: Recall| #[trigger]
                    before.heeds(heeded, reply) && heeded.ends(after, now, r);
                if heeded.planner.failed {
                    ending_after_a_failure(heeded, after, now, r);
                }
            }
        }
    }
}

/// What is selected in the end was selected by the planner and is an item of the recall;
/// where the planning ran out of budget, every item is.
pub proof fn selections_are_kept(before: Recall, after: Recall, id: Seq<char>)
    requires
        before.settles(after),
    ensures
        before.falls_back() <==> before.material.failure == Some(Failure::ContextBudget)
            && !before.material.critical_missing,
        !before.falls_back() ==> (text::views(after.planner.selected@).contains(id)
            <==> text::views(before.planner.selected@).contains(id) && passes::is_item(
            after.material.stock().items,
            id,
        )),
        !before.falls_back() ==> after.material.stock() == before.material.stock(),
        before.falls_back() ==> (text::views(after.planner.selected@).contains(id)
            <==> passes::is_item(after.material.stock().items, id)),
        before.falls_back() ==> !after.planner.failed && after.planner.finished
            && after.material.failure is None,
        !before.falls_back() && (before.planner.failed || !before.planner.finished)
            ==> after.planner.failed && after.material.failure is Some,
        !before.falls_back() && !before.planner.failed && before.planner.finished
            ==> !after.planner.failed && after.material.failure == before.material.failure,
{
    let items = before.settled_stock().items;
    let all = items.map_values(|i: super::Item| i.id);
    passes::selections_name_items_only(items, text::views(before.planner.selected@), id);
    passes::selections_name_items_only(items, all, id);
    if passes::is_item(items, id) {
        let k = choose|k: int| 0 <= k < items.len() && (#[trigger] items[k]).id == id;
        assert(all[k] == id);
    }
}

/// What an insufficient packet fails for: its own reason where there is one, else the
/// output budget; a packet that sufficed fails for nothing.
pub proof fn closing_tells_the_failure(
    before: Recall,
    after: Recall,
    insufficient: bool,
    now: Moment,
    r: Result<Ask, OutOfTurn>,
)
    requires
        before.stage == Stage::Again || before.stage == Stage::Packet,
        before.moves(after, Told::Packed { insufficient }, now, r),
        after.stage == Stage::Over,
    ensures
        r == Ok::<Ask, OutOfTurn>(
            Ask::Close(
                if !insufficient {
                    None
                } else if before.material.failure is Some {
                    before.material.failure
                } else {
                    Some(Failure::OutputBudget)
                },
            ),
        ),
        super::items(after.delivered@) == super::items(before.delivered@),
{
}

} // verus!
