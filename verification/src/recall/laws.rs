//! What holds of the items of a recall, whatever is read.

use vstd::prelude::*;

use super::compact;
use super::delivery;
use super::material::{Reach, Stock};
use super::packet::PacketFormat;
use super::passes::{self, CallStep, ModelReply, ToolCall};
use super::planner;
use super::{Channel, Item, Priority, RecallBudget};
use crate::json::Datum;
use crate::kip::Rows;
use crate::text;
use crate::walk;

verus! {

// ---------------------------------------------------------------------------
// Items
// ---------------------------------------------------------------------------

/// Required items come before warnings, warnings before verified procedures, those
/// before what is relevant, and that before unproven procedures. The first two are
/// the mandatory ones.
pub proof fn priorities_are_ordered(p: Priority)
    ensures
        Priority::Required.rank() < Priority::Warning.rank()
            < Priority::VerifiedProcedure.rank() < Priority::Relevant.rank()
            < Priority::UnprovenProcedure.rank(),
        p.mandatory() <==> (p is Required || p is Warning),
{
}

/// There is something in it.
pub open spec fn says_something(v: Datum) -> bool {
    match v {
        Datum::Null => false,
        Datum::Array(items) => items.len() > 0,
        Datum::Object(members) => members.len() > 0,
        _ => true,
    }
}

/// One of the items from that index on is what the content became.
pub open spec fn became_an_item(
    items: Seq<Item>,
    from: int,
    channel: Channel,
    priority: Priority,
    content: Datum,
) -> bool {
    exists|k: int|
        from <= k < items.len() && (#[trigger] items[k]).channel == channel && items[k].priority
            == priority && items[k].content == content
}

/// The first list is where the second starts.
pub open spec fn starts_with(after: Seq<Item>, before: Seq<Item>) -> bool {
    before.len() <= after.len() && forall|i: int|
        0 <= i < before.len() ==> #[trigger] after[i] == before[i]
}

/// Whatever one list names, the other names too.
pub open spec fn names_all(after: Seq<Channel>, before: Seq<Channel>) -> bool {
    forall|c: Channel| before.contains(c) ==> #[trigger] after.contains(c)
}

/// What was read stays read, what is partial stays so, and what was left out too.
pub open spec fn reaches_as_far(after: Reach, before: Reach) -> bool {
    &&& names_all(after.queried, before.queried)
    &&& names_all(after.partial, before.partial)
    &&& names_all(after.omitted, before.omitted)
}

proof fn noting(list: Seq<Channel>, channel: Channel)
    ensures
        super::material::noted(list, channel).contains(channel),
        names_all(super::material::noted(list, channel), list),
        forall|c: Channel|
            #[trigger] super::material::noted(list, channel).contains(c) ==> c == channel
                || list.contains(c),
{
    let after = super::material::noted(list, channel);
    if !list.contains(channel) {
        assert(after[list.len() as int] == channel);
        assert forall|c: Channel| list.contains(c) implies #[trigger] after.contains(c) by {
            let i = choose|i: int| 0 <= i < list.len() && list[i] == c;
            assert(after[i] == c);
        }
        assert forall|c: Channel| #[trigger] after.contains(c) implies c == channel
            || list.contains(c) by {
            let i = choose|i: int| 0 <= i < after.len() && after[i] == c;
            if i < list.len() {
                assert(list[i] == c);
            }
        }
    }
}

pub(crate) proof fn marking(reach: Reach, channel: Channel, partial: bool)
    ensures
        reaches_as_far(reach.marked(channel, partial), reach),
        reach.marked(channel, partial).queried.contains(channel),
        partial ==> reach.marked(channel, partial).partial.contains(channel),
        reach.marked(channel, partial).omitted == reach.omitted,
        !partial ==> reach.marked(channel, partial).partial == reach.partial,
{
    noting(reach.queried, channel);
    noting(reach.partial, channel);
}

pub(crate) proof fn leaving_out(reach: Reach, channel: Channel)
    ensures
        reaches_as_far(reach.omitting(channel), reach),
        reach.omitting(channel).queried.contains(channel),
        reach.omitting(channel).partial.contains(channel),
        reach.omitting(channel).omitted.contains(channel),
{
    marking(reach, channel, true);
    noting(reach.omitted, channel);
}

/// What an item of that channel and priority holds of a content: an element is
/// compacted, fully where nothing may be lost; everything else is kept as it is.
pub open spec fn held_of(channel: Channel, priority: Priority, content: Datum) -> Datum {
    if channel is Kip || channel is Counterparty {
        compact::compacted(content, priority is Required || priority is Warning)
    } else {
        content
    }
}

/// A content that says something becomes the last item, or is known to be left out;
/// where a required item or a warning is left out, something required is missing.
/// It is left out only where no more items are taken or it is too large. No earlier
/// item changes, and the channel counts as read either way.
pub proof fn offers_are_kept_or_missed(
    s: Stock,
    max_items: usize,
    channel: Channel,
    priority: Priority,
    content: Datum,
)
    ensures
        ({
            let after = s.offered(max_items, channel, priority, content);
            let held = held_of(channel, priority, content);
            let fits = s.items.len() < max_items && text::utf8_len(held.written()) <= 1_048_576;
            &&& starts_with(after.items, s.items)
            &&& reaches_as_far(after.reach, s.reach)
            &&& after.reach.queried.contains(channel)
            &&& s.critical ==> after.critical
            &&& !says_something(content) ==> after.items == s.items && after.critical == s.critical
                && after.reach.omitted == s.reach.omitted
            &&& says_something(content) && fits ==> {
                &&& after.items.len() == s.items.len() + 1
                &&& after.items.last().channel == channel
                &&& after.items.last().priority == priority
                &&& after.items.last().content == held
                &&& after.critical == s.critical
                &&& after.reach.omitted == s.reach.omitted
                &&& (channel is Kip || channel is Counterparty) && held != content
                    ==> after.reach.partial.contains(channel)
            }
            &&& says_something(content) && !fits ==> {
                &&& after.items == s.items
                &&& after.critical == (s.critical || priority is Required || priority is Warning)
                &&& after.reach.omitted.contains(channel)
                &&& after.reach.partial.contains(channel)
            }
        }),
{
    let read = s.reach.marked(channel, false);
    marking(s.reach, channel, false);
    marking(read, channel, true);
    leaving_out(read, channel);
    leaving_out(read.marked(channel, true), channel);
    compact::changes_are_told(content, priority.mandatory());
}

/// An object with a member says something.
pub(crate) proof fn a_member_says_something(v: Datum, name: Seq<char>, member: Datum)
    requires
        v is Object,
    ensures
        says_something(v.with(name, member)),
{
    broadcast use crate::json::with_is_read_back;

    let after = v.with(name, member);
    assert(after.get(name) == Some(member));
    if after->Object_0.len() == 0 {
        assert(crate::json::lookup(after->Object_0, name) is None);
    }
}

// ---------------------------------------------------------------------------
// The start
// ---------------------------------------------------------------------------

/// Nothing in the note of a packet's host permits an action.
pub proof fn hosts_permit_no_action()
    ensures
        super::planner::host_note_value().at("action_ready"@) == Datum::Bool(false),
{
    broadcast use crate::json::with_is_read_back;

    reveal_strlit("action_ready");
    reveal_strlit("scope");
    reveal_strlit("constraints");
    reveal_strlit("procedures");
}

/// Where there is a primer it becomes a required item, or something required is
/// missing; without one something required is missing.
pub proof fn primers_are_required(
    s: Stock,
    max_items: usize,
    primer: Datum,
    notes_read: bool,
    profile: Option<Datum>,
    asked: bool,
)
    ensures
        ({
            let after = super::planner::contextual(
                s,
                max_items,
                primer,
                notes_read,
                profile,
                asked,
            );
            &&& starts_with(after.items, s.items)
            &&& reaches_as_far(after.reach, s.reach)
            &&& s.critical ==> after.critical
            &&& primer is Null ==> after.critical && after.reach.omitted.contains(Channel::Primer)
            &&& says_something(primer) ==> after.critical || became_an_item(
                after.items,
                s.items.len() as int,
                Channel::Primer,
                Priority::Required,
                compact::primer_view(primer),
            ) || !says_something(compact::primer_view(primer))
            &&& after.reach.queried.contains(Channel::Primer)
            &&& after.reach.queried.contains(Channel::Notes)
            &&& after.reach.queried.contains(Channel::Counterparty)
            &&& after.reach.queried.contains(Channel::History)
            &&& !notes_read ==> after.reach.omitted.contains(Channel::Notes)
            &&& profile matches Some(content) ==> !says_something(content) || became_an_item(
                after.items,
                s.items.len() as int,
                Channel::Counterparty,
                Priority::Relevant,
                compact::compacted(content, false),
            ) || after.reach.omitted.contains(Channel::Counterparty)
            &&& profile is None && asked ==> after.reach.omitted.contains(Channel::Counterparty)
            &&& forall|k: int|
                s.items.len() <= k < after.items.len() ==> {
                    ||| (#[trigger] after.items[k]).channel is Primer && after.items[k].priority is Required
                    ||| after.items[k].channel is Counterparty && after.items[k].priority is Relevant
                }
        }),
{
    let first = super::planner::primed(s, max_items, primer);
    leaving_out(s.reach, Channel::Primer);
    offers_are_kept_or_missed(
        s,
        max_items,
        Channel::Primer,
        Priority::Required,
        compact::primer_view(primer),
    );
    marking(first.reach, Channel::Notes, false);
    leaving_out(first.reach, Channel::Notes);
    let second = if notes_read {
        first.read(Channel::Notes, false)
    } else {
        first.left_out(Channel::Notes)
    };
    let read = second.read(Channel::Counterparty, false);
    marking(second.reach, Channel::Counterparty, false);
    leaving_out(read.reach, Channel::Counterparty);
    let third = super::planner::introduced(second, max_items, profile, asked);
    if let Some(content) = profile {
        offers_are_kept_or_missed(
            read,
            max_items,
            Channel::Counterparty,
            Priority::Relevant,
            content,
        );
        let after = third.items;
        if says_something(content) && after.len() > read.items.len() {
            let k = after.len() - 1;
            assert(after[k].channel == Channel::Counterparty);
        }
    }
    marking(third.reach, Channel::History, false);
    if first.items.len() > s.items.len() {
        let k = s.items.len() as int;
        assert(first.items.last() == first.items[k]);
        assert(third.items[k] == first.items[k]);
    }
}

// ---------------------------------------------------------------------------
// Unresolved commitments
// ---------------------------------------------------------------------------

/// Every item from that index on is a required one.
pub open spec fn only_required(items: Seq<Item>, from: int) -> bool {
    forall|k: int|
        from <= k < items.len() ==> (#[trigger] items[k]).channel is Kip && items[k].priority is Required
}

proof fn rows_are_required(s: Stock, max_items: usize, rows: Seq<Datum>)
    ensures
        ({
            let after = super::planner::required_rows(s, max_items, rows);
            &&& starts_with(after.items, s.items)
            &&& reaches_as_far(after.reach, s.reach)
            &&& only_required(after.items, s.items.len() as int)
            &&& s.critical ==> after.critical
            &&& forall|i: int|
                0 <= i < rows.len() && says_something(#[trigger] rows[i]) ==> after.critical
                    || became_an_item(
                    after.items,
                    s.items.len() as int,
                    Channel::Kip,
                    Priority::Required,
                    compact::compacted(rows[i], true),
                )
            &&& after.items.len() <= s.items.len() + rows.len()
            &&& s.items.len() + rows.len() <= max_items && (forall|i: int|
                0 <= i < rows.len() ==> text::utf8_len(
                    compact::compacted(#[trigger] rows[i], true).written(),
                ) <= 1_048_576) ==> after.critical == s.critical
        }),
    decreases rows.len(),
{
    if rows.len() > 0 {
        let rest = rows.drop_last();
        let before = super::planner::required_rows(s, max_items, rest);
        let after = super::planner::required_rows(s, max_items, rows);
        rows_are_required(s, max_items, rest);
        offers_are_kept_or_missed(
            before,
            max_items,
            Channel::Kip,
            Priority::Required,
            rows.last(),
        );
        assert(rows.last() == rows[rows.len() - 1]);
        assert forall|k: int| s.items.len() <= k < after.items.len() implies (
        #[trigger] after.items[k]).channel is Kip && after.items[k].priority is Required by {
            if k < before.items.len() {
                assert(after.items[k] == before.items[k]);
            } else {
                assert(after.items[k] == after.items.last());
            }
        }
        assert forall|i: int| 0 <= i < rows.len() && says_something(#[trigger] rows[i]) implies
            after.critical || became_an_item(
            after.items,
            s.items.len() as int,
            Channel::Kip,
            Priority::Required,
            compact::compacted(rows[i], true),
        ) by {
            if i < rest.len() {
                assert(rest[i] == rows[i]);
                if !before.critical {
                    let k = choose|k: int|
                        s.items.len() <= k < before.items.len() && (#[trigger] before.items[k]).channel
                            == Channel::Kip && before.items[k].priority == Priority::Required
                            && before.items[k].content == compact::compacted(rows[i], true);
                    assert(after.items[k] == before.items[k]);
                }
            } else if !after.critical {
                let k = after.items.len() - 1;
                assert(after.items[k] == after.items.last());
            }
        }
        if s.items.len() + rows.len() <= max_items && (forall|i: int|
            0 <= i < rows.len() ==> text::utf8_len(
                compact::compacted(#[trigger] rows[i], true).written(),
            ) <= 1_048_576) {
            assert forall|i: int| 0 <= i < rest.len() implies text::utf8_len(
                compact::compacted(#[trigger] rest[i], true).written(),
            ) <= 1_048_576 by {
                assert(rest[i] == rows[i]);
            }
        }
    }
}

/// Every unresolved commitment among the first thirty-two becomes a required item, or
/// something required is known to be missing; so it is where there are more, or where
/// they were not read. Nothing else is added, and nothing is missing where all fit.
pub proof fn commitments_are_required(s: Stock, max_items: usize, rows: Option<Seq<Datum>>)
    ensures
        ({
            let after = super::planner::constrained(s, max_items, rows);
            &&& starts_with(after.items, s.items)
            &&& reaches_as_far(after.reach, s.reach)
            &&& after.reach.queried.contains(Channel::Kip)
            &&& only_required(after.items, s.items.len() as int)
            &&& s.critical ==> after.critical
            &&& rows is None ==> after.critical && after.reach.omitted.contains(Channel::Kip)
            &&& rows matches Some(all) ==> {
                &&& all.len() > 32 ==> after.critical && after.reach.partial.contains(Channel::Kip)
                &&& forall|i: int|
                    0 <= i < all.len() && i < 32 && says_something(#[trigger] all[i])
                        ==> after.critical || became_an_item(
                        after.items,
                        s.items.len() as int,
                        Channel::Kip,
                        Priority::Required,
                        compact::compacted(all[i], true),
                    )
                &&& all.len() <= 32 && s.items.len() + all.len() <= max_items && (forall|i: int|
                    0 <= i < all.len() ==> text::utf8_len(
                        compact::compacted(#[trigger] all[i], true).written(),
                    ) <= 1_048_576) ==> after.critical == s.critical
            }
        }),
{
    leaving_out(s.reach, Channel::Kip);
    if let Some(all) = rows {
        let read = s.read(Channel::Kip, all.len() > 32);
        marking(s.reach, Channel::Kip, all.len() > 32);
        let start = if all.len() > 32 {
            read.missing()
        } else {
            read
        };
        let first = super::planner::first_rows(all);
        rows_are_required(start, max_items, first);
        assert forall|i: int| 0 <= i < all.len() && i < 32 implies #[trigger] all[i]
            == first[i] by {}
    }
}

// ---------------------------------------------------------------------------
// Reads
// ---------------------------------------------------------------------------

/// The value declares a skill or a revision of one.
pub open spec fn declares_procedure(v: Datum) -> bool {
    v.at("schema_ref"@) == Datum::Text("kip://profiles/cognitive-memory@2.0.0/"@ + "Skill"@)
        || v.at("schema_ref"@) == Datum::Text(
        "kip://profiles/cognitive-memory@2.0.0/"@ + "SkillRevision"@,
    )
}

/// A retrieved element is an unproven procedure exactly where it declares one at some
/// depth, or is too large to be looked through; all else is relevant.
pub proof fn procedures_are_unproven(v: Datum)
    ensures
        planner::element_priority(v) is UnprovenProcedure <==> walk::size(v) > 4096 || exists|x: Datum|
         #[trigger]
            walk::holds(v, x) && declares_procedure(x),
        planner::element_priority(v) is UnprovenProcedure || planner::element_priority(
            v,
        ) is Relevant,
{
    super::material::programs_are_found_at_any_depth(v);
    if exists|x: Datum| #[trigger] walk::holds(v, x) && declares_procedure(x) {
        let x = choose|x: Datum| #[trigger] walk::holds(v, x) && declares_procedure(x);
        assert(super::material::declares_program(x));
    }
    if exists|x: Datum| #[trigger] walk::holds(v, x) && super::material::declares_program(x) {
        let x = choose|x: Datum| #[trigger]
            walk::holds(v, x) && super::material::declares_program(x);
        assert(declares_procedure(x));
    }
}

/// What a read for the model leaves: an error is a warning, and so is a procedure whose
/// check does not allow its recommendation; one whose check does is a verified
/// procedure, and what was found elsewhere is relevant or an unproven procedure. A read
/// that failed counts as left out, and says so; a window is never exhaustive.
pub proof fn reads_are_weighed(
    s: Stock,
    max_items: usize,
    name: Seq<char>,
    channel: Channel,
    result: Option<(Datum, bool)>,
)
    ensures
        ({
            let after = passes::read_stock(s, max_items, name, channel, result);
            let n = s.items.len() as int;
            &&& starts_with(after.items, s.items)
            &&& after.items.len() <= n + 1
            &&& reaches_as_far(after.reach, s.reach)
            &&& after.reach.queried.contains(channel)
            &&& s.critical ==> after.critical
            &&& channel is Kip || channel is Wiki ==> after.reach.partial.contains(channel)
            &&& forall|k: int|
                n <= k < after.items.len() ==> (#[trigger] after.items[k]).channel == channel
            &&& result is None ==> {
                &&& after.reach.omitted.contains(channel)
                &&& after.critical || (after.items.len() == n + 1 && after.items[n].priority is Warning)
            }
            &&& result matches Some((value, error)) ==> {
                &&& error ==> after.reach.omitted.contains(channel)
                &&& error && says_something(value) ==> after.critical || became_an_item(
                    after.items,
                    n,
                    channel,
                    Priority::Warning,
                    held_of(channel, Priority::Warning, value),
                )
                &&& forall|k: int|
                    n <= k < after.items.len() ==> {
                        let item = #[trigger] after.items[k];
                        &&& item.content == held_of(channel, item.priority, value)
                        &&& item.priority is Warning <==> error || (channel is Procedures
                            && value.at("recommendation_allowed"@) != Datum::Bool(true))
                        &&& item.priority is VerifiedProcedure <==> !error && channel is Procedures
                            && value.at("recommendation_allowed"@) == Datum::Bool(true)
                        &&& !(item.priority is Required)
                    }
                &&& says_something(value) && after.items.len() == n
                    ==> after.reach.omitted.contains(channel)
            }
        }),
{
    let read = s.read(channel, false);
    marking(s.reach, channel, false);
    leaving_out(read.reach, channel);
    match result {
        Some((value, error)) => {
            let weighed = if error {
                read.left_out(channel)
            } else {
                read
            };
            let priority = passes::result_priority(channel, value, error);
            procedures_are_unproven(value);
            offers_are_kept_or_missed(weighed, max_items, channel, priority, value);
            let offered = weighed.offered(max_items, channel, priority, value);
            marking(offered.reach, channel, true);
            if offered.items.len() > s.items.len() {
                assert(offered.items.last() == offered.items[s.items.len() as int]);
            }
        },
        None => {
            let left = read.left_out(channel);
            let value = passes::unavailable_value(name);
            unavailable_says_something(name);
            offers_are_kept_or_missed(left, max_items, channel, Priority::Warning, value);
            let offered = left.offered(max_items, channel, Priority::Warning, value);
            marking(offered.reach, channel, true);
            if offered.items.len() > s.items.len() {
                assert(offered.items.last() == offered.items[s.items.len() as int]);
            }
        },
    }
}

proof fn unavailable_says_something(name: Seq<char>)
    ensures
        says_something(passes::unavailable_value(name)),
        passes::unavailable_value(name).at("tool"@) == Datum::Text(name),
        passes::unavailable_value(name).at("status"@) == Datum::Text("unavailable"@),
{
    broadcast use crate::json::with_is_read_back;

    reveal_strlit("tool");
    reveal_strlit("status");
    reveal_strlit("meaning");
    let v = passes::unavailable_value(name);
    assert(v.get("tool"@) == Some(Datum::Text(name)));
    assert(v.get("status"@) == Some(Datum::Text("unavailable"@)));
    if v->Object_0.len() == 0 {
        assert(crate::json::lookup(v->Object_0, "tool"@) is None);
    }
}

// ---------------------------------------------------------------------------
// Calls
// ---------------------------------------------------------------------------

/// A call reads exactly where the host listed its tool, its arguments are no larger
/// than sixteen kibibytes, and the tool is one of those that read: the memory, the
/// wiki, or the check of a procedure. Anything else ends the planning, but for the
/// explanation of the memory language.
pub proof fn only_listed_tools_read(call: ToolCall, tools: Seq<Seq<char>>)
    ensures
        ({
            let r = passes::call_step(call, tools);
            let runs = text::utf8_len(call.args@.written()) <= 16_384 && tools.contains(call.name@)
                && call.name@ != "select_recall_items"@;
            &&& r == CallStep::Read(Channel::Kip) <==> runs && call.name@
                == "execute_kip_readonly"@
            &&& r == CallStep::Read(Channel::Wiki) <==> runs && (call.name@ == "wiki_read"@
                || call.name@ == "wiki_search"@)
            &&& r == CallStep::Read(Channel::Procedures) <==> runs && call.name@
                == "check_procedure_status"@
            &&& r == CallStep::Reference <==> runs && call.name@ == "kip_reference"@
            &&& r matches CallStep::Read(channel) ==> channel is Kip || channel is Wiki
                || channel is Procedures
            &&& passes::call_selection(call) is Some ==> call.name@ == "select_recall_items"@
                && r == CallStep::Stop
        }),
{
    reveal_strlit("execute_kip_readonly");
    reveal_strlit("wiki_read");
    reveal_strlit("wiki_search");
    reveal_strlit("check_procedure_status");
    reveal_strlit("kip_reference");
    reveal_strlit("select_recall_items");
    assert("execute_kip_readonly"@.len() == 20 && "wiki_read"@.len() == 9 && "wiki_search"@.len()
        == 11 && "check_procedure_status"@.len() == 22 && "kip_reference"@.len() == 13
        && "select_recall_items"@.len() == 19);
}

/// A selection is an object of one member, a list of texts, and selects them in order;
/// a reply selects only in at most sixteen kibibytes, and a pass asks for at most four
/// calls, a recall for at most sixteen.
pub proof fn selections_are_exact(v: Datum, reply: ModelReply, calls: usize)
    ensures
        passes::selection(v) is Some <==> {
            &&& v is Object
            &&& v->Object_0.len() == 1
            &&& v->Object_0[0].0 == "selected_ids"@
            &&& v->Object_0[0].1 is Array
            &&& forall|i: int|
                0 <= i < v->Object_0[0].1->Array_0.len() ==> (
                #[trigger] v->Object_0[0].1->Array_0[i]) is Text
        },
        passes::selection(v) matches Some(ids) ==> ids.len() == v->Object_0[0].1->Array_0.len()
            && forall|i: int|
            0 <= i < ids.len() ==> v->Object_0[0].1->Array_0[i] == Datum::Text(#[trigger] ids[i]),
        passes::reply_selection(reply) is Some ==> text::utf8_len(reply.content@) <= 16_384
            && reply.value is Some && passes::selection(reply.value->0@)
            == passes::reply_selection(reply),
        text::utf8_len(reply.content@) <= 16_384 && reply.value is Some ==> passes::reply_selection(
            reply,
        ) == passes::selection(reply.value->0@),
        passes::too_many_calls(calls, reply) <==> reply.calls@.len() >= 5 || calls
            + reply.calls@.len() >= 17,
{
    if let Some(ids) = passes::selection(v) {
        let list = v->Object_0[0].1->Array_0;
        assert forall|i: int| 0 <= i < ids.len() implies list[i] == Datum::Text(
            #[trigger] ids[i],
        ) by {
            assert(list[i] is Text);
        }
    }
}

// ---------------------------------------------------------------------------
// What gives way
// ---------------------------------------------------------------------------

/// The item that gives way is optional, no other optional one matters less, and of
/// those that matter as much none came later.
pub proof fn the_least_gives_way(items: Seq<Item>, at: int, j: int)
    requires
        passes::is_eviction(items, at),
        0 <= j < items.len(),
        !(items[j].priority is Required),
        !(items[j].priority is Warning),
    ensures
        !(items[at].priority is Required),
        !(items[at].priority is Warning),
        items[j].priority is UnprovenProcedure ==> items[at].priority is UnprovenProcedure,
        items[j].priority is Relevant ==> !(items[at].priority is VerifiedProcedure),
        items[j].priority == items[at].priority ==> !text::less(items[at].id, items[j].id),
{
    text::less_is_irreflexive(items[at].id);
    if j < at {
        assert(!passes::gives_way_before(items[j], items[at]));
    } else if j > at {
        assert(passes::gives_way_before(items[at], items[j]));
        if items[j].priority == items[at].priority {
            if text::less(items[at].id, items[j].id) {
                text::less_is_transitive(items[j].id, items[at].id, items[j].id);
                text::less_is_irreflexive(items[j].id);
            }
        }
    }
}

/// What a fallback delivers: every candidate but the optional notes and earlier
/// conversations, and a warning that the planning was incomplete and nothing may be
/// acted on; without room for the warning something required is missing. The search
/// does not count as exhaustive.
pub proof fn fallbacks_warn(
    s: Stock,
    max_items: usize,
    candidates: Seq<Item>,
    reach: Reach,
    i: int,
)
    requires
        0 <= i < candidates.len(),
    ensures
        ({
            let after = passes::fallen_back(s, max_items, candidates, reach);
            let optional = !(candidates[i].priority is Required) && !(
            candidates[i].priority is Warning);
            let replayed = candidates[i].channel is Notes || candidates[i].channel is History;
            &&& !(optional && replayed) ==> after.items.contains(candidates[i])
            &&& optional && replayed ==> !after.items.contains(candidates[i])
            &&& s.critical ==> after.critical
            &&& after.critical || became_an_item(
                after.items,
                0,
                Channel::Primer,
                Priority::Warning,
                passes::fallback_note_value(),
            )
            &&& after.reach.partial.contains(Channel::Kip)
        }),
        passes::fallback_note_value().at("action_ready"@) == Datum::Bool(false),
        passes::fallback_note_value().at("status"@) == Datum::Text("partial"@),
{
    broadcast use crate::json::with_is_read_back;

    reveal_strlit("status");
    reveal_strlit("reason");
    reveal_strlit("selection");
    reveal_strlit("action_ready");
    let note = passes::fallback_note_value();
    assert("status"@[0] == 's' && "reason"@[0] == 'r' && "status"@.len() == 6 && "reason"@.len()
        == 6);
    assert(note.get("action_ready"@) == Some(Datum::Bool(false)));
    assert(note.get("status"@) == Some(Datum::Text("partial"@)));
    if note->Object_0.len() == 0 {
        assert(crate::json::lookup(note->Object_0, "status"@) is None);
    }
    let start = Stock { items: candidates, reach, ..s };
    let first = passes::without_replay(start, Channel::Notes);
    let second = passes::without_replay(first, Channel::History);
    passes::filter_holds(start.items, passes::not_replayed(Channel::Notes));
    passes::filter_holds(first.items, passes::not_replayed(Channel::History));
    assert(candidates.contains(candidates[i]));
    offers_are_kept_or_missed(second, max_items, Channel::Primer, Priority::Warning, note);
    let third = second.offered(max_items, Channel::Primer, Priority::Warning, note);
    marking(third.reach, Channel::Kip, true);
    if third.items.len() > second.items.len() {
        let k = third.items.len() - 1;
        assert(third.items[k] == third.items.last());
    }
    let item = candidates[i];
    assert(second.items.contains(item) <==> !(!(item.priority is Required) && !(
    item.priority is Warning) && (item.channel is Notes || item.channel is History)));
    if second.items.contains(item) {
        let k = choose|k: int| 0 <= k < second.items.len() && second.items[k] == item;
        assert(third.items[k] == item);
    }
    if third.items.contains(item) {
        let k = choose|k: int| 0 <= k < third.items.len() && third.items[k] == item;
        if k < second.items.len() {
            assert(second.items[k] == third.items[k]);
            assert(second.items.contains(item));
        } else {
            assert(third.items[k] == third.items.last());
        }
    }
}

// ---------------------------------------------------------------------------
// Procedures
// ---------------------------------------------------------------------------

/// The check permits a recommendation, its context lasts beyond now, and its review is
/// due after now.
pub open spec fn permits_now(v: Datum, now_ms: u64, now: Seq<char>) -> bool {
    &&& v.at("recommendation_allowed"@) == Datum::Bool(true)
    &&& v.at("context_expires_at_ms"@).as_u64() is Some
    &&& now_ms < v.at("context_expires_at_ms"@).as_u64()->0
    &&& v.at("review_due_at"@) is Text
    &&& text::less(now, v.at("review_due_at"@)->Text_0)
}

proof fn downgrading(v: Datum, note: Seq<char>)
    requires
        v is Object || v is Null,
    ensures
        delivery::downgraded(v, note).at("recommendation_allowed"@) == Datum::Bool(false),
        delivery::downgraded(v, note).at("host_delivery_warning"@) == Datum::Text(note),
        forall|name: Seq<char>|
            name != "recommendation_allowed"@ && name != "host_delivery_warning"@
                ==> #[trigger] delivery::downgraded(v, note).get(name) == v.get(name),
{
    broadcast use crate::json::with_is_read_back;

    reveal_strlit("recommendation_allowed");
    reveal_strlit("host_delivery_warning");
    assert("recommendation_allowed"@.len() == 22 && "host_delivery_warning"@.len() == 21);
    let first = delivery::assigned(v, "recommendation_allowed"@, Datum::Bool(false));
    assert(first is Object);
    let second = delivery::downgraded(v, note);
    assert(second == first.with("host_delivery_warning"@, Datum::Text(note)));
    assert(second.get("recommendation_allowed"@) == first.get("recommendation_allowed"@));
    assert(first.get("recommendation_allowed"@) == Some(Datum::Bool(false)));
    assert(second.get("host_delivery_warning"@) == Some(Datum::Text(note)));
    assert forall|name: Seq<char>|
        name != "recommendation_allowed"@ && name != "host_delivery_warning"@ implies
        #[trigger] delivery::downgraded(v, note).get(name) == v.get(name) by {
        assert(second.get(name) == first.get(name));
        if v is Null {
            assert(Datum::empty().get(name) is None);
        }
    }
}

/// A procedure is recommended exactly where its check, made without error, permits it
/// now; that item is required. Any other is a warning without permission.
pub proof fn recommendations_are_current(
    skill: Seq<char>,
    result: Option<(Datum, bool)>,
    now_ms: u64,
    now: Seq<char>,
)
    requires
        result matches Some((value, _)) ==> value is Object || value is Null,
    ensures
        ({
            let content = delivery::checked_content(skill, result, now_ms, now);
            let priority = delivery::checked_priority(result, now_ms, now);
            let permitted = result is Some && !(result->0).1 && permits_now(
                (result->0).0,
                now_ms,
                now,
            );
            &&& priority is Required <==> permitted
            &&& priority is Warning <==> !permitted
            &&& permitted ==> content == (result->0).0
            &&& !permitted ==> content.at("recommendation_allowed"@) == Datum::Bool(false)
            &&& result is None ==> content.at("skill_ref"@) == Datum::Text(skill)
        }),
{
    broadcast use crate::json::with_is_read_back;

    reveal_strlit("skill_ref");
    reveal_strlit("recommendation_allowed");
    reveal_strlit("reason");
    assert("skill_ref"@.len() == 9 && "recommendation_allowed"@.len() == 22 && "reason"@.len()
        == 6);
    let none = delivery::unverified_value(skill);
    assert(none.get("recommendation_allowed"@) == Some(Datum::Bool(false)));
    assert(none.get("skill_ref"@) == Some(Datum::Text(skill)));
    if let Some((value, error)) = result {
        downgrading(value, delivery::EXPIRED_NOTE@);
        if value is Null {
            assert(value.at("recommendation_allowed"@) == Datum::Null);
        }
    }
}

/// A permission that is out of time, or that no check stands behind any more, is taken
/// away at delivery, and the item becomes a warning; every other item stays as it is.
pub proof fn permissions_run_out(item: Item, now_ms: u64, now: Seq<char>, all: bool)
    requires
        item.content is Object,
    ensures
        ({
            let after = delivery::expired(item, now_ms, now, all);
            let permit = item.channel is Procedures && item.content.at("recommendation_allowed"@)
                == Datum::Bool(true);
            let lost = permit && (all || !permits_now(item.content, now_ms, now));
            &&& !lost ==> after == item
            &&& lost ==> {
                &&& after.priority is Warning
                &&& after.id == item.id
                &&& after.channel == item.channel
                &&& after.content.at("recommendation_allowed"@) == Datum::Bool(false)
                &&& forall|name: Seq<char>|
                    name != "recommendation_allowed"@ && name != "host_delivery_warning"@
                        ==> #[trigger] after.content.get(name) == item.content.get(name)
            }
        }),
{
    downgrading(item.content, delivery::REVALIDATE_NOTE@);
}

// ---------------------------------------------------------------------------
// Limits
// ---------------------------------------------------------------------------

/// A query of the model returns what it asks for and at most thirty-two rows; it asks
/// by a number, or by a parameter, its own before that of the request.
pub proof fn rows_are_bounded(limit: Rows, local: Option<Datum>, global: Option<Datum>)
    ensures
        ({
            let r = delivery::allowed_rows(limit, local, global);
            &&& r matches Ok(n) ==> n <= 32
            &&& limit is Absent ==> r == Ok::<u64, delivery::LimitError>(32u64)
            &&& limit matches Rows::Number(Some(n)) ==> r is Ok && r->Ok_0 == if n <= 32 {
                n as int
            } else {
                32
            }
            &&& limit matches Rows::Parameter(name) ==> {
                let own = local is Some && local->0.get(name) is Some;
                let shared = global is Some && global->0.get(name) is Some;
                let value = if own {
                    local->0.get(name)->0
                } else {
                    global->0.get(name)->0
                };
                &&& !own && !shared ==> r is Err
                &&& own || shared ==> (r is Ok <==> value.as_u64() is Some)
                &&& (own || shared) && value.as_u64() is Some ==> r->Ok_0 == if value.as_u64()->0
                    <= 32 {
                    value.as_u64()->0 as int
                } else {
                    32
                }
            }
            &&& limit is Other ==> r is Err
            &&& limit == Rows::Number(None) ==> r is Err
        }),
{
}

/// A search of the wiki returns as many hits as it asks for, at most eight; nothing else
/// of what it asks changes, but that it expands nothing.
pub proof fn searches_keep_their_question(args: Datum, name: Seq<char>)
    requires
        args is Object || args is Null,
    ensures
        name != "top_k"@ && name != "expand"@ ==> delivery::searched(args).get(name) == args.get(
            name,
        ),
        delivery::searched(args).at("expand"@) == Datum::Unsigned(0),
        delivery::searched(args).at("top_k"@) matches Datum::Unsigned(n) && n == (match args.at(
            "top_k"@,
        ).as_u64() {
            Some(asked) => if asked <= 8 {
                asked as int
            } else {
                8
            },
            None => 8,
        }),
{
    broadcast use crate::json::with_is_read_back;

    reveal_strlit("top_k");
    reveal_strlit("expand");
    assert("top_k"@.len() != "expand"@.len());
    let top = match args.at("top_k"@).as_u64() {
        Some(n) => if n <= 8 {
            n
        } else {
            8
        },
        None => 8,
    };
    let first = delivery::assigned(args, "top_k"@, Datum::Unsigned(top));
    assert(first is Object);
    let second = delivery::searched(args);
    assert(second == first.with("expand"@, Datum::Unsigned(0)));
    assert(second.get("top_k"@) == first.get("top_k"@));
    assert(first.get("top_k"@) == Some(Datum::Unsigned(top)));
    assert(second.get("expand"@) == Some(Datum::Unsigned(0)));
    if name != "top_k"@ && name != "expand"@ {
        assert(second.get(name) == first.get(name));
        if args is Null {
            assert(Datum::empty().get(name) is None);
        }
    }
}

// ---------------------------------------------------------------------------
// Packets
// ---------------------------------------------------------------------------

/// An item is written with its identity, what its channel and its priority are called,
/// and its content; each list of items keeps their number and order.
pub proof fn items_read_back(format: PacketFormat, items: Seq<Item>, i: int)
    requires
        0 <= i < items.len(),
    ensures
        format.items_value(items) is Array,
        format.items_value(items)->Array_0.len() == items.len(),
        ({
            let v = format.items_value(items)->Array_0[i];
            &&& v.at("id"@) == Datum::Text(items[i].id)
            &&& v.at("content"@) == items[i].content
            &&& v.at("channel"@) == Datum::Text(
                match items[i].channel {
                    Channel::Primer => format.primer@,
                    Channel::Notes => format.notes@,
                    Channel::Counterparty => format.counterparty@,
                    Channel::History => format.history@,
                    Channel::Kip => format.kip@,
                    Channel::Wiki => format.wiki@,
                    Channel::Procedures => format.procedures@,
                },
            )
            &&& v.at("priority"@) == Datum::Text(
                match items[i].priority {
                    Priority::Required => format.required@,
                    Priority::Warning => format.warning@,
                    Priority::VerifiedProcedure => format.verified_procedure@,
                    Priority::Relevant => format.relevant@,
                    Priority::UnprovenProcedure => format.unproven_procedure@,
                },
            )
        }),
{
    broadcast use crate::json::with_is_read_back;

    reveal_strlit("id");
    reveal_strlit("channel");
    reveal_strlit("priority");
    reveal_strlit("content");
    assert("id"@.len() == 2 && "channel"@.len() == 7 && "priority"@.len() == 8 && "content"@.len()
        == 7);
    assert("channel"@[1] == 'h' && "content"@[1] == 'o');
    let v = format.item_value(items[i]);
    assert(v.get("id"@) == Some(Datum::Text(items[i].id)));
    assert(v.get("content"@) == Some(items[i].content));
    assert(v.get("channel"@) == Some(Datum::Text(format.channel(items[i].channel))));
    assert(v.get("priority"@) == Some(Datum::Text(format.priority(items[i].priority))));
}

/// What a coverage tells is read back list by list; what was not read is exactly the
/// channels that were not queried.
pub proof fn coverage_reads_back(
    format: PacketFormat,
    reach: Reach,
    unchecked: Seq<Channel>,
    channel: Channel,
)
    ensures
        ({
            let v = format.coverage_value(reach, unchecked);
            &&& v.at("queried"@) == format.channels_value(reach.queried)
            &&& v.at("partial"@) == format.channels_value(reach.partial)
            &&& v.at("omitted"@) == format.channels_value(reach.omitted)
            &&& v.at("unchecked"@) == format.channels_value(unchecked)
        }),
        super::material::unread(super::material::all_channels(), reach.queried).contains(channel)
            <==> !reach.queried.contains(channel),
{
    broadcast use crate::json::with_is_read_back;

    reveal_strlit("queried");
    reveal_strlit("partial");
    reveal_strlit("omitted");
    reveal_strlit("unchecked");
    assert("queried"@.len() == 7 && "partial"@.len() == 7 && "omitted"@.len() == 7
        && "unchecked"@.len() == 9);
    assert("queried"@[0] == 'q' && "partial"@[0] == 'p' && "omitted"@[0] == 'o');
    let v = format.coverage_value(reach, unchecked);
    assert(v.get("queried"@) == Some(format.channels_value(reach.queried)));
    assert(v.get("partial"@) == Some(format.channels_value(reach.partial)));
    assert(v.get("omitted"@) == Some(format.channels_value(reach.omitted)));
    assert(v.get("unchecked"@) == Some(format.channels_value(unchecked)));
    let all = super::material::all_channels();
    unread_channels(all, reach.queried, channel);
    match channel {
        Channel::Primer => assert(all[0] == channel),
        Channel::Notes => assert(all[1] == channel),
        Channel::Counterparty => assert(all[2] == channel),
        Channel::History => assert(all[3] == channel),
        Channel::Kip => assert(all[4] == channel),
        Channel::Wiki => assert(all[5] == channel),
        Channel::Procedures => assert(all[6] == channel),
    }
}

proof fn unread_channels(channels: Seq<Channel>, queried: Seq<Channel>, channel: Channel)
    ensures
        super::material::unread(channels, queried).contains(channel) <==> channels.contains(channel)
            && !queried.contains(channel),
    decreases channels.len(),
{
    if channels.len() > 0 {
        let rest = channels.drop_last();
        unread_channels(rest, queried, channel);
        let before = super::material::unread(rest, queried);
        let after = super::material::unread(channels, queried);
        assert(channels[channels.len() - 1] == channels.last());
        if channels.contains(channel) && channel != channels.last() {
            let i = choose|i: int| 0 <= i < channels.len() && channels[i] == channel;
            assert(rest[i] == channel);
        }
        if rest.contains(channel) {
            let i = choose|i: int| 0 <= i < rest.len() && rest[i] == channel;
            assert(channels[i] == channel);
        }
        if before.contains(channel) {
            let i = choose|i: int| 0 <= i < before.len() && before[i] == channel;
            assert(after[i] == channel);
        }
        if !queried.contains(channels.last()) {
            assert(after[before.len() as int] == channels.last());
        }
        if after.contains(channel) {
            let i = choose|i: int| 0 <= i < after.len() && after[i] == channel;
            if i < before.len() {
                assert(before[i] == channel);
            }
        }
    }
}

/// A budget is one of the listed tokenizer, with at most sixty-four Ki tokens of output
/// and twice that of context; it reads back as it is.
pub proof fn budgets_are_bounded(budget: RecallBudget)
    ensures
        budget.valid() <==> {
            &&& budget.tokenizer@ == "o200k_base@tiktoken-rs-0.12.0"@
            &&& 0 < budget.max_tokens < 65_537
            &&& 0 < budget.context_tokens < 131_073
        },
        budget.value().at("tokenizer"@) == Datum::Text(budget.tokenizer@),
        budget.value().at("max_tokens"@) == Datum::Unsigned(budget.max_tokens as u64),
        budget.value().at("context_tokens"@) == Datum::Unsigned(budget.context_tokens as u64),
{
    broadcast use crate::json::with_is_read_back;

    reveal_strlit("tokenizer");
    reveal_strlit("max_tokens");
    reveal_strlit("context_tokens");
    assert("tokenizer"@.len() == 9 && "max_tokens"@.len() == 10 && "context_tokens"@.len() == 14);
    let v = budget.value();
    assert(v.get("tokenizer"@) == Some(Datum::Text(budget.tokenizer@)));
    assert(v.get("max_tokens"@) == Some(Datum::Unsigned(budget.max_tokens as u64)));
    assert(v.get("context_tokens"@) == Some(Datum::Unsigned(budget.context_tokens as u64)));
}

} // verus!
