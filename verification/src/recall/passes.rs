//! One planning pass after another: what is admitted to the model's context, how
//! its replies are judged, and what its reads add.

use vstd::prelude::*;

use super::material::{discover_skills, Coverage, Failure, Material, Procedure, Reach, Stock, MAX_CALLS, MAX_CALLS_PER_TURN};
use super::planner::element_priority;
use super::{Channel, Item, MemoryItem, Priority};
use crate::json::{Datum, Json};
use crate::text;

verus! {

/// The tool that ends a recall.
pub const SELECT: &'static str = "select_recall_items";

/// The tool that explains the memory language.
pub const REFERENCE: &'static str = "kip_reference";

/// The most bytes of a tool's arguments, and of a selection.
pub const MAX_ARGUMENTS: usize = 16_384;

/// The state of the planning.
#[derive(Debug)]
pub struct Planner {
    pub calls: usize,
    pub selected: Vec<String>,
    pub failed: bool,
    pub finished: bool,
    /// The tokens that were sent to the model, over all passes.
    pub context_spent: usize,
}

impl Planner {
    pub fn new() -> (r: Planner)
        ensures
            r.calls == 0,
            r.selected@.len() == 0,
            !r.failed,
            !r.finished,
            r.context_spent == 0,
    {
        Planner {
            calls: 0,
            selected: Vec::new(),
            failed: false,
            finished: false,
            context_spent: 0,
        }
    }
}

// ---------------------------------------------------------------------------
// Admission
// ---------------------------------------------------------------------------

/// The first item gives way before the second: it matters less, or as much and
/// came later.
pub open spec fn gives_way_before(a: Item, b: Item) -> bool {
    a.priority.rank() > b.priority.rank() || (a.priority.rank() == b.priority.rank() && text::less(
        b.id,
        a.id,
    ))
}

/// The optional item that gives way first; no mandatory item ever does.
pub open spec fn is_eviction(items: Seq<Item>, at: int) -> bool {
    &&& 0 <= at < items.len()
    &&& !items[at].priority.mandatory()
    &&& forall|j: int|
        0 <= j < at && !(#[trigger] items[j]).priority.mandatory() ==> !gives_way_before(
            items[j],
            items[at],
        )
    &&& forall|j: int|
        at < j < items.len() && !(#[trigger] items[j]).priority.mandatory() ==> gives_way_before(
            items[at],
            items[j],
        )
}

/// Only mandatory items are left.
pub open spec fn all_mandatory(items: Seq<Item>) -> bool {
    forall|j: int| 0 <= j < items.len() ==> (#[trigger] items[j]).priority.mandatory()
}

fn gives_way(a: &MemoryItem, b: &MemoryItem) -> (r: bool)
    ensures
        r == gives_way_before(a@, b@),
{
    a.priority.order() > b.priority.order() || (a.priority.order() == b.priority.order()
        && text::text_less(b.id.as_str(), a.id.as_str()))
}

fn find_eviction(list: &Vec<MemoryItem>) -> (r: Option<usize>)
    ensures
        match r {
            Some(at) => is_eviction(super::items(list@), at as int),
            None => all_mandatory(super::items(list@)),
        },
{
    let ghost all = super::items(list@);
    let mut best: Option<usize> = None;
    let mut i: usize = 0;
    proof {
        assert(all.take(0) =~= Seq::empty());
    }
    while i < list.len()
        invariant
            i <= list.len(),
            all == super::items(list@),
            match best {
                Some(at) => is_eviction(all.take(i as int), at as int),
                None => all_mandatory(all.take(i as int)),
            },
        decreases list.len() - i,
    {
        let ghost now = all.take(i as int);
        let ghost next = all.take(i + 1);
        assert(next =~= now.push(list@[i as int]@));
        if !list[i].priority.is_mandatory() {
            match best {
                Some(at) => {
                    assert(now[at as int] == list@[at as int]@);
                    if !gives_way(&list[at], &list[i]) {
                        proof {
                            let new = list@[i as int]@;
                            let old_best = now[at as int];
                            assert forall|j: int|
                                0 <= j < i && !(#[trigger] next[j]).priority.mandatory() implies !gives_way_before(
                                next[j],
                                new,
                            ) by {
                                assert(next[j] == now[j]);
                                if gives_way_before(next[j], new) {
                                    if j < at {
                                        assert(!gives_way_before(now[j], old_best));
                                        evicted_last_wins(now[j], new, old_best);
                                    } else if j > at {
                                        assert(gives_way_before(old_best, now[j]));
                                        giving_way_chains(old_best, now[j], new);
                                    }
                                }
                            }
                            assert(next[i as int] == new);
                        }
                        best = Some(i);
                    } else {
                        proof {
                            assert forall|j: int|
                                0 <= j < at && !(#[trigger] next[j]).priority.mandatory() implies !gives_way_before(
                                next[j],
                                next[at as int],
                            ) by {
                                assert(next[j] == now[j]);
                            }
                            assert forall|j: int|
                                at < j < next.len() && !(#[trigger] next[j]).priority.mandatory() implies gives_way_before(
                                next[at as int],
                                next[j],
                            ) by {
                                if j < i {
                                    assert(next[j] == now[j]);
                                }
                            }
                        }
                    }
                },
                None => {
                    proof {
                        assert forall|j: int|
                            0 <= j < i && !(#[trigger] next[j]).priority.mandatory() implies !gives_way_before(
                            next[j],
                            next[i as int],
                        ) by {
                            assert(next[j] == now[j]);
                        }
                    }
                    best = Some(i);
                },
            }
        } else {
            proof {
                match best {
                    Some(at) => {
                        assert forall|j: int|
                            0 <= j < at && !(#[trigger] next[j]).priority.mandatory() implies !gives_way_before(
                            next[j],
                            next[at as int],
                        ) by {
                            assert(next[j] == now[j]);
                        }
                        assert forall|j: int|
                            at < j < next.len() && !(#[trigger] next[j]).priority.mandatory() implies gives_way_before(
                            next[at as int],
                            next[j],
                        ) by {
                            assert(next[j] == now[j]);
                        }
                    },
                    None => {
                        assert forall|j: int| 0 <= j < next.len() implies (
                        #[trigger] next[j]).priority.mandatory() by {
                            if j < i {
                                assert(next[j] == now[j]);
                            }
                        }
                    },
                }
            }
        }
        i = i + 1;
    }
    proof {
        assert(all.take(i as int) =~= all);
    }
    best
}

/// If `x` gives way before `y`, and `x` does not before `z`, then `z` gives way
/// before `y`.
proof fn evicted_last_wins(x: Item, y: Item, z: Item)
    requires
        gives_way_before(x, y),
        !gives_way_before(x, z),
    ensures
        gives_way_before(z, y),
{
    if x.priority.rank() == y.priority.rank() && x.priority.rank() == z.priority.rank() {
        text::less_is_total(x.id, z.id);
        if text::less(x.id, z.id) {
            text::less_is_transitive(y.id, x.id, z.id);
        }
    }
}

proof fn giving_way_chains(x: Item, y: Item, z: Item)
    requires
        gives_way_before(x, y),
        gives_way_before(y, z),
    ensures
        gives_way_before(x, z),
{
    if x.priority.rank() == y.priority.rank() && y.priority.rank() == z.priority.rank() {
        text::less_is_transitive(z.id, y.id, x.id);
    }
}

/// Admits the items of every other identity.
pub open spec fn other_item(id: Seq<char>) -> spec_fn(Item) -> bool {
    |i: Item| i.id != id
}

/// The items without the one of that identity.
fn drop_item(list: &mut Vec<MemoryItem>, id: &str)
    ensures
        super::items(final(list)@) == super::items(old(list)@).filter(other_item(id@)),
{
    let ghost all = super::items(list@);
    let mut out: Vec<MemoryItem> = Vec::new();
    let mut i: usize = 0;
    proof {
        reveal(Seq::filter);
        assert(all.take(0) =~= Seq::empty());
        assert(super::items(out@) =~= all.take(0).filter(other_item(id@)));
    }
    while i < list.len()
        invariant
            i <= list.len(),
            list@ == old(list)@,
            all == super::items(list@),
            super::items(out@) == all.take(i as int).filter(other_item(id@)),
        decreases list.len() - i,
    {
        let ghost before = super::items(out@);
        proof {
            reveal(Seq::filter);
            assert(all.take(i + 1).drop_last() =~= all.take(i as int));
            assert(all.take(i + 1).last() == list@[i as int]@);
        }
        if !text::same(list[i].id.as_str(), id) {
            out.push(list[i].copy());
            assert(super::items(out@) =~= before.push(list@[i as int]@));
        }
        i = i + 1;
    }
    proof {
        assert(all.take(i as int) =~= all);
    }
    *list = out;
}

/// What became of a request of that size.
#[derive(Clone, Copy, Debug, PartialEq, Eq, Structural)]
pub enum Admission {
    /// It fits: the model may be called.
    Admitted,
    /// It does not fit: an optional item gave way, the request is made anew.
    Evicted,
    /// It does not fit, and only mandatory items are left.
    Exhausted,
}

/// The material after an item gave way: it is out of the candidates too, so no
/// selection can name what the planner was denied.
pub open spec fn given_way(before: Stock, after: Stock, gone: Item) -> bool {
    after == (Stock {
        items: before.items.filter(other_item(gone.id)),
        reach: before.reach.omitting(gone.channel),
        ..before
    })
}

/// Weighs a request against what is left of the budget.
pub fn weigh(
    material: &mut Material,
    planner: &mut Planner,
    visible: &mut Vec<MemoryItem>,
    tokens: usize,
    limit: usize,
) -> (r: Admission)
    requires
        old(planner).context_spent <= limit,
    ensures
        final(planner).context_spent <= limit,
        match r {
            Admission::Admitted => {
                &&& old(planner).context_spent + tokens <= limit
                &&& *final(planner) == (Planner {
                    context_spent: (old(planner).context_spent + tokens) as usize,
                    ..*old(planner)
                })
                &&& *final(material) == *old(material)
                &&& final(visible)@ == old(visible)@
            },
            Admission::Evicted => {
                &&& old(planner).context_spent + tokens > limit
                &&& *final(planner) == *old(planner)
                &&& final(material).same_aside(*old(material))
                &&& exists|at: int| #[trigger]
                    is_eviction(super::items(old(visible)@), at) && super::items(
                        final(visible)@,
                    ) == super::items(old(visible)@).remove(at) && given_way(
                        old(material).stock(),
                        final(material).stock(),
                        super::items(old(visible)@)[at],
                    )
            },
            Admission::Exhausted => {
                &&& old(planner).context_spent + tokens > limit
                &&& all_mandatory(super::items(old(visible)@))
                &&& *final(planner) == (Planner { failed: true, ..*old(planner) })
                &&& *final(material) == (Material {
                    failure: Some(Failure::ContextBudget),
                    ..*old(material)
                })
                &&& final(visible)@ == old(visible)@
            },
        },
{
    if tokens <= limit - planner.context_spent {
        planner.context_spent = planner.context_spent + tokens;
        return Admission::Admitted;
    }
    match find_eviction(visible) {
        Some(at) => {
            let ghost seen = super::items(visible@);
            let gone = visible.remove(at);
            assert(gone@ == seen[at as int]);
            assert(super::items(visible@) =~= seen.remove(at as int));
            material.omit(gone.channel);
            drop_item(&mut material.items, gone.id.as_str());
            assert(is_eviction(seen, at as int));
            Admission::Evicted
        },
        None => {
            planner.failed = true;
            material.failure = Some(Failure::ContextBudget);
            Admission::Exhausted
        },
    }
}

// ---------------------------------------------------------------------------
// Selections
// ---------------------------------------------------------------------------

/// The identities that a selection names: an object of one member, a list of
/// texts.
pub open spec fn selection(v: Datum) -> Option<Seq<Seq<char>>> {
    match v {
        Datum::Object(members) => if members.len() == 1 && members[0].0 == "selected_ids"@ {
            match members[0].1 {
                Datum::Array(list) => if forall|i: int|
                    0 <= i < list.len() ==> (#[trigger] list[i]) is Text {
                    Some(list.map_values(|t: Datum| t->Text_0))
                } else {
                    None
                },
                _ => None,
            }
        } else {
            None
        },
        _ => None,
    }
}

pub fn read_selection(value: &Json) -> (r: Option<Vec<String>>)
    ensures
        match r {
            Some(ids) => selection(value@) == Some(text::views(ids@)),
            None => selection(value@) is None,
        },
{
    proof {
        value.view_of_parts();
    }
    let members = match value {
        Json::Object(members) => members,
        _ => return None,
    };
    if members.len() != 1 || !text::same(members[0].name.as_str(), "selected_ids") {
        proof {
            if members.len() == 1 {
                assert(value@->Object_0[0].0 == members@[0].name@);
            }
        }
        return None;
    }
    assert(value@->Object_0[0] == (members@[0].name@, members@[0].value@));
    let list = match members[0].value.as_array() {
        Some(list) => list,
        None => return None,
    };
    let ghost all = crate::json::items_view(list@);
    assert(value@->Object_0 =~= seq![("selected_ids"@, Datum::Array(all))]);
    let mut ids: Vec<String> = Vec::new();
    let mut i: usize = 0;
    while i < list.len()
        invariant
            i <= list.len(),
            all == crate::json::items_view(list@),
            value@ == Datum::Object(seq![("selected_ids"@, Datum::Array(all))]),
            ids@.len() == i,
            forall|k: int|
                0 <= k < i ==> #[trigger] all[k] == Datum::Text(ids@[k]@),
        decreases list.len() - i,
    {
        assert(all[i as int] == list@[i as int]@);
        match list[i].as_text() {
            Some(id) => ids.push(id.to_owned()),
            None => {
                assert(!(all[i as int] is Text));
                return None;
            },
        }
        i = i + 1;
    }
    proof {
        assert forall|k: int| 0 <= k < all.len() implies (#[trigger] all[k]) is Text by {}
        assert(text::views(ids@) =~= all.map_values(|t: Datum| t->Text_0));
    }
    Some(ids)
}

// ---------------------------------------------------------------------------
// Replies
// ---------------------------------------------------------------------------

/// One tool call of a model.
#[derive(Debug)]
pub struct ToolCall {
    pub name: String,
    pub args: Json,
}

/// What a model replied.
#[derive(Debug)]
pub struct ModelReply {
    pub failed: bool,
    pub content: String,
    /// The JSON value that the content writes, if it writes one.
    pub value: Option<Json>,
    pub calls: Vec<ToolCall>,
}

/// What follows a reply.
#[derive(Clone, Copy, Debug, PartialEq, Eq, Structural)]
pub enum ReplyStep {
    /// The planning is over, one way or the other.
    Stop,
    /// The calls are judged one by one.
    Calls,
}

/// The selection that a reply without tool calls makes.
pub open spec fn reply_selection(reply: ModelReply) -> Option<Seq<Seq<char>>> {
    if text::utf8_len(reply.content@) <= MAX_ARGUMENTS {
        match reply.value {
            Some(value) => selection(value@),
            None => None,
        }
    } else {
        None
    }
}

/// The reply asks for more calls than a pass or the whole recall may make.
pub open spec fn too_many_calls(calls: usize, reply: ModelReply) -> bool {
    reply.calls@.len() > MAX_CALLS_PER_TURN || calls + reply.calls@.len() > MAX_CALLS
}

/// Judges a reply, or its absence.
pub fn judge_reply(
    material: &mut Material,
    planner: &mut Planner,
    reply: Option<&ModelReply>,
) -> (step: ReplyStep)
    requires
        old(planner).calls <= MAX_CALLS,
    ensures
        match reply {
            Some(r) => if r.failed {
                step == ReplyStep::Stop && *final(planner) == (Planner {
                    failed: true,
                    ..*old(planner)
                }) && *final(material) == (Material {
                    failure: Some(Failure::ModelUnavailable),
                    ..*old(material)
                })
            } else if r.calls@.len() == 0 {
                step == ReplyStep::Stop && *final(material) == *old(material) && match reply_selection(
                    *r,
                ) {
                    Some(ids) => *final(planner) == (Planner {
                        selected: final(planner).selected,
                        finished: true,
                        ..*old(planner)
                    }) && text::views(final(planner).selected@) == ids,
                    None => *final(planner) == (Planner { failed: true, ..*old(planner) }),
                }
            } else if too_many_calls(old(planner).calls, *r) {
                step == ReplyStep::Stop && *final(planner) == (Planner {
                    failed: true,
                    ..*old(planner)
                }) && *final(material) == *old(material)
            } else {
                step == ReplyStep::Calls && *final(planner) == *old(planner) && *final(material)
                    == *old(material)
            },
            None => step == ReplyStep::Stop && *final(planner) == (Planner {
                failed: true,
                ..*old(planner)
            }) && *final(material) == (Material {
                failure: Some(Failure::ModelUnavailable),
                ..*old(material)
            }),
        },
{
    let reply = match reply {
        Some(reply) => reply,
        None => {
            planner.failed = true;
            material.failure = Some(Failure::ModelUnavailable);
            return ReplyStep::Stop;
        },
    };
    if reply.failed {
        planner.failed = true;
        material.failure = Some(Failure::ModelUnavailable);
        return ReplyStep::Stop;
    }
    if reply.calls.len() == 0 {
        let choice = if text::byte_len(reply.content.as_str()) <= MAX_ARGUMENTS {
            match &reply.value {
                Some(value) => read_selection(value),
                None => None,
            }
        } else {
            None
        };
        match choice {
            Some(ids) => {
                planner.selected = ids;
                planner.finished = true;
            },
            None => {
                planner.failed = true;
            },
        }
        return ReplyStep::Stop;
    }
    if reply.calls.len() > MAX_CALLS_PER_TURN || planner.calls + reply.calls.len() > MAX_CALLS {
        planner.failed = true;
        return ReplyStep::Stop;
    }
    ReplyStep::Calls
}

/// What one tool call is.
#[derive(Clone, Copy, Debug, PartialEq, Eq, Structural)]
pub enum CallStep {
    /// The planning is over, one way or the other.
    Stop,
    /// The memory language is explained; nothing of it becomes memory.
    Reference,
    /// The channel is read.
    Read(Channel),
}

/// The channel that a tool reads.
pub open spec fn channel_of(name: Seq<char>) -> Option<Channel> {
    if name == "execute_kip_readonly"@ {
        Some(Channel::Kip)
    } else if name == "wiki_read"@ || name == "wiki_search"@ {
        Some(Channel::Wiki)
    } else if name == "check_procedure_status"@ {
        Some(Channel::Procedures)
    } else {
        None
    }
}

fn tool_channel(name: &str) -> (r: Option<Channel>)
    ensures
        r == channel_of(name@),
{
    if text::same(name, "execute_kip_readonly") {
        Some(Channel::Kip)
    } else if text::same(name, "wiki_read") || text::same(name, "wiki_search") {
        Some(Channel::Wiki)
    } else if text::same(name, "check_procedure_status") {
        Some(Channel::Procedures)
    } else {
        None
    }
}

/// What a tool call is, given the tools that the host listed.
pub open spec fn call_step(call: ToolCall, tools: Seq<Seq<char>>) -> CallStep {
    if text::utf8_len(call.args@.written()) > MAX_ARGUMENTS || call.name@ == SELECT@
        || !tools.contains(call.name@) {
        CallStep::Stop
    } else if call.name@ == REFERENCE@ {
        CallStep::Reference
    } else {
        match channel_of(call.name@) {
            Some(channel) => CallStep::Read(channel),
            None => CallStep::Stop,
        }
    }
}

/// The selection that a tool call makes.
pub open spec fn call_selection(call: ToolCall) -> Option<Seq<Seq<char>>> {
    if text::utf8_len(call.args@.written()) <= MAX_ARGUMENTS && call.name@ == SELECT@ {
        selection(call.args@)
    } else {
        None
    }
}

/// Judges one tool call, and counts it.
pub fn judge_call(planner: &mut Planner, call: &ToolCall, tools: &Vec<String>) -> (step: CallStep)
    requires
        old(planner).calls < MAX_CALLS,
    ensures
        step == call_step(*call, text::views(tools@)),
        final(planner).calls == old(planner).calls + 1,
        match step {
            CallStep::Stop => match call_selection(*call) {
                Some(ids) => *final(planner) == (Planner {
                    calls: final(planner).calls,
                    selected: final(planner).selected,
                    finished: true,
                    ..*old(planner)
                }) && text::views(final(planner).selected@) == ids,
                None => *final(planner) == (Planner {
                    calls: final(planner).calls,
                    failed: true,
                    ..*old(planner)
                }),
            },
            _ => *final(planner) == (Planner { calls: final(planner).calls, ..*old(planner) }),
        },
{
    planner.calls = planner.calls + 1;
    if text::byte_len(call.args.to_text().as_str()) > MAX_ARGUMENTS {
        planner.failed = true;
        return CallStep::Stop;
    }
    if text::same(call.name.as_str(), SELECT) {
        match read_selection(&call.args) {
            Some(ids) => {
                planner.selected = ids;
                planner.finished = true;
            },
            None => {
                planner.failed = true;
            },
        }
        return CallStep::Stop;
    }
    if !text::contains(tools, call.name.as_str()) {
        planner.failed = true;
        return CallStep::Stop;
    }
    if text::same(call.name.as_str(), REFERENCE) {
        return CallStep::Reference;
    }
    match tool_channel(call.name.as_str()) {
        Some(channel) => CallStep::Read(channel),
        None => {
            planner.failed = true;
            CallStep::Stop
        },
    }
}

// ---------------------------------------------------------------------------
// Reads that the model asked for
// ---------------------------------------------------------------------------

/// What a tool returned.
#[derive(Debug)]
pub struct ToolResult {
    pub value: Json,
    pub error: bool,
}

/// The priority of what a tool returned: an error is a warning, a procedure
/// counts as verified only where its check allows a recommendation.
pub open spec fn result_priority(channel: Channel, value: Datum, error: bool) -> Priority {
    if error {
        Priority::Warning
    } else if channel == Channel::Procedures {
        if value.at("recommendation_allowed"@) == Datum::Bool(true) {
            Priority::VerifiedProcedure
        } else {
            Priority::Warning
        }
    } else {
        element_priority(value)
    }
}

pub open spec fn unavailable_value(name: Seq<char>) -> Datum {
    Datum::empty().with("tool"@, Datum::Text(name)).with("status"@, Datum::Text("unavailable"@)).with(
        "meaning"@,
        Datum::Text("not evidence of absence or complete coverage"@),
    )
}

/// A window of results is never an exhaustive search.
pub open spec fn windowed(s: Stock, channel: Channel) -> Stock {
    if channel == Channel::Kip || channel == Channel::Wiki {
        s.read(channel, true)
    } else {
        s
    }
}

/// The stock after a read that the model asked for.
pub open spec fn read_stock(
    s: Stock,
    max_items: usize,
    name: Seq<char>,
    channel: Channel,
    result: Option<(Datum, bool)>,
) -> Stock {
    let read = s.read(channel, false);
    windowed(
        match result {
            Some((value, error)) => {
                let weighed = if error {
                    read.left_out(channel)
                } else {
                    read
                };
                weighed.offered(max_items, channel, result_priority(channel, value, error), value)
            },
            None => read.left_out(channel).offered(
                max_items,
                channel,
                Priority::Warning,
                unavailable_value(name),
            ),
        },
        channel,
    )
}

/// The identity of the item that a read became.
pub open spec fn read_id(
    s: Stock,
    max_items: usize,
    channel: Channel,
    result: Option<(Datum, bool)>,
) -> Option<Seq<char>> {
    match result {
        Some((value, error)) => {
            let read = s.read(channel, false);
            let weighed = if error {
                read.left_out(channel)
            } else {
                read
            };
            weighed.offered_id(max_items, channel, result_priority(channel, value, error), value)
        },
        None => None,
    }
}

pub open spec fn result_view(result: Option<ToolResult>) -> Option<(Datum, bool)> {
    match result {
        Some(r) => Some((r.value@, r.error)),
        None => None,
    }
}

/// What the planner is told of a read: the item that it became, or that the tool
/// was unavailable; nothing where the result became no item.
pub open spec fn observation(
    name: Seq<char>,
    id: Option<Seq<char>>,
    result: Option<(Datum, bool)>,
) -> Option<Datum> {
    match result {
        None => Some(
            Datum::empty().with("tool"@, Datum::Text(name)).with(
                "status"@,
                Datum::Text("unavailable"@),
            ),
        ),
        Some((_, error)) => match id {
            Some(item) => Some(
                Datum::empty().with("tool"@, Datum::Text(name)).with(
                    "item_id"@,
                    Datum::Text(item),
                ).with("partial"@, Datum::Bool(error)),
            ),
            None => None,
        },
    }
}

/// The procedures after a read: a checked procedure is remembered with the exact
/// skill that was asked about.
pub open spec fn procedures_after(
    before: Seq<Procedure>,
    after: Seq<Procedure>,
    channel: Channel,
    id: Option<Seq<char>>,
    skill_ref: Option<Seq<char>>,
) -> bool {
    if channel == Channel::Procedures && id is Some && skill_ref is Some {
        after.len() == before.len() + 1 && after.drop_last() == before && after.last().item@
            == id->Some_0 && after.last().skill@ == skill_ref->Some_0
    } else {
        after == before
    }
}

/// Takes over what a tool returned, and says what the planner is told.
pub fn read_done(
    material: &mut Material,
    name: &str,
    channel: Channel,
    result: Option<ToolResult>,
    skill_ref: Option<&str>,
) -> (told: Option<Json>)
    requires
        old(material).wf(),
        old(material).next_id < usize::MAX,
    ensures
        final(material).wf(),
        final(material).max_items == old(material).max_items,
        final(material).failure == old(material).failure,
        final(material).stock() == read_stock(
            old(material).stock(),
            old(material).max_items,
            name@,
            channel,
            result_view(result),
        ),
        text::views(final(material).skills@) == match result {
            Some(r) => super::material::skills_found(
                seq![r.value@],
                0,
                text::views(old(material).skills@),
            ),
            None => text::views(old(material).skills@),
        },
        procedures_after(
            old(material).procedures@,
            final(material).procedures@,
            channel,
            read_id(
                old(material).stock(),
                old(material).max_items,
                channel,
                result_view(result),
            ),
            match skill_ref {
                Some(skill) => Some(skill@),
                None => None,
            },
        ),
        ({
            let owed = observation(
                name@,
                read_id(
                    old(material).stock(),
                    old(material).max_items,
                    channel,
                    result_view(result),
                ),
                result_view(result),
            );
            match told {
                Some(o) => owed == Some(o@),
                None => owed is None,
            }
        }),
{
    material.mark(channel, false);
    let told = match result {
        Some(r) => {
            if r.error {
                material.omit(channel);
            }
            let priority = if r.error {
                Priority::Warning
            } else if channel == Channel::Procedures {
                let allowed = match r.value.get("recommendation_allowed") {
                    Some(flag) => flag.is_true(),
                    None => false,
                };
                if allowed {
                    Priority::VerifiedProcedure
                } else {
                    Priority::Warning
                }
            } else if super::material::contains_program(&r.value) {
                Priority::UnprovenProcedure
            } else {
                Priority::Relevant
            };
            assert(priority == result_priority(channel, r.value@, r.error));
            discover_skills(&r.value, &mut material.skills);
            match material.add(channel, priority, r.value) {
                Some(id) => {
                    let told = Json::object().with("tool", Json::text(name)).with(
                        "item_id",
                        Json::text(id.as_str()),
                    ).with("partial", Json::Bool(r.error));
                    if channel == Channel::Procedures {
                        if let Some(skill) = skill_ref {
                            let ghost before = material.procedures@;
                            material.procedures.push(Procedure { item: id, skill: skill.to_owned() });
                            assert(material.procedures@.drop_last() =~= before);
                        }
                    }
                    Some(told)
                },
                None => None,
            }
        },
        None => {
            material.omit(channel);
            let warning = Json::object().with("tool", Json::text(name)).with(
                "status",
                Json::text("unavailable"),
            ).with("meaning", Json::text("not evidence of absence or complete coverage"));
            let _id = material.add(channel, Priority::Warning, warning);
            Some(
                Json::object().with("tool", Json::text(name)).with(
                    "status",
                    Json::text("unavailable"),
                ),
            )
        },
    };
    if channel == Channel::Kip || channel == Channel::Wiki {
        material.mark(channel, true);
    }
    told
}

// ---------------------------------------------------------------------------
// The end of planning
// ---------------------------------------------------------------------------

/// Admits the items of every other channel, and mandatory ones of this.
pub open spec fn not_replayed(channel: Channel) -> spec_fn(Item) -> bool {
    |i: Item| i.channel != channel || i.priority.mandatory()
}

/// The stock without the optional items of a channel; what is taken out counts
/// as left out.
pub open spec fn without_replay(s: Stock, channel: Channel) -> Stock {
    let kept = s.items.filter(not_replayed(channel));
    let rest = Stock { items: kept, ..s };
    if kept.len() != s.items.len() {
        rest.left_out(channel)
    } else {
        rest
    }
}

fn drop_replay(material: &mut Material, channel: Channel)
    ensures
        final(material).same_aside(*old(material)),
        final(material).stock() == without_replay(old(material).stock(), channel),
{
    let ghost all = super::items(material.items@);
    let mut out: Vec<MemoryItem> = Vec::new();
    let mut i: usize = 0;
    proof {
        reveal(Seq::filter);
        assert(all.take(0) =~= Seq::empty());
        assert(super::items(out@) =~= all.take(0).filter(not_replayed(channel)));
    }
    while i < material.items.len()
        invariant
            i <= material.items.len(),
            *material == *old(material),
            all == super::items(material.items@),
            super::items(out@) == all.take(i as int).filter(not_replayed(channel)),
        decreases material.items.len() - i,
    {
        let ghost before = super::items(out@);
        proof {
            reveal(Seq::filter);
            assert(all.take(i + 1).drop_last() =~= all.take(i as int));
            assert(all.take(i + 1).last() == material.items@[i as int]@);
        }
        let item = &material.items[i];
        if item.channel != channel || item.priority.is_mandatory() {
            out.push(item.copy());
            assert(super::items(out@) =~= before.push(material.items@[i as int]@));
        }
        i = i + 1;
    }
    proof {
        assert(all.take(i as int) =~= all);
        assert(super::items(out@).len() == out@.len());
    }
    let before: usize = material.items.len();
    let after: usize = out.len();
    material.items = out;
    if before != after {
        material.omit(channel);
    }
}

pub open spec fn fallback_note_value() -> Datum {
    Datum::empty().with("status"@, Datum::Text("partial"@)).with(
        "reason"@,
        Datum::Text("recall_context_budget_exhausted"@),
    ).with(
        "selection"@,
        Datum::Text("host-read candidates; model planning was incomplete"@),
    ).with("action_ready"@, Datum::Bool(false))
}

/// What is delivered where the budget for planning ran out: the candidates that
/// the host read, without opaque notes and earlier conversations, and a warning.
pub open spec fn fallen_back(
    s: Stock,
    max_items: usize,
    candidates: Seq<Item>,
    reach: Reach,
) -> Stock {
    without_replay(
        without_replay(Stock { items: candidates, reach, ..s }, Channel::Notes),
        Channel::History,
    ).offered(max_items, Channel::Primer, Priority::Warning, fallback_note_value()).read(
        Channel::Kip,
        true,
    )
}

fn all_ids(list: &Vec<MemoryItem>) -> (ids: Vec<String>)
    ensures
        text::views(ids@) == super::items(list@).map_values(|i: Item| i.id),
{
    let mut ids: Vec<String> = Vec::new();
    let mut i: usize = 0;
    while i < list.len()
        invariant
            i <= list.len(),
            ids@.len() == i,
            forall|k: int| 0 <= k < i ==> (#[trigger] ids@[k])@ == list@[k].id@,
        decreases list.len() - i,
    {
        ids.push(list[i].id.clone());
        i = i + 1;
    }
    assert(text::views(ids@) =~= super::items(list@).map_values(|i: Item| i.id));
    ids
}

/// Falls back to what the host read before the pass whose request did not fit.
pub fn fall_back(
    material: &mut Material,
    planner: &mut Planner,
    candidates: Vec<MemoryItem>,
    coverage: Coverage,
)
    requires
        old(material).next_id < usize::MAX,
    ensures
        final(material).stock() == fallen_back(
            old(material).stock(),
            old(material).max_items,
            super::items(candidates@),
            coverage.reach(),
        ),
        final(material).max_items == old(material).max_items,
        final(material).failure is None,
        final(material).skills == old(material).skills,
        final(material).procedures == old(material).procedures,
        final(planner).finished,
        !final(planner).failed,
        final(planner).calls == old(planner).calls,
        final(planner).context_spent == old(planner).context_spent,
        text::views(final(planner).selected@) == final(material).stock().items.map_values(
            |i: Item| i.id,
        ),
{
    material.items = candidates;
    material.coverage = coverage;
    drop_replay(material, Channel::Notes);
    drop_replay(material, Channel::History);
    let note = Json::object().with("status", Json::text("partial")).with(
        "reason",
        Json::text("recall_context_budget_exhausted"),
    ).with(
        "selection",
        Json::text("host-read candidates; model planning was incomplete"),
    ).with("action_ready", Json::Bool(false));
    let _id = material.add(Channel::Primer, Priority::Warning, note);
    material.mark(Channel::Kip, true);
    planner.selected = all_ids(&material.items);
    material.failure = None;
    planner.finished = true;
    planner.failed = false;
}

/// Some item has that identity.
pub open spec fn is_item(items: Seq<Item>, id: Seq<char>) -> bool {
    exists|k: int| 0 <= k < items.len() && (#[trigger] items[k]).id == id
}

/// Admits the identities of items.
pub open spec fn of_items(items: Seq<Item>) -> spec_fn(Seq<char>) -> bool {
    |id: Seq<char>| is_item(items, id)
}

fn names_item(list: &Vec<MemoryItem>, id: &str) -> (r: bool)
    ensures
        r == is_item(super::items(list@), id@),
{
    let mut i: usize = 0;
    while i < list.len()
        invariant
            i <= list.len(),
            forall|k: int| 0 <= k < i ==> (#[trigger] super::items(list@)[k]).id != id@,
        decreases list.len() - i,
    {
        assert(super::items(list@)[i as int].id == list@[i as int].id@);
        if text::same(list[i].id.as_str(), id) {
            return true;
        }
        i = i + 1;
    }
    false
}

/// Ends the planning: without a selection it failed, and a selection only keeps
/// the identities of items that were admitted.
pub fn conclude(material: &mut Material, planner: &mut Planner)
    ensures
        final(planner).failed == (old(planner).failed || !old(planner).finished),
        final(planner).finished == old(planner).finished,
        final(planner).calls == old(planner).calls,
        final(planner).context_spent == old(planner).context_spent,
        text::views(final(planner).selected@) == text::views(old(planner).selected@).filter(
            of_items(old(material).stock().items),
        ),
        *final(material) == (Material {
            failure: if final(planner).failed && old(material).failure is None {
                Some(Failure::PlannerIncomplete)
            } else {
                old(material).failure
            },
            ..*old(material)
        }),
{
    planner.failed = planner.failed || !planner.finished;
    if planner.failed && material.failure.is_none() {
        material.failure = Some(Failure::PlannerIncomplete);
    }
    let ghost all = text::views(planner.selected@);
    let ghost keep = of_items(old(material).stock().items);
    let mut kept: Vec<String> = Vec::new();
    let mut i: usize = 0;
    proof {
        reveal(Seq::filter);
        assert(all.take(0) =~= Seq::empty());
        assert(text::views(kept@) =~= all.take(0).filter(keep));
    }
    while i < planner.selected.len()
        invariant
            i <= planner.selected.len(),
            all == text::views(planner.selected@),
            keep == of_items(super::items(material.items@)),
            text::views(kept@) == all.take(i as int).filter(keep),
        decreases planner.selected.len() - i,
    {
        let ghost before = text::views(kept@);
        proof {
            reveal(Seq::filter);
            assert(all.take(i + 1).drop_last() =~= all.take(i as int));
            assert(all.take(i + 1).last() == planner.selected@[i as int]@);
        }
        if names_item(&material.items, planner.selected[i].as_str()) {
            kept.push(planner.selected[i].clone());
            assert(text::views(kept@) =~= before.push(all[i as int]));
        }
        i = i + 1;
    }
    proof {
        assert(all.take(i as int) =~= all);
    }
    planner.selected = kept;
}

/// A recall makes at most this many passes.
pub const MAX_PASSES: usize = 8;

/// The number of passes that a recall makes.
pub fn passes(max_turns: usize) -> (n: usize)
    ensures
        n == if max_turns < MAX_PASSES {
            max_turns
        } else {
            MAX_PASSES
        },
{
    if max_turns < MAX_PASSES {
        max_turns
    } else {
        MAX_PASSES
    }
}

/// Whether the model may be called: nothing failed, nothing required is missing,
/// and there is time.
pub fn may_call(material: &mut Material, planner: &mut Planner, in_time: bool) -> (r: bool)
    ensures
        r == (!old(planner).failed && !old(material).critical_missing && in_time),
        final(planner).failed == !r,
        *final(planner) == (Planner { failed: !r, ..*old(planner) }),
        *final(material) == (Material {
            failure: if !old(planner).failed && !old(material).critical_missing && !in_time {
                Some(Failure::Deadline)
            } else {
                old(material).failure
            },
            ..*old(material)
        }),
{
    if planner.failed || material.critical_missing {
        planner.failed = true;
        return false;
    }
    if !in_time {
        planner.failed = true;
        material.failure = Some(Failure::Deadline);
        return false;
    }
    true
}

/// The planning ran out of its budget, and everything required is there.
pub fn falls_back(material: &Material) -> (r: bool)
    ensures
        r == (material.failure == Some(Failure::ContextBudget) && !material.critical_missing),
{
    match material.failure {
        Some(Failure::ContextBudget) => !material.critical_missing,
        _ => false,
    }
}

// ---------------------------------------------------------------------------
// Laws
// ---------------------------------------------------------------------------

/// Whatever gives way, every mandatory item stays visible to the planner.
pub proof fn mandatory_items_stay_visible(items: Seq<Item>, at: int, i: int)
    requires
        is_eviction(items, at),
        0 <= i < items.len(),
        items[i].priority.mandatory(),
    ensures
        i != at,
        items.remove(at).contains(items[i]),
{
    let after = items.remove(at);
    let k = if i < at {
        i
    } else {
        i - 1
    };
    assert(after[k] == items[i]);
}

/// Whatever gives way, every other item stays a candidate, and the one that gave
/// way is none any more.
pub proof fn only_one_candidate_gives_way(before: Stock, after: Stock, gone: Item, i: int)
    requires
        given_way(before, after, gone),
        0 <= i < before.items.len(),
    ensures
        before.items[i].id != gone.id ==> after.items.contains(before.items[i]),
        !is_item(after.items, gone.id),
{
    let keep = other_item(gone.id);
    filter_holds(before.items, keep);
    if before.items[i].id != gone.id {
        assert(keep(before.items[i]));
        assert(before.items.contains(before.items[i]));
    }
    if is_item(after.items, gone.id) {
        let k = choose|k: int| 0 <= k < after.items.len() && (#[trigger] after.items[k]).id == gone.id;
        assert(after.items.contains(after.items[k]));
        assert(keep(after.items[k]));
    }
}

/// A filtered list holds what it held before and is admitted.
pub proof fn filter_holds<A>(s: Seq<A>, keep: spec_fn(A) -> bool)
    ensures
        forall|x: A| #[trigger] s.filter(keep).contains(x) <==> s.contains(x) && keep(x),
    decreases s.len(),
{
    reveal(Seq::filter);
    if s.len() > 0 {
        filter_holds(s.drop_last(), keep);
        let rest = s.drop_last().filter(keep);
        let last = s.last();
        assert forall|x: A| #[trigger] s.filter(keep).contains(x) <==> s.contains(x) && keep(x) by {
            if s.contains(x) {
                let i = choose|i: int| 0 <= i < s.len() && s[i] == x;
                if i < s.len() - 1 {
                    assert(s.drop_last()[i] == x);
                    assert(s.drop_last().contains(x));
                }
            }
            if s.drop_last().contains(x) {
                let i = choose|i: int| 0 <= i < s.drop_last().len() && s.drop_last()[i] == x;
                assert(s[i] == x);
            }
            if keep(last) {
                let after = rest.push(last);
                assert(after[rest.len() as int] == last);
                if rest.contains(x) {
                    let i = choose|i: int| 0 <= i < rest.len() && rest[i] == x;
                    assert(after[i] == x);
                }
                if after.contains(x) {
                    let i = choose|i: int| 0 <= i < after.len() && after[i] == x;
                    if i < rest.len() {
                        assert(rest[i] == x);
                    }
                }
            }
            assert(s[s.len() - 1] == last);
        }
    }
}

/// A selection never names what is not an item of the recall.
pub proof fn selections_name_items_only(items: Seq<Item>, selected: Seq<Seq<char>>, id: Seq<char>)
    ensures
        selected.filter(of_items(items)).contains(id) <==> selected.contains(id) && is_item(
            items,
            id,
        ),
{
    filter_holds(selected, of_items(items));
}

/// The fallback keeps every mandatory candidate.
pub proof fn fallbacks_keep_mandatory_items(
    s: Stock,
    max_items: usize,
    candidates: Seq<Item>,
    reach: Reach,
    i: int,
)
    requires
        0 <= i < candidates.len(),
        candidates[i].priority.mandatory(),
    ensures
        fallen_back(s, max_items, candidates, reach).items.contains(candidates[i]),
{
    let start = Stock { items: candidates, reach, ..s };
    let first = without_replay(start, Channel::Notes);
    let second = without_replay(first, Channel::History);
    filter_holds(start.items, not_replayed(Channel::Notes));
    filter_holds(first.items, not_replayed(Channel::History));
    assert(candidates.contains(candidates[i]));
    assert(second.items.contains(candidates[i]));
    let k = choose|k: int| 0 <= k < second.items.len() && second.items[k] == candidates[i];
    let last = second.offered(
        max_items,
        Channel::Primer,
        Priority::Warning,
        fallback_note_value(),
    );
    assert(last.items[k] == candidates[i]);
}

} // verus!
