//! The material of a budgeted recall: what was read, from where, and what is
//! missing. The host owns reads and priorities; a model only selects.

use vstd::prelude::*;

use super::compact;
use super::{Channel, Item, MemoryItem, Priority};
use crate::json::{Datum, Json};
use crate::text;
use crate::walk;

verus! {

/// The most tool calls of one recall.
pub const MAX_CALLS: usize = 16;

/// The most tool calls of one pass.
pub const MAX_CALLS_PER_TURN: usize = 4;

/// The most rows that one read returns.
pub const MAX_ROWS: usize = 32;

/// The most bytes of one item.
pub const MAX_BYTES: usize = 1_048_576;

/// The most values that are looked at inside one result.
pub const MAX_NODES: usize = 4096;

/// The profile that procedures are declared in.
pub const PROFILE: &'static str = "kip://profiles/cognitive-memory@2.0.0/";

/// Why a recall delivers no ordinary packet.
#[derive(Clone, Copy, Debug, PartialEq, Eq, Structural)]
pub enum Failure {
    OutputBudget,
    RequiredRead,
    ContextBudget,
    Deadline,
    ModelUnavailable,
    PlannerIncomplete,
    ProcedureWindow,
}

impl Failure {
    pub open spec fn name(self) -> Seq<char> {
        match self {
            Failure::OutputBudget => "recall_output_budget_exhausted"@,
            Failure::RequiredRead => "recall_required_read_incomplete"@,
            Failure::ContextBudget => "recall_context_budget_exhausted"@,
            Failure::Deadline => "recall_deadline_reached"@,
            Failure::ModelUnavailable => "recall_model_unavailable"@,
            Failure::PlannerIncomplete => "recall_planner_incomplete"@,
            Failure::ProcedureWindow => "recall_procedure_window_incomplete"@,
        }
    }

    pub fn as_str(&self) -> (r: &'static str)
        ensures
            r@ == self.name(),
    {
        match self {
            Failure::OutputBudget => "recall_output_budget_exhausted",
            Failure::RequiredRead => "recall_required_read_incomplete",
            Failure::ContextBudget => "recall_context_budget_exhausted",
            Failure::Deadline => "recall_deadline_reached",
            Failure::ModelUnavailable => "recall_model_unavailable",
            Failure::PlannerIncomplete => "recall_planner_incomplete",
            Failure::ProcedureWindow => "recall_procedure_window_incomplete",
        }
    }
}

// ---------------------------------------------------------------------------
// Coverage
// ---------------------------------------------------------------------------

/// Which channels were read, and how far.
#[derive(Debug)]
pub struct Coverage {
    pub queried: Vec<Channel>,
    pub partial: Vec<Channel>,
    pub omitted: Vec<Channel>,
    pub unchecked: Vec<Channel>,
}

/// The channels that were read, that were read in part, and from which something
/// was left out.
pub struct Reach {
    pub queried: Seq<Channel>,
    pub partial: Seq<Channel>,
    pub omitted: Seq<Channel>,
}

/// The list with the channel, at its end if it is new.
pub open spec fn noted(list: Seq<Channel>, channel: Channel) -> Seq<Channel> {
    if list.contains(channel) {
        list
    } else {
        list.push(channel)
    }
}

impl Reach {
    pub open spec fn marked(self, channel: Channel, partial: bool) -> Reach {
        Reach {
            queried: noted(self.queried, channel),
            partial: if partial {
                noted(self.partial, channel)
            } else {
                self.partial
            },
            omitted: self.omitted,
        }
    }

    /// Something of the channel was left out: it was read, and only in part.
    pub open spec fn omitting(self, channel: Channel) -> Reach {
        Reach { omitted: noted(self.omitted, channel), ..self.marked(channel, true) }
    }
}

fn contains(list: &Vec<Channel>, channel: Channel) -> (r: bool)
    ensures
        r == list@.contains(channel),
{
    let mut i: usize = 0;
    while i < list.len()
        invariant
            i <= list.len(),
            forall|k: int| 0 <= k < i ==> list@[k] != channel,
        decreases list.len() - i,
    {
        if list[i] == channel {
            return true;
        }
        i = i + 1;
    }
    false
}

fn note(list: &mut Vec<Channel>, channel: Channel)
    ensures
        final(list)@ == noted(old(list)@, channel),
{
    if !contains(list, channel) {
        list.push(channel);
    }
}

fn copy_channels(list: &Vec<Channel>) -> (r: Vec<Channel>)
    ensures
        r@ == list@,
{
    let mut out: Vec<Channel> = Vec::new();
    let mut i: usize = 0;
    while i < list.len()
        invariant
            i <= list.len(),
            out@ == list@.take(i as int),
        decreases list.len() - i,
    {
        out.push(list[i]);
        i = i + 1;
        assert(list@.take(i as int) =~= list@.take(i - 1).push(list@[i - 1]));
    }
    assert(list@.take(i as int) =~= list@);
    out
}

impl Coverage {
    pub open spec fn reach(self) -> Reach {
        Reach { queried: self.queried@, partial: self.partial@, omitted: self.omitted@ }
    }

    fn new() -> (r: Coverage)
        ensures
            r.reach() == (Reach {
                queried: Seq::empty(),
                partial: Seq::empty(),
                omitted: Seq::empty(),
            }),
            r.unchecked@.len() == 0,
    {
        Coverage {
            queried: Vec::new(),
            partial: Vec::new(),
            omitted: Vec::new(),
            unchecked: Vec::new(),
        }
    }

    /// The same coverage once more.
    pub fn copy(&self) -> (r: Coverage)
        ensures
            r.reach() == self.reach(),
            r.unchecked@ == self.unchecked@,
    {
        Coverage {
            queried: copy_channels(&self.queried),
            partial: copy_channels(&self.partial),
            omitted: copy_channels(&self.omitted),
            unchecked: copy_channels(&self.unchecked),
        }
    }
}

/// All channels, in their order.
pub open spec fn all_channels() -> Seq<Channel> {
    seq![
        Channel::Primer,
        Channel::Notes,
        Channel::Counterparty,
        Channel::History,
        Channel::Kip,
        Channel::Wiki,
        Channel::Procedures,
    ]
}

/// The channels that were not read.
pub open spec fn unread(channels: Seq<Channel>, queried: Seq<Channel>) -> Seq<Channel>
    decreases channels.len(),
{
    if channels.len() == 0 {
        Seq::empty()
    } else {
        let before = unread(channels.drop_last(), queried);
        if queried.contains(channels.last()) {
            before
        } else {
            before.push(channels.last())
        }
    }
}

// ---------------------------------------------------------------------------
// Material
// ---------------------------------------------------------------------------

/// The check of a procedure that one of the items is.
#[derive(Debug)]
pub struct Procedure {
    pub item: String,
    pub skill: String,
}

/// What a budgeted recall has read.
#[derive(Debug)]
pub struct Material {
    /// The most items that a packet is made from.
    pub max_items: usize,
    pub next_id: usize,
    pub failure: Option<Failure>,
    pub items: Vec<MemoryItem>,
    pub coverage: Coverage,
    pub critical_missing: bool,
    /// The skills that were seen, in order.
    pub skills: Vec<String>,
    pub procedures: Vec<Procedure>,
}

/// The items of a recall, its reach, and whether something required is missing.
pub struct Stock {
    pub next_id: usize,
    pub items: Seq<Item>,
    pub reach: Reach,
    pub critical: bool,
}

/// A number with at least three digits.
pub open spec fn padded(n: nat) -> Seq<char> {
    let digits = text::decimal(n);
    if digits.len() == 1 {
        "00"@ + digits
    } else if digits.len() == 2 {
        "0"@ + digits
    } else {
        digits
    }
}

/// The identity of an item: its rank of admission, so that the order of
/// identities keeps the order of a search past the ninth hit.
pub open spec fn item_id(n: nat) -> Seq<char> {
    "m"@ + padded(n)
}

pub fn make_id(n: usize) -> (r: String)
    ensures
        r@ == item_id(n as nat),
{
    let digits = text::decimal_text(n as u64);
    let mut id = "m".to_owned();
    let len: usize = text::chars_of(digits.as_str()).len();
    if len == 1 {
        id.append("00");
    } else if len == 2 {
        id.append("0");
    }
    id.append(digits.as_str());
    assert(id@ =~= item_id(n as nat));
    id
}

/// There is nothing in it.
pub open spec fn is_blank(v: Datum) -> bool {
    match v {
        Datum::Null => true,
        Datum::Array(items) => items.len() == 0,
        Datum::Object(members) => members.len() == 0,
        _ => false,
    }
}

fn blank(value: &Json) -> (r: bool)
    ensures
        r == is_blank(value@),
{
    proof {
        value.view_of_parts();
    }
    match value {
        Json::Null => true,
        Json::Array(items) => items.len() == 0,
        Json::Object(members) => members.len() == 0,
        _ => false,
    }
}

/// The channels whose elements are compacted.
pub open spec fn is_compacted(channel: Channel) -> bool {
    channel == Channel::Kip || channel == Channel::Counterparty
}

/// What an item holds of a content.
pub open spec fn admitted_content(channel: Channel, priority: Priority, content: Datum) -> Datum {
    if is_compacted(channel) {
        compact::compacted(content, priority.mandatory())
    } else {
        content
    }
}

/// The reach after a content was looked at.
pub open spec fn admitted_reach(
    reach: Reach,
    channel: Channel,
    priority: Priority,
    content: Datum,
) -> Reach {
    let read = reach.marked(channel, false);
    if is_compacted(channel) && compact::leaves_out(content, priority.mandatory()) {
        read.marked(channel, true)
    } else {
        read
    }
}

impl Stock {
    /// The content can become an item.
    pub open spec fn has_room(
        self,
        max_items: usize,
        channel: Channel,
        priority: Priority,
        content: Datum,
    ) -> bool {
        self.items.len() < max_items && text::utf8_len(
            admitted_content(channel, priority, content).written(),
        ) <= MAX_BYTES
    }

    /// The stock after a content was offered: nothing new of a blank one; what
    /// does not fit is left out, and is missed if it was mandatory; all else
    /// becomes an item.
    pub open spec fn offered(
        self,
        max_items: usize,
        channel: Channel,
        priority: Priority,
        content: Datum,
    ) -> Stock {
        if is_blank(content) {
            Stock { reach: self.reach.marked(channel, false), ..self }
        } else if !self.has_room(max_items, channel, priority, content) {
            Stock {
                reach: admitted_reach(self.reach, channel, priority, content).omitting(channel),
                critical: self.critical || priority.mandatory(),
                ..self
            }
        } else {
            Stock {
                next_id: (self.next_id + 1) as usize,
                items: self.items.push(
                    Item {
                        id: item_id(self.next_id as nat),
                        channel,
                        priority,
                        content: admitted_content(channel, priority, content),
                    },
                ),
                reach: admitted_reach(self.reach, channel, priority, content),
                critical: self.critical,
            }
        }
    }

    /// The identity of the new item, where there is one.
    pub open spec fn offered_id(
        self,
        max_items: usize,
        channel: Channel,
        priority: Priority,
        content: Datum,
    ) -> Option<Seq<char>> {
        if is_blank(content) || !self.has_room(max_items, channel, priority, content) {
            None
        } else {
            Some(item_id(self.next_id as nat))
        }
    }
}

impl Material {
    pub open spec fn stock(self) -> Stock {
        Stock {
            next_id: self.next_id,
            items: super::items(self.items@),
            reach: self.coverage.reach(),
            critical: self.critical_missing,
        }
    }

    /// Everything beside the stock is unchanged.
    pub open spec fn same_aside(self, other: Material) -> bool {
        &&& self.max_items == other.max_items
        &&& self.failure == other.failure
        &&& self.skills == other.skills
        &&& self.procedures == other.procedures
    }

    pub fn new(max_items: usize) -> (r: Material)
        ensures
            r.max_items == max_items,
            r.failure is None,
            r.skills@.len() == 0,
            r.procedures@.len() == 0,
            r.stock() == (Stock {
                next_id: 0,
                items: Seq::empty(),
                reach: Reach {
                    queried: Seq::empty(),
                    partial: Seq::empty(),
                    omitted: Seq::empty(),
                },
                critical: false,
            }),
    {
        let r = Material {
            max_items,
            next_id: 0,
            failure: None,
            items: Vec::new(),
            coverage: Coverage::new(),
            critical_missing: false,
            skills: Vec::new(),
            procedures: Vec::new(),
        };
        assert(super::items(r.items@) =~= Seq::empty());
        r
    }

    /// The channel was read, in part or in full.
    pub fn mark(&mut self, channel: Channel, partial: bool)
        ensures
            final(self).same_aside(*old(self)),
            final(self).stock() == (Stock {
                reach: old(self).stock().reach.marked(channel, partial),
                ..old(self).stock()
            }),
    {
        note(&mut self.coverage.queried, channel);
        if partial {
            note(&mut self.coverage.partial, channel);
        }
    }

    /// Something of the channel is left out.
    pub fn omit(&mut self, channel: Channel)
        ensures
            final(self).same_aside(*old(self)),
            final(self).stock() == (Stock {
                reach: old(self).stock().reach.omitting(channel),
                ..old(self).stock()
            }),
    {
        self.mark(channel, true);
        note(&mut self.coverage.omitted, channel);
    }

    /// Offers a content as an item.
    pub fn add(&mut self, channel: Channel, priority: Priority, content: Json) -> (r: Option<
        String,
    >)
        requires
            old(self).next_id < usize::MAX,
        ensures
            final(self).same_aside(*old(self)),
            final(self).stock() == old(self).stock().offered(
                old(self).max_items,
                channel,
                priority,
                content@,
            ),
            crate::assess::optional_text(r) == old(self).stock().offered_id(
                old(self).max_items,
                channel,
                priority,
                content@,
            ),
    {
        let ghost before = self.stock();
        self.mark(channel, false);
        if blank(&content) {
            return None;
        }
        let compacts = match channel {
            Channel::Kip => true,
            Channel::Counterparty => true,
            _ => false,
        };
        let content = if compacts {
            let (view, cut) = compact::memory(&content, priority.is_mandatory());
            if cut {
                self.mark(channel, true);
            }
            view
        } else {
            content
        };
        let size: usize = text::byte_len(content.to_text().as_str());
        assert(super::items(self.items@).len() == self.items@.len());
        if self.items.len() >= self.max_items || size > MAX_BYTES {
            self.omit(channel);
            if priority.is_mandatory() {
                self.critical_missing = true;
            }
            return None;
        }
        let id = make_id(self.next_id);
        self.next_id = self.next_id + 1;
        let ghost held = super::items(self.items@);
        let item = MemoryItem { id: id.clone(), channel, priority, content };
        let ghost item_view = item@;
        self.items.push(item);
        assert(super::items(self.items@) =~= held.push(item_view));
        Some(id)
    }

    /// The coverage, with the channels that were not read.
    pub fn coverage(&self) -> (r: Coverage)
        ensures
            r.reach() == self.coverage.reach(),
            r.unchecked@ == unread(all_channels(), self.coverage.queried@),
    {
        let mut coverage = self.coverage.copy();
        let channels = [
            Channel::Primer,
            Channel::Notes,
            Channel::Counterparty,
            Channel::History,
            Channel::Kip,
            Channel::Wiki,
            Channel::Procedures,
        ];
        let ghost all = all_channels();
        assert(channels@ =~= all);
        let mut unchecked: Vec<Channel> = Vec::new();
        let mut i: usize = 0;
        proof {
            assert(all.take(0) =~= Seq::empty());
        }
        while i < 7
            invariant
                i <= 7,
                channels@ == all,
                all.len() == 7,
                unchecked@ == unread(all.take(i as int), self.coverage.queried@),
            decreases 7 - i,
        {
            proof {
                assert(all.take(i + 1).drop_last() =~= all.take(i as int));
                assert(all.take(i + 1).last() == all[i as int]);
            }
            if !contains(&self.coverage.queried, channels[i]) {
                unchecked.push(channels[i]);
            }
            i = i + 1;
        }
        proof {
            assert(all.take(7) =~= all);
        }
        coverage.unchecked = unchecked;
        coverage
    }
}

// ---------------------------------------------------------------------------
// Walking through results
// ---------------------------------------------------------------------------

/// The values directly inside a value, in order.
pub open spec fn inside(v: Datum) -> Seq<Datum> {
    match v {
        Datum::Array(items) => items,
        Datum::Object(members) => members.map_values(|m: (Seq<char>, Datum)| m.1),
        _ => Seq::empty(),
    }
}

/// The value declares a procedure.
pub open spec fn declares_program(v: Datum) -> bool {
    v.at("schema_ref"@) == Datum::Text(PROFILE@ + "Skill"@) || v.at("schema_ref"@) == Datum::Text(
        PROFILE@ + "SkillRevision"@,
    )
}

/// A procedure is found while the values are taken from the end of the list, and
/// what is inside each is put in its place; so is one assumed where there is too
/// much to look at.
pub open spec fn finds_program(stack: Seq<Datum>, looked_at: nat) -> bool
    decreases MAX_NODES + 1 - looked_at,
{
    if stack.len() == 0 {
        false
    } else if looked_at >= MAX_NODES {
        true
    } else {
        declares_program(stack.last()) || finds_program(
            stack.drop_last() + inside(stack.last()),
            looked_at + 1,
        )
    }
}

/// The references behind a list.
pub open spec fn seen(stack: Seq<&Json>) -> Seq<Datum> {
    stack.map_values(|j: &Json| j@)
}

pub(crate) fn push_inside<'a>(value: &'a Json, stack: &mut Vec<&'a Json>)
    ensures
        seen(final(stack)@) == seen(old(stack)@) + inside(value@),
{
    let ghost before = seen(stack@);
    let ghost all = inside(value@);
    proof {
        value.view_of_parts();
    }
    match value {
        Json::Array(items) => {
            let mut i: usize = 0;
            assert(before + all.take(0) =~= before);
            while i < items.len()
                invariant
                    i <= items.len(),
                    all == crate::json::items_view(items@),
                    seen(stack@) == before + all.take(i as int),
                decreases items.len() - i,
            {
                let ghost now = seen(stack@);
                stack.push(&items[i]);
                i = i + 1;
                proof {
                    assert(seen(stack@) =~= now.push(items@[i - 1]@));
                    assert(all.take(i as int) =~= all.take(i - 1).push(all[i - 1]));
                    assert(seen(stack@) =~= before + all.take(i as int));
                }
            }
            assert(all.take(i as int) =~= all);
        },
        Json::Object(members) => {
            let mut i: usize = 0;
            assert(before + all.take(0) =~= before);
            while i < members.len()
                invariant
                    i <= members.len(),
                    all == crate::json::members_view(members@).map_values(
                        |m: (Seq<char>, Datum)| m.1,
                    ),
                    seen(stack@) == before + all.take(i as int),
                decreases members.len() - i,
            {
                let ghost now = seen(stack@);
                stack.push(&members[i].value);
                i = i + 1;
                proof {
                    assert(seen(stack@) =~= now.push(members@[i - 1].value@));
                    assert(all.take(i as int) =~= all.take(i - 1).push(all[i - 1]));
                    assert(seen(stack@) =~= before + all.take(i as int));
                }
            }
            assert(all.take(i as int) =~= all);
        },
        _ => {
            assert(before + all =~= before);
        },
    }
}

fn profile_symbol(name: &str) -> (r: String)
    ensures
        r@ == PROFILE@ + name@,
{
    let mut out = PROFILE.to_owned();
    out.append(name);
    out
}

/// Whether a result holds a procedure, or too much to tell.
pub fn contains_program(value: &Json) -> (r: bool)
    ensures
        r == finds_program(seq![value@], 0),
{
    let skill = profile_symbol("Skill");
    let revision = profile_symbol("SkillRevision");
    let mut stack: Vec<&Json> = Vec::new();
    stack.push(value);
    assert(seen(stack@) =~= seq![value@]);
    let mut nodes: usize = 0;
    while stack.len() > 0
        invariant
            nodes <= MAX_NODES,
            skill@ == PROFILE@ + "Skill"@,
            revision@ == PROFILE@ + "SkillRevision"@,
            finds_program(seen(stack@), nodes as nat) == finds_program(seq![value@], 0),
        decreases MAX_NODES - nodes,
    {
        let ghost all = seen(stack@);
        if nodes >= MAX_NODES {
            return true;
        }
        let top = match stack.pop() {
            Some(top) => top,
            None => return false,
        };
        proof {
            assert(all.last() == top@);
            assert(seen(stack@) =~= all.drop_last());
        }
        nodes = nodes + 1;
        if top.member_is("schema_ref", skill.as_str()) || top.member_is(
            "schema_ref",
            revision.as_str(),
        ) {
            return true;
        }
        push_inside(top, &mut stack);
    }
    false
}

/// The skills after a walk: each declared skill is added by its identity, until
/// there is too much to look at or more than eight are known.
pub open spec fn skills_found(
    stack: Seq<Datum>,
    looked_at: nat,
    skills: Seq<Seq<char>>,
) -> Seq<Seq<char>>
    decreases MAX_NODES + 1 - looked_at,
{
    if stack.len() == 0 || looked_at >= MAX_NODES || skills.len() > 8 {
        skills
    } else {
        let v = stack.last();
        let now = if v.at("schema_ref"@) == Datum::Text(PROFILE@ + "Skill"@) && v.text_at("id"@) is Some {
            text::inserted(skills, v.text_at("id"@)->Some_0)
        } else {
            skills
        };
        skills_found(stack.drop_last() + inside(v), looked_at + 1, now)
    }
}

/// Adds the skills that a result declares.
pub fn discover_skills(value: &Json, skills: &mut Vec<String>)
    requires
        text::is_sorted_set(text::views(old(skills)@)),
    ensures
        text::is_sorted_set(text::views(final(skills)@)),
        text::views(final(skills)@) == skills_found(seq![value@], 0, text::views(old(skills)@)),
{
    let skill = profile_symbol("Skill");
    let ghost start = text::views(skills@);
    let mut stack: Vec<&Json> = Vec::new();
    stack.push(value);
    assert(seen(stack@) =~= seq![value@]);
    let mut nodes: usize = 0;
    while stack.len() > 0 && nodes < MAX_NODES && skills.len() <= 8
        invariant
            nodes <= MAX_NODES,
            skill@ == PROFILE@ + "Skill"@,
            text::is_sorted_set(text::views(skills@)),
            skills_found(seen(stack@), nodes as nat, text::views(skills@)) == skills_found(
                seq![value@],
                0,
                start,
            ),
        decreases MAX_NODES - nodes,
    {
        let ghost all = seen(stack@);
        let top = match stack.pop() {
            Some(top) => top,
            None => return,
        };
        proof {
            assert(all.last() == top@);
            assert(seen(stack@) =~= all.drop_last());
        }
        nodes = nodes + 1;
        if top.member_is("schema_ref", skill.as_str()) {
            if let Some(id) = top.text_at("id") {
                let _new = text::insert_sorted(skills, id);
            }
        }
        push_inside(top, &mut stack);
    }
    proof {
        assert(text::views(skills@).len() == skills@.len());
    }
}

// ---------------------------------------------------------------------------
// Laws
// ---------------------------------------------------------------------------

proof fn leading_zero(s: Seq<char>)
    ensures
        text::numeral_value("0"@ + s) == text::numeral_value(s),
    decreases s.len(),
{
    reveal_strlit("0");
    let whole = "0"@ + s;
    if s.len() == 0 {
        reveal_with_fuel(text::numeral_value, 2);
        assert(whole =~= "0"@);
        assert(whole.drop_last() =~= Seq::empty());
        assert(s =~= Seq::empty());
    } else {
        leading_zero(s.drop_last());
        assert(whole.drop_last() =~= "0"@ + s.drop_last());
        assert(whole.last() == s.last());
    }
}

proof fn padding_keeps_the_number(n: nat)
    ensures
        text::numeral_value(padded(n)) == n,
{
    let digits = text::decimal(n);
    text::decimal_reads_back(n);
    reveal_strlit("0");
    reveal_strlit("00");
    leading_zero(digits);
    leading_zero("0"@ + digits);
    assert("00"@ + digits =~= "0"@ + ("0"@ + digits));
}

/// Different items have different identities.
pub proof fn identities_are_distinct(m: nat, n: nat)
    requires
        item_id(m) == item_id(n),
    ensures
        m == n,
{
    padding_keeps_the_number(m);
    padding_keeps_the_number(n);
    reveal_strlit("m");
    assert(item_id(m).skip(1) =~= padded(m));
    assert(item_id(n).skip(1) =~= padded(n));
}

proof fn three_digits(n: nat)
    requires
        n < 1000,
    ensures
        padded(n) == seq![text::digit(n / 100), text::digit(n / 10 % 10), text::digit(n % 10)],
{
    reveal_with_fuel(text::decimal, 4);
    reveal_strlit("0");
    reveal_strlit("00");
    if n < 10 {
        assert(padded(n) =~= seq!['0', '0', text::digit(n)]);
    } else if n < 100 {
        assert(text::decimal(n) =~= seq![text::digit(n / 10), text::digit(n % 10)]);
        assert(padded(n) =~= seq!['0', text::digit(n / 10), text::digit(n % 10)]);
    } else {
        assert(n / 10 / 10 == n / 100);
        assert(text::decimal(n) =~= seq![
            text::digit(n / 100),
            text::digit(n / 10 % 10),
            text::digit(n % 10),
        ]);
    }
}

/// Sorting items by their identities keeps the order in which they were found,
/// past the ninth as well.
pub proof fn identities_keep_the_order_of_a_search(m: nat, n: nat)
    requires
        m < n < 1000,
    ensures
        text::less(item_id(m), item_id(n)),
{
    three_digits(m);
    three_digits(n);
    digits_keep_the_order(m, n);
    reveal_strlit("m");
    let a = item_id(m);
    let b = item_id(n);
    let a1 = padded(m);
    let b1 = padded(n);
    let a2 = a1.drop_first();
    let b2 = b1.drop_first();
    let a3 = a2.drop_first();
    let b3 = b2.drop_first();
    assert(a3 =~= seq![text::digit(m % 10)]);
    assert(b3 =~= seq![text::digit(n % 10)]);
    assert(a2[0] == text::digit(m / 10 % 10));
    assert(b2[0] == text::digit(n / 10 % 10));
    if m / 100 == n / 100 {
        if m / 10 % 10 == n / 10 % 10 {
            assert(text::less(a3, b3));
        }
        assert(text::less(a2, b2));
    }
    assert(text::less(a1, b1));
    assert(a.drop_first() =~= a1);
    assert(b.drop_first() =~= b1);
}

proof fn digits_keep_the_order(m: nat, n: nat)
    requires
        m < n < 1000,
    ensures
        m / 100 < n / 100 || (m / 100 == n / 100 && (m / 10 % 10 < n / 10 % 10 || (m / 10 % 10 == n
            / 10 % 10 && m % 10 < n % 10))),
{
}

impl Stock {
    /// Every item has an identity of its own, and none that is still to come.
    pub open spec fn identified(self) -> bool {
        &&& forall|i: int|
            0 <= i < self.items.len() ==> exists|k: nat|
                k < self.next_id && #[trigger] item_id(k) == (#[trigger] self.items[i]).id
        &&& forall|i: int, j: int|
            0 <= i < j < self.items.len() ==> (#[trigger] self.items[i]).id != (
            #[trigger] self.items[j]).id
    }
}

/// Whatever is offered, every item keeps an identity of its own.
pub proof fn offers_keep_identities_apart(
    stock: Stock,
    max_items: usize,
    channel: Channel,
    priority: Priority,
    content: Datum,
)
    requires
        stock.identified(),
        stock.next_id < usize::MAX,
    ensures
        stock.offered(max_items, channel, priority, content).identified(),
{
    let after = stock.offered(max_items, channel, priority, content);
    if after.items.len() > stock.items.len() {
        let n = stock.items.len() as int;
        assert forall|i: int| 0 <= i < after.items.len() implies exists|k: nat|
            k < after.next_id && #[trigger] item_id(k) == (#[trigger] after.items[i]).id by {
            if i < n {
                assert(after.items[i] == stock.items[i]);
                let k = choose|k: nat|
                    k < stock.next_id && #[trigger] item_id(k) == stock.items[i].id;
                assert(item_id(k) == after.items[i].id);
            } else {
                assert(item_id(stock.next_id as nat) == after.items[i].id);
            }
        }
        assert forall|i: int, j: int| 0 <= i < j < after.items.len() implies (
        #[trigger] after.items[i]).id != (#[trigger] after.items[j]).id by {
            assert(after.items[i] == stock.items[i]);
            if j == n {
                let k = choose|k: nat|
                    k < stock.next_id && #[trigger] item_id(k) == stock.items[i].id;
                if after.items[i].id == after.items[j].id {
                    identities_are_distinct(k, stock.next_id as nat);
                }
            } else {
                assert(after.items[j] == stock.items[j]);
            }
        }
    }
}

proof fn program_walks(stack: Seq<Datum>, looked_at: nat)
    requires
        looked_at <= MAX_NODES,
    ensures
        finds_program(stack, looked_at) <==> looked_at + walk::total(stack) > MAX_NODES || exists|
            x: Datum,
        | #[trigger]
            walk::some_holds(stack, x) && declares_program(x),
    decreases MAX_NODES + 1 - looked_at,
{
    walk::nothing_is_empty(stack);
    if stack.len() > 0 && looked_at < MAX_NODES {
        let next = stack.drop_last() + inside(stack.last());
        program_walks(next, looked_at + 1);
        walk::taking_apart(stack, stack.last());
        if exists|x: Datum| #[trigger] walk::some_holds(stack, x) && declares_program(x) {
            let x = choose|x: Datum| #[trigger] walk::some_holds(stack, x) && declares_program(x);
            walk::taking_apart(stack, x);
        }
        if exists|x: Datum| #[trigger] walk::some_holds(next, x) && declares_program(x) {
            let x = choose|x: Datum| #[trigger] walk::some_holds(next, x) && declares_program(x);
            walk::taking_apart(stack, x);
        }
    }
}

/// A procedure is found exactly where the result declares one at some depth, or
/// holds more values than are looked at.
pub proof fn programs_are_found_at_any_depth(v: Datum)
    ensures
        finds_program(seq![v], 0) <==> walk::size(v) > MAX_NODES || exists|x: Datum| #[trigger]
            walk::holds(v, x) && declares_program(x),
{
    program_walks(seq![v], 0);
    walk::one_value(v, v);
    if exists|x: Datum| #[trigger] walk::holds(v, x) && declares_program(x) {
        let x = choose|x: Datum| #[trigger] walk::holds(v, x) && declares_program(x);
        walk::one_value(v, x);
    }
    if exists|x: Datum| #[trigger] walk::some_holds(seq![v], x) && declares_program(x) {
        let x = choose|x: Datum| #[trigger] walk::some_holds(seq![v], x) && declares_program(x);
        walk::one_value(v, x);
    }
}

/// The value declares the skill of that identity.
pub open spec fn declares_skill(v: Datum, id: Seq<char>) -> bool {
    v.at("schema_ref"@) == Datum::Text(PROFILE@ + "Skill"@) && v.text_at("id"@) == Some(id)
}

proof fn skill_walks(stack: Seq<Datum>, looked_at: nat, skills: Seq<Seq<char>>, id: Seq<char>)
    ensures
        skills.contains(id) ==> skills_found(stack, looked_at, skills).contains(id),
        skills_found(stack, looked_at, skills).contains(id) ==> skills.contains(id) || exists|
            x: Datum,
        | #[trigger]
            walk::some_holds(stack, x) && declares_skill(x, id),
        looked_at + walk::total(stack) <= MAX_NODES && skills_found(
            stack,
            looked_at,
            skills,
        ).len() <= 8 ==> forall|x: Datum| #[trigger]
            walk::some_holds(stack, x) && declares_skill(x, id) ==> skills_found(
                stack,
                looked_at,
                skills,
            ).contains(id),
    decreases MAX_NODES + 1 - looked_at,
{
    walk::nothing_is_empty(stack);
    if !(stack.len() == 0 || looked_at >= MAX_NODES || skills.len() > 8) {
        let v = stack.last();
        let next = stack.drop_last() + inside(v);
        let now = if v.at("schema_ref"@) == Datum::Text(PROFILE@ + "Skill"@) && v.text_at(
            "id"@,
        ) is Some {
            text::inserted_holds(skills, v.text_at("id"@)->Some_0, id);
            text::inserted(skills, v.text_at("id"@)->Some_0)
        } else {
            skills
        };
        skill_walks(next, looked_at + 1, now, id);
        walk::taking_apart(stack, v);
        assert forall|x: Datum| #[trigger] walk::some_holds(next, x) implies walk::some_holds(
            stack,
            x,
        ) by {
            walk::taking_apart(stack, x);
        }
        assert forall|x: Datum| #[trigger] walk::some_holds(stack, x) implies x == v
            || walk::some_holds(next, x) by {
            walk::taking_apart(stack, x);
        }
    }
}

/// Discovering skills loses none that is known, adds only what the result declares
/// at some depth, and adds all of it where the result is no larger than what is
/// looked at and no more than eight skills are known in the end.
pub proof fn skills_are_found_at_any_depth(v: Datum, skills: Seq<Seq<char>>, id: Seq<char>)
    ensures
        skills.contains(id) ==> skills_found(seq![v], 0, skills).contains(id),
        skills_found(seq![v], 0, skills).contains(id) ==> skills.contains(id) || exists|x: Datum|
         #[trigger]
            walk::holds(v, x) && declares_skill(x, id),
        walk::size(v) <= MAX_NODES && skills_found(seq![v], 0, skills).len() <= 8 ==> forall|
            x: Datum,
        | #[trigger]
            walk::holds(v, x) && declares_skill(x, id) ==> skills_found(
                seq![v],
                0,
                skills,
            ).contains(id),
{
    skill_walks(seq![v], 0, skills, id);
    walk::one_value(v, v);
    assert forall|x: Datum| #[trigger] walk::some_holds(seq![v], x) implies walk::holds(v, x) by {
        walk::one_value(v, x);
    }
    assert forall|x: Datum| #[trigger] walk::holds(v, x) implies walk::some_holds(seq![v], x) by {
        walk::one_value(v, x);
    }
}

} // verus!
