//! The planning of a budgeted recall: what the host decides between its reads
//! and the model's replies.

use vstd::prelude::*;

use super::compact;
use super::material::{contains_program, discover_skills, Failure, Material, Stock, MAX_BYTES, MAX_ROWS};
use super::{Channel, Item, MemoryItem, Priority};
use crate::json::{Datum, Json};
use crate::text;

verus! {

// ---------------------------------------------------------------------------
// The start
// ---------------------------------------------------------------------------

/// Why a question is refused before anything is read.
#[derive(Clone, Copy, Debug, PartialEq, Eq, Structural)]
pub enum InputError {
    EmptyQuery,
    TooLarge,
}

impl InputError {
    /// The words of the error.
    pub open spec fn words(self) -> Seq<char> {
        match self {
            InputError::EmptyQuery => "recall query must not be empty"@,
            InputError::TooLarge => "Recall input exceeds bounded byte limit"@,
        }
    }

    pub fn message(&self) -> (r: &'static str)
        ensures
            r@ == self.words(),
    {
        match self {
            InputError::EmptyQuery => "recall query must not be empty",
            InputError::TooLarge => "Recall input exceeds bounded byte limit",
        }
    }
}

pub fn check_input(query: &str, prompt: &str) -> (r: Result<(), InputError>)
    ensures
        r == if text::trimmed(query@).len() == 0 {
            Err::<(), InputError>(InputError::EmptyQuery)
        } else if text::utf8_len(prompt@) > MAX_BYTES {
            Err::<(), InputError>(InputError::TooLarge)
        } else {
            Ok(())
        },
{
    if text::trim(query).is_empty() {
        return Err(InputError::EmptyQuery);
    }
    if text::byte_len(prompt) > MAX_BYTES {
        return Err(InputError::TooLarge);
    }
    Ok(())
}

pub const SCOPE_NOTE: &'static str =
    "authorized retrieved candidates, not exhaustive semantic coverage";

pub const CONSTRAINT_NOTE: &'static str =
    "All host-detected unresolved commitments and warnings are retained before optional memories. Unchecked/omitted sources may contain additional restrictions.";

pub const PROCEDURE_NOTE: &'static str =
    "Raw memory, historic grades and model text confer no standing or execution authority. Only a separately checked exact current revision may be a verified candidate; acting hosts must revalidate before dispatch.";

/// How the host reads every packet.
pub open spec fn host_note_value() -> Datum {
    Datum::empty().with("scope"@, Datum::Text(SCOPE_NOTE@)).with(
        "constraints"@,
        Datum::Text(CONSTRAINT_NOTE@),
    ).with("procedures"@, Datum::Text(PROCEDURE_NOTE@)).with("action_ready"@, Datum::Bool(false))
}

pub fn host_note() -> (r: Json)
    ensures
        r@ == host_note_value(),
{
    Json::object().with("scope", Json::text(SCOPE_NOTE)).with(
        "constraints",
        Json::text(CONSTRAINT_NOTE),
    ).with("procedures", Json::text(PROCEDURE_NOTE)).with("action_ready", Json::Bool(false))
}

impl Stock {
    pub open spec fn read(self, channel: Channel, partial: bool) -> Stock {
        Stock { reach: self.reach.marked(channel, partial), ..self }
    }

    pub open spec fn left_out(self, channel: Channel) -> Stock {
        Stock { reach: self.reach.omitting(channel), ..self }
    }

    pub open spec fn missing(self) -> Stock {
        Stock { critical: true, ..self }
    }
}

/// The stock after the primer was read; without one something required is
/// missing.
pub open spec fn primed(s: Stock, max_items: usize, primer: Datum) -> Stock {
    if primer is Null {
        s.missing().left_out(Channel::Primer)
    } else {
        s.offered(max_items, Channel::Primer, Priority::Required, compact::primer_view(primer))
    }
}

/// The stock after the profile of the counterparty was read.
pub open spec fn introduced(
    s: Stock,
    max_items: usize,
    profile: Option<Datum>,
    asked: bool,
) -> Stock {
    let read = s.read(Channel::Counterparty, false);
    match profile {
        Some(content) => read.offered(
            max_items,
            Channel::Counterparty,
            Priority::Relevant,
            content,
        ),
        None => if asked {
            read.left_out(Channel::Counterparty)
        } else {
            read
        },
    }
}

/// The stock after everything around the question was read.
pub open spec fn contextual(
    s: Stock,
    max_items: usize,
    primer: Datum,
    notes_read: bool,
    profile: Option<Datum>,
    asked: bool,
) -> Stock {
    let first = primed(s, max_items, primer);
    let second = if notes_read {
        first.read(Channel::Notes, false)
    } else {
        first.left_out(Channel::Notes)
    };
    introduced(second, max_items, profile, asked).read(Channel::History, false)
}

/// Takes over what was read around the question.
pub fn context_read(
    material: &mut Material,
    primer: &Json,
    notes_read: bool,
    profile: Option<Json>,
    asked: bool,
)
    requires
        old(material).next_id < usize::MAX - 2,
    ensures
        final(material).same_aside(*old(material)),
        final(material).stock() == contextual(
            old(material).stock(),
            old(material).max_items,
            primer@,
            notes_read,
            match profile {
                Some(content) => Some(content@),
                None => None,
            },
            asked,
        ),
{
    if primer.is_null() {
        material.critical_missing = true;
        material.omit(Channel::Primer);
    } else {
        let _id = material.add(Channel::Primer, Priority::Required, compact::primer(primer));
    }
    if notes_read {
        material.mark(Channel::Notes, false);
    } else {
        material.omit(Channel::Notes);
    }
    material.mark(Channel::Counterparty, false);
    match profile {
        Some(content) => {
            let _id = material.add(Channel::Counterparty, Priority::Relevant, content);
        },
        None => {
            if asked {
                material.omit(Channel::Counterparty);
            }
        },
    }
    material.mark(Channel::History, false);
}

// ---------------------------------------------------------------------------
// Unresolved commitments
// ---------------------------------------------------------------------------

/// The stock after these rows were offered as required items.
pub open spec fn required_rows(s: Stock, max_items: usize, rows: Seq<Datum>) -> Stock
    decreases rows.len(),
{
    if rows.len() == 0 {
        s
    } else {
        required_rows(s, max_items, rows.drop_last()).offered(
            max_items,
            Channel::Kip,
            Priority::Required,
            rows.last(),
        )
    }
}

pub open spec fn first_rows(rows: Seq<Datum>) -> Seq<Datum> {
    if rows.len() <= MAX_ROWS {
        rows
    } else {
        rows.take(MAX_ROWS as int)
    }
}

/// The stock after the unresolved commitments were read. All of them are
/// required: if they were not read, or there are more than a read returns,
/// something required is missing.
pub open spec fn constrained(s: Stock, max_items: usize, rows: Option<Seq<Datum>>) -> Stock {
    match rows {
        None => s.missing().left_out(Channel::Kip),
        Some(all) => {
            let read = s.read(Channel::Kip, all.len() > MAX_ROWS);
            required_rows(
                if all.len() > MAX_ROWS {
                    read.missing()
                } else {
                    read
                },
                max_items,
                first_rows(all),
            )
        },
    }
}

/// Offering an item raises the next identity by one at most.
proof fn offering_counts(
    s: Stock,
    max_items: usize,
    channel: Channel,
    priority: Priority,
    content: Datum,
)
    requires
        s.next_id < usize::MAX,
    ensures
        s.next_id <= s.offered(max_items, channel, priority, content).next_id <= s.next_id + 1,
{
}

/// Takes over the unresolved commitments.
pub fn constraints_read(material: &mut Material, rows: Option<&Vec<Json>>)
    requires
        old(material).next_id < usize::MAX - MAX_ROWS,
    ensures
        final(material).same_aside(*old(material)),
        final(material).stock() == constrained(
            old(material).stock(),
            old(material).max_items,
            match rows {
                Some(list) => Some(crate::json::items_view(list@)),
                None => None,
            },
        ),
        final(material).next_id <= old(material).next_id + MAX_ROWS,
{
    let rows = match rows {
        Some(rows) => rows,
        None => {
            material.critical_missing = true;
            material.omit(Channel::Kip);
            return ;
        },
    };
    let ghost all = crate::json::items_view(rows@);
    material.mark(Channel::Kip, rows.len() > MAX_ROWS);
    if rows.len() > MAX_ROWS {
        material.critical_missing = true;
    }
    let most: usize = if rows.len() > MAX_ROWS {
        MAX_ROWS
    } else {
        rows.len()
    };
    let ghost start = material.stock();
    let mut i: usize = 0;
    proof {
        assert(all.take(0) =~= Seq::empty());
    }
    while i < most
        invariant
            i <= most <= rows.len(),
            most <= MAX_ROWS,
            all == crate::json::items_view(rows@),
            material.same_aside(*old(material)),
            material.stock() == required_rows(start, material.max_items, all.take(i as int)),
            material.next_id <= old(material).next_id + i,
            old(material).next_id < usize::MAX - MAX_ROWS,
        decreases most - i,
    {
        proof {
            assert(all.take(i + 1).drop_last() =~= all.take(i as int));
            assert(all.take(i + 1).last() == rows@[i as int]@);
            offering_counts(
                material.stock(),
                material.max_items,
                Channel::Kip,
                Priority::Required,
                rows@[i as int]@,
            );
        }
        let _id = material.add(Channel::Kip, Priority::Required, rows[i].copy());
        i = i + 1;
    }
    proof {
        assert(first_rows(all) =~= all.take(most as int));
    }
}

/// Why a recall ends before any planning: something required is missing, or the
/// required items alone do not fit the packet.
pub fn required_verdict(material: &mut Material, insufficient: bool) -> (stop: bool)
    ensures
        stop == (old(material).critical_missing || insufficient),
        *final(material) == (Material {
            failure: if old(material).critical_missing {
                Some(Failure::RequiredRead)
            } else if insufficient {
                Some(Failure::OutputBudget)
            } else {
                old(material).failure
            },
            ..*old(material)
        }),
{
    if material.critical_missing {
        material.failure = Some(Failure::RequiredRead);
        return true;
    }
    if insufficient {
        material.failure = Some(Failure::OutputBudget);
        return true;
    }
    false
}

// ---------------------------------------------------------------------------
// The search for the question itself
// ---------------------------------------------------------------------------

/// What the search for the question returned.
pub enum Discovery<'a> {
    Hits(&'a Vec<Json>),
    NoHits,
    Unavailable,
}

/// What a discovery leaves: the stock, the skills that were seen, and the
/// identities of the items that match the question.
pub struct Found {
    pub stock: Stock,
    pub skills: Seq<Seq<char>>,
    pub ids: Seq<Seq<char>>,
}

/// The first item with that identity of an element.
pub open spec fn item_with(items: Seq<Item>, id: Datum) -> Option<Seq<char>>
    decreases items.len(),
{
    if items.len() == 0 {
        None
    } else if items.first().content.at("id"@) == id {
        Some(items.first().id)
    } else {
        item_with(items.drop_first(), id)
    }
}

/// The priority of a retrieved element.
pub open spec fn element_priority(v: Datum) -> Priority {
    if super::material::finds_program(seq![v], 0) {
        Priority::UnprovenProcedure
    } else {
        Priority::Relevant
    }
}

/// One more hit: an element that is an item already is named, another becomes
/// an item of its own.
pub open spec fn with_hit(f: Found, max_items: usize, hit: Datum) -> Found {
    let element = hit.at("element"@);
    let skills = super::material::skills_found(seq![element], 0, f.skills);
    let known = if element.at("id"@) is Text {
        item_with(f.stock.items, element.at("id"@))
    } else {
        None
    };
    match known {
        Some(id) => Found { skills, ids: f.ids.push(id), ..f },
        None => Found {
            stock: f.stock.offered(max_items, Channel::Kip, element_priority(element), element),
            skills,
            ids: match f.stock.offered_id(
                max_items,
                Channel::Kip,
                element_priority(element),
                element,
            ) {
                Some(id) => f.ids.push(id),
                None => f.ids,
            },
        },
    }
}

pub open spec fn with_hits(f: Found, max_items: usize, hits: Seq<Datum>) -> Found
    decreases hits.len(),
{
    if hits.len() == 0 {
        f
    } else {
        with_hit(with_hits(f, max_items, hits.drop_last()), max_items, hits.last())
    }
}

/// At most this many hits are taken over.
pub const MAX_HITS: usize = 8;

pub open spec fn first_hits(hits: Seq<Datum>) -> Seq<Datum> {
    if hits.len() <= MAX_HITS {
        hits
    } else {
        hits.take(MAX_HITS as int)
    }
}

pub open spec fn search_warning_value() -> Datum {
    Datum::empty().with("query_search"@, Datum::Text("unavailable"@)).with(
        "meaning"@,
        Datum::Text("not evidence of absence"@),
    )
}

/// What the search for the question leaves. It is never exhaustive.
pub open spec fn discovered(f: Found, max_items: usize, outcome: Discovery<'_>) -> Found {
    let read = Found { stock: f.stock.read(Channel::Kip, true), ..f };
    match outcome {
        Discovery::Hits(list) => with_hits(
            read,
            max_items,
            first_hits(crate::json::items_view(list@)),
        ),
        Discovery::NoHits => Found { stock: read.stock.left_out(Channel::Kip), ..read },
        Discovery::Unavailable => Found {
            stock: read.stock.left_out(Channel::Kip).offered(
                max_items,
                Channel::Kip,
                Priority::Warning,
                search_warning_value(),
            ),
            ..read
        },
    }
}

impl Material {
    /// What a discovery starts from.
    pub open spec fn found(self, ids: Seq<Seq<char>>) -> Found {
        Found { stock: self.stock(), skills: text::views(self.skills@), ids }
    }

    /// The skills are in order.
    pub open spec fn wf(self) -> bool {
        text::is_sorted_set(text::views(self.skills@))
    }

    /// Everything beside the stock and the skills is unchanged.
    pub open spec fn same_beside_skills(self, other: Material) -> bool {
        &&& self.max_items == other.max_items
        &&& self.failure == other.failure
        &&& self.procedures == other.procedures
    }
}

fn find_item(list: &Vec<MemoryItem>, id: &Json) -> (r: Option<usize>)
    requires
        id@ is Text,
    ensures
        match r {
            Some(i) => i < list.len() && item_with(super::items(list@), id@) == Some(
                list@[i as int].id@,
            ),
            None => item_with(super::items(list@), id@) is None,
        },
{
    let ghost all = super::items(list@);
    let mut i: usize = 0;
    proof {
        assert(all.skip(0) =~= all);
    }
    while i < list.len()
        invariant
            i <= list.len(),
            all == super::items(list@),
            id@ is Text,
            item_with(all.skip(i as int), id@) == item_with(all, id@),
        decreases list.len() - i,
    {
        proof {
            assert(all.skip(i as int).first() == list@[i as int]@);
            assert(all.skip(i as int).drop_first() =~= all.skip(i + 1));
        }
        let same = match list[i].content.get("id") {
            Some(own) => {
                proof {
                    crate::json::alike_integral_is_equal(own@, id@);
                }
                own.same(id)
            },
            None => id.is_null(),
        };
        if same {
            return Some(i);
        }
        i = i + 1;
    }
    None
}

/// The priority of a retrieved element.
fn priority_of(value: &Json) -> (r: Priority)
    ensures
        r == element_priority(value@),
{
    if contains_program(value) {
        Priority::UnprovenProcedure
    } else {
        Priority::Relevant
    }
}

fn take_hit(material: &mut Material, hit: &Json, ids: &mut Vec<String>)
    requires
        old(material).wf(),
        old(material).next_id < usize::MAX,
    ensures
        final(material).wf(),
        final(material).same_beside_skills(*old(material)),
        final(material).found(text::views(final(ids)@)) == with_hit(
            old(material).found(text::views(old(ids)@)),
            old(material).max_items,
            hit@,
        ),
        final(material).next_id <= old(material).next_id + 1,
{
    let missing = Json::Null;
    let element = match hit.get("element") {
        Some(element) => element,
        None => &missing,
    };
    assert(element@ == hit@.at("element"@));
    discover_skills(element, &mut material.skills);
    let ghost named = text::views(ids@);
    if let Some(id) = element.get("id") {
        if id.as_text().is_some() {
            if let Some(i) = find_item(&material.items, id) {
                ids.push(material.items[i].id.clone());
                assert(text::views(ids@) =~= named.push(material.items@[i as int].id@));
                return ;
            }
        }
    }
    let priority = priority_of(element);
    proof {
        offering_counts(material.stock(), material.max_items, Channel::Kip, priority, element@);
    }
    if let Some(id) = material.add(Channel::Kip, priority, element.copy()) {
        ids.push(id);
        assert(text::views(ids@) =~= named.push(id@));
    }
}

/// Takes over what the search for the question returned, and names the items
/// that match it.
pub fn discovery_read(material: &mut Material, outcome: Discovery<'_>) -> (ids: Vec<String>)
    requires
        old(material).wf(),
        old(material).next_id < usize::MAX - MAX_HITS,
    ensures
        final(material).wf(),
        final(material).same_beside_skills(*old(material)),
        final(material).found(text::views(ids@)) == discovered(
            old(material).found(Seq::empty()),
            old(material).max_items,
            outcome,
        ),
        final(material).next_id <= old(material).next_id + MAX_HITS,
{
    let mut ids: Vec<String> = Vec::new();
    assert(text::views(ids@) =~= Seq::empty());
    material.mark(Channel::Kip, true);
    match outcome {
        Discovery::Hits(list) => {
            let ghost all = crate::json::items_view(list@);
            let most: usize = if list.len() > MAX_HITS {
                MAX_HITS
            } else {
                list.len()
            };
            let ghost start = material.found(Seq::empty());
            let mut i: usize = 0;
            proof {
                assert(all.take(0) =~= Seq::empty());
            }
            while i < most
                invariant
                    i <= most <= list.len(),
                    most <= MAX_HITS,
                    all == crate::json::items_view(list@),
                    material.wf(),
                    material.same_beside_skills(*old(material)),
                    material.found(text::views(ids@)) == with_hits(
                        start,
                        material.max_items,
                        all.take(i as int),
                    ),
                    material.next_id <= old(material).next_id + i,
                    old(material).next_id < usize::MAX - MAX_HITS,
                decreases most - i,
            {
                proof {
                    assert(all.take(i + 1).drop_last() =~= all.take(i as int));
                    assert(all.take(i + 1).last() == list@[i as int]@);
                }
                take_hit(material, &list[i], &mut ids);
                i = i + 1;
            }
            proof {
                assert(first_hits(all) =~= all.take(most as int));
            }
        },
        Discovery::NoHits => {
            material.omit(Channel::Kip);
        },
        Discovery::Unavailable => {
            material.omit(Channel::Kip);
            let warning = Json::object().with("query_search", Json::text("unavailable")).with(
                "meaning",
                Json::text("not evidence of absence"),
            );
            proof {
                offering_counts(
                    material.stock(),
                    material.max_items,
                    Channel::Kip,
                    Priority::Warning,
                    warning@,
                );
            }
            let _id = material.add(Channel::Kip, Priority::Warning, warning);
        },
    }
    ids
}

} // verus!
