//! Lossless required attributes, compact optional views, and explicit notes of
//! what a compact view leaves out.

use vstd::prelude::*;

use crate::json::{self, Datum, Json, Member};
use crate::text;

verus! {

pub const DETAIL_QUERY: &'static str = "DESCRIBE PRIMER";

pub const PRIMER_MEANING: &'static str =
    "Read basis only; not semantic completeness or permission to act";

pub const READ_MORE: &'static str =
    "Use FIND to project this element's attributes or LegacyRecord facet when needed";

/// What a planner reads of the primer.
pub open spec fn primer_view(v: Datum) -> Datum {
    Datum::empty().with("execution_context"@, v.at("execution_context"@)).with(
        "detail_query"@,
        Datum::Text(DETAIL_QUERY@),
    ).with("meaning"@, Datum::Text(PRIMER_MEANING@))
}

fn member_copy(value: &Json, name: &str) -> (r: Json)
    ensures
        r@ == value@.at(name@),
{
    match value.get(name) {
        Some(found) => found.copy(),
        None => Json::Null,
    }
}

pub fn primer(value: &Json) -> (r: Json)
    ensures
        r@ == primer_view(value@),
{
    Json::object().with("execution_context", member_copy(value, "execution_context")).with(
        "detail_query",
        Json::text(DETAIL_QUERY),
    ).with("meaning", Json::text(PRIMER_MEANING))
}

// ---------------------------------------------------------------------------
// Native elements
// ---------------------------------------------------------------------------

pub open spec fn is_kind(kind: Seq<char>) -> bool {
    kind == "concept"@ || kind == "proposition"@ || kind == "assertion"@ || kind == "evidence"@
        || kind == "activity"@
}

/// A native element: it has an identity and one of the kinds.
pub open spec fn is_native(v: Datum) -> bool {
    v.text_at("id"@) is Some && (v.text_at("kind"@) matches Some(kind) && is_kind(kind))
}

fn native(value: &Json) -> (r: bool)
    ensures
        r == is_native(value@),
{
    value.text_at("id").is_some() && match value.text_at("kind") {
        Some(kind) => text::same(kind, "concept") || text::same(kind, "proposition") || text::same(
            kind,
            "assertion",
        ) || text::same(kind, "evidence") || text::same(kind, "activity"),
        None => false,
    }
}

/// The facet that holds the record of an earlier store.
pub open spec fn is_legacy_facet(name: Seq<char>) -> bool {
    text::is_prefix("kip://legacy/nexus@"@, name) && text::is_suffix("/LegacyRecord"@, name)
}

/// The first such facet.
pub open spec fn first_legacy(facets: Seq<(Seq<char>, Datum)>) -> Option<(Seq<char>, Datum)>
    decreases facets.len(),
{
    if facets.len() == 0 {
        None
    } else if is_legacy_facet(facets.first().0) {
        Some(facets.first())
    } else {
        first_legacy(facets.drop_first())
    }
}

pub open spec fn legacy_of(v: Datum) -> Option<(Seq<char>, Datum)> {
    match v.at("facets"@) {
        Datum::Object(facets) => first_legacy(facets),
        _ => None,
    }
}

/// What is kept of the record of an earlier store.
pub open spec fn provenance(facet: (Seq<char>, Datum)) -> Datum {
    let record = facet.1.at("record"@);
    Datum::empty().with("facet"@, Datum::Text(facet.0)).with("legacy_id"@, record.at("_id"@)).with(
        "legacy_type"@,
        record.at("type"@),
    ).with("legacy_status"@, record.at("attributes"@).at("status"@)).with(
        "metadata"@,
        record.at("metadata"@),
    )
}

/// How an attribute repeats the record of an earlier store.
pub open spec fn legacy_attribute(facet: (Seq<char>, Datum)) -> Datum {
    let record = facet.1.at("record"@);
    Datum::empty().with("id"@, record.at("_id"@)).with("metadata"@, record.at("metadata"@))
}

/// An attribute that an optional view keeps.
pub open spec fn is_kept(name: Seq<char>) -> bool {
    name == "summary"@ || name == "description"@ || name == "display_name"@ || name == "status"@
        || name == "started_at"@ || name == "ended_at"@ || name == "due_at"@ || name
        == "completed_at"@ || name == "observed_at"@ || name == "last_observed"@ || name
        == "outcome"@
}

fn kept(name: &str) -> (r: bool)
    ensures
        r == is_kept(name@),
{
    text::same(name, "summary") || text::same(name, "description") || text::same(
        name,
        "display_name",
    ) || text::same(name, "status") || text::same(name, "started_at") || text::same(
        name,
        "ended_at",
    ) || text::same(name, "due_at") || text::same(name, "completed_at") || text::same(
        name,
        "observed_at",
    ) || text::same(name, "last_observed") || text::same(name, "outcome")
}

pub type Members = Seq<(Seq<char>, Datum)>;

/// The attribute only repeats the record of an earlier store.
pub open spec fn repeats_legacy(attributes: Members, legacy: Option<(Seq<char>, Datum)>) -> bool {
    legacy matches Some(facet) && (json::lookup(attributes, "legacy"@) matches Some(own)
        && json::alike(own, legacy_attribute(facet)))
}

/// The description only repeats the summary.
pub open spec fn repeats_summary(attributes: Members) -> bool {
    json::lookup(attributes, "summary"@) matches Some(summary) && (json::lookup(
        attributes,
        "description"@,
    ) matches Some(description) && json::alike(summary, description))
}

pub open spec fn without_legacy(attributes: Members, legacy: Option<(Seq<char>, Datum)>) -> Members {
    if repeats_legacy(attributes, legacy) {
        json::unset(attributes, "legacy"@)
    } else {
        attributes
    }
}

pub open spec fn without_repetition(
    attributes: Members,
    legacy: Option<(Seq<char>, Datum)>,
) -> Members {
    let first = without_legacy(attributes, legacy);
    if repeats_summary(first) {
        json::unset(first, "description"@)
    } else {
        first
    }
}

/// The attributes of a compact view.
pub open spec fn compact_attributes(
    attributes: Members,
    legacy: Option<(Seq<char>, Datum)>,
    required: bool,
) -> Members {
    let whole = without_repetition(attributes, legacy);
    if required {
        whole
    } else {
        whole.filter(|m: (Seq<char>, Datum)| is_kept(m.0))
    }
}

/// The names of the attributes that an optional view drops, in order.
pub open spec fn dropped(attributes: Members) -> Seq<Seq<char>>
    decreases attributes.len(),
{
    if attributes.len() == 0 {
        Seq::empty()
    } else {
        let before = dropped(attributes.drop_last());
        if is_kept(attributes.last().0) {
            before
        } else {
            before.push("attributes."@ + attributes.last().0)
        }
    }
}

/// What a compact view leaves out, by name and in order.
pub open spec fn omitted(v: Datum, required: bool) -> Seq<Seq<char>> {
    let legacy = legacy_of(v);
    let facet = match legacy {
        Some(f) => seq!["facets."@ + f.0],
        None => Seq::empty(),
    };
    match v.at("attributes"@) {
        Datum::Object(attributes) => {
            let first = without_legacy(attributes, legacy);
            facet + (if repeats_legacy(attributes, legacy) {
                seq!["attributes.legacy"@]
            } else {
                Seq::empty()
            }) + (if repeats_summary(first) {
                seq!["attributes.description (same as summary)"@]
            } else {
                Seq::empty()
            }) + (if required {
                Seq::empty()
            } else {
                dropped(without_repetition(attributes, legacy))
            })
        },
        _ => facet,
    }
}

/// The note that a compact view carries.
pub open spec fn detail(v: Datum, required: bool) -> Datum {
    Datum::empty().with("element"@, v.at("id"@)).with("projection"@, Datum::Text("compact"@)).with(
        "omitted_fields"@,
        crate::json::text_list(omitted(v, required)),
    ).with(
        "legacy_source"@,
        match legacy_of(v) {
            Some(facet) => provenance(facet),
            None => Datum::Null,
        },
    ).with("read_more"@, Datum::Text(READ_MORE@))
}

/// The compact view of a native element; the element itself where nothing is
/// left out.
pub open spec fn compact_element(v: Datum, required: bool) -> Datum {
    if omitted(v, required).len() == 0 {
        v
    } else {
        let first = match legacy_of(v) {
            Some(facet) => v.with("facets"@, v.at("facets"@).without(facet.0)),
            None => v,
        };
        let second = match v.at("attributes"@) {
            Datum::Object(attributes) => first.with(
                "attributes"@,
                Datum::Object(compact_attributes(attributes, legacy_of(v), required)),
            ),
            _ => first,
        };
        second.with("recall_detail"@, detail(v, required))
    }
}

/// The compact view of a value: native elements in it are compacted, projected
/// values and verdicts keep their shape.
pub open spec fn compacted(v: Datum, required: bool) -> Datum
    decreases v,
{
    match v {
        Datum::Array(items) => Datum::Array(
            Seq::new(
                items.len(),
                |i: int|
                    if 0 <= i < items.len() {
                        compacted(items[i], required)
                    } else {
                        Datum::Null
                    },
            ),
        ),
        Datum::Object(members) => if is_native(v) {
            compact_element(v, required)
        } else {
            Datum::Object(
                Seq::new(
                    members.len(),
                    |i: int|
                        if 0 <= i < members.len() {
                            (members[i].0, compacted(members[i].1, required))
                        } else {
                            (Seq::empty(), Datum::Null)
                        },
                ),
            )
        },
        _ => v,
    }
}

/// Something is left out of the compact view.
pub open spec fn leaves_out(v: Datum, required: bool) -> bool
    decreases v,
{
    match v {
        Datum::Array(items) => exists|i: int|
            0 <= i < items.len() && leaves_out(#[trigger] items[i], required),
        Datum::Object(members) => if is_native(v) {
            omitted(v, required).len() > 0
        } else {
            exists|i: int|
                0 <= i < members.len() && leaves_out((#[trigger] members[i]).1, required)
        },
        _ => false,
    }
}

// ---------------------------------------------------------------------------
// Building the view
// ---------------------------------------------------------------------------

fn find_legacy(facets: &Vec<Member>) -> (r: Option<usize>)
    ensures
        match r {
            Some(i) => i < facets.len() && first_legacy(json::members_view(facets@)) == Some(
                (facets@[i as int].name@, facets@[i as int].value@),
            ),
            None => first_legacy(json::members_view(facets@)) is None,
        },
{
    let ghost all = json::members_view(facets@);
    let mut i: usize = 0;
    proof {
        assert(all.skip(0) =~= all);
    }
    while i < facets.len()
        invariant
            i <= facets.len(),
            all == json::members_view(facets@),
            first_legacy(all.skip(i as int)) == first_legacy(all),
        decreases facets.len() - i,
    {
        proof {
            assert(all.skip(i as int).first() == all[i as int]);
            assert(all.skip(i as int).drop_first() =~= all.skip(i + 1));
        }
        if text::starts_with(facets[i].name.as_str(), "kip://legacy/nexus@") && text::ends_with(
            facets[i].name.as_str(),
            "/LegacyRecord",
        ) {
            return Some(i);
        }
        i = i + 1;
    }
    None
}

fn copy_without(members: &Vec<Member>, name: &str) -> (r: Vec<Member>)
    ensures
        json::members_view(r@) == json::unset(json::members_view(members@), name@),
{
    let ghost all = json::members_view(members@);
    let mut out: Vec<Member> = Vec::new();
    let mut i: usize = 0;
    proof {
        reveal(Seq::filter);
        assert(all.take(0) =~= Seq::empty());
        assert(json::members_view(out@) =~= json::unset(all.take(0), name@));
    }
    while i < members.len()
        invariant
            i <= members.len(),
            all == json::members_view(members@),
            json::members_view(out@) == json::unset(all.take(i as int), name@),
        decreases members.len() - i,
    {
        let ghost before = json::members_view(out@);
        proof {
            reveal(Seq::filter);
            assert(all.take(i + 1).drop_last() =~= all.take(i as int));
            assert(all.take(i + 1).last() == all[i as int]);
        }
        if !text::same(members[i].name.as_str(), name) {
            out.push(Member { name: members[i].name.clone(), value: members[i].value.copy() });
            assert(json::members_view(out@) =~= before.push(all[i as int]));
        }
        i = i + 1;
    }
    proof {
        assert(all.take(i as int) =~= all);
    }
    out
}

fn copy_members(members: &Vec<Member>) -> (r: Vec<Member>)
    ensures
        json::members_view(r@) == json::members_view(members@),
{
    let ghost all = json::members_view(members@);
    let mut out: Vec<Member> = Vec::new();
    let mut i: usize = 0;
    while i < members.len()
        invariant
            i <= members.len(),
            all == json::members_view(members@),
            json::members_view(out@) =~= all.take(i as int),
        decreases members.len() - i,
    {
        let ghost before = json::members_view(out@);
        out.push(Member { name: members[i].name.clone(), value: members[i].value.copy() });
        assert(json::members_view(out@) =~= before.push(all[i as int]));
        i = i + 1;
        assert(all.take(i as int) =~= all.take(i - 1).push(all[i - 1]));
    }
    proof {
        assert(all.take(i as int) =~= all);
    }
    out
}

fn object_of(members: Vec<Member>) -> (r: Json)
    ensures
        r@ == Datum::Object(json::members_view(members@)),
{
    let r = Json::Object(members);
    proof {
        r.view_of_parts();
    }
    r
}

/// Drops what an optional view does not keep, and names it.
fn keep_known(members: Vec<Member>, names: &mut Vec<String>) -> (r: Vec<Member>)
    ensures
        json::members_view(r@) == json::members_view(members@).filter(
            |m: (Seq<char>, Datum)| is_kept(m.0),
        ),
        text::views(final(names)@) == text::views(old(names)@) + dropped(
            json::members_view(members@),
        ),
{
    let ghost all = json::members_view(members@);
    let ghost start = text::views(names@);
    let ghost keep = |m: (Seq<char>, Datum)| is_kept(m.0);
    let mut out: Vec<Member> = Vec::new();
    let mut i: usize = 0;
    proof {
        reveal(Seq::filter);
        assert(all.take(0) =~= Seq::empty());
        assert(json::members_view(out@) =~= all.take(0).filter(keep));
        assert(start + dropped(all.take(0)) =~= start);
    }
    while i < members.len()
        invariant
            i <= members.len(),
            all == json::members_view(members@),
            keep == (|m: (Seq<char>, Datum)| is_kept(m.0)),
            json::members_view(out@) == all.take(i as int).filter(keep),
            text::views(names@) == start + dropped(all.take(i as int)),
        decreases members.len() - i,
    {
        let ghost before = json::members_view(out@);
        let ghost named = text::views(names@);
        proof {
            reveal(Seq::filter);
            assert(all.take(i + 1).drop_last() =~= all.take(i as int));
            assert(all.take(i + 1).last() == all[i as int]);
        }
        let name = members[i].name.as_str();
        if kept(name) {
            out.push(Member { name: members[i].name.clone(), value: members[i].value.copy() });
            assert(json::members_view(out@) =~= before.push(all[i as int]));
        } else {
            let mut field = "attributes.".to_owned();
            field.append(name);
            names.push(field);
            proof {
                assert(text::views(names@) =~= named.push("attributes."@ + all[i as int].0));
                assert(text::views(names@) =~= start + dropped(all.take(i + 1)));
            }
        }
        i = i + 1;
    }
    proof {
        assert(all.take(i as int) =~= all);
    }
    out
}

proof fn pushed(names: Seq<String>, s: String)
    ensures
        text::views(names.push(s)) == text::views(names).push(s@),
{
    assert(text::views(names.push(s)) =~= text::views(names).push(s@));
}

/// Compacts one native element.
fn element(value: &Json, required: bool) -> (r: (Json, bool))
    requires
        is_native(value@),
    ensures
        r.0@ == compact_element(value@, required),
        r.1 == (omitted(value@, required).len() > 0),
{
    let ghost v = value@;
    let mut names: Vec<String> = Vec::new();
    let mut source = Json::Null;
    let mut repeated = Json::Null;
    let mut facets_left: Option<Json> = None;
    let mut found = false;
    proof {
        assert(text::views(names@) =~= Seq::empty());
    }
    if let Some(facets_value) = value.get("facets") {
        proof {
            facets_value.view_of_parts();
        }
        if let Json::Object(facets) = facets_value {
            if let Some(i) = find_legacy(facets) {
                let key = facets[i].name.as_str();
                let record = match facets[i].value.get("record") {
                    Some(record) => record.copy(),
                    None => Json::Null,
                };
                let status = match record.get("attributes") {
                    Some(attributes) => member_copy(attributes, "status"),
                    None => Json::Null,
                };
                source = Json::object().with("facet", Json::text(key)).with(
                    "legacy_id",
                    member_copy(&record, "_id"),
                ).with("legacy_type", member_copy(&record, "type")).with(
                    "legacy_status",
                    status,
                ).with("metadata", member_copy(&record, "metadata"));
                repeated = Json::object().with("id", member_copy(&record, "_id")).with(
                    "metadata",
                    member_copy(&record, "metadata"),
                );
                facets_left = Some(object_of(copy_without(facets, key)));
                found = true;
                let mut field = "facets.".to_owned();
                field.append(key);
                proof {
                    pushed(names@, field);
                }
                names.push(field);
            }
        }
    }
    let ghost legacy = legacy_of(v);
    let ghost facet_names = match legacy {
        Some(f) => seq!["facets."@ + f.0],
        None => Seq::empty(),
    };
    proof {
        assert(found == (legacy is Some));
        assert(legacy matches Some(f) ==> source@ == provenance(f) && repeated@
            == legacy_attribute(f));
        assert(legacy matches Some(f) ==> (facets_left matches Some(left) && left@ == v.at(
            "facets"@,
        ).without(f.0)));
        assert(text::views(names@) =~= facet_names);
    }
    let mut attributes_left: Option<Json> = None;
    if let Some(attributes_value) = value.get("attributes") {
        proof {
            attributes_value.view_of_parts();
        }
        if let Json::Object(attributes) = attributes_value {
            let ghost attrs = json::members_view(attributes@);
            assert(v.at("attributes"@) == Datum::Object(attrs));
            let repeats = found && match attributes_value.get("legacy") {
                Some(own) => own.same(&repeated),
                None => false,
            };
            assert(repeats == repeats_legacy(attrs, legacy));
            let mut left = if repeats {
                let field = "attributes.legacy".to_owned();
                proof {
                    pushed(names@, field);
                }
                names.push(field);
                copy_without(attributes, "legacy")
            } else {
                copy_members(attributes)
            };
            let ghost first = without_legacy(attrs, legacy);
            assert(json::members_view(left@) == first);
            let ghost second_names = text::views(names@);
            assert(second_names =~= facet_names + (if repeats_legacy(attrs, legacy) {
                seq!["attributes.legacy"@]
            } else {
                Seq::empty()
            }));
            let so_far = object_of(left);
            let doubled = match so_far.get("summary") {
                Some(summary) => match so_far.get("description") {
                    Some(description) => summary.same(description),
                    None => false,
                },
                None => false,
            };
            assert(doubled == repeats_summary(first));
            let left = match so_far {
                Json::Object(own) => {
                    proof {
                        assert(json::members_view(own@) == first) by {
                            Json::Object(own).view_of_parts();
                        }
                    }
                    if doubled {
                        let field = "attributes.description (same as summary)".to_owned();
                        proof {
                            pushed(names@, field);
                        }
                        names.push(field);
                        copy_without(&own, "description")
                    } else {
                        own
                    }
                },
                _ => Vec::new(),
            };
            let ghost whole = without_repetition(attrs, legacy);
            assert(json::members_view(left@) == whole);
            let ghost third_names = text::views(names@);
            assert(third_names =~= second_names + (if repeats_summary(first) {
                seq!["attributes.description (same as summary)"@]
            } else {
                Seq::empty()
            }));
            let left = if required {
                left
            } else {
                keep_known(left, &mut names)
            };
            assert(text::views(names@) =~= third_names + (if required {
                Seq::empty()
            } else {
                dropped(whole)
            }));
            assert(json::members_view(left@) == compact_attributes(attrs, legacy, required));
            attributes_left = Some(object_of(left));
        }
    }
    proof {
        assert(text::views(names@) =~= omitted(v, required));
    }
    if names.len() == 0 {
        assert(text::views(names@).len() == 0);
        return (value.copy(), false);
    }
    assert(text::views(names@).len() > 0);
    let out = value.copy();
    let out = match facets_left {
        Some(facets) => out.with("facets", facets),
        None => out,
    };
    let out = match attributes_left {
        Some(attributes) => out.with("attributes", attributes),
        None => out,
    };
    let note = Json::object().with("element", member_copy(value, "id")).with(
        "projection",
        Json::text("compact"),
    ).with("omitted_fields", Json::texts(&names)).with("legacy_source", source).with(
        "read_more",
        Json::text(READ_MORE),
    );
    (out.with("recall_detail", note), true)
}

/// The compact view of a value, and whether anything is left out of it. No
/// constraint is ever summarised or cut short.
pub fn memory(value: &Json, required: bool) -> (r: (Json, bool))
    ensures
        r.0@ == compacted(value@, required),
        r.1 == leaves_out(value@, required),
    decreases value,
{
    proof {
        value.view_of_parts();
    }
    match value {
        Json::Array(items) => {
            let ghost all = json::items_view(items@);
            let mut out: Vec<Json> = Vec::new();
            let mut changed = false;
            let mut i: usize = 0;
            while i < items.len()
                invariant
                    i <= items.len(),
                    *value == Json::Array(*items),
                    all == json::items_view(items@),
                    out@.len() == i,
                    forall|k: int| 0 <= k < i ==> (#[trigger] out@[k])@ == compacted(all[k], required),
                    changed == exists|k: int|
                        0 <= k < i && leaves_out(#[trigger] all[k], required),
                decreases items.len() - i,
            {
                proof {
                    value.item_is_smaller(i as int);
                }
                let (part, left) = memory(&items[i], required);
                assert(all[i as int] == items@[i as int]@);
                out.push(part);
                changed = changed || left;
                i = i + 1;
            }
            let r = Json::Array(out);
            proof {
                r.view_of_parts();
                assert(r@->Array_0 =~= compacted(value@, required)->Array_0);
            }
            (r, changed)
        },
        Json::Object(members) => {
            if native(value) {
                return element(value, required);
            }
            let ghost all = json::members_view(members@);
            let mut out: Vec<Member> = Vec::new();
            let mut changed = false;
            let mut i: usize = 0;
            while i < members.len()
                invariant
                    i <= members.len(),
                    *value == Json::Object(*members),
                    all == json::members_view(members@),
                    out@.len() == i,
                    forall|k: int|
                        0 <= k < i ==> (#[trigger] out@[k]).name@ == all[k].0 && out@[k].value@
                            == compacted(all[k].1, required),
                    changed == exists|k: int|
                        0 <= k < i && leaves_out((#[trigger] all[k]).1, required),
                decreases members.len() - i,
            {
                proof {
                    value.member_is_smaller(i as int);
                }
                let (part, left) = memory(&members[i].value, required);
                assert(all[i as int] == (members@[i as int].name@, members@[i as int].value@));
                out.push(Member { name: members[i].name.clone(), value: part });
                changed = changed || left;
                i = i + 1;
            }
            let r = Json::Object(out);
            proof {
                r.view_of_parts();
                assert(r@->Object_0 =~= compacted(value@, required)->Object_0);
            }
            (r, changed)
        },
        _ => (value.copy(), false),
    }
}

// ---------------------------------------------------------------------------
// Laws
// ---------------------------------------------------------------------------

proof fn lookup_by_last(members: Members, name: Seq<char>)
    requires
        members.len() > 0,
    ensures
        json::lookup(members, name) == match json::lookup(members.drop_last(), name) {
            Some(value) => Some(value),
            None => if members.last().0 == name {
                Some(members.last().1)
            } else {
                None
            },
        },
    decreases members.len(),
{
    if members.len() == 1 {
        assert(members.drop_last() =~= Seq::empty());
        assert(members.drop_first() =~= Seq::empty());
        assert(members.first() == members.last());
        assert(json::lookup(members.drop_first(), name) is None);
    } else {
        lookup_by_last(members.drop_first(), name);
        assert(members.drop_first().drop_last() =~= members.drop_last().drop_first());
        assert(members.drop_last().first() == members.first());
        assert(members.drop_first().last() == members.last());
    }
}

/// A filter on names that admits a name does not change what is found under it.
proof fn filter_keeps_lookup(
    members: Members,
    keep: spec_fn((Seq<char>, Datum)) -> bool,
    name: Seq<char>,
)
    requires
        forall|m: (Seq<char>, Datum)| m.0 == name ==> #[trigger] keep(m),
    ensures
        json::lookup(members.filter(keep), name) == json::lookup(members, name),
    decreases members.len(),
{
    reveal(Seq::filter);
    if members.len() > 0 {
        filter_keeps_lookup(members.drop_last(), keep, name);
        lookup_by_last(members, name);
        let rest = members.drop_last().filter(keep);
        if keep(members.last()) {
            let after = rest.push(members.last());
            assert(after.drop_last() =~= rest);
            assert(after.last() == members.last());
            lookup_by_last(after, name);
        }
    }
}

/// Removing one member leaves every other as it was.
proof fn unset_keeps_others(members: Members, gone: Seq<char>, name: Seq<char>)
    requires
        name != gone,
    ensures
        json::lookup(json::unset(members, gone), name) == json::lookup(members, name),
{
    filter_keeps_lookup(members, json::other_than(gone), name);
}

/// A required view loses no attribute: what it leaves out is only a copy of the
/// record that its note still names, or a description that equals the summary.
pub proof fn required_views_lose_no_attribute(
    attributes: Members,
    legacy: Option<(Seq<char>, Datum)>,
    name: Seq<char>,
)
    ensures
        name != "legacy"@ && name != "description"@ ==> json::lookup(
            compact_attributes(attributes, legacy, true),
            name,
        ) == json::lookup(attributes, name),
        json::lookup(compact_attributes(attributes, legacy, true), "summary"@) == json::lookup(
            attributes,
            "summary"@,
        ),
        json::lookup(compact_attributes(attributes, legacy, true), "description"@)
            != json::lookup(attributes, "description"@) ==> repeats_summary(attributes),
        json::lookup(compact_attributes(attributes, legacy, true), "legacy"@) != json::lookup(
            attributes,
            "legacy"@,
        ) ==> repeats_legacy(attributes, legacy),
{
    reveal_strlit("legacy");
    reveal_strlit("description");
    reveal_strlit("summary");
    assert("legacy"@.len() != "description"@.len());
    assert("summary"@.len() != "description"@.len());
    assert("summary"@.len() != "legacy"@.len());
    let first = without_legacy(attributes, legacy);
    if name != "legacy"@ {
        unset_keeps_others(attributes, "legacy"@, name);
    }
    unset_keeps_others(attributes, "legacy"@, "summary"@);
    unset_keeps_others(attributes, "legacy"@, "description"@);
    if name != "description"@ {
        unset_keeps_others(first, "description"@, name);
    }
    unset_keeps_others(first, "description"@, "summary"@);
    unset_keeps_others(first, "description"@, "legacy"@);
}

/// A compact view still names the element that it is a view of, and carries a
/// note of everything that it leaves out.
pub proof fn compact_views_name_their_element(v: Datum, required: bool)
    requires
        v is Object,
        json::names_ordered(v->Object_0),
        omitted(v, required).len() > 0,
    ensures
        compact_element(v, required).at("id"@) == v.at("id"@),
        compact_element(v, required).at("recall_detail"@) == detail(v, required),
{
    reveal_strlit("id");
    reveal_strlit("facets");
    reveal_strlit("attributes");
    reveal_strlit("recall_detail");
    assert("id"@.len() == 2 && "facets"@.len() == 6 && "attributes"@.len() == 10
        && "recall_detail"@.len() == 13);
    let members = v->Object_0;
    let facets = match legacy_of(v) {
        Some(facet) => v.at("facets"@).without(facet.0),
        None => Datum::Null,
    };
    let first = match legacy_of(v) {
        Some(facet) => v.with("facets"@, facets),
        None => v,
    };
    json::set_is_read_back(members, "facets"@, facets, "id"@);
    let attributes = match v.at("attributes"@) {
        Datum::Object(own) => Datum::Object(compact_attributes(own, legacy_of(v), required)),
        _ => Datum::Null,
    };
    let second = match v.at("attributes"@) {
        Datum::Object(_) => first.with("attributes"@, attributes),
        _ => first,
    };
    json::set_is_read_back(first->Object_0, "attributes"@, attributes, "id"@);
    json::set_is_read_back(second->Object_0, "recall_detail"@, detail(v, required), "id"@);
}

/// A view that leaves nothing out is the value itself.
pub proof fn complete_views_are_the_value(v: Datum, required: bool)
    requires
        !leaves_out(v, required),
    ensures
        compacted(v, required) == v,
    decreases v,
{
    match v {
        Datum::Array(items) => {
            assert forall|i: int| 0 <= i < items.len() implies compacted(items[i], required)
                == items[i] by {
                complete_views_are_the_value(items[i], required);
            }
            assert(compacted(v, required)->Array_0 =~= items);
        },
        Datum::Object(members) => {
            if !is_native(v) {
                assert forall|i: int| 0 <= i < members.len() implies compacted(
                    members[i].1,
                    required,
                ) == members[i].1 by {
                    assert(decreases_to!(members => members[i]));
                    assert(decreases_to!(members[i] => members[i].1));
                    complete_views_are_the_value(members[i].1, required);
                }
                assert(compacted(v, required)->Object_0 =~= members);
            }
        },
        _ => {},
    }
}

/// A filter that leaves a member out is shorter.
proof fn filter_shortens(members: Members, keep: spec_fn((Seq<char>, Datum)) -> bool, i: int)
    requires
        0 <= i < members.len(),
        !keep(members[i]),
    ensures
        members.filter(keep).len() < members.len(),
    decreases members.len(),
{
    reveal(Seq::filter);
    if i == members.len() - 1 {
        filter_is_no_longer(members.drop_last(), keep);
    } else {
        filter_shortens(members.drop_last(), keep, i);
    }
}

proof fn filter_is_no_longer(members: Members, keep: spec_fn((Seq<char>, Datum)) -> bool)
    ensures
        members.filter(keep).len() <= members.len(),
    decreases members.len(),
{
    reveal(Seq::filter);
    if members.len() > 0 {
        filter_is_no_longer(members.drop_last(), keep);
    }
}

/// What a filter admits are members that it keeps.
proof fn filtered_members(members: Members, keep: spec_fn((Seq<char>, Datum)) -> bool)
    ensures
        forall|i: int| 0 <= i < members.filter(keep).len() ==> {
            &&& keep(#[trigger] members.filter(keep)[i])
            &&& members.contains(members.filter(keep)[i])
        },
    decreases members.len(),
{
    reveal(Seq::filter);
    if members.len() > 0 {
        let rest = members.drop_last();
        filtered_members(rest, keep);
        let after = members.filter(keep);
        assert forall|i: int| 0 <= i < after.len() implies keep(#[trigger] after[i])
            && members.contains(after[i]) by {
            if i < rest.filter(keep).len() {
                assert(after[i] == rest.filter(keep)[i]);
                let k = choose|k: int| 0 <= k < rest.len() && rest[k] == after[i];
                assert(members[k] == after[i]);
            } else {
                assert(members[members.len() - 1] == after[i]);
            }
        }
    }
}

/// Nothing is found under a name that no member has.
proof fn absent_is_not_found(members: Members, name: Seq<char>)
    requires
        forall|i: int| 0 <= i < members.len() ==> (#[trigger] members[i]).0 != name,
    ensures
        json::lookup(members, name) is None,
{
    json::lookup_is_a_member(members, name);
}

proof fn unset_is_not_found(members: Members, name: Seq<char>)
    ensures
        json::lookup(json::unset(members, name), name) is None,
{
    filtered_members(members, json::other_than(name));
    absent_is_not_found(json::unset(members, name), name);
}

/// The facet that is found stands among the facets.
proof fn first_legacy_is_a_facet(facets: Members)
    ensures
        match first_legacy(facets) {
            Some(f) => is_legacy_facet(f.0) && exists|i: int|
                0 <= i < facets.len() && #[trigger] facets[i] == f,
            None => forall|i: int|
                0 <= i < facets.len() ==> !is_legacy_facet((#[trigger] facets[i]).0),
        },
    decreases facets.len(),
{
    if facets.len() > 0 {
        if is_legacy_facet(facets.first().0) {
            assert(facets[0] == facets.first());
        } else {
            let rest = facets.drop_first();
            first_legacy_is_a_facet(rest);
            match first_legacy(rest) {
                Some(f) => {
                    let i = choose|i: int| 0 <= i < rest.len() && #[trigger] rest[i] == f;
                    assert(facets[i + 1] == f);
                },
                None => {
                    assert forall|i: int| 0 <= i < facets.len() implies !is_legacy_facet(
                        (#[trigger] facets[i]).0,
                    ) by {
                        if i > 0 {
                            assert(facets[i] == rest[i - 1]);
                        }
                    }
                },
            }
        }
    }
}

/// The names that a compact view of an element touches.
pub open spec fn is_touched(name: Seq<char>) -> bool {
    name == "facets"@ || name == "attributes"@ || name == "recall_detail"@
}

/// What a compact view holds of the facets.
spec fn left_facets(v: Datum) -> Datum {
    match legacy_of(v) {
        Some(facet) => v.at("facets"@).without(facet.0),
        None => v.at("facets"@),
    }
}

/// What a compact view holds of the attributes.
spec fn left_attributes(v: Datum, required: bool) -> Datum {
    match v.at("attributes"@) {
        Datum::Object(own) => Datum::Object(compact_attributes(own, legacy_of(v), required)),
        other => other,
    }
}

/// The parts of a compact view of an element.
proof fn parts_of_a_view(v: Datum, required: bool)
    requires
        v is Object,
        omitted(v, required).len() > 0,
    ensures
        compact_element(v, required) is Object,
        compact_element(v, required).at("facets"@) == left_facets(v),
        compact_element(v, required).at("attributes"@) == left_attributes(v, required),
        compact_element(v, required).get("recall_detail"@) == Some(detail(v, required)),
        forall|name: Seq<char>|
            !is_touched(name) ==> #[trigger] compact_element(v, required).get(name) == v.get(name),
{
    broadcast use json::with_is_read_back;

    reveal_strlit("facets");
    reveal_strlit("attributes");
    reveal_strlit("recall_detail");
    assert("facets"@.len() == 6 && "attributes"@.len() == 10 && "recall_detail"@.len() == 13);
    let first = match legacy_of(v) {
        Some(facet) => v.with("facets"@, v.at("facets"@).without(facet.0)),
        None => v,
    };
    let second = match v.at("attributes"@) {
        Datum::Object(attributes) => first.with(
            "attributes"@,
            Datum::Object(compact_attributes(attributes, legacy_of(v), required)),
        ),
        _ => first,
    };
    assert(first is Object);
    assert(second is Object);
    let after = second.with("recall_detail"@, detail(v, required));
    assert(compact_element(v, required) == after);
    assert(after.get("recall_detail"@) == Some(detail(v, required)));
    assert(after.get("facets"@) == second.get("facets"@));
    assert(second.get("facets"@) == first.get("facets"@));
    assert(after.get("attributes"@) == second.get("attributes"@));
    assert(first.get("attributes"@) == v.get("attributes"@));
    assert forall|name: Seq<char>| !is_touched(name) implies #[trigger] compact_element(
        v,
        required,
    ).get(name) == v.get(name) by {
        assert(after.get(name) == second.get(name));
        assert(second.get(name) == first.get(name));
        assert(first.get(name) == v.get(name));
    }
}

/// Only the attributes, the facets and the note of native elements change; every
/// other member of an element, every list, every other object and every plain
/// value keeps its shape.
pub proof fn compact_views_change_elements_alone(v: Datum, required: bool)
    ensures
        match v {
            Datum::Array(items) => compacted(v, required) matches Datum::Array(after)
                && after.len() == items.len() && forall|i: int|
                0 <= i < items.len() ==> #[trigger] after[i] == compacted(items[i], required),
            Datum::Object(members) => if is_native(v) {
                compacted(v, required) is Object && forall|name: Seq<char>|
                    !is_touched(name) ==> #[trigger] compacted(v, required).get(name) == v.get(name)
            } else {
                compacted(v, required) matches Datum::Object(after) && after.len()
                    == members.len() && forall|i: int|
                    0 <= i < members.len() ==> #[trigger] after[i] == (
                        members[i].0,
                        compacted(members[i].1, required),
                    )
            },
            _ => compacted(v, required) == v,
        },
{
    if v is Object && is_native(v) && omitted(v, required).len() > 0 {
        parts_of_a_view(v, required);
    }
}

/// The name under which a note tells that an attribute is left out.
pub open spec fn names_attribute(fields: Seq<Seq<char>>, name: Seq<char>) -> bool {
    fields.contains("attributes."@ + name) || (name == "description"@ && fields.contains(
        "attributes.description (same as summary)"@,
    ))
}

proof fn dropped_are_named(attributes: Members)
    ensures
        forall|i: int|
            0 <= i < attributes.len() && !is_kept((#[trigger] attributes[i]).0) ==> dropped(
                attributes,
            ).contains("attributes."@ + attributes[i].0),
    decreases attributes.len(),
{
    if attributes.len() > 0 {
        let rest = attributes.drop_last();
        dropped_are_named(rest);
        let after = dropped(attributes);
        assert forall|i: int|
            0 <= i < attributes.len() && !is_kept((#[trigger] attributes[i]).0) implies after.contains(
            "attributes."@ + attributes[i].0,
        ) by {
            let field = "attributes."@ + attributes[i].0;
            if i < rest.len() {
                assert(rest[i] == attributes[i]);
                let k = choose|k: int| 0 <= k < dropped(rest).len() && dropped(rest)[k] == field;
                assert(after[k] == field);
            } else {
                assert(after[after.len() - 1] == field);
            }
        }
    }
}

/// Every member of a list stands in a longer one that it is a part of.
proof fn part_is_contained(
    a: Seq<Seq<char>>,
    b: Seq<Seq<char>>,
    c: Seq<Seq<char>>,
    d: Seq<Seq<char>>,
    field: Seq<char>,
)
    requires
        a.contains(field) || b.contains(field) || c.contains(field) || d.contains(field),
    ensures
        (a + b + c + d).contains(field),
{
    let all = a + b + c + d;
    if a.contains(field) {
        let k = choose|k: int| 0 <= k < a.len() && a[k] == field;
        assert(all[k] == field);
    } else if b.contains(field) {
        let k = choose|k: int| 0 <= k < b.len() && b[k] == field;
        assert(all[a.len() + k] == field);
    } else if c.contains(field) {
        let k = choose|k: int| 0 <= k < c.len() && c[k] == field;
        assert(all[a.len() + b.len() + k] == field);
    } else {
        let k = choose|k: int| 0 <= k < d.len() && d[k] == field;
        assert(all[a.len() + b.len() + c.len() + k] == field);
    }
}

/// Everything that a compact view of an element leaves out is named in its note:
/// each facet and each attribute that no longer reads as it did.
pub proof fn omissions_are_named(v: Datum, required: bool, name: Seq<char>)
    requires
        v is Object,
        is_native(v),
    ensures
        leaves_out(v, required) ==> compacted(v, required).at("recall_detail"@).at(
            "omitted_fields"@,
        ) == json::text_list(omitted(v, required)),
        compacted(v, required).at("facets"@).get(name) != v.at("facets"@).get(name) ==> omitted(
            v,
            required,
        ).contains("facets."@ + name),
        compacted(v, required).at("attributes"@).get(name) != v.at("attributes"@).get(name)
            ==> names_attribute(omitted(v, required), name),
{
    let fields = omitted(v, required);
    if fields.len() > 0 {
        parts_of_a_view(v, required);
        note_names_fields(v, required);
        let legacy = legacy_of(v);
        let facet = match legacy {
            Some(f) => seq!["facets."@ + f.0],
            None => Seq::empty(),
        };
        match v.at("attributes"@) {
            Datum::Object(attributes) => {
                let first = without_legacy(attributes, legacy);
                let b = if repeats_legacy(attributes, legacy) {
                    seq!["attributes.legacy"@]
                } else {
                    Seq::empty()
                };
                let c = if repeats_summary(first) {
                    seq!["attributes.description (same as summary)"@]
                } else {
                    Seq::empty()
                };
                let whole = without_repetition(attributes, legacy);
                let d = if required {
                    Seq::empty()
                } else {
                    dropped(whole)
                };
                assert(fields == facet + b + c + d);
                if left_facets(v).get(name) != v.at("facets"@).get(name) {
                    facet_is_named(v, name);
                    part_is_contained(facet, b, c, d, "facets."@ + name);
                }
                if json::lookup(compact_attributes(attributes, legacy, required), name)
                    != json::lookup(attributes, name) {
                    attribute_is_named(attributes, legacy, required, name);
                    if b.contains("attributes."@ + name) || d.contains("attributes."@ + name) {
                        part_is_contained(facet, b, c, d, "attributes."@ + name);
                    } else {
                        part_is_contained(
                            facet,
                            b,
                            c,
                            d,
                            "attributes.description (same as summary)"@,
                        );
                    }
                }
            },
            _ => {
                if left_facets(v).get(name) != v.at("facets"@).get(name) {
                    facet_is_named(v, name);
                }
            },
        }
    }
}

proof fn note_names_fields(v: Datum, required: bool)
    ensures
        detail(v, required).get("omitted_fields"@) == Some(
            json::text_list(omitted(v, required)),
        ),
{
    broadcast use json::with_is_read_back;

    reveal_strlit("element");
    reveal_strlit("projection");
    reveal_strlit("omitted_fields");
    reveal_strlit("legacy_source");
    reveal_strlit("read_more");
    assert("element"@.len() == 7 && "projection"@.len() == 10 && "omitted_fields"@.len() == 14
        && "legacy_source"@.len() == 13 && "read_more"@.len() == 9);
}

proof fn facet_is_named(v: Datum, name: Seq<char>)
    requires
        left_facets(v).get(name) != v.at("facets"@).get(name),
    ensures
        legacy_of(v) matches Some(f) && seq!["facets."@ + f.0].contains("facets."@ + name),
{
    if let Some(f) = legacy_of(v) {
        if name != f.0 {
            unset_keeps_others(v.at("facets"@)->Object_0, f.0, name);
        }
        assert(seq!["facets."@ + f.0][0] == "facets."@ + name);
    }
}

proof fn attribute_is_named(
    attributes: Members,
    legacy: Option<(Seq<char>, Datum)>,
    required: bool,
    name: Seq<char>,
)
    requires
        json::lookup(compact_attributes(attributes, legacy, required), name) != json::lookup(
            attributes,
            name,
        ),
    ensures
        ({
            let first = without_legacy(attributes, legacy);
            ||| repeats_legacy(attributes, legacy) && seq!["attributes.legacy"@].contains(
                "attributes."@ + name,
            )
            ||| repeats_summary(first) && name == "description"@ && seq![
                "attributes.description (same as summary)"@,
            ].contains("attributes.description (same as summary)"@)
            ||| !required && dropped(without_repetition(attributes, legacy)).contains(
                "attributes."@ + name,
            )
        }),
{
    let first = without_legacy(attributes, legacy);
    let whole = without_repetition(attributes, legacy);
    if json::lookup(first, name) != json::lookup(attributes, name) {
        if name != "legacy"@ {
            unset_keeps_others(attributes, "legacy"@, name);
        }
        reveal_strlit("attributes.");
        reveal_strlit("legacy");
        reveal_strlit("attributes.legacy");
        assert("attributes.legacy"@ =~= "attributes."@ + name);
        assert(seq!["attributes.legacy"@][0] == "attributes."@ + name);
    } else if json::lookup(whole, name) != json::lookup(first, name) {
        if name != "description"@ {
            unset_keeps_others(first, "description"@, name);
        }
        assert(seq!["attributes.description (same as summary)"@][0]
            == "attributes.description (same as summary)"@);
    } else {
        let keep = |m: (Seq<char>, Datum)| is_kept(m.0);
        if is_kept(name) {
            filter_keeps_lookup(whole, keep, name);
        } else {
            filtered_members(whole, keep);
            absent_is_not_found(whole.filter(keep), name);
            json::lookup_is_a_member(whole, name);
            let value = json::lookup(whole, name)->0;
            let i = choose|i: int| 0 <= i < whole.len() && #[trigger] whole[i] == (name, value);
            dropped_are_named(whole);
            assert(!is_kept(whole[i].0));
        }
    }
}

/// An attribute view with fields left out is shorter.
proof fn omitted_attributes_shorten(
    attributes: Members,
    legacy: Option<(Seq<char>, Datum)>,
    required: bool,
)
    requires
        repeats_legacy(attributes, legacy) || repeats_summary(without_legacy(attributes, legacy))
            || (!required && dropped(without_repetition(attributes, legacy)).len() > 0),
    ensures
        compact_attributes(attributes, legacy, required).len() < attributes.len(),
{
    let first = without_legacy(attributes, legacy);
    let whole = without_repetition(attributes, legacy);
    let keep = |m: (Seq<char>, Datum)| is_kept(m.0);
    filter_is_no_longer(attributes, json::other_than("legacy"@));
    filter_is_no_longer(first, json::other_than("description"@));
    filter_is_no_longer(whole, keep);
    if repeats_legacy(attributes, legacy) {
        json::lookup_is_a_member(attributes, "legacy"@);
        let value = json::lookup(attributes, "legacy"@)->0;
        let i = choose|i: int|
            0 <= i < attributes.len() && #[trigger] attributes[i] == ("legacy"@, value);
        filter_shortens(attributes, json::other_than("legacy"@), i);
    } else if repeats_summary(first) {
        json::lookup_is_a_member(first, "description"@);
        let value = json::lookup(first, "description"@)->0;
        let i = choose|i: int| 0 <= i < first.len() && #[trigger] first[i] == (
            "description"@,
            value,
        );
        filter_shortens(first, json::other_than("description"@), i);
    } else {
        let i = a_dropped_member(whole);
        filter_shortens(whole, keep, i);
    }
}

proof fn a_dropped_member(attributes: Members) -> (i: int)
    requires
        dropped(attributes).len() > 0,
    ensures
        0 <= i < attributes.len(),
        !is_kept(attributes[i].0),
    decreases attributes.len(),
{
    if is_kept(attributes.last().0) {
        a_dropped_member(attributes.drop_last())
    } else {
        attributes.len() - 1
    }
}

proof fn elements_change(v: Datum, required: bool)
    requires
        v is Object,
        omitted(v, required).len() > 0,
    ensures
        compact_element(v, required) != v,
{
    parts_of_a_view(v, required);
    match legacy_of(v) {
        Some(facet) => {
            let facets = v.at("facets"@)->Object_0;
            first_legacy_is_a_facet(facets);
            let i = choose|i: int| 0 <= i < facets.len() && #[trigger] facets[i] == facet;
            filter_shortens(facets, json::other_than(facet.0), i);
            assert(left_facets(v) != v.at("facets"@));
        },
        None => {
            if let Datum::Object(attributes) = v.at("attributes"@) {
                omitted_attributes_shorten(attributes, None, required);
                assert(left_attributes(v, required) != v.at("attributes"@));
            }
        },
    }
}

/// A view is told to leave something out exactly where it differs from the value.
pub proof fn changes_are_told(v: Datum, required: bool)
    ensures
        leaves_out(v, required) <==> compacted(v, required) != v,
    decreases v,
{
    if !leaves_out(v, required) {
        complete_views_are_the_value(v, required);
    } else {
        match v {
            Datum::Array(items) => {
                let i = choose|i: int|
                    0 <= i < items.len() && leaves_out(#[trigger] items[i], required);
                changes_are_told(items[i], required);
                assert(compacted(v, required)->Array_0[i] == compacted(items[i], required));
            },
            Datum::Object(members) => {
                if is_native(v) {
                    elements_change(v, required);
                } else {
                    let i = choose|i: int|
                        0 <= i < members.len() && leaves_out((#[trigger] members[i]).1, required);
                    assert(decreases_to!(members => members[i]));
                    assert(decreases_to!(members[i] => members[i].1));
                    changes_are_told(members[i].1, required);
                    assert(compacted(v, required)->Object_0[i].1 == compacted(
                        members[i].1,
                        required,
                    ));
                }
            },
            _ => {},
        }
    }
}

/// Each native element has at most one record of an earlier store.
pub open spec fn one_record_each(v: Datum) -> bool
    decreases v,
{
    match v {
        Datum::Array(items) => forall|i: int|
            0 <= i < items.len() ==> one_record_each(#[trigger] items[i]),
        Datum::Object(members) => if is_native(v) {
            v.at("facets"@) matches Datum::Object(facets) ==> one_record(facets)
        } else {
            forall|i: int| 0 <= i < members.len() ==> one_record_each((#[trigger] members[i]).1)
        },
        _ => true,
    }
}

/// All facets that hold the record of an earlier store have one name.
pub open spec fn one_record(facets: Members) -> bool {
    forall|i: int, j: int|
        0 <= i < facets.len() && 0 <= j < facets.len() && is_legacy_facet(
            (#[trigger] facets[i]).0,
        ) && is_legacy_facet((#[trigger] facets[j]).0) ==> facets[i].0 == facets[j].0
}

/// The compact view of an element has nothing more to leave out.
proof fn element_views_are_complete(v: Datum, required: bool)
    requires
        v is Object,
        is_native(v),
        one_record_each(v),
    ensures
        is_native(compact_element(v, required)),
        omitted(compact_element(v, required), required).len() == 0,
{
    if omitted(v, required).len() > 0 {
        let w = compact_element(v, required);
        parts_of_a_view(v, required);
        reveal_strlit("id");
        reveal_strlit("kind");
        reveal_strlit("facets");
        reveal_strlit("attributes");
        reveal_strlit("recall_detail");
        assert(!is_touched("id"@)) by {
            assert("id"@.len() == 2);
        }
        assert(!is_touched("kind"@)) by {
            assert("kind"@.len() == 4);
        }
        assert(w.get("id"@) == v.get("id"@));
        assert(w.get("kind"@) == v.get("kind"@));
        if let Some(facet) = legacy_of(v) {
            let facets = v.at("facets"@)->Object_0;
            let left = json::unset(facets, facet.0);
            first_legacy_is_a_facet(facets);
            first_legacy_is_a_facet(left);
            filtered_members(facets, json::other_than(facet.0));
            if let Some(other) = first_legacy(left) {
                let i = choose|i: int| 0 <= i < left.len() && #[trigger] left[i] == other;
                assert(facets.contains(left[i]));
                let j = choose|j: int| 0 <= j < facets.len() && facets[j] == left[i];
                let k = choose|k: int| 0 <= k < facets.len() && #[trigger] facets[k] == facet;
                assert(facets[j].0 == facets[k].0);
            }
        }
        assert(legacy_of(w) is None);
        if let Datum::Object(attributes) = v.at("attributes"@) {
            attribute_views_are_complete(attributes, legacy_of(v), required);
        }
    }
}

proof fn attribute_views_are_complete(
    attributes: Members,
    legacy: Option<(Seq<char>, Datum)>,
    required: bool,
)
    ensures
        ({
            let after = compact_attributes(attributes, legacy, required);
            !repeats_summary(after) && without_repetition(after, None) == after && (required
                || dropped(after).len() == 0)
        }),
{
    let first = without_legacy(attributes, legacy);
    let whole = without_repetition(attributes, legacy);
    let after = compact_attributes(attributes, legacy, required);
    let keep = |m: (Seq<char>, Datum)| is_kept(m.0);
    reveal_strlit("summary");
    reveal_strlit("description");
    assert("summary"@.len() != "description"@.len());
    if repeats_summary(first) {
        unset_is_not_found(first, "description"@);
        unset_keeps_others(first, "description"@, "summary"@);
    }
    assert(!repeats_summary(whole));
    filter_keeps_lookup(whole, keep, "summary"@);
    filter_keeps_lookup(whole, keep, "description"@);
    assert(!repeats_summary(after));
    if !required {
        filtered_members(whole, keep);
        if dropped(after).len() > 0 {
            let i = a_dropped_member(after);
            assert(keep(whole.filter(keep)[i]));
        }
    }
}

/// What is found in a plain object is the view of what was.
proof fn plain_members_stay(members: Members, after: Members, required: bool, name: Seq<char>)
    requires
        after.len() == members.len(),
        forall|i: int|
            0 <= i < members.len() ==> #[trigger] after[i] == (
                members[i].0,
                compacted(members[i].1, required),
            ),
    ensures
        json::lookup(after, name) == match json::lookup(members, name) {
            Some(value) => Some(compacted(value, required)),
            None => None,
        },
    decreases members.len(),
{
    if members.len() > 0 {
        let rest = members.drop_first();
        let left = after.drop_first();
        assert forall|i: int| 0 <= i < rest.len() implies #[trigger] left[i] == (
            rest[i].0,
            compacted(rest[i].1, required),
        ) by {
            assert(left[i] == after[i + 1]);
            assert(rest[i] == members[i + 1]);
        }
        plain_members_stay(rest, left, required, name);
        assert(after[0].0 == members[0].0);
    }
}

/// The view of a value is a text exactly where the value is that text.
proof fn texts_stay(v: Datum, required: bool)
    ensures
        compacted(v, required).as_text() == v.as_text(),
{
    compact_views_change_elements_alone(v, required);
}

/// The compact view of a view is the view: where no element has two records of an
/// earlier store, nothing more is left out.
pub proof fn views_are_complete(v: Datum, required: bool)
    requires
        one_record_each(v),
    ensures
        !leaves_out(compacted(v, required), required),
        compacted(compacted(v, required), required) == compacted(v, required),
    decreases v,
{
    let w = compacted(v, required);
    match v {
        Datum::Array(items) => {
            assert forall|i: int| 0 <= i < w->Array_0.len() implies !leaves_out(
                #[trigger] w->Array_0[i],
                required,
            ) by {
                views_are_complete(items[i], required);
            }
        },
        Datum::Object(members) => {
            if is_native(v) {
                element_views_are_complete(v, required);
                if omitted(v, required).len() > 0 {
                    parts_of_a_view(v, required);
                }
            } else {
                compact_views_change_elements_alone(v, required);
                plain_members_stay(members, w->Object_0, required, "id"@);
                plain_members_stay(members, w->Object_0, required, "kind"@);
                if let Some(id) = v.get("id"@) {
                    texts_stay(id, required);
                }
                if let Some(kind) = v.get("kind"@) {
                    texts_stay(kind, required);
                }
                assert(w.text_at("id"@) == v.text_at("id"@));
                assert(w.text_at("kind"@) == v.text_at("kind"@));
                assert forall|i: int| 0 <= i < w->Object_0.len() implies !leaves_out(
                    (#[trigger] w->Object_0[i]).1,
                    required,
                ) by {
                    assert(decreases_to!(members => members[i]));
                    assert(decreases_to!(members[i] => members[i].1));
                    views_are_complete(members[i].1, required);
                }
            }
        },
        _ => {},
    }
    complete_views_are_the_value(w, required);
}

/// Nothing is found under a name that a filter refuses.
proof fn filter_drops_lookup(
    members: Members,
    keep: spec_fn((Seq<char>, Datum)) -> bool,
    name: Seq<char>,
)
    requires
        forall|m: (Seq<char>, Datum)| m.0 == name ==> !#[trigger] keep(m),
    ensures
        json::lookup(members.filter(keep), name) is None,
    decreases members.len(),
{
    reveal(Seq::filter);
    if members.len() > 0 {
        filter_drops_lookup(members.drop_last(), keep, name);
        let rest = members.drop_last().filter(keep);
        if keep(members.last()) {
            let after = rest.push(members.last());
            assert(after.drop_last() =~= rest);
            assert(after.last() == members.last());
            lookup_by_last(after, name);
        }
    }
}

/// One of the attributes that even an optional view keeps: what it is about, how it
/// stands, and when.
pub open spec fn is_essential(name: Seq<char>) -> bool {
    ||| name == "summary"@ || name == "description"@ || name == "display_name"@
    ||| name == "status"@ || name == "outcome"@
    ||| name == "started_at"@ || name == "ended_at"@ || name == "due_at"@
    ||| name == "completed_at"@ || name == "observed_at"@ || name == "last_observed"@
}

/// The value is an element of its kind, with an identity.
pub open spec fn is_element(v: Datum) -> bool {
    &&& v is Object
    &&& v.at("id"@) is Text
    &&& v.at("kind"@) is Text
    &&& ({
        let kind = v.at("kind"@)->Text_0;
        kind == "concept"@ || kind == "proposition"@ || kind == "assertion"@ || kind
            == "evidence"@ || kind == "activity"@
    })
}

proof fn attributes_are_kept(
    attributes: Members,
    legacy: Option<(Seq<char>, Datum)>,
    required: bool,
    name: Seq<char>,
)
    ensures
        ({
            let after = json::lookup(compact_attributes(attributes, legacy, required), name);
            let before = json::lookup(attributes, name);
            &&& after is Some ==> after == before
            &&& (required || is_essential(name)) && name != "legacy"@ && name != "description"@
                ==> after == before
            &&& !required && !is_essential(name) ==> after is None
            &&& name == "description"@ && after != before ==> json::lookup(
                attributes,
                "summary"@,
            ) is Some && before is Some && json::alike(
                json::lookup(attributes, "summary"@)->0,
                before->0,
            )
            &&& required && name == "legacy"@ && after != before ==> legacy is Some && before
                is Some && json::alike(before->0, legacy_attribute(legacy->0))
        }),
{
    reveal_strlit("legacy");
    reveal_strlit("description");
    reveal_strlit("summary");
    assert("legacy"@.len() == 6 && "description"@.len() == 11 && "summary"@.len() == 7);
    let whole = without_repetition(attributes, legacy);
    let keep = |m: (Seq<char>, Datum)| is_kept(m.0);
    if is_kept(name) {
        filter_keeps_lookup(whole, keep, name);
    } else {
        filter_drops_lookup(whole, keep, name);
    }
    assert(compact_attributes(attributes, legacy, true) == whole);
    assert(compact_attributes(attributes, legacy, false) == whole.filter(keep));
    let first = without_legacy(attributes, legacy);
    unset_keeps_others(attributes, "legacy"@, "description"@);
    unset_keeps_others(attributes, "legacy"@, "summary"@);
    assert(json::lookup(first, "description"@) == json::lookup(attributes, "description"@));
    assert(json::lookup(first, "summary"@) == json::lookup(attributes, "summary"@));
    let before = json::lookup(attributes, name);
    let own = json::lookup(first, name);
    let after = json::lookup(whole, name);
    if name == "legacy"@ {
        filter_drops_lookup(attributes, json::other_than("legacy"@), "legacy"@);
        assert(own is Some ==> own == before);
    } else {
        unset_keeps_others(attributes, "legacy"@, name);
        assert(own == before);
    }
    if name == "description"@ {
        filter_drops_lookup(first, json::other_than("description"@), "description"@);
    } else {
        unset_keeps_others(first, "description"@, name);
        assert(after == own);
    }
    assert(!is_kept("legacy"@)) by {
        reveal_strlit("display_name");
        reveal_strlit("status");
        reveal_strlit("started_at");
        reveal_strlit("ended_at");
        reveal_strlit("due_at");
        reveal_strlit("completed_at");
        reveal_strlit("observed_at");
        reveal_strlit("last_observed");
        reveal_strlit("outcome");
        assert("status"@.len() == 6 && "due_at"@.len() == 6);
        assert("status"@[0] == 's' && "due_at"@[0] == 'd' && "legacy"@[0] == 'l');
    }
}

/// What the view of an element holds of its attributes: none is changed. A required view
/// leaves out only a description that repeats the summary and the attribute that repeats
/// the record of an earlier store; an optional one also whatever is not essential.
pub proof fn views_keep_attributes(v: Datum, required: bool, name: Seq<char>)
    requires
        is_element(v),
        v.at("attributes"@) is Object,
    ensures
        ({
            let after = compacted(v, required).at("attributes"@).get(name);
            let before = v.at("attributes"@).get(name);
            &&& compacted(v, required).at("attributes"@) is Object
            &&& after is Some ==> after == before
            &&& (required || is_essential(name)) && name != "legacy"@ && name != "description"@
                ==> after == before
            &&& !required && !is_essential(name) ==> after is None
            &&& name == "description"@ && after != before ==> v.at("attributes"@).get(
                "summary"@,
            ) is Some && before is Some && json::alike(
                v.at("attributes"@).get("summary"@)->0,
                before->0,
            )
        }),
{
    let attributes = v.at("attributes"@)->Object_0;
    attributes_are_kept(attributes, legacy_of(v), required, name);
    if omitted(v, required).len() > 0 {
        parts_of_a_view(v, required);
    } else {
        let whole = without_repetition(attributes, legacy_of(v));
        dropped_are_named(whole);
        if !required {
            assert(dropped(whole).len() == 0);
            if let Some(own) = json::lookup(attributes, name) {
                json::lookup_is_a_member(attributes, name);
                if !is_kept(name) {
                    let k = choose|k: int|
                        0 <= k < whole.len() && #[trigger] whole[k] == (name, own);
                    assert(json::lookup(whole, name) == json::lookup(attributes, name)) by {
                        assert(!repeats_legacy(attributes, legacy_of(v)));
                        assert(!repeats_summary(attributes));
                    }
                    json::lookup_is_a_member(whole, name);
                    assert(dropped(whole).contains("attributes."@ + whole[k].0));
                }
            }
        }
    }
}

/// The note on an element tells where its earlier record came from.
pub proof fn provenance_reads_back(facet: (Seq<char>, Datum))
    ensures
        ({
            let v = provenance(facet);
            let record = facet.1.at("record"@);
            &&& v.at("facet"@) == Datum::Text(facet.0)
            &&& v.at("legacy_id"@) == record.at("_id"@)
            &&& v.at("legacy_type"@) == record.at("type"@)
            &&& v.at("legacy_status"@) == record.at("attributes"@).at("status"@)
            &&& v.at("metadata"@) == record.at("metadata"@)
        }),
{
    broadcast use json::with_is_read_back;

    reveal_strlit("facet");
    reveal_strlit("legacy_id");
    reveal_strlit("legacy_type");
    reveal_strlit("legacy_status");
    reveal_strlit("metadata");
    assert("facet"@.len() == 5 && "legacy_id"@.len() == 9 && "legacy_type"@.len() == 11 && "legacy_status"@.len() == 13);
    assert("metadata"@.len() == 8);
    let v = provenance(facet);
    assert(v.get("facet"@) is Some);
    assert(v.get("legacy_id"@) is Some);
    assert(v.get("legacy_type"@) is Some);
    assert(v.get("legacy_status"@) is Some);
    assert(v.get("metadata"@) is Some);
}

/// An earlier record is kept under the profile of its own.
pub proof fn earlier_records_are_known_by_their_name(name: Seq<char>)
    ensures
        is_legacy_facet(name) ==> name.len() >= "kip://legacy/nexus@"@.len() && name.take(
            "kip://legacy/nexus@"@.len() as int,
        ) == "kip://legacy/nexus@"@ && name.skip(name.len() - "/LegacyRecord"@.len())
            == "/LegacyRecord"@,
{
    if is_legacy_facet(name) {
        let head = "kip://legacy/nexus@"@;
        let tail = "/LegacyRecord"@;
        assert(name.take(head.len() as int) =~= name.subrange(0, head.len() as int));
        assert(name.skip(name.len() - tail.len()) =~= name.subrange(
            name.len() - tail.len(),
            name.len() as int,
        ));
    }
}

} // verus!
