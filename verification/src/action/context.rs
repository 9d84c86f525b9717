//! The bounded context that a gate decides on, and its check right before an
//! action.

use vstd::prelude::*;

use super::request::ContextRequest;
use super::ActionError;
use crate::json::{Datum, Json};
use crate::nexus::{self, digest_valid, element_id_valid};
use crate::recall::material::PROFILE;
use crate::recall::{Channel, Item, MemoryItem, Priority};
use crate::text;
use crate::wake::WakeRecord;

verus! {

// ---------------------------------------------------------------------------
// Native reads
// ---------------------------------------------------------------------------

/// The most bytes that one action read returns.
pub const MAX_READ_BYTES: usize = 262_144;

/// The most commitments that constrain one action.
pub const MAX_COMMITMENTS: usize = 32;

/// A read counts only if its page is complete and within the byte budget.
pub fn check_read(result: &Json, more: bool) -> (r: Result<(), ActionError>)
    ensures
        r == if more {
            Err::<(), ActionError>(ActionError::IncompletePage)
        } else if text::utf8_len(result@.written()) > MAX_READ_BYTES {
            Err::<(), ActionError>(ActionError::ByteBudget)
        } else {
            Ok::<(), ActionError>(())
        },
{
    if more {
        return Err(ActionError::IncompletePage);
    }
    let written = result.to_text();
    if text::byte_len(written.as_str()) > MAX_READ_BYTES {
        return Err(ActionError::ByteBudget);
    }
    Ok(())
}

/// What a read is bound to, where it is bound.
pub open spec fn coordinate(seq: Option<u64>) -> Seq<char> {
    match seq {
        Some(n) => " AS OF SEQ "@ + text::decimal(n as nat),
        None => Seq::empty(),
    }
}

fn append_coordinate(out: &mut String, seq: Option<u64>)
    ensures
        final(out)@ == old(out)@ + coordinate(seq),
{
    let ghost before = out@;
    match seq {
        Some(n) => {
            out.append(" AS OF SEQ ");
            out.append(text::decimal_text(n).as_str());
            assert(out@ =~= before + coordinate(seq));
        },
        None => {
            assert(out@ =~= before + coordinate(seq));
        },
    }
}

/// The pattern that finds an element by its identity.
pub open spec fn element_pattern(tag: char) -> Seq<char> {
    if tag == 'C' {
        "CONCEPT {id: :id}"@
    } else if tag == 'P' {
        "PROPOSITION(id: :id)"@
    } else if tag == 'A' {
        "ASSERTION {id: :id}"@
    } else if tag == 'E' {
        "EVIDENCE {id: :id}"@
    } else {
        "ACTIVITY {id: :id}"@
    }
}

pub open spec fn element_query_of(id: Seq<char>, seq: Option<u64>) -> Seq<char> {
    "FIND(?e) WHERE {?e "@ + element_pattern(id[0]) + "}"@ + coordinate(seq) + " LIMIT 1"@
}

/// The query that reads one element.
pub fn element_query(id: &str, seq: Option<u64>) -> (r: Result<String, ActionError>)
    ensures
        match r {
            Ok(query) => nexus::is_element(id@) && query@ == element_query_of(id@, seq),
            Err(e) => !nexus::is_element(id@) && e == ActionError::InvalidReferenceIdentity,
        },
{
    if !element_id_valid(id) {
        return Err(ActionError::InvalidReferenceIdentity);
    }
    let tag = id.get_char(0);
    let pattern = if tag == 'C' {
        "CONCEPT {id: :id}"
    } else if tag == 'P' {
        "PROPOSITION(id: :id)"
    } else if tag == 'A' {
        "ASSERTION {id: :id}"
    } else if tag == 'E' {
        "EVIDENCE {id: :id}"
    } else {
        "ACTIVITY {id: :id}"
    };
    let mut out = "FIND(?e) WHERE {?e ".to_owned();
    out.append(pattern);
    out.append("}");
    append_coordinate(&mut out, seq);
    out.append(" LIMIT 1");
    Ok(out)
}

/// The element that a read returned: it must be the one asked for, with its
/// version.
pub open spec fn element_of(rows: Datum, id: Seq<char>) -> Result<(Datum, u64), ActionError> {
    match rows {
        Datum::Array(list) => if list.len() == 0 {
            Err(ActionError::ReferenceUnavailable)
        } else if list[0].at("id"@) != Datum::Text(id) {
            Err(ActionError::ReferenceUnreadable)
        } else {
            match list[0].at("_system"@).at("version"@).as_u64() {
                Some(version) => Ok((list[0], version)),
                None => Err(ActionError::ReferenceUnreadable),
            }
        },
        _ => Err(ActionError::ReferenceUnavailable),
    }
}

/// The version that an element carries.
fn version_of(row: &Json) -> (r: Option<u64>)
    ensures
        r == row@.at("_system"@).at("version"@).as_u64(),
{
    match row.get("_system") {
        Some(system) => system.u64_at("version"),
        None => None,
    }
}

pub fn read_element(rows: &Json, id: &str) -> (r: Result<(Json, u64), ActionError>)
    ensures
        match (r, element_of(rows@, id@)) {
            (Ok((row, version)), Ok((v, n))) => row@ == v && version == n,
            (Err(e), Err(f)) => e == f,
            _ => false,
        },
{
    match rows.as_array() {
        Some(list) => {
            if list.len() == 0 {
                return Err(ActionError::ReferenceUnavailable);
            }
            assert(crate::json::items_view(list@)[0] == list@[0]@);
            if !list[0].member_is("id", id) {
                return Err(ActionError::ReferenceUnreadable);
            }
            match version_of(&list[0]) {
                Some(version) => Ok((list[0].copy(), version)),
                None => Err(ActionError::ReferenceUnreadable),
            }
        },
        None => Err(ActionError::ReferenceUnavailable),
    }
}

pub open spec fn belief_query_of(seq: Option<u64>) -> Seq<char> {
    "FIND(?b) WHERE {?p PROPOSITION(id: :id) ?b BELIEF(?p)}"@ + coordinate(seq) + " LIMIT 1"@
}

/// The query that reads the projection of a Proposition.
pub fn belief_query(id: &str, seq: Option<u64>) -> (r: Result<String, ActionError>)
    ensures
        match r {
            Ok(query) => text::is_prefix("P-"@, id@) && query@ == belief_query_of(seq),
            Err(e) => !text::is_prefix("P-"@, id@) && e == ActionError::BeliefNeedsProposition,
        },
{
    if !text::starts_with(id, "P-") {
        return Err(ActionError::BeliefNeedsProposition);
    }
    let mut out = "FIND(?b) WHERE {?p PROPOSITION(id: :id) ?b BELIEF(?p)}".to_owned();
    append_coordinate(&mut out, seq);
    out.append(" LIMIT 1");
    Ok(out)
}

pub fn read_belief(rows: &Json) -> (r: Result<Json, ActionError>)
    ensures
        match r {
            Ok(belief) => rows@ matches Datum::Array(list) && list.len() > 0 && belief@ == list[0],
            Err(e) => e == ActionError::BeliefUnavailable && !(rows@ matches Datum::Array(list)
                && list.len() > 0),
        },
{
    match rows.as_array() {
        Some(list) => if list.len() > 0 {
            assert(crate::json::items_view(list@)[0] == list@[0]@);
            Ok(list[0].copy())
        } else {
            Err(ActionError::BeliefUnavailable)
        },
        None => Err(ActionError::BeliefUnavailable),
    }
}

/// The query that reads the commitments: one more than may constrain an action,
/// so that a full page is seen.
pub open spec fn commitment_query_of(seq: u64) -> Seq<char> {
    "FIND(?c) WHERE {?c CONCEPT {type:\"Commitment\"}}"@ + coordinate(Some(seq)) + " LIMIT 33"@
}

pub fn commitment_query(seq: u64) -> (r: String)
    ensures
        r@ == commitment_query_of(seq),
{
    let mut out = "FIND(?c) WHERE {?c CONCEPT {type:\"Commitment\"}}".to_owned();
    append_coordinate(&mut out, Some(seq));
    out.append(" LIMIT 33");
    out
}

// ---------------------------------------------------------------------------
// The request
// ---------------------------------------------------------------------------

/// The most premises of one action, and the most tools.
pub const MAX_PREMISES: usize = 16;

impl ContextRequest {
    /// Every part of the request is bounded.
    pub open spec fn bounded(self) -> bool {
        &&& self.required_refs@.len() <= 32
        &&& self.premises@.len() <= MAX_PREMISES
        &&& self.applied_revisions@.len() <= 8
        &&& self.task_family@.len() > 0
        &&& text::utf8_len(self.task_family@) <= 256
        &&& nexus::is_digest(self.environment_digest@)
        &&& self.tool_versions@.len() <= MAX_PREMISES
        &&& forall|i: int|
            0 <= i < self.tool_versions@.len() ==> bounded_tool(#[trigger] self.tool_versions@[i])
        &&& self.deduplication_key matches Some(k) ==> k@.len() > 0 && text::utf8_len(k@) <= 256
    }
}

pub open spec fn bounded_tool(t: super::request::ToolVersion) -> bool {
    &&& t.tool@.len() > 0
    &&& text::utf8_len(t.tool@) <= 128
    &&& t.version@.len() > 0
    &&& text::utf8_len(t.version@) <= 256
}

pub fn check_context(request: &ContextRequest) -> (r: Result<(), ActionError>)
    ensures
        r == if request.bounded() {
            Ok::<(), ActionError>(())
        } else {
            Err::<(), ActionError>(ActionError::InvalidContext)
        },
{
    if request.required_refs.len() > 32 || request.premises.len() > MAX_PREMISES
        || request.applied_revisions.len() > 8 || request.task_family.as_str().unicode_len() == 0
        || text::byte_len(request.task_family.as_str()) > 256 || !digest_valid(
        request.environment_digest.as_str(),
    ) || request.tool_versions.len() > MAX_PREMISES {
        return Err(ActionError::InvalidContext);
    }
    if let Some(k) = &request.deduplication_key {
        if k.as_str().unicode_len() == 0 || text::byte_len(k.as_str()) > 256 {
            return Err(ActionError::InvalidContext);
        }
    }
    let mut i: usize = 0;
    while i < request.tool_versions.len()
        invariant
            i <= request.tool_versions.len(),
            forall|k: int| 0 <= k < i ==> bounded_tool(#[trigger] request.tool_versions@[k]),
        decreases request.tool_versions.len() - i,
    {
        let t = &request.tool_versions[i];
        if t.tool.as_str().unicode_len() == 0 || text::byte_len(t.tool.as_str()) > 128
            || t.version.as_str().unicode_len() == 0 || text::byte_len(t.version.as_str()) > 256 {
            assert(!bounded_tool(request.tool_versions@[i as int]));
            return Err(ActionError::InvalidContext);
        }
        i = i + 1;
    }
    Ok(())
}

/// The basis of the anchor's projection and the sequence that every read is
/// bound to.
pub fn anchor_basis(anchor: &Json) -> (r: Result<(Json, u64), ActionError>)
    ensures
        match (r, anchor@.at("basis"@).at("snapshot_seq"@).as_u64()) {
            (Ok((basis, seq)), Some(n)) => basis@ == anchor@.at("basis"@) && seq == n,
            (Err(e), None) => e == ActionError::BasisSequenceMissing,
            _ => false,
        },
{
    let basis = anchor.copy_at("basis");
    match basis.u64_at("snapshot_seq") {
        Some(seq) => Ok((basis, seq)),
        None => Err(ActionError::BasisSequenceMissing),
    }
}

// ---------------------------------------------------------------------------
// The references
// ---------------------------------------------------------------------------

/// The identities of the commitments that constrain an action.
pub open spec fn commitment_ids(rows: Seq<Datum>) -> Seq<Seq<char>> {
    constraining(rows).map_values(|row: Datum| row.at("id"@)->Text_0)
}

pub open spec fn constraining(rows: Seq<Datum>) -> Seq<Datum> {
    if rows.len() <= MAX_COMMITMENTS {
        rows
    } else {
        rows.take(MAX_COMMITMENTS as int)
    }
}

/// Every commitment that constrains an action has an identity.
pub open spec fn commitments_named(rows: Seq<Datum>) -> bool {
    forall|i: int|
        0 <= i < constraining(rows).len() ==> (#[trigger] constraining(rows)[i]).at("id"@) is Text
}

/// Everything that is read for a request: what it requires, its premises and
/// revisions, its anchor, the wake's own watch and fire, and the commitments.
pub open spec fn context_refs(
    request: ContextRequest,
    wake: WakeRecord,
    commitments: Seq<Datum>,
) -> Seq<Seq<char>> {
    let asked = text::gathered(
        text::gathered(
            text::gathered(Seq::empty(), text::views(request.required_refs@)),
            text::views(request.premises@),
        ),
        text::views(request.applied_revisions@),
    );
    let own = text::inserted(
        text::inserted(text::inserted(asked, request.anchor@), wake.watch_ref@),
        wake.fire_activity_ref@,
    );
    text::gathered(own, commitment_ids(commitments))
}

pub const COVERAGE_INCOMPLETE: &'static str = "constraint_coverage_incomplete";

/// What has to be read, and whether a commitment may have been left out. A full
/// page of commitments is never taken for all of them.
pub fn plan_reads(request: &ContextRequest, wake: &WakeRecord, commitments: &Json) -> (r: Result<
    (Vec<String>, Option<String>),
    ActionError,
>)
    ensures
        match (r, commitments@) {
            (Ok((refs, problem)), Datum::Array(rows)) => {
                &&& commitments_named(rows)
                &&& text::views(refs@) == context_refs(*request, *wake, rows)
                &&& text::is_sorted_set(text::views(refs@))
                &&& forall|x: Seq<char>|
                    #![trigger text::views(refs@).contains(x)]
                    text::views(request.required_refs@).contains(x) || text::views(
                        request.premises@,
                    ).contains(x) || text::views(request.applied_revisions@).contains(x) || x
                        == request.anchor@ || x == wake.watch_ref@ || x == wake.fire_activity_ref@
                        || commitment_ids(rows).contains(x) <==> text::views(refs@).contains(x)
                &&& match problem {
                    Some(p) => rows.len() > MAX_COMMITMENTS && p@ == COVERAGE_INCOMPLETE@,
                    None => rows.len() <= MAX_COMMITMENTS,
                }
            },
            (Err(e), Datum::Array(rows)) => !commitments_named(rows) && e
                == ActionError::CommitmentReferenceMissing,
            (Err(e), _) => e == ActionError::InvalidCommitmentPage,
            _ => false,
        },
{
    let rows = match commitments.as_array() {
        Some(rows) => rows,
        None => return Err(ActionError::InvalidCommitmentPage),
    };
    let ghost all = crate::json::items_view(rows@);
    let ghost page = constraining(all);
    let mut names: Vec<String> = Vec::new();
    let mut i: usize = 0;
    while i < rows.len() && i < MAX_COMMITMENTS
        invariant
            i <= rows.len(),
            i <= MAX_COMMITMENTS,
            all == crate::json::items_view(rows@),
            commitments@ == Datum::Array(all),
            page == constraining(all),
            names.len() == i,
            forall|k: int|
                0 <= k < i ==> (#[trigger] page[k]).at("id"@) == Datum::Text(names@[k]@),
        decreases rows.len() - i,
    {
        assert(page[i as int] == all[i as int]);
        assert(all[i as int] == rows@[i as int]@);
        match rows[i].text_at("id") {
            Some(id) => names.push(id.to_owned()),
            None => {
                assert(!(page[i as int].at("id"@) is Text));
                return Err(ActionError::CommitmentReferenceMissing);
            },
        }
        i = i + 1;
    }
    assert(page.len() == i);
    assert(text::views(names@) =~= commitment_ids(all));
    let problem = if rows.len() > MAX_COMMITMENTS {
        Some(COVERAGE_INCOMPLETE.to_owned())
    } else {
        None
    };
    let mut refs: Vec<String> = Vec::new();
    assert(text::views(refs@) =~= Seq::empty());
    text::insert_all(&mut refs, &request.required_refs);
    text::insert_all(&mut refs, &request.premises);
    text::insert_all(&mut refs, &request.applied_revisions);
    let _a = text::insert_sorted(&mut refs, request.anchor.as_str());
    let _w = text::insert_sorted(&mut refs, wake.watch_ref.as_str());
    let _f = text::insert_sorted(&mut refs, wake.fire_activity_ref.as_str());
    text::insert_all(&mut refs, &names);
    Ok((refs, problem))
}

/// Where the projection of a reference comes from.
#[derive(Clone, Copy, Debug, PartialEq, Eq, Structural)]
pub enum ProjectionSource {
    Anchor,
    Native,
    Absent,
}

/// Only Propositions have a projection; the anchor's was read first.
pub fn projection_source(id: &str, anchor: &str) -> (r: ProjectionSource)
    ensures
        r == if id@ == anchor@ {
            ProjectionSource::Anchor
        } else if text::is_prefix("P-"@, id@) {
            ProjectionSource::Native
        } else {
            ProjectionSource::Absent
        },
{
    if text::same(id, anchor) {
        ProjectionSource::Anchor
    } else if text::starts_with(id, "P-") {
        ProjectionSource::Native
    } else {
        ProjectionSource::Absent
    }
}

// ---------------------------------------------------------------------------
// What was read
// ---------------------------------------------------------------------------

/// One reference as it was read.
#[derive(Debug)]
pub struct ContextRow {
    pub row: Json,
    pub version: u64,
    pub belief: Option<Json>,
}

/// The version of an element that a decision rests on.
#[derive(Debug)]
pub struct VersionPin {
    pub id: String,
    pub version: u64,
}

impl VersionPin {
    pub open spec fn value(self) -> Datum {
        Datum::empty().with("id"@, Datum::Text(self.id@)).with(
            "version"@,
            Datum::Unsigned(self.version),
        )
    }

    pub fn to_json(&self) -> (r: Json)
        ensures
            r@ == self.value(),
    {
        Json::object().with("id", Json::text(self.id.as_str())).with(
            "version",
            Json::unsigned(self.version),
        )
    }
}

pub open spec fn pin_views(pins: Seq<VersionPin>) -> Seq<(Seq<char>, u64)> {
    pins.map_values(|p: VersionPin| (p.id@, p.version))
}

/// The element says that what it depends on allows action.
pub open spec fn eligible(row: Datum) -> bool {
    row.at("_system"@).at("dependency_validity"@).at("action_eligible"@) == Datum::Bool(true)
}

fn is_eligible(row: &Json) -> (r: bool)
    ensures
        r == eligible(row@),
{
    match row.get("_system") {
        Some(system) => match system.get("dependency_validity") {
            Some(validity) => match validity.get("action_eligible") {
                Some(flag) => flag.is_true(),
                None => false,
            },
            None => false,
        },
        None => false,
    }
}

fn has_validity(row: &Json) -> (r: bool)
    ensures
        r == (row@.at("_system"@).at("dependency_validity"@) is Object),
{
    match row.get("_system") {
        Some(system) => match system.get("dependency_validity") {
            Some(validity) => validity.is_object(),
            None => false,
        },
        None => false,
    }
}

/// The element is a revision for the task of the request, and may be applied.
pub open spec fn applicable(row: Datum, task_family: Seq<char>) -> bool {
    &&& row.at("schema_ref"@) == Datum::Text(PROFILE@ + "SkillRevision"@)
    &&& row.at("attributes"@).at("task_family"@) == Datum::Text(task_family)
    &&& eligible(row)
}

fn is_applicable(row: &Json, task_family: &str) -> (r: bool)
    ensures
        r == applicable(row@, task_family@),
{
    let mut revision = PROFILE.to_owned();
    revision.append("SkillRevision");
    let family = match row.get("attributes") {
        Some(attributes) => attributes.member_is("task_family", task_family),
        None => false,
    };
    row.member_is("schema_ref", revision.as_str()) && family && is_eligible(row)
}

pub const DEPENDENCY_UNVERIFIED: &'static str = "dependency_unverified";

pub const REVISION_UNVERIFIED: &'static str = "revision_unverified";

pub const PREMISE_UNKNOWN: &'static str = "premise_unknown_or_not_accepted";

pub const CONTEXT_TOO_LARGE: &'static str = "required_context_does_not_fit";

pub open spec fn belief_of(row: ContextRow) -> Datum {
    match row.belief {
        Some(b) => b@,
        None => Datum::Null,
    }
}

/// What keeps one reference from carrying an action.
pub open spec fn row_problem(request: ContextRequest, id: Seq<char>, row: ContextRow) -> Option<
    Seq<char>,
> {
    if row.row@.at("_system"@).at("dependency_validity"@) is Object && !eligible(row.row@) {
        Some(DEPENDENCY_UNVERIFIED@)
    } else if text::views(request.applied_revisions@).contains(id) && !applicable(
        row.row@,
        request.task_family@,
    ) {
        Some(REVISION_UNVERIFIED@)
    } else if text::views(request.premises@).contains(id) && belief_of(row).at("status"@)
        != Datum::Text("accepted"@) {
        Some(PREMISE_UNKNOWN@)
    } else {
        None
    }
}

fn find_problem(request: &ContextRequest, id: &str, row: &ContextRow) -> (r: Option<&'static str>)
    ensures
        match r {
            Some(p) => row_problem(*request, id@, *row) == Some(p@),
            None => row_problem(*request, id@, *row) is None,
        },
{
    if has_validity(&row.row) && !is_eligible(&row.row) {
        return Some(DEPENDENCY_UNVERIFIED);
    }
    if text::contains(&request.applied_revisions, id) && !is_applicable(
        &row.row,
        request.task_family.as_str(),
    ) {
        return Some(REVISION_UNVERIFIED);
    }
    let accepted = match &row.belief {
        Some(b) => b.member_is("status", "accepted"),
        None => false,
    };
    if text::contains(&request.premises, id) && !accepted {
        return Some(PREMISE_UNKNOWN);
    }
    None
}

/// The first of two problems.
pub open spec fn first_problem(a: Option<Seq<char>>, b: Option<Seq<char>>) -> Option<Seq<char>> {
    match a {
        Some(p) => Some(p),
        None => b,
    }
}

/// The first problem among the references.
pub open spec fn rows_problem(
    request: ContextRequest,
    refs: Seq<Seq<char>>,
    rows: Seq<ContextRow>,
    before: Option<Seq<char>>,
) -> Option<Seq<char>>
    decreases rows.len(),
{
    if rows.len() == 0 || refs.len() == 0 {
        before
    } else {
        first_problem(
            rows_problem(request, refs.drop_last(), rows.drop_last(), before),
            row_problem(request, refs.last(), rows.last()),
        )
    }
}

/// The required item of one reference: the element, and its whole projection
/// where it has one. A projection is never replaced by a truth value.
pub open spec fn context_item(id: Seq<char>, row: ContextRow) -> Item {
    Item {
        id,
        channel: Channel::Kip,
        priority: Priority::Required,
        content: Datum::empty().with("element"@, row.row@).with("belief"@, belief_of(row)),
    }
}

/// What the references come to.
#[derive(Debug)]
pub struct Gathered {
    pub items: Vec<MemoryItem>,
    pub pins: Vec<VersionPin>,
    pub insufficient: Option<String>,
}

/// Takes the references over as they were read: each is pinned, each is
/// required, and the first problem is kept.
pub fn gather(
    request: &ContextRequest,
    refs: &Vec<String>,
    rows: &Vec<ContextRow>,
    problem: Option<String>,
) -> (r: Gathered)
    requires
        refs@.len() == rows@.len(),
    ensures
        r.items@.len() == refs@.len(),
        r.pins@.len() == refs@.len(),
        forall|i: int|
            0 <= i < refs@.len() ==> (#[trigger] r.items@[i])@ == context_item(
                refs@[i]@,
                rows@[i],
            ),
        forall|i: int|
            0 <= i < refs@.len() ==> (#[trigger] r.pins@[i]).id@ == refs@[i]@ && r.pins@[i].version
                == rows@[i].version,
        super::request::opt_view(r.insufficient) == rows_problem(
            *request,
            text::views(refs@),
            rows@,
            super::request::opt_view(problem),
        ),
{
    let ghost names = text::views(refs@);
    let ghost start = super::request::opt_view(problem);
    let mut insufficient = problem;
    let mut items: Vec<MemoryItem> = Vec::new();
    let mut pins: Vec<VersionPin> = Vec::new();
    let mut i: usize = 0;
    while i < refs.len()
        invariant
            i <= refs.len(),
            refs@.len() == rows@.len(),
            names == text::views(refs@),
            items.len() == i,
            pins.len() == i,
            forall|k: int|
                0 <= k < i ==> (#[trigger] items@[k])@ == context_item(refs@[k]@, rows@[k]),
            forall|k: int|
                0 <= k < i ==> (#[trigger] pins@[k]).id@ == refs@[k]@ && pins@[k].version
                    == rows@[k].version,
            super::request::opt_view(insufficient) == rows_problem(
                *request,
                names.take(i as int),
                rows@.take(i as int),
                start,
            ),
        decreases refs.len() - i,
    {
        let row = &rows[i];
        proof {
            assert(names.take(i + 1).drop_last() =~= names.take(i as int));
            assert(rows@.take(i + 1).drop_last() =~= rows@.take(i as int));
            assert(names.take(i + 1).last() == refs@[i as int]@);
            assert(rows@.take(i + 1).last() == rows@[i as int]);
        }
        if insufficient.is_none() {
            if let Some(p) = find_problem(request, refs[i].as_str(), row) {
                insufficient = Some(p.to_owned());
            }
        }
        let belief = match &row.belief {
            Some(b) => b.copy(),
            None => Json::Null,
        };
        items.push(
            MemoryItem {
                id: refs[i].clone(),
                channel: Channel::Kip,
                priority: Priority::Required,
                content: Json::object().with("element", row.row.copy()).with("belief", belief),
            },
        );
        pins.push(VersionPin { id: refs[i].clone(), version: row.version });
        i = i + 1;
    }
    assert(names.take(i as int) =~= names);
    assert(rows@.take(i as int) =~= rows@);
    Gathered { items, pins, insufficient }
}

// ---------------------------------------------------------------------------
// Captures
// ---------------------------------------------------------------------------

/// The context that a decision was made on.
#[derive(Debug)]
pub struct Capture {
    pub receipt: Option<Json>,
    pub request: ContextRequest,
    pub basis: Json,
    pub pins: Vec<VersionPin>,
    pub retrieved: Vec<String>,
    /// The packet as it was delivered to the policy.
    pub packet: Json,
    pub insufficient: Option<String>,
}

impl Capture {
    /// The context with the packet that was made of it; a packet that does not
    /// hold everything required is a problem of its own.
    pub fn packed(
        request: ContextRequest,
        basis: Json,
        refs: Vec<String>,
        gathered: Gathered,
        packet: Json,
        overfull: bool,
    ) -> (r: Capture)
        ensures
            r.receipt is None,
            r.request == request,
            r.basis == basis,
            r.pins == gathered.pins,
            r.retrieved == refs,
            r.packet == packet,
            super::request::opt_view(r.insufficient) == first_problem(
                super::request::opt_view(gathered.insufficient),
                if overfull {
                    Some(CONTEXT_TOO_LARGE@)
                } else {
                    None
                },
            ),
    {
        let insufficient = match gathered.insufficient {
            Some(p) => Some(p),
            None => if overfull {
                Some(CONTEXT_TOO_LARGE.to_owned())
            } else {
                None
            },
        };
        Capture {
            receipt: None,
            request,
            basis,
            pins: gathered.pins,
            retrieved: refs,
            packet,
            insufficient,
        }
    }

    /// The same context, through views.
    pub open spec fn same_as(self, other: Capture) -> bool {
        &&& match (self.receipt, other.receipt) {
            (Some(a), Some(b)) => a@ == b@,
            (None, None) => true,
            _ => false,
        }
        &&& self.request.same_as(other.request)
        &&& self.basis@ == other.basis@
        &&& pin_views(self.pins@) == pin_views(other.pins@)
        &&& text::views(self.retrieved@) == text::views(other.retrieved@)
        &&& self.packet@ == other.packet@
        &&& super::request::opt_view(self.insufficient) == super::request::opt_view(
            other.insufficient,
        )
    }

    /// The same context once more.
    pub fn copy(&self) -> (r: Capture)
        ensures
            r.same_as(*self),
    {
        let receipt = match &self.receipt {
            Some(own) => Some(own.copy()),
            None => None,
        };
        let mut pins: Vec<VersionPin> = Vec::new();
        let mut i: usize = 0;
        while i < self.pins.len()
            invariant
                i <= self.pins.len(),
                pins.len() == i,
                forall|k: int|
                    0 <= k < i ==> (#[trigger] pin_views(pins@)[k]) == pin_views(self.pins@)[k],
            decreases self.pins.len() - i,
        {
            let ghost before = pin_views(pins@);
            pins.push(
                VersionPin { id: self.pins[i].id.clone(), version: self.pins[i].version },
            );
            assert(pin_views(pins@) =~= before.push(pin_views(self.pins@)[i as int]));
            i = i + 1;
        }
        assert(pin_views(pins@) =~= pin_views(self.pins@));
        Capture {
            receipt,
            request: self.request.copy(),
            basis: self.basis.copy(),
            pins,
            retrieved: text::copy_list(&self.retrieved),
            packet: self.packet.copy(),
            insufficient: crate::runtime::optional_copy(&self.insufficient),
        }
    }

    /// The part of a basis that a change of truth, policy or authority shows in.
    pub open spec fn same_basis(self, fresh: Capture) -> bool {
        &&& self.keeps_part(fresh, "schema_environment_version"@)
        &&& self.keeps_part(fresh, "identity_version"@)
        &&& self.keeps_part(fresh, "policy"@)
        &&& self.keeps_part(fresh, "trust_version"@)
        &&& self.keeps_part(fresh, "authorization_view"@)
        &&& self.keeps_part(fresh, "context_refs"@)
        &&& self.keeps_part(fresh, "purpose"@)
        &&& self.keeps_part(fresh, "risk"@)
    }

    /// That part of the basis is the same.
    pub open spec fn keeps_part(self, fresh: Capture, name: Seq<char>) -> bool {
        crate::json::alike(self.basis@.at(name), fresh.basis@.at(name))
    }

    /// What a fresh read is short of, for an action or for a question.
    pub open spec fn blocked_by(self, clarification: bool) -> bool {
        self.insufficient matches Some(p) && (!clarification || p@ != PREMISE_UNKNOWN@)
    }

    /// Why a fresh read does not bear out this one.
    pub open spec fn stale(self, fresh: Capture, clarification: bool) -> Option<ActionError> {
        if fresh.blocked_by(clarification) {
            Some(ActionError::PrerequisitesInsufficient)
        } else if !self.same_basis(fresh) {
            Some(ActionError::BasisChanged)
        } else if pin_views(self.pins@) != pin_views(fresh.pins@) {
            Some(ActionError::ContextChanged)
        } else {
            None
        }
    }

    /// Holds a fresh read against this one, right before a dispatch. It catches
    /// changes of truth that leave an element's own version alone.
    pub fn revalidate(&self, fresh: &Capture, clarification: bool) -> (r: Result<(), ActionError>)
        ensures
            match r {
                Ok(()) => self.stale(*fresh, clarification) is None,
                Err(e) => self.stale(*fresh, clarification) == Some(e),
            },
    {
        if let Some(p) = &fresh.insufficient {
            if !clarification || !text::same(p.as_str(), PREMISE_UNKNOWN) {
                return Err(ActionError::PrerequisitesInsufficient);
            }
        }
        if !self.keeps(fresh, "schema_environment_version") || !self.keeps(
            fresh,
            "identity_version",
        ) || !self.keeps(fresh, "policy") || !self.keeps(fresh, "trust_version") || !self.keeps(
            fresh,
            "authorization_view",
        ) || !self.keeps(fresh, "context_refs") || !self.keeps(fresh, "purpose") || !self.keeps(
            fresh,
            "risk",
        ) {
            return Err(ActionError::BasisChanged);
        }
        if !same_pins(&self.pins, &fresh.pins) {
            return Err(ActionError::ContextChanged);
        }
        Ok(())
    }

    fn keeps(&self, fresh: &Capture, name: &str) -> (r: bool)
        ensures
            r == self.keeps_part(*fresh, name@),
    {
        match (self.basis.get(name), fresh.basis.get(name)) {
            (Some(a), Some(b)) => a.same(b),
            (Some(a), None) => a.is_null(),
            (None, Some(b)) => b.is_null(),
            (None, None) => true,
        }
    }

    /// An item of that identity was delivered.
    pub open spec fn delivers(self, id: Seq<char>) -> bool {
        self.packet@.at("items"@) matches Datum::Array(items) && exists|i: int|
            0 <= i < items.len() && (#[trigger] items[i]).at("id"@) == Datum::Text(id)
    }

    pub fn delivered(&self, id: &str) -> (r: bool)
        ensures
            r == self.delivers(id@),
    {
        let list = match self.packet.get("items") {
            Some(items) => match items.as_array() {
                Some(list) => list,
                None => return false,
            },
            None => return false,
        };
        let ghost all = crate::json::items_view(list@);
        let mut i: usize = 0;
        while i < list.len()
            invariant
                i <= list.len(),
                all == crate::json::items_view(list@),
                self.packet@.at("items"@) == Datum::Array(all),
                forall|k: int|
                    0 <= k < i ==> (#[trigger] all[k]).at("id"@) != Datum::Text(id@),
            decreases list.len() - i,
        {
            assert(all[i as int] == list@[i as int]@);
            if list[i].member_is("id", id) {
                return true;
            }
            i = i + 1;
        }
        false
    }
}

fn same_pins(a: &Vec<VersionPin>, b: &Vec<VersionPin>) -> (r: bool)
    ensures
        r == (pin_views(a@) == pin_views(b@)),
{
    if a.len() != b.len() {
        assert(pin_views(a@).len() != pin_views(b@).len());
        return false;
    }
    let mut i: usize = 0;
    while i < a.len()
        invariant
            i <= a.len(),
            a.len() == b.len(),
            forall|k: int|
                0 <= k < i ==> (#[trigger] pin_views(a@)[k]) == pin_views(b@)[k],
        decreases a.len() - i,
    {
        assert(pin_views(a@)[i as int] == (a@[i as int].id@, a@[i as int].version));
        assert(pin_views(b@)[i as int] == (b@[i as int].id@, b@[i as int].version));
        if a[i].version != b[i].version || !text::same(a[i].id.as_str(), b[i].id.as_str()) {
            return false;
        }
        i = i + 1;
    }
    assert(pin_views(a@) =~= pin_views(b@));
    true
}

// ---------------------------------------------------------------------------
// Laws
// ---------------------------------------------------------------------------

/// Nothing has changed, and nothing is missing: the capture is borne out.
pub proof fn an_unchanged_context_is_current(capture: Capture, clarification: bool)
    requires
        capture.insufficient is None,
    ensures
        capture.stale(capture, clarification) is None,
{
    crate::json::equal_is_alike(capture.basis@.at("schema_environment_version"@));
    crate::json::equal_is_alike(capture.basis@.at("identity_version"@));
    crate::json::equal_is_alike(capture.basis@.at("policy"@));
    crate::json::equal_is_alike(capture.basis@.at("trust_version"@));
    crate::json::equal_is_alike(capture.basis@.at("authorization_view"@));
    crate::json::equal_is_alike(capture.basis@.at("context_refs"@));
    crate::json::equal_is_alike(capture.basis@.at("purpose"@));
    crate::json::equal_is_alike(capture.basis@.at("risk"@));
}

/// A context without a problem rests on accepted premises, on revisions for its
/// own task and on elements that allow action.
pub proof fn sufficient_contexts_are_verified(
    request: ContextRequest,
    refs: Seq<Seq<char>>,
    rows: Seq<ContextRow>,
    before: Option<Seq<char>>,
    i: int,
)
    requires
        refs.len() == rows.len(),
        0 <= i < rows.len(),
        rows_problem(request, refs, rows, before) is None,
    ensures
        before is None,
        rows[i].row@.at("_system"@).at("dependency_validity"@) is Object ==> eligible(rows[i].row@),
        text::views(request.applied_revisions@).contains(refs[i]) ==> applicable(
            rows[i].row@,
            request.task_family@,
        ),
        text::views(request.premises@).contains(refs[i]) ==> belief_of(rows[i]).at("status"@)
            == Datum::Text("accepted"@),
    decreases rows.len(),
{
    if i < rows.len() - 1 {
        sufficient_contexts_are_verified(request, refs.drop_last(), rows.drop_last(), before, i);
        assert(rows.drop_last()[i] == rows[i]);
        assert(refs.drop_last()[i] == refs[i]);
    } else {
        nothing_before(request, refs.drop_last(), rows.drop_last(), before);
        assert(rows.last() == rows[i]);
        assert(refs.last() == refs[i]);
    }
}

proof fn nothing_before(
    request: ContextRequest,
    refs: Seq<Seq<char>>,
    rows: Seq<ContextRow>,
    before: Option<Seq<char>>,
)
    requires
        rows_problem(request, refs, rows, before) is None,
    ensures
        before is None,
    decreases rows.len(),
{
    if rows.len() > 0 && refs.len() > 0 {
        nothing_before(request, refs.drop_last(), rows.drop_last(), before);
    }
}

} // verus!
