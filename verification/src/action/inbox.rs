//! The read-only projection of action work. Reading it claims nothing, replays
//! nothing and repairs nothing.

use vstd::prelude::*;

use super::gate::is_continuation;
use super::journal::Job;
use super::native::{facet_is, OutputRow};
use super::request::{ActionKind, ActionRequest, ActionStatus, Status};
use crate::json::{Datum, Json};
use crate::nexus::{self, element_id_valid};
use crate::recall::material::{push_inside, PROFILE};
use crate::runtime::RuntimeScope;
use crate::text;
use crate::walk;
use crate::wake::WakeRecord;

verus! {

/// Why work cannot be shown.
#[derive(Clone, Copy, Debug, PartialEq, Eq, Structural)]
pub enum InboxError {
    NotFound,
    /// There is more to verify than a read may look at.
    Unavailable,
}

/// The wake whose journal speaks of a wake: a dispatch is shown with the decision
/// that it carries out.
pub fn owner(wake: &WakeRecord) -> (r: Result<&String, InboxError>)
    ensures
        match r {
            Ok(reference) => if super::gate::continues_as(*wake, "dispatch"@) {
                wake.parent_ref == Some(*reference)
            } else {
                *reference == wake.wake_ref
            },
            Err(e) => e == InboxError::NotFound && super::gate::continues_as(*wake, "dispatch"@)
                && wake.parent_ref is None,
        },
{
    if is_continuation(wake, "dispatch") {
        match &wake.parent_ref {
            Some(reference) => Ok(reference),
            None => Err(InboxError::NotFound),
        }
    } else {
        Ok(&wake.wake_ref)
    }
}

// ---------------------------------------------------------------------------
// Visibility
// ---------------------------------------------------------------------------

/// The most values that are looked at, and the most elements that are verified.
pub const MAX_VISITED: usize = 16_384;

pub const MAX_SOURCES: usize = 256;

/// The elements that a packet names, while its values are taken from the end of
/// the list and what is inside each is put in its place; none, where there is too
/// much.
pub open spec fn sources_found(
    stack: Seq<Datum>,
    looked_at: nat,
    found: Seq<Seq<char>>,
) -> Option<Seq<Seq<char>>>
    decreases MAX_VISITED + 1 - looked_at,
{
    if stack.len() == 0 {
        Some(found)
    } else if looked_at >= MAX_VISITED || found.len() > MAX_SOURCES {
        None
    } else {
        sources_found(
            stack.drop_last() + crate::recall::material::inside(stack.last()),
            looked_at + 1,
            with_source(found, stack.last()),
        )
    }
}

/// The elements, with the value if it names one.
pub open spec fn with_source(found: Seq<Seq<char>>, v: Datum) -> Seq<Seq<char>> {
    if v is Text && nexus::is_element(v->Text_0) {
        text::inserted(found, v->Text_0)
    } else {
        found
    }
}

/// Everything that a decision could have rested on: what its packet names at any
/// depth, and what was retrieved for it. All of it must be readable to whoever
/// sees the decision.
pub fn sources(packet: &Json, retrieved: &Vec<String>) -> (r: Result<Vec<String>, InboxError>)
    ensures
        match r {
            Ok(list) => sources_found(seq![packet@], 0, Seq::empty()) matches Some(found)
                && text::views(list@) == text::gathered(found, text::views(retrieved@)) && (forall|
                x: Seq<char>,
            | #[trigger]
                text::views(list@).contains(x) <==> found.contains(x) || text::views(
                    retrieved@,
                ).contains(x)),
            Err(e) => e == InboxError::Unavailable && sources_found(
                seq![packet@],
                0,
                Seq::empty(),
            ) is None,
        },
{
    let mut found: Vec<String> = Vec::new();
    let mut stack: Vec<&Json> = Vec::new();
    stack.push(packet);
    assert(crate::recall::material::seen(stack@) =~= seq![packet@]);
    assert(text::views(found@) =~= Seq::empty());
    let mut nodes: usize = 0;
    while stack.len() > 0
        invariant
            nodes <= MAX_VISITED,
            text::is_sorted_set(text::views(found@)),
            sources_found(
                crate::recall::material::seen(stack@),
                nodes as nat,
                text::views(found@),
            ) == sources_found(seq![packet@], 0, Seq::empty()),
        decreases MAX_VISITED - nodes,
    {
        let ghost all = crate::recall::material::seen(stack@);
        if nodes >= MAX_VISITED || found.len() > MAX_SOURCES {
            return Err(InboxError::Unavailable);
        }
        let top = match stack.pop() {
            Some(top) => top,
            None => return Err(InboxError::Unavailable),
        };
        proof {
            assert(all.last() == top@);
            assert(crate::recall::material::seen(stack@) =~= all.drop_last());
        }
        nodes = nodes + 1;
        if let Some(s) = top.as_text() {
            if element_id_valid(s) {
                let _new = text::insert_sorted(&mut found, s);
            }
        }
        push_inside(top, &mut stack);
    }
    text::insert_all(&mut found, retrieved);
    Ok(found)
}

/// The value names an element, at whatever depth.
pub open spec fn names_element(v: Datum, id: Seq<char>) -> bool
    decreases v,
{
    match v {
        Datum::Text(s) => s == id,
        Datum::Array(items) => exists|i: int|
            0 <= i < items.len() && names_element(#[trigger] items[i], id),
        Datum::Object(members) => exists|i: int|
            0 <= i < members.len() && names_element((#[trigger] members[i]).1, id),
        _ => false,
    }
}

// ---------------------------------------------------------------------------
// The receipt
// ---------------------------------------------------------------------------

/// The outputs of a receipt of this scope that was committed.
pub open spec fn receipt_outputs_of(receipt: Datum, scope: RuntimeScope) -> Option<Seq<Datum>> {
    if receipt.at("format"@) == Datum::Text(crate::attention::FORMAT@) && receipt.at(
        "identity"@,
    ).at("scope"@) == scope.value() && receipt.at("state"@).at("status"@) == Datum::Text(
        "committed"@,
    ) {
        match receipt.at("state"@).at("outputs"@) {
            Datum::Array(list) => Some(list),
            _ => None,
        }
    } else {
        None
    }
}

/// The texts among these values.
pub open spec fn texts_among(list: Seq<Datum>) -> Seq<Seq<char>>
    decreases list.len(),
{
    if list.len() == 0 {
        Seq::empty()
    } else {
        let before = texts_among(list.drop_last());
        match list.last() {
            Datum::Text(s) => before.push(s),
            _ => before,
        }
    }
}

pub fn receipt_outputs(receipt: &Json, scope: &RuntimeScope) -> (r: Result<Vec<String>, InboxError>)
    ensures
        match (r, receipt_outputs_of(receipt@, *scope)) {
            (Ok(outputs), Some(list)) => text::views(outputs@) == texts_among(list),
            (Err(e), None) => e == InboxError::NotFound,
            _ => false,
        },
{
    let own_scope = match receipt.get("identity") {
        Some(identity) => match identity.get("scope") {
            Some(own) => {
                let expected = scope.to_json();
                proof {
                    nexus::two_texts_are_portable(
                        "space_id"@,
                        scope.space_id@,
                        "space_instance"@,
                        scope.space_instance@,
                    );
                    nexus::alike_portable_is_equal(own@, expected@, 100);
                }
                own.same(&expected)
            },
            None => false,
        },
        None => false,
    };
    let state = match receipt.get("state") {
        Some(state) => state,
        None => return Err(InboxError::NotFound),
    };
    if !receipt.member_is("format", crate::attention::FORMAT) || !own_scope || !state.member_is(
        "status",
        "committed",
    ) {
        return Err(InboxError::NotFound);
    }
    let list = match state.get("outputs") {
        Some(value) => match value.as_array() {
            Some(list) => list,
            None => return Err(InboxError::NotFound),
        },
        None => return Err(InboxError::NotFound),
    };
    let ghost all = crate::json::items_view(list@);
    let mut out: Vec<String> = Vec::new();
    let mut i: usize = 0;
    proof {
        assert(all.take(0) =~= Seq::empty());
        assert(text::views(out@) =~= texts_among(all.take(0)));
    }
    while i < list.len()
        invariant
            i <= list.len(),
            all == crate::json::items_view(list@),
            text::views(out@) == texts_among(all.take(i as int)),
        decreases list.len() - i,
    {
        let ghost before = text::views(out@);
        proof {
            assert(all.take(i + 1).drop_last() =~= all.take(i as int));
            assert(all.take(i + 1).last() == list@[i as int]@);
        }
        if let Some(s) = list[i].as_text() {
            out.push(s.to_owned());
            assert(text::views(out@) =~= before.push(s@));
        }
        i = i + 1;
    }
    assert(all.take(i as int) =~= all);
    Ok(out)
}

// ---------------------------------------------------------------------------
// What is shown
// ---------------------------------------------------------------------------

/// What is shown of a piece of work.
#[derive(Debug)]
pub struct Inspection {
    pub status: Option<ActionStatus>,
    pub recipient: Option<String>,
    pub clarification: Option<Json>,
    pub decision: Option<Json>,
    pub request: Option<ActionRequest>,
}

impl Inspection {
    pub fn empty() -> (r: Inspection)
        ensures
            r.status is None,
            r.shows_nothing(),
    {
        Inspection {
            status: None,
            recipient: None,
            clarification: None,
            decision: None,
            request: None,
        }
    }

    /// Nothing but, at most, a status.
    pub open spec fn shows_nothing(self) -> bool {
        &&& self.recipient is None
        &&& self.clarification is None
        &&& self.decision is None
        &&& self.request is None
    }
}

/// The record of the last activity that records the decision.
pub open spec fn record_among(rows: Seq<OutputRow>, kind: Seq<char>) -> Option<Datum>
    decreases rows.len(),
{
    if rows.len() == 0 {
        None
    } else if super::native::decides(rows.last().row@, kind) {
        Some(rows.last().row@.at("facets"@).at(PROFILE@ + "DecisionRecord"@))
    } else {
        record_among(rows.drop_last(), kind)
    }
}

/// What was stored with the attempt is the request of the journal.
pub open spec fn materials_agree(
    rows: Seq<OutputRow>,
    materials: Seq<Json>,
    request: Option<ActionRequest>,
) -> bool {
    request matches Some(own) ==> forall|i: int|
        0 <= i < rows.len() && super::native::attempts(
            (#[trigger] rows[i]).row@,
            own.attempt_id@,
        ) ==> crate::json::alike(materials[i]@.at("request"@), own.value())
}

/// The status that is shown.
pub open spec fn shown_status(job: Job, committed: bool, rows: Seq<OutputRow>) -> Status {
    let p = job.prepared->0;
    let refs = job.with_refs(rows);
    Status {
        state: if committed {
            "committed"@
        } else {
            refs.state
        },
        decision: if committed {
            Some(p.decision@)
        } else {
            refs.decision
        },
        dispatch_ref: match p.request {
            Some(request) => super::request::dispatch_reference_of(
                request.scope,
                request.attempt_id@,
            ),
            None => refs.dispatch_ref,
        },
        ..refs
    }
}

/// Who a piece of work was addressed to.
pub open spec fn recipient_of(job: Job) -> Option<Seq<char>> {
    let p = job.prepared->0;
    match p.recipient {
        Some(recipient) => Some(recipient@),
        None => match p.request {
            Some(request) => if request.kind == ActionKind::DeliverClarification {
                request.payload@.text_at("recipient"@)
            } else {
                None
            },
            None => None,
        },
    }
}

fn decision_record(row: &Json) -> (r: Json)
    ensures
        r@ == row@.at("facets"@).at(PROFILE@ + "DecisionRecord"@),
{
    let mut symbol = PROFILE.to_owned();
    symbol.append("DecisionRecord");
    match row.get("facets") {
        Some(facets) => facets.copy_at(symbol.as_str()),
        None => Json::Null,
    }
}

/// What the rows of a commit say of it.
struct Findings {
    decision_ref: Option<String>,
    attempt_ref: Option<String>,
    record: Option<Json>,
}

fn find_records(job: &Job, rows: &Vec<OutputRow>, materials: &Vec<Json>) -> (r: Option<Findings>)
    requires
        job.prepared is Some,
        rows@.len() == materials@.len(),
    ensures
        match r {
            Some(f) => {
                let p = job.prepared->0;
                &&& materials_agree(rows@, materials@, p.request)
                &&& super::request::opt_view(f.decision_ref) == super::native::decision_among(
                    rows@,
                    p.decision@,
                    job.status@.decision_ref,
                )
                &&& super::request::opt_view(f.attempt_ref) == super::native::attempt_among(
                    rows@,
                    p.request,
                    job.status@.attempt_ref,
                )
                &&& match f.record {
                    Some(record) => record_among(rows@, p.decision@) == Some(record@),
                    None => record_among(rows@, p.decision@) is None,
                }
            },
            None => !materials_agree(rows@, materials@, job.prepared->0.request),
        },
{
    let p = match &job.prepared {
        Some(p) => p,
        None => return None,
    };
    let own = match &p.request {
        Some(request) => Some(request.to_json()),
        None => None,
    };
    let mut f = Findings {
        decision_ref: crate::runtime::optional_copy(&job.status.decision_ref),
        attempt_ref: crate::runtime::optional_copy(&job.status.attempt_ref),
        record: None,
    };
    let mut i: usize = 0;
    assert(rows@.take(0) =~= Seq::empty());
    while i < rows.len()
        invariant
            i <= rows.len(),
            rows@.len() == materials@.len(),
            job.prepared == Some(*p),
            match (own, p.request) {
                (Some(v), Some(request)) => v@ == request.value(),
                (None, None) => true,
                _ => false,
            },
            p.request matches Some(request) ==> forall|k: int|
                0 <= k < i && super::native::attempts(
                    (#[trigger] rows@[k]).row@,
                    request.attempt_id@,
                ) ==> crate::json::alike(materials@[k]@.at("request"@), request.value()),
            super::request::opt_view(f.decision_ref) == super::native::decision_among(
                rows@.take(i as int),
                p.decision@,
                job.status@.decision_ref,
            ),
            super::request::opt_view(f.attempt_ref) == super::native::attempt_among(
                rows@.take(i as int),
                p.request,
                job.status@.attempt_ref,
            ),
            match f.record {
                Some(record) => record_among(rows@.take(i as int), p.decision@) == Some(record@),
                None => record_among(rows@.take(i as int), p.decision@) is None,
            },
        decreases rows.len() - i,
    {
        proof {
            assert(rows@.take(i + 1).drop_last() =~= rows@.take(i as int));
            assert(rows@.take(i + 1).last() == rows@[i as int]);
        }
        if facet_is(&rows[i].row, "DecisionRecord", "decision", p.decision.as_str()) {
            f.decision_ref = Some(rows[i].id.clone());
            f.record = Some(decision_record(&rows[i].row));
        }
        if let Some(request) = &p.request {
            if facet_is(&rows[i].row, "AttemptRecord", "attempt_id", request.attempt_id.as_str()) {
                let agrees = match (materials[i].get("request"), &own) {
                    (Some(stored), Some(value)) => stored.same(value),
                    _ => false,
                };
                if !agrees {
                    return None;
                }
                f.attempt_ref = Some(rows[i].id.clone());
            }
        }
        i = i + 1;
    }
    assert(rows@.take(i as int) =~= rows@);
    Some(f)
}

/// Shows a piece of work, as its journal and its commit stand. A decision and its
/// question are shown as committed only once they are.
pub fn inspect(
    job: Option<Job>,
    wake: &WakeRecord,
    committed: bool,
    rows: &Vec<OutputRow>,
    materials: &Vec<Json>,
) -> (r: Result<Inspection, InboxError>)
    requires
        rows@.len() == materials@.len(),
    ensures
        match job {
            None => r matches Ok(shown) && shown.status is None && shown.shows_nothing(),
            Some(own) => if !own.pins.same_as(wake.pins) {
                r is Err && r->Err_0 == InboxError::NotFound
            } else if own.prepared is None {
                r matches Ok(shown) && shown.status == Some(own.status) && shown.shows_nothing()
            } else if !materials_agree(rows@, materials@, own.prepared->0.request) {
                r is Err && r->Err_0 == InboxError::NotFound
            } else {
                &&& r matches Ok(shown)
                &&& shown.status matches Some(status) && status@ == shown_status(
                    own,
                    committed,
                    rows@,
                )
                &&& super::request::opt_view(shown.recipient) == recipient_of(own)
                &&& shown.clarification == if committed {
                    own.prepared->0.clarification_payload
                } else {
                    None
                }
                &&& match shown.decision {
                    Some(record) => record_among(rows@, own.prepared->0.decision@) == Some(
                        record@,
                    ),
                    None => record_among(rows@, own.prepared->0.decision@) is None,
                }
                &&& shown.request == own.prepared->0.request
            },
        },
{
    let own = match job {
        None => return Ok(Inspection::empty()),
        Some(own) => own,
    };
    if !own.pins.same(&wake.pins) {
        return Err(InboxError::NotFound);
    }
    if own.prepared.is_none() {
        let mut shown = Inspection::empty();
        shown.status = Some(own.status);
        return Ok(shown);
    }
    let found = match find_records(&own, rows, materials) {
        Some(found) => found,
        None => return Err(InboxError::NotFound),
    };
    let mut status = own.status;
    match own.prepared {
        None => Ok(Inspection::empty()),
        Some(p) => {
            status.decision_ref = found.decision_ref;
            status.attempt_ref = found.attempt_ref;
            if committed {
                status.state = "committed".to_owned();
                status.decision = Some(p.decision);
            }
            let mut recipient = p.recipient;
            if let Some(request) = &p.request {
                status.dispatch_ref = Some(
                    super::request::dispatch_reference(&request.scope, request.attempt_id.as_str()),
                );
                let delivers = match request.kind {
                    ActionKind::DeliverClarification => true,
                    ActionKind::Business => false,
                };
                if recipient.is_none() && delivers {
                    if let Some(s) = request.payload.text_at("recipient") {
                        recipient = Some(s.to_owned());
                    }
                }
            }
            let clarification = if committed {
                p.clarification_payload
            } else {
                None
            };
            Ok(
                Inspection {
                    status: Some(status),
                    recipient,
                    clarification,
                    decision: found.record,
                    request: p.request,
                },
            )
        },
    }
}

// ---------------------------------------------------------------------------
// Laws
// ---------------------------------------------------------------------------

/// Whoever is shown a decision has read everything that it could have rested on:
/// no element that its packet names, at whatever depth, is left out.
pub proof fn everything_named_is_verified(packet: Datum, id: Seq<char>)
    requires
        nexus::is_element(id),
        names_element(packet, id),
        sources_found(seq![packet], 0, Seq::empty()) is Some,
    ensures
        sources_found(seq![packet], 0, Seq::empty())->0.contains(id),
{
    let stack = seq![packet];
    assert(names_element(stack[0], id));
    walk_finds(stack, 0, Seq::empty(), id);
}

proof fn walk_finds(stack: Seq<Datum>, looked_at: nat, found: Seq<Seq<char>>, id: Seq<char>)
    requires
        nexus::is_element(id),
        sources_found(stack, looked_at, found) is Some,
        found.contains(id) || exists|i: int|
            0 <= i < stack.len() && names_element(#[trigger] stack[i], id),
    ensures
        sources_found(stack, looked_at, found)->0.contains(id),
    decreases MAX_VISITED + 1 - looked_at,
{
    if stack.len() > 0 {
        let top = stack.last();
        let more = crate::recall::material::inside(top);
        let next = stack.drop_last() + more;
        let now = with_source(found, top);
        if top is Text {
            text::inserted_holds(found, top->Text_0, id);
        }
        if !now.contains(id) {
            let i = choose|i: int| 0 <= i < stack.len() && names_element(#[trigger] stack[i], id);
            if i < stack.len() - 1 {
                assert(next[i] == stack[i]);
            } else {
                match top {
                    Datum::Array(items) => {
                        let k = choose|k: int|
                            0 <= k < items.len() && names_element(#[trigger] items[k], id);
                        assert(next[stack.len() - 1 + k] == items[k]);
                    },
                    Datum::Object(members) => {
                        let k = choose|k: int|
                            0 <= k < members.len() && names_element((#[trigger] members[k]).1, id);
                        assert(more[k] == members[k].1);
                        assert(next[stack.len() - 1 + k] == more[k]);
                    },
                    _ => {},
                }
            }
        }
        walk_finds(next, looked_at + 1, now, id);
    }
}

/// The texts are of elements that the stack names or that were found before.
spec fn all_named(list: Seq<Seq<char>>, stack: Seq<Datum>, found: Seq<Seq<char>>) -> bool {
    forall|s: Seq<char>| #[trigger]
        list.contains(s) ==> found.contains(s) || (nexus::is_element(s) && walk::some_holds(
            stack,
            Datum::Text(s),
        ))
}

/// More elements than are verified, each of which the value names.
pub open spec fn names_too_many(packet: Datum) -> bool {
    exists|list: Seq<Seq<char>>| #[trigger]
        text::is_sorted_set(list) && list.len() > MAX_SOURCES && forall|s: Seq<char>| #[trigger]
            list.contains(s) ==> nexus::is_element(s) && walk::holds(packet, Datum::Text(s))
}

proof fn source_walks(stack: Seq<Datum>, looked_at: nat, found: Seq<Seq<char>>) -> (list: Seq<
    Seq<char>,
>)
    requires
        looked_at <= MAX_VISITED,
        text::is_sorted_set(found),
    ensures
        looked_at + walk::total(stack) > MAX_VISITED ==> sources_found(
            stack,
            looked_at,
            found,
        ) is None,
        sources_found(stack, looked_at, found) matches Some(all) ==> list == all,
        sources_found(stack, looked_at, found) is None ==> looked_at + walk::total(stack)
            > MAX_VISITED || list.len() > MAX_SOURCES,
        text::is_sorted_set(list),
        all_named(list, stack, found),
    decreases MAX_VISITED + 1 - looked_at,
{
    walk::nothing_is_empty(stack);
    if stack.len() == 0 || looked_at >= MAX_VISITED || found.len() > MAX_SOURCES {
        found
    } else {
        let top = stack.last();
        let next = stack.drop_last() + crate::recall::material::inside(top);
        let now = with_source(found, top);
        if top is Text {
            text::inserted_is_sorted(found, top->Text_0);
        }
        walk::taking_apart(stack, top);
        let list = source_walks(next, looked_at + 1, now);
        assert forall|s: Seq<char>| #[trigger] list.contains(s) implies found.contains(s) || (
        nexus::is_element(s) && walk::some_holds(stack, Datum::Text(s))) by {
            walk::taking_apart(stack, Datum::Text(s));
            if top is Text {
                text::inserted_holds(found, top->Text_0, s);
            }
        }
        list
    }
}

/// The sources of a packet are the elements that it names at some depth, and no
/// others; they are refused only where the packet is larger than what is looked at
/// or names more elements than are verified.
pub proof fn sources_are_what_is_named(packet: Datum, id: Seq<char>)
    ensures
        match sources_found(seq![packet], 0, Seq::empty()) {
            Some(all) => all.contains(id) <==> nexus::is_element(id) && walk::holds(
                packet,
                Datum::Text(id),
            ),
            None => walk::size(packet) > MAX_VISITED || names_too_many(packet),
        },
        walk::size(packet) > MAX_VISITED ==> sources_found(seq![packet], 0, Seq::empty()) is None,
{
    let list = source_walks(seq![packet], 0, Seq::empty());
    walk::one_value(packet, Datum::Text(id));
    match sources_found(seq![packet], 0, Seq::empty()) {
        Some(all) => {
            if nexus::is_element(id) && walk::holds(packet, Datum::Text(id)) {
                held_is_named(packet, id);
                everything_named_is_verified(packet, id);
            }
        },
        None => {
            if walk::size(packet) <= MAX_VISITED {
                assert forall|s: Seq<char>| #[trigger] list.contains(s) implies nexus::is_element(
                    s,
                ) && walk::holds(packet, Datum::Text(s)) by {
                    walk::one_value(packet, Datum::Text(s));
                }
                assert(text::is_sorted_set(list) && list.len() > MAX_SOURCES);
            }
        },
    }
}

proof fn held_is_named(v: Datum, id: Seq<char>)
    requires
        walk::holds(v, Datum::Text(id)),
    ensures
        names_element(v, id),
    decreases v,
{
    if v != Datum::Text(id) {
        match v {
            Datum::Array(items) => {
                let i = choose|i: int|
                    0 <= i < items.len() && walk::holds(#[trigger] items[i], Datum::Text(id));
                held_is_named(items[i], id);
            },
            Datum::Object(members) => {
                let i = choose|i: int|
                    0 <= i < members.len() && walk::holds((#[trigger] members[i]).1, Datum::Text(id));
                assert(decreases_to!(members => members[i]));
                assert(decreases_to!(members[i] => members[i].1));
                held_is_named(members[i].1, id);
            },
            _ => {},
        }
    }
}

} // verus!
