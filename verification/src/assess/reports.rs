//! What holds of citations, of judged payloads and of probes.

use vstd::prelude::*;

use super::probe::{self, Observed, ProbeError, ProbeObservation};
use super::{Nesting, RECALL_META_TAG_CLOSE, RECALL_META_TAG_OPEN};
use crate::json::Datum;
use crate::kip::{self, ReadEnvelope};
use crate::text;

verus! {

// ---------------------------------------------------------------------------
// Citations
// ---------------------------------------------------------------------------

/// The local name of a reference is its longest end without a slash.
pub proof fn local_names_follow_the_last_slash(reference: Seq<char>)
    ensures
        ({
            let name = super::local_name(reference);
            let before = reference.len() - name.len();
            &&& 0 <= before <= reference.len()
            &&& name == reference.skip(before)
            &&& forall|i: int| 0 <= i < name.len() ==> #[trigger] name[i] != '/'
            &&& before > 0 ==> reference[before - 1] == '/'
        }),
    decreases reference.len(),
{
    if reference.len() > 0 && reference.last() != '/' {
        let rest = reference.drop_last();
        local_names_follow_the_last_slash(rest);
        let inner = super::local_name(rest);
        let before = rest.len() - inner.len();
        assert(super::local_name(reference) =~= reference.skip(before));
        assert forall|i: int|
            0 <= i < super::local_name(reference).len() implies #[trigger] super::local_name(
            reference,
        )[i] != '/' by {
            if i < inner.len() {
                assert(super::local_name(reference)[i] == inner[i]);
            }
        }
        if before > 0 {
            assert(reference[before - 1] == rest[before - 1]);
        }
    } else {
        assert(super::local_name(reference) =~= reference.skip(reference.len() as int));
    }
}

/// A memory is cited by its identity, under its own name and the time that the engine
/// made it; its symbol is that of its schema, or where it has none of its predicate. Only
/// an Assertion carries confidence, and the source is the actor who asserted it, however
/// that actor is referred to.
pub proof fn citations_say_what_the_element_says(element: Datum, id: Seq<char>)
    requires
        element.at("id"@) == Datum::Text(id),
    ensures
        ({
            let c = super::cited(element);
            let schema = element.at("schema_ref"@);
            let predicate = element.at("predicate_ref"@);
            let actor = element.at("asserted_by"@);
            let confidence = element.at("confidence"@);
            &&& c.entity == id
            &&& element.at("name"@) is Text ==> c.name == Some(element.at("name"@)->Text_0)
            &&& !(element.at("name"@) is Text) ==> c.name is None
            &&& schema is Text ==> c.symbol == Some(super::local_name(schema->Text_0))
            &&& !element.has("schema_ref"@) && predicate is Text ==> c.symbol == Some(
                super::local_name(predicate->Text_0),
            )
            &&& element.has("schema_ref"@) && !(schema is Text) ==> c.symbol is None
            &&& !element.has("schema_ref"@) && !(predicate is Text) ==> c.symbol is None
            &&& actor is Text ==> c.source == Some(actor->Text_0)
            &&& actor is Object && actor.at("id"@) is Text ==> c.source == Some(
                actor.at("id"@)->Text_0,
            )
            &&& !(actor is Text) && !(actor is Object) ==> c.source is None
            &&& id.len() > 0 && id[0] != 'A' ==> c.confidence is None
            &&& c.confidence is Some ==> c.confidence == Some(confidence) && (confidence is Unsigned
                || confidence is Negative || confidence is Decimal)
            &&& super::is_tagged(id, 'A') && (confidence is Unsigned || confidence is Negative
                || confidence is Decimal) ==> c.confidence == Some(confidence)
            &&& element.at("_system"@).at("created_at"@) is Text ==> c.created_at == Some(
                element.at("_system"@).at("created_at"@)->Text_0,
            )
            &&& !(element.at("_system"@).at("created_at"@) is Text) ==> c.created_at is None
        }),
{
}

/// A memory is a Concept, a Proposition or an Assertion: its identity is that letter, a
/// dash and digits.
pub proof fn memories_are_known_by_their_identity(value: Seq<char>)
    ensures
        super::is_entity(value) ==> {
            &&& value[0] == 'C' || value[0] == 'P' || value[0] == 'A'
            &&& value[1] == '-'
            &&& value.len() > 2
            &&& forall|i: int| 2 <= i < value.len() ==> '0' <= #[trigger] value[i] <= '9'
        },
        value.len() > 2 && value.len() <= 20 && (value[0] == 'C' || value[0] == 'P' || value[0]
            == 'A') && value[1] == '-' && (forall|i: int|
            2 <= i < value.len() ==> '0' <= #[trigger] value[i] <= '9') ==> super::is_entity(value)
            || text::numeral_value(value.skip(2)) > u64::MAX,
        super::is_tagged(value, 'C') ==> !super::is_tagged(value, 'P') && !super::is_tagged(
            value,
            'A',
        ),
        super::is_tagged(value, 'P') ==> !super::is_tagged(value, 'A'),
{
    if super::is_entity(value) {
        assert forall|i: int| 2 <= i < value.len() implies '0' <= #[trigger] value[i] <= '9' by {
            assert(value.skip(2)[i - 2] == value[i]);
        }
    }
    if value.len() > 2 && (forall|i: int|
        2 <= i < value.len() ==> '0' <= #[trigger] value[i] <= '9') {
        assert forall|k: int| 0 <= k < value.skip(2).len() implies '0' <= #[trigger] value.skip(
            2,
        )[k] <= '9' by {
            assert(value.skip(2)[k] == value[k + 2]);
        }
        assert(text::all_digits(value.skip(2)));
    }
}

// ---------------------------------------------------------------------------
// Elements of results
// ---------------------------------------------------------------------------

/// The value is one that carries other values: an envelope, an outcome, hits or one hit.
pub open spec fn wraps(v: Datum) -> bool {
    v.has("kip"@) || v.has("result"@) || v.at("hits"@) is Array || v.has("element"@)
}

/// One more value returns its own elements after those before it.
pub proof fn lists_return_what_their_values_return(items: Seq<Datum>, more: Datum)
    ensures
        super::elements(Datum::Array(items.push(more))) == super::elements(Datum::Array(items))
            + super::elements(more),
        super::elements(Datum::Array(Seq::empty())).len() == 0,
{
    reveal_with_fuel(super::elements, 2);
    reveal_with_fuel(super::elements_of, 2);
    assert(items.push(more).drop_last() =~= items);
}

/// A record returns itself: it is an object without error that wraps nothing, with an
/// element's identity and a mark of a record. Any other object that wraps nothing returns
/// nothing.
pub proof fn records_return_themselves(v: Datum)
    requires
        v is Object,
        v.at("error"@) is Null,
        !wraps(v),
    ensures
        v.at("id"@) is Text && crate::nexus::is_element(v.at("id"@)->Text_0) && (v.has("_system"@)
            || v.has("schema_ref"@) || v.has("predicate_ref"@) || v.has("asserted_by"@))
            ==> super::elements(v) == seq![v],
        !(v.at("id"@) is Text) || !crate::nexus::is_element(v.at("id"@)->Text_0) || !(v.has(
            "_system"@,
        ) || v.has("schema_ref"@) || v.has("predicate_ref"@) || v.has("asserted_by"@))
            ==> super::elements(v).len() == 0,
{
}

/// An outcome returns what its result returns, unless it tells of a status other than
/// success. A hit returns its element only where both carry one identity.
pub proof fn outcomes_return_their_result(v: Datum)
    requires
        v is Object,
        v.at("error"@) is Null,
        !v.has("kip"@),
    ensures
        v.has("result"@) && !v.has("status"@) ==> super::elements(v) == super::elements(
            v.at("result"@),
        ),
        v.has("result"@) && v.at("status"@) == Datum::Text("succeeded"@) ==> super::elements(v)
            == super::elements(v.at("result"@)),
        v.has("result"@) && v.has("status"@) && v.at("status"@) != Datum::Text("succeeded"@)
            ==> super::elements(v).len() == 0,
        !v.has("result"@) && !(v.at("hits"@) is Array) && v.has("element"@) && v.at("id"@) is Text
            && v.at("element"@).at("id"@) == v.at("id"@) ==> super::elements(v) == super::elements(
            v.at("element"@),
        ),
        !v.has("result"@) && !(v.at("hits"@) is Array) && v.has("element"@) && v.at("id"@) is Text
            && v.at("element"@).at("id"@) != v.at("id"@) ==> super::elements(v).len() == 0,
{
    if v.at("status"@) is Text {
        assert(v.at("status"@) == Datum::Text(v.at("status"@)->Text_0));
    }
}

/// Of an envelope's results, one more returns its elements exactly where it succeeded; of
/// a list of hits, exactly where the hit's element is the one that it names.
pub proof fn only_successes_and_true_hits_return(results: Seq<Datum>, more: Datum)
    ensures
        more.at("status"@) == Datum::Text("succeeded"@) ==> super::succeeded_elements(
            results.push(more),
        ) == super::succeeded_elements(results) + super::elements(more),
        more.at("status"@) != Datum::Text("succeeded"@) ==> super::succeeded_elements(
            results.push(more),
        ) == super::succeeded_elements(results),
        more.at("id"@) is Text && more.has("element"@) && more.at("element"@).at("id"@) == more.at(
            "id"@,
        ) ==> super::hit_elements(results.push(more)) == super::hit_elements(results)
            + super::elements(more.at("element"@)),
        !more.has("element"@) || (more.at("id"@) is Text && more.at("element"@).at("id"@) != more.at(
            "id"@,
        )) ==> super::hit_elements(results.push(more)) == super::hit_elements(results),
{
    assert(results.push(more).drop_last() =~= results);
    if more.at("status"@) is Text {
        assert(more.at("status"@) == Datum::Text(more.at("status"@)->Text_0));
    }
    assert(super::succeeded_elements(results) + Seq::<Datum>::empty()
        =~= super::succeeded_elements(results));
    assert(super::hit_elements(results) + Seq::<Datum>::empty() =~= super::hit_elements(results));
}

/// An envelope of KIP 2.0 that succeeded, wholly or in part, returns what its results
/// return; hits return what the hits do.
pub proof fn envelopes_return_their_results(v: Datum, results: Seq<Datum>)
    requires
        v is Object,
        v.at("error"@) is Null,
    ensures
        v.at("kip"@) == Datum::Text("2.0"@) && (v.at("status"@) == Datum::Text("succeeded"@)
            || v.at("status"@) == Datum::Text("partial"@)) && v.at("results"@) == Datum::Array(
            results,
        ) ==> super::elements(v) == super::succeeded_elements(results),
        v.has("kip"@) && v.at("kip"@) != Datum::Text("2.0"@) ==> super::elements(v).len() == 0,
        v.has("kip"@) && v.at("status"@) != Datum::Text("succeeded"@) && v.at("status"@)
            != Datum::Text("partial"@) ==> super::elements(v).len() == 0,
        !v.has("kip"@) && !v.has("result"@) && v.at("hits"@) == Datum::Array(results)
            ==> super::elements(v) == super::hit_elements(results),
{
    if v.at("status"@) is Text {
        assert(v.at("status"@) == Datum::Text(v.at("status"@)->Text_0));
    }
    if v.at("kip"@) is Text {
        assert(v.at("kip"@) == Datum::Text(v.at("kip"@)->Text_0));
    }
}

// ---------------------------------------------------------------------------
// Payloads and footers
// ---------------------------------------------------------------------------

/// Braces count outside of strings only; a string ends at a quote that no backslash
/// escapes, and a backslash escapes only inside of one.
pub proof fn braces_count_outside_strings(n: Nesting, c: char)
    ensures
        n.quoted ==> n.after(c).depth == n.depth,
        n.quoted && n.escaped ==> n.after(c).quoted && !n.after(c).escaped,
        n.quoted && !n.escaped && c == '"' ==> !n.after(c).quoted && !n.after(c).escaped,
        n.quoted && !n.escaped && c == '\\' ==> n.after(c).quoted && n.after(c).escaped,
        n.quoted && !n.escaped && c != '"' && c != '\\' ==> n.after(c) == n,
        !n.quoted && c == '{' ==> n.after(c).depth == n.depth + 1 && !n.after(c).quoted,
        !n.quoted && c == '}' ==> n.after(c).depth == n.depth - 1 && !n.after(c).quoted,
        !n.quoted && c == '"' ==> n.after(c).quoted && n.after(c).depth == n.depth,
        !n.quoted && c != '{' && c != '}' && c != '"' ==> n.after(c) == n,
{
}

/// A payload is the first object of the text: it starts at the first opening brace and
/// ends with the closing brace that matches it. There is no other payload in the text.
pub proof fn payloads_are_the_first_object(text: Seq<char>, p: Seq<char>, q: Seq<char>)
    requires
        super::is_payload(text, p),
        super::is_payload(text, q),
    ensures
        p == q,
        p.len() >= 2,
        p[0] == '{',
        p.last() == '}',
        exists|start: int|
            0 <= start && start + p.len() <= text.len() && p == #[trigger] text.subrange(
                start,
                start + p.len(),
            ) && forall|k: int| 0 <= k < start ==> text[k] != '{',
{
    let (start, end) = choose|start: int, end: int| #[trigger]
        super::is_payload_at(text, start, end) && p == text.subrange(start, end + 1);
    let (other, stop) = choose|other: int, stop: int| #[trigger]
        super::is_payload_at(text, other, stop) && q == text.subrange(other, stop + 1);
    assert(start == other);
    if end < stop {
        assert(super::nesting(text.subrange(start, end + 1)).depth > 0);
    }
    if stop < end {
        assert(super::nesting(text.subrange(start, stop + 1)).depth > 0);
    }
    assert(p[0] == text[start]);
    let last = text.subrange(start, end + 1);
    let before = text.subrange(start, end);
    assert(last.drop_last() =~= before);
    if start == end {
        assert(before.len() == 0);
        assert(super::nesting(last) == super::nesting(before).after(last.last()));
        assert(last.last() == '{');
    } else {
        assert(super::nesting(before).depth > 0);
        assert(super::nesting(last) == super::nesting(before).after(last.last()));
    }
    assert(p =~= text.subrange(start, start + p.len()));
}

/// The answer is what stood before the self-report and what stood behind it, trimmed, with
/// a line break between where both are there; the report is what the tags enclose.
pub proof fn footers_are_taken_out(
    content: Seq<char>,
    open: int,
    close: int,
    answer: Seq<char>,
    report: Seq<char>,
)
    requires
        super::is_footer(content, open, close),
        super::footer_split(content, open, close, answer, report),
    ensures
        ({
            let before = text::trimmed(content.take(open));
            let after = text::trimmed(content.skip(close + "</memory_meta>"@.len()));
            &&& before.len() > 0 && after.len() > 0 ==> answer == before + "\n"@ + after
            &&& before.len() == 0 ==> answer == after
            &&& after.len() == 0 ==> answer == before
        }),
        report == content.subrange(open + "<memory_meta>"@.len(), close),
        content.subrange(open, open + "<memory_meta>"@.len()) == "<memory_meta>"@,
        content.subrange(close, close + "</memory_meta>"@.len()) == "</memory_meta>"@,
        open + "<memory_meta>"@.len() <= close,
{
    assert(RECALL_META_TAG_OPEN@ == "<memory_meta>"@);
    assert(RECALL_META_TAG_CLOSE@ == "</memory_meta>"@);
    let head = content.take(close);
    assert(head.subrange(open, open + "<memory_meta>"@.len()) =~= content.subrange(
        open,
        open + "<memory_meta>"@.len(),
    ));
}

// ---------------------------------------------------------------------------
// Counts
// ---------------------------------------------------------------------------

/// Counts are summed up to the machine's bound; a count that is missing leaves the sum
/// missing.
pub proof fn counts_are_summed(counts: Seq<Option<u64>>, more: u64)
    ensures
        super::counted_sum(Seq::empty()) == Some(0u64),
        super::counted_sum(counts) is Some ==> super::counted_sum(counts.push(Some(more))) == Some(
            if super::counted_sum(counts)->0 + more <= u64::MAX {
                (super::counted_sum(counts)->0 + more) as u64
            } else {
                u64::MAX
            },
        ),
        super::counted_sum(counts.push(None)) is None,
        super::counted_sum(counts) is None ==> super::counted_sum(counts.push(Some(more))) is None,
{
    assert(counts.push(Some(more)).drop_last() =~= counts);
    assert(counts.push(None).drop_last() =~= counts);
}

/// A count is a number, the only one of a list, or the result of an answer without error,
/// and its count where there is no result.
pub proof fn counts_are_found(v: Datum, inner: Datum, n: u64)
    ensures
        super::integer_in(Datum::Unsigned(n)) == Some(n),
        super::integer_in(Datum::Array(seq![inner])) == super::integer_in(inner),
        v is Object && v.at("error"@) is Null && v.has("result"@) ==> super::integer_in(v)
            == super::integer_in(v.at("result"@)),
        v is Object && v.at("error"@) is Null && !v.has("result"@) && v.has("count"@)
            ==> super::integer_in(v) == super::integer_in(v.at("count"@)),
        v is Object && !(v.at("error"@) is Null) ==> super::integer_in(v) is None,
        v is Array && v->Array_0.len() != 1 ==> super::integer_in(v) is None,
        v is Text || v is Null || v is Bool || v is Negative || v is Decimal ==> super::integer_in(
            v,
        ) is None,
{
    reveal_with_fuel(super::integer_in, 2);
    assert(seq![inner][0] == inner);
}

// ---------------------------------------------------------------------------
// Probes
// ---------------------------------------------------------------------------

/// A read gives back its result exactly where an envelope of KIP 2.0 succeeded without
/// error, with one operation that succeeded without error and has a result.
pub proof fn reads_give_their_result(response: ReadEnvelope)
    ensures
        ({
            let ok = response.kip@ == "2.0"@ && response.status is Succeeded && !response.error
                && response.results@.len() == 1;
            let first = response.results@[0];
            let r = probe::single_result(response);
            &&& r is Ok <==> ok && first.status is Succeeded && !first.error && first.result is Some
            &&& r is Ok ==> r->Ok_0 == first.result->0@
            &&& !ok ==> r == Err::<Datum, ProbeError>(ProbeError::EnvelopeFailed)
            &&& ok && (!(first.status is Succeeded) || first.error) ==> r == Err::<
                Datum,
                ProbeError,
            >(ProbeError::OperationFailed)
            &&& ok && first.status is Succeeded && !first.error && first.result is None ==> r
                == Err::<Datum, ProbeError>(ProbeError::NoResult)
        }),
{
}

/// A search that is observed holds the hits that were returned, each with the element that
/// it names; it is exhaustive only where the engine said so and no page remains.
pub proof fn searches_are_exhaustive_only_when_said(response: ReadEnvelope)
    ensures
        probe::search_of(response) matches Ok((hits, exhaustive)) ==> {
            &&& probe::single_result(response) is Ok
            &&& probe::single_result(response)->Ok_0.at("hits"@) == Datum::Array(hits)
            &&& probe::single_result(response)->Ok_0.at("search_context"@) is Object
            &&& forall|i: int|
                0 <= i < hits.len() ==> (#[trigger] hits[i]).at("id"@) is Text && hits[i].at(
                    "element"@,
                ).at("id"@) == hits[i].at("id"@) && hits[i].at("element"@) is Object
            &&& exhaustive == Some(true) ==> !response.next_cursor && probe::single_result(
                response,
            )->Ok_0.at("exhaustive"@) == Datum::Bool(true)
            &&& response.next_cursor ==> exhaustive == Some(false)
            &&& exhaustive is None ==> !probe::single_result(response)->Ok_0.has("exhaustive"@)
        },
{
    if probe::search_of(response) is Ok {
        let (hits, exhaustive) = probe::search_of(response)->Ok_0;
        assert forall|i: int| 0 <= i < hits.len() implies (#[trigger] hits[i]).at("id"@) is Text
            && hits[i].at("element"@).at("id"@) == hits[i].at("id"@) && hits[i].at("element"@)
            is Object by {
            assert(probe::hit_matches(hits[i]));
        }
    }
}

/// Rows are there once one is counted, and absent only where a complete read found none;
/// belief holds where it is accepted, does not where it is rejected, and is open else. A
/// search says neither.
pub proof fn observations_decide_only_what_they_show(o: ProbeObservation)
    ensures
        o matches ProbeObservation::Rows { count, complete } ==> {
            &&& count > 0 ==> o.presence() == Some(true)
            &&& count == 0 && complete ==> o.presence() == Some(false)
            &&& count == 0 && !complete ==> o.presence() is None
            &&& o.verdict() is None
        },
        o is Search ==> o.presence() is None && o.verdict() is None,
        o matches ProbeObservation::Belief { projection, .. } ==> {
            &&& o.presence() is None
            &&& projection.status is Accepted ==> o.verdict() == Some(true)
            &&& projection.status is Rejected ==> o.verdict() == Some(false)
            &&& projection.status is Contested || projection.status is Uncertain
                || projection.status is Insufficient ==> o.verdict() is None
        },
{
}

/// A belief is observed only of one row, the last one, that projects the variable that
/// the query binds to belief; its projection has a basis and one standing.
pub proof fn beliefs_are_observed_of_one_projection(
    find: Seq<kip::Find>,
    clauses: Seq<kip::Clause>,
    result: Datum,
    more: bool,
)
    ensures
        probe::belief_observed(find, clauses, result, more) matches Ok(o) ==> {
            &&& !more
            &&& result is Array && result->Array_0.len() == 1
            &&& o is Belief && o->Belief_1 == result->Array_0[0]
            &&& kip::projection_read(result->Array_0[0]) == Ok::<kip::Projection, Seq<char>>(
                o->Belief_0,
            )
            &&& o->Belief_0.basis is Some
            &&& o->Belief_0.slot_status is Some ==> o->Belief_0.slot_status->0
                == o->Belief_0.status
            &&& find.len() == 1 && find[0] is Variable && find[0]->Variable_1 == 0
            &&& exists|i: int|
                0 <= i < clauses.len() && #[trigger] clauses[i] == kip::Clause::Belief(
                    find[0]->Variable_0,
                )
        },
{
}

/// Raw rows are counted: by the one count that a counting query returns, else by the rows
/// themselves. The count is complete exactly where no page remains.
pub proof fn rows_are_counted(find: Seq<kip::Find>, result: Datum, more: bool)
    ensures
        ({
            let counting = find.len() == 1 && find[0] is Count;
            let r = probe::rows_observed(find, result, more);
            &&& r matches Ok(o) ==> o is Rows && o->Rows_1 == !more && result is Array
            &&& r is Ok && counting ==> result->Array_0.len() == 1 && result->Array_0[0]
                == Datum::Unsigned((r->Ok_0)->Rows_0 as u64)
            &&& r is Ok && !counting ==> (r->Ok_0)->Rows_0 == result->Array_0.len()
            &&& !(result is Array) <==> r == Err::<Observed, ProbeError>(
                ProbeError::FindWithoutRows,
            )
            &&& result is Array && !counting ==> r is Ok
        }),
{
}

/// What is observed follows the operation: a search its hits, a query with belief its
/// projection, any other query its rows. Nothing else is a probe.
pub proof fn observations_follow_the_operation(operation: kip::Operation, response: ReadEnvelope)
    ensures
        probe::observed(operation, response) matches Ok(o) ==> {
            &&& operation is Search <==> o is Search
            &&& operation is Query && probe::any_belief(operation->Query_1) <==> o is Belief
            &&& operation is Query && !probe::any_belief(operation->Query_1) <==> o is Rows
        },
        operation is Meta || operation is Write ==> probe::observed(operation, response) is Err,
        probe::observed(operation, response) is Ok && operation is Search ==> Datum::Array(
            (probe::search_of(response)->Ok_0).0,
        ) == probe::single_result(response)->Ok_0.at("hits"@) && (probe::observed(
            operation,
            response,
        )->Ok_0)->Search_0 == (probe::search_of(response)->Ok_0).0.len(),
{
}

/// A belief and a belief's slot project belief; a group does only where it holds a clause
/// that does, and nothing else does.
pub proof fn belief_is_found_in_groups(variable: Seq<char>, inner: Seq<kip::Clause>)
    ensures
        probe::projects_belief(kip::Clause::Belief(variable)),
        probe::projects_belief(kip::Clause::BeliefSlot),
        !probe::projects_belief(kip::Clause::Other),
        probe::projects_belief(kip::Clause::Group(inner)) ==> probe::any_belief(inner),
{
    reveal_with_fuel(probe::projects_belief, 2);
    let group = kip::Clause::Group(inner);
    if probe::projects_belief(group) {
        let i = choose|i: int|
            0 <= i < inner.len() && probe::projects_belief(#[trigger] inner[i]);
        assert(probe::projects_belief(inner[i]));
    }
}

/// A probe is one operation that can be read; what it observed is what the operation did.
pub proof fn probes_are_one_readable_operation(
    request: Seq<char>,
    response: ReadEnvelope,
)
    ensures
        ({
            let read = kip::request_read(request);
            let r = probe::probed(request, response);
            &&& read is Err <==> r == Err::<Observed, ProbeError>(ProbeError::InvalidRequest)
            &&& read is Ok && (read->Ok_0).len() != 1 ==> r == Err::<Observed, ProbeError>(
                ProbeError::NotOneOperation,
            )
            &&& read is Ok && (read->Ok_0).len() == 1 && probe::single_result(response) is Ok
                && (read->Ok_0)[0] is Err ==> r == Err::<Observed, ProbeError>(
                ProbeError::Unparsed,
            )
            &&& read is Ok && (read->Ok_0).len() == 1 && (read->Ok_0)[0] is Ok ==> r
                == probe::observed((read->Ok_0)[0]->Ok_0, response)
        }),
{
    let read = kip::request_read(request);
    if read is Ok {
        let list = read->Ok_0;
        let shapes = kip::request_of(request)->0;
        assert(shapes.len() == list.len());
        if list.len() == 1 {
            assert(shapes[0] == kip::parsed(list[0]));
        }
    }
}

/// A failure quotes what failed: the whole response, the operation's outcome, or the words
/// of whoever could not read it.
pub proof fn failures_quote_what_failed(request: Seq<char>, response: ReadEnvelope)
    ensures
        ProbeError::EnvelopeFailed.quoted(request, response) == response.shown@,
        response.results@.len() > 0 ==> ProbeError::OperationFailed.quoted(request, response)
            == response.results@[0].shown@,
        kip::request_read(request) matches Err(why) ==> ProbeError::InvalidRequest.quoted(
            request,
            response,
        ) == why,
        ProbeError::NoResult.quoted(request, response).len() == 0,
        ProbeError::WrongOperation.quoted(request, response).len() == 0,
{
}

/// A text is cut to its first characters.
pub proof fn texts_are_cut_at_the_end(s: Seq<char>, n: nat)
    ensures
        super::head(s, n).len() <= n,
        s.len() <= n ==> super::head(s, n) == s,
        s.len() > n ==> super::head(s, n).len() == n && forall|i: int|
            0 <= i < n ==> #[trigger] super::head(s, n)[i] == s[i],
{
}

} // verus!
