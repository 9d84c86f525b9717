//! What holds of a recall's trace and of the memories that it cites.

use vstd::prelude::*;

use super::{Message, Part, ToolTrace, Trace};
use crate::json::Datum;
use crate::nexus;

verus! {

// ---------------------------------------------------------------------------
// Calls and outputs
// ---------------------------------------------------------------------------

/// The call is open, is of that tool, and is the one that is meant, where one is.
pub open spec fn is_open(trace: Trace, name: Seq<char>, call_id: Option<Seq<char>>) -> bool {
    trace.output is None && trace.name == name && (call_id matches Some(id) ==> trace.call_id
        == Some(id))
}

proof fn the_latest_is_found(tools: Seq<Trace>, name: Seq<char>, call_id: Option<Seq<char>>)
    ensures
        match super::latest_waiting(tools, name, call_id) {
            Some(at) => 0 <= at < tools.len() && is_open(tools[at], name, call_id) && forall|i: int|
                at < i < tools.len() ==> !is_open(#[trigger] tools[i], name, call_id),
            None => forall|i: int|
                0 <= i < tools.len() ==> !is_open(#[trigger] tools[i], name, call_id),
        },
    decreases tools.len(),
{
    if tools.len() > 0 {
        let rest = tools.drop_last();
        the_latest_is_found(rest, name, call_id);
        assert(tools.last() == tools[tools.len() - 1]);
        assert forall|i: int| 0 <= i < rest.len() implies rest[i] == #[trigger] tools[i] by {}
    }
}

/// A call adds itself, open, at the end; nothing else changes.
pub proof fn calls_are_traced_open(tools: Seq<Trace>, part: Part)
    requires
        part is ToolCall,
    ensures
        super::traced(tools, part).len() == tools.len() + 1,
        forall|i: int| 0 <= i < tools.len() ==> #[trigger] super::traced(tools, part)[i] == tools[i],
        super::traced(tools, part).last().output is None,
        super::traced(tools, part).last().is_error is None,
        super::traced(tools, part).last().name == part->ToolCall_name@,
        super::traced(tools, part).last().args == part->args@,
        super::traced(tools, part).last().call_id == super::optional_text(part->ToolCall_call_id),
{
}

/// An output is kept with its own error mark by exactly one trace: the latest open call
/// of its tool and identity, which keeps its arguments, or one that is added where no
/// such call is open. Every other trace stays as it was.
pub proof fn outputs_are_traced_with_their_error(tools: Seq<Trace>, part: Part) -> (at: int)
    requires
        part is ToolOutput,
    ensures
        ({
            let after = super::traced(tools, part);
            let name = part->ToolOutput_name@;
            let call_id = super::optional_text(part->ToolOutput_call_id);
            &&& 0 <= at < after.len()
            &&& after[at].output == Some(part->output@)
            &&& after[at].is_error == part->is_error
            &&& after[at].name == name
            &&& forall|i: int| 0 <= i < tools.len() && i != at ==> #[trigger] after[i] == tools[i]
            &&& (exists|i: int| 0 <= i < tools.len() && is_open(#[trigger] tools[i], name, call_id))
                ==> {
                &&& after.len() == tools.len()
                &&& is_open(tools[at], name, call_id)
                &&& after[at].args == tools[at].args
                &&& after[at].call_id == tools[at].call_id
                &&& forall|i: int|
                    at < i < tools.len() ==> !is_open(#[trigger] tools[i], name, call_id)
            }
            &&& !(exists|i: int|
                0 <= i < tools.len() && is_open(#[trigger] tools[i], name, call_id)) ==> {
                &&& after.len() == tools.len() + 1
                &&& at == tools.len()
                &&& after[at].args == Datum::Null
                &&& after[at].call_id == call_id
            }
        }),
{
    let name = part->ToolOutput_name@;
    let call_id = super::optional_text(part->ToolOutput_call_id);
    the_latest_is_found(tools, name, call_id);
    match super::latest_waiting(tools, name, call_id) {
        Some(at) => at,
        None => tools.len() as int,
    }
}

/// One of the traces holds that output of that tool, under that error mark.
pub open spec fn holds_output(
    tools: Seq<Trace>,
    name: Seq<char>,
    output: Datum,
    is_error: Option<bool>,
) -> bool {
    exists|i: int|
        0 <= i < tools.len() && (#[trigger] tools[i]).name == name && tools[i].output == Some(output)
            && tools[i].is_error == is_error
}

/// The part is that output of that tool, under that error mark.
pub open spec fn is_output(
    part: Part,
    name: Seq<char>,
    output: Datum,
    is_error: Option<bool>,
) -> bool {
    part matches Part::ToolOutput { name: own, output: value, is_error: mark, .. } && own@ == name
        && value@ == output && mark == is_error
}

proof fn one_part_is_told(
    tools: Seq<Trace>,
    part: Part,
    name: Seq<char>,
    output: Datum,
    is_error: Option<bool>,
)
    ensures
        holds_output(super::traced(tools, part), name, output, is_error) <==> holds_output(
            tools,
            name,
            output,
            is_error,
        ) || is_output(part, name, output, is_error),
{
    let after = super::traced(tools, part);
    let at: int = if part is ToolOutput {
        outputs_are_traced_with_their_error(tools, part)
    } else {
        tools.len() as int
    };
    if holds_output(tools, name, output, is_error) {
        let i = choose|i: int|
            0 <= i < tools.len() && (#[trigger] tools[i]).name == name && tools[i].output == Some(
                output,
            ) && tools[i].is_error == is_error;
        assert(after[i] == tools[i]);
    }
    if is_output(part, name, output, is_error) {
        assert(after[at].name == name);
    }
    if holds_output(after, name, output, is_error) {
        let i = choose|i: int|
            0 <= i < after.len() && (#[trigger] after[i]).name == name && after[i].output == Some(
                output,
            ) && after[i].is_error == is_error;
        if i < tools.len() && i != at {
            assert(tools[i] == after[i]);
        }
    }
}

/// One of the parts is that output.
pub open spec fn tells_output(
    parts: Seq<Part>,
    name: Seq<char>,
    output: Datum,
    is_error: Option<bool>,
) -> bool {
    exists|k: int| 0 <= k < parts.len() && is_output(#[trigger] parts[k], name, output, is_error)
}

proof fn parts_are_told(
    tools: Seq<Trace>,
    parts: Seq<Part>,
    name: Seq<char>,
    output: Datum,
    is_error: Option<bool>,
)
    ensures
        holds_output(super::traced_parts(tools, parts), name, output, is_error) <==> holds_output(
            tools,
            name,
            output,
            is_error,
        ) || tells_output(parts, name, output, is_error),
    decreases parts.len(),
{
    if parts.len() > 0 {
        let rest = parts.drop_last();
        parts_are_told(tools, rest, name, output, is_error);
        one_part_is_told(
            super::traced_parts(tools, rest),
            parts.last(),
            name,
            output,
            is_error,
        );
        assert(parts.last() == parts[parts.len() - 1]);
        if tells_output(rest, name, output, is_error) {
            let k = choose|k: int|
                0 <= k < rest.len() && is_output(#[trigger] rest[k], name, output, is_error);
            assert(parts[k] == rest[k]);
        }
        if tells_output(parts, name, output, is_error) {
            let k = choose|k: int|
                0 <= k < parts.len() && is_output(#[trigger] parts[k], name, output, is_error);
            if k < rest.len() {
                assert(rest[k] == parts[k]);
            }
        }
    }
}

/// One of the messages tells that output.
pub open spec fn conversation_tells(
    messages: Seq<Message>,
    name: Seq<char>,
    output: Datum,
    is_error: Option<bool>,
) -> bool {
    exists|m: int|
        0 <= m < messages.len() && tells_output(
            (#[trigger] messages[m]).content@,
            name,
            output,
            is_error,
        )
}

/// The outputs of a trace are those of the conversation, each under the error mark that
/// it came with: none is lost, none is added, and none changes its mark.
pub proof fn traces_hold_what_was_told(
    messages: Seq<Message>,
    name: Seq<char>,
    output: Datum,
    is_error: Option<bool>,
)
    ensures
        holds_output(super::traced_messages(messages), name, output, is_error)
            <==> conversation_tells(messages, name, output, is_error),
    decreases messages.len(),
{
    if messages.len() > 0 {
        let rest = messages.drop_last();
        traces_hold_what_was_told(rest, name, output, is_error);
        parts_are_told(
            super::traced_messages(rest),
            messages.last().content@,
            name,
            output,
            is_error,
        );
        assert(messages.last() == messages[messages.len() - 1]);
        if conversation_tells(rest, name, output, is_error) {
            let m = choose|m: int|
                0 <= m < rest.len() && tells_output(
                    (#[trigger] rest[m]).content@,
                    name,
                    output,
                    is_error,
                );
            assert(messages[m] == rest[m]);
        }
        if conversation_tells(messages, name, output, is_error) {
            let m = choose|m: int|
                0 <= m < messages.len() && tells_output(
                    (#[trigger] messages[m]).content@,
                    name,
                    output,
                    is_error,
                );
            if m < rest.len() {
                assert(rest[m] == messages[m]);
            }
        }
    }
}

// ---------------------------------------------------------------------------
// Citations
// ---------------------------------------------------------------------------

/// The result returns that memory: a Concept, a Proposition or an Assertion.
pub open spec fn returns_memory(output: Datum, id: Seq<char>) -> bool {
    (id.len() > 0 && (id[0] == 'C' || id[0] == 'P' || id[0] == 'A')) && exists|e: int|
        0 <= e < super::elements(output).len() && (#[trigger] super::elements(output)[e]).text_at(
            "id"@,
        ) == Some(id)
}

/// A conversation has an output that returns that memory and is not marked as failed.
pub open spec fn conversation_returns(messages: Seq<Message>, id: Seq<char>) -> bool {
    exists|name: Seq<char>, output: Datum, is_error: Option<bool>| #[trigger]
        conversation_tells(messages, name, output, is_error) && is_error != Some(true)
            && returns_memory(output, id)
}

proof fn memories_are_returned(output: Datum, id: Seq<char>)
    ensures
        returns_memory(output, id) <==> exists|e: int|
            0 <= e < super::memories(super::elements(output)).len() && super::id_of(
                #[trigger] super::memories(super::elements(output))[e],
            ) == id,
{
    let all = super::elements(output);
    let kept = super::memories(all);
    let keep = |e: Datum| super::is_entity(super::id_of(e));
    filtered(all, keep);
    assert forall|e: int| 0 <= e < all.len() implies (#[trigger] all[e]).text_at("id"@) is Some
        && nexus::is_element(all[e].text_at("id"@)->0) by {
        super::only_returned_elements_are_collected(output, e);
    }
    if returns_memory(output, id) {
        let e = choose|e: int|
            0 <= e < all.len() && (#[trigger] all[e]).text_at("id"@) == Some(id);
        assert(nexus::is_element(id));
        assert(keep(all[e]));
        assert(kept.contains(all[e]));
        let k = choose|k: int| 0 <= k < kept.len() && kept[k] == all[e];
        assert(super::id_of(kept[k]) == id);
    }
    if exists|e: int| 0 <= e < kept.len() && super::id_of(#[trigger] kept[e]) == id {
        let k = choose|k: int| 0 <= k < kept.len() && super::id_of(#[trigger] kept[k]) == id;
        assert(keep(kept[k]) && all.contains(kept[k]));
        let e = choose|e: int| 0 <= e < all.len() && all[e] == kept[k];
        assert(all[e].text_at("id"@) == Some(id));
    }
}

proof fn filtered(list: Seq<Datum>, keep: spec_fn(Datum) -> bool)
    ensures
        forall|i: int|
            0 <= i < list.filter(keep).len() ==> keep(#[trigger] list.filter(keep)[i])
                && list.contains(list.filter(keep)[i]),
        forall|i: int|
            0 <= i < list.len() && keep(#[trigger] list[i]) ==> list.filter(keep).contains(list[i]),
    decreases list.len(),
{
    reveal(Seq::filter);
    if list.len() > 0 {
        let rest = list.drop_last();
        filtered(rest, keep);
        let after = list.filter(keep);
        let before = rest.filter(keep);
        assert(list.last() == list[list.len() - 1]);
        assert forall|i: int| 0 <= i < after.len() implies keep(#[trigger] after[i])
            && list.contains(after[i]) by {
            if i < before.len() {
                assert(after[i] == before[i]);
                let k = choose|k: int| 0 <= k < rest.len() && rest[k] == after[i];
                assert(list[k] == after[i]);
            } else {
                assert(list[list.len() - 1] == after[i]);
            }
        }
        assert forall|i: int| 0 <= i < list.len() && keep(#[trigger] list[i]) implies after.contains(
            list[i],
        ) by {
            if i < rest.len() {
                assert(rest[i] == list[i]);
                let k = choose|k: int| 0 <= k < before.len() && before[k] == list[i];
                assert(after[k] == list[i]);
            } else {
                assert(after[before.len() as int] == list[i]);
            }
        }
    }
}

/// What a recall cites is exactly what its conversation returned as a memory in an output
/// that did not fail: nothing that occurs in failed outputs alone is cited, and nothing
/// that was returned is left out. Each memory is cited once.
pub proof fn recalls_cite_what_succeeded(
    messages: Seq<Message>,
    tools: Seq<ToolTrace>,
    id: Seq<char>,
)
    requires
        super::traces(tools) == super::traced_messages(messages),
    ensures
        (exists|c: int|
            0 <= c < super::cited_tools(tools).len() && (#[trigger] super::cited_tools(
                tools,
            )[c]).entity == id) <==> conversation_returns(messages, id),
        super::retrieved(tools, id) <==> conversation_returns(messages, id),
        super::cited_once(super::cited_tools(tools)),
{
    super::citations_are_what_was_retrieved(tools, id);
    let all = super::traces(tools);
    if super::retrieved(tools, id) {
        let (t, e) = choose|t: int, e: int| #[trigger] super::retrieved_at(tools, id, t, e);
        let output = tools[t].output->0@;
        assert(all[t] == tools[t]@);
        assert(holds_output(all, all[t].name, output, all[t].is_error));
        traces_hold_what_was_told(messages, all[t].name, output, all[t].is_error);
        memories_are_returned(output, id);
        assert(conversation_tells(messages, all[t].name, output, all[t].is_error));
    }
    if conversation_returns(messages, id) {
        let (name, output, is_error) = choose|
            name: Seq<char>,
            output: Datum,
            is_error: Option<bool>,
        | #[trigger]
            conversation_tells(messages, name, output, is_error) && is_error != Some(true)
                && returns_memory(output, id);
        traces_hold_what_was_told(messages, name, output, is_error);
        memories_are_returned(output, id);
        let t = choose|t: int|
            0 <= t < all.len() && (#[trigger] all[t]).name == name && all[t].output == Some(output)
                && all[t].is_error == is_error;
        assert(all[t] == tools[t]@);
        let kept = super::memories(super::elements(output));
        let e = choose|e: int| 0 <= e < kept.len() && super::id_of(#[trigger] kept[e]) == id;
        assert(super::retrieved_at(tools, id, t, e));
    }
}

} // verus!
