//! Online memory diagnostics and typed, read-only observations.
//!
//! Recall citations, metadata and status counters share these instruments. A
//! search describes retrieval; only an explicit projection of belief answers a
//! question about belief.

use vstd::prelude::*;
use vstd::string::*;

use crate::json::{Datum, Json, Number};
use crate::kip::ReadEnvelope;
use crate::nexus;
use crate::text;

pub mod laws;
pub mod probe;
pub mod reports;

verus! {

// ---------------------------------------------------------------------------
// Texts
// ---------------------------------------------------------------------------

/// The first characters of a text, at most that many.
pub open spec fn head(s: Seq<char>, n: nat) -> Seq<char> {
    if s.len() <= n {
        s
    } else {
        s.take(n as int)
    }
}

pub fn take_chars(s: &str, n: usize) -> (r: String)
    ensures
        r@ == head(s@, n as nat),
{
    let len: usize = s.unicode_len();
    if len <= n {
        s.to_owned()
    } else {
        let part = s.substring_char(0, n);
        assert(part@ =~= s@.take(n as int));
        part.to_owned()
    }
}

/// What a text ends with that was cut short.
pub const TRUNCATED: &'static str = "…(truncated)";

/// The text, or its first characters and a note that it was cut short.
pub fn truncate_chars(text: &str, max_chars: usize) -> (r: String)
    ensures
        r@ == if text@.len() <= max_chars {
            text@
        } else {
            text@.take(max_chars as int) + TRUNCATED@
        },
{
    if text.unicode_len() <= max_chars {
        return text.to_owned();
    }
    let mut out = take_chars(text, max_chars);
    out.append(TRUNCATED);
    out
}

/// How many characters of an output an error quotes.
pub const QUOTED: usize = 120;

/// Why a model's output holds no JSON object.
#[derive(Clone, Copy, Debug, PartialEq, Eq, Structural)]
pub enum PayloadError {
    NoObject,
    Unterminated,
    Malformed,
}

impl PayloadError {
    /// The words of the error.
    pub open spec fn words(self) -> Seq<char> {
        match self {
            PayloadError::NoObject => "no JSON object in judge output"@,
            PayloadError::Unterminated => "unterminated JSON object in judge output"@,
            PayloadError::Malformed => "malformed JSON object in judge output"@,
        }
    }

    /// What is reported of an output: the error, and how the output begins.
    pub fn message(&self, output: &str) -> (r: String)
        ensures
            r@ == self.words() + ": "@ + head(output@, QUOTED as nat),
    {
        let words = match self {
            PayloadError::NoObject => "no JSON object in judge output",
            PayloadError::Unterminated => "unterminated JSON object in judge output",
            PayloadError::Malformed => "malformed JSON object in judge output",
        };
        let mut out = words.to_owned();
        out.append(": ");
        out.append(take_chars(output, QUOTED).as_str());
        out
    }
}

/// How deep braces are nested, and whether a string is open and escapes its next
/// character.
pub struct Nesting {
    pub depth: int,
    pub quoted: bool,
    pub escaped: bool,
}

impl Nesting {
    /// One character further. Braces inside a string do not count.
    pub open spec fn after(self, c: char) -> Nesting {
        if self.quoted {
            if self.escaped {
                Nesting { escaped: false, ..self }
            } else if c == '\\' {
                Nesting { escaped: true, ..self }
            } else if c == '"' {
                Nesting { quoted: false, ..self }
            } else {
                self
            }
        } else if c == '"' {
            Nesting { quoted: true, ..self }
        } else if c == '{' {
            Nesting { depth: self.depth + 1, ..self }
        } else if c == '}' {
            Nesting { depth: self.depth - 1, ..self }
        } else {
            self
        }
    }
}

/// The nesting behind a text.
pub open spec fn nesting(s: Seq<char>) -> Nesting
    decreases s.len(),
{
    if s.len() == 0 {
        Nesting { depth: 0, quoted: false, escaped: false }
    } else {
        nesting(s.drop_last()).after(s.last())
    }
}

/// The first opening brace stands at `start`, and the brace that closes it at
/// `end`.
pub open spec fn is_payload_at(text: Seq<char>, start: int, end: int) -> bool {
    &&& is_first_brace(text, start)
    &&& start <= end < text.len()
    &&& nesting(text.subrange(start, end + 1)).depth == 0
    &&& stays_open(text, start, end)
}

pub open spec fn is_first_brace(text: Seq<char>, start: int) -> bool {
    0 <= start < text.len() && text[start] == '{' && forall|k: int|
        0 <= k < start ==> text[k] != '{'
}

/// What opens at `start` is not closed up to `end`.
pub open spec fn stays_open(text: Seq<char>, start: int, end: int) -> bool {
    forall|k: int| start < k <= end ==> nesting(#[trigger] text.subrange(start, k)).depth > 0
}

/// The first JSON object: from the first opening brace to the one that closes it.
pub open spec fn is_payload(text: Seq<char>, payload: Seq<char>) -> bool {
    exists|start: int, end: int| #[trigger]
        is_payload_at(text, start, end) && payload == text.subrange(start, end + 1)
}

/// The last closing brace comes before the first opening one.
pub open spec fn closes_before_it_opens(text: Seq<char>) -> bool {
    &&& text.contains('{') && text.contains('}')
    &&& forall|i: int, j: int|
        0 <= i < text.len() && 0 <= j < text.len() && text[i] == '{' && text[j] == '}' ==> j < i
}

/// The place behind the brace that closes what opens at `start`.
fn closing(text: &str, start: usize) -> (r: Option<usize>)
    requires
        is_first_brace(text@, start as int),
    ensures
        match r {
            Some(end) => start < end <= text@.len() && is_payload_at(text@, start as int, end - 1),
            None => stays_open(text@, start as int, text@.len() as int),
        },
{
    let chars = text::chars_of(text);
    let mut depth: usize = 0;
    let mut quoted = false;
    let mut escaped = false;
    let mut i: usize = start;
    let ghost s = start as int;
    assert(text@.subrange(s, s) =~= Seq::empty());
    while i < chars.len()
        invariant
            chars@ == text@,
            is_first_brace(text@, s),
            s == start,
            start <= i <= chars.len(),
            i > start ==> depth > 0,
            depth <= i - start,
            nesting(text@.subrange(s, i as int)) == (Nesting { depth: depth as int, quoted, escaped }),
            stays_open(text@, s, i as int),
            i == start ==> !quoted,
        decreases chars.len() - i,
    {
        let c = chars[i];
        proof {
            let next = text@.subrange(s, i + 1);
            assert(next.drop_last() =~= text@.subrange(s, i as int));
            assert(next.last() == c);
        }
        if quoted {
            if escaped {
                escaped = false;
            } else if c == '\\' {
                escaped = true;
            } else if c == '"' {
                quoted = false;
            }
        } else if c == '"' {
            quoted = true;
        } else if c == '{' {
            depth = depth + 1;
        } else if c == '}' {
            depth = depth - 1;
        }
        i = i + 1;
        assert(nesting(text@.subrange(s, i as int)) == (Nesting {
            depth: depth as int,
            quoted,
            escaped,
        }));
        if depth == 0 {
            return Some(i);
        }
    }
    None
}

/// The text of the first JSON object in a model's output, tolerating code fences
/// and prose around it.
pub fn parse_json_payload(text: &str) -> (r: Result<String, PayloadError>)
    ensures
        match r {
            Ok(payload) => is_payload(text@, payload@),
            Err(PayloadError::NoObject) => !text@.contains('{'),
            Err(PayloadError::Malformed) => closes_before_it_opens(text@),
            Err(PayloadError::Unterminated) => text@.contains('{') && !closes_before_it_opens(text@)
                && forall|payload: Seq<char>| !#[trigger] is_payload(text@, payload),
        },
        r is Err ==> forall|payload: Seq<char>| !#[trigger] is_payload(text@, payload),
{
    let start: usize = match text::find_char(text, '{') {
        Some(start) => start,
        None => {
            assert forall|payload: Seq<char>| !#[trigger] is_payload(text@, payload) by {
                if is_payload(text@, payload) {
                    let (a, b) = choose|a: int, b: int| #[trigger]
                        is_payload_at(text@, a, b) && payload == text@.subrange(a, b + 1);
                    assert(text@[a] == '{');
                }
            }
            return Err(PayloadError::NoObject);
        },
    };
    assert(is_first_brace(text@, start as int));
    match closing(text, start) {
        Some(end) => {
            assert(is_payload_at(text@, start as int, end - 1));
            Ok(text.substring_char(start, end).to_owned())
        },
        None => {
            assert forall|payload: Seq<char>| !#[trigger] is_payload(text@, payload) by {
                if is_payload(text@, payload) {
                    let (a, b) = choose|a: int, b: int| #[trigger]
                        is_payload_at(text@, a, b) && payload == text@.subrange(a, b + 1);
                    assert(a == start);
                    assert(nesting(text@.subrange(a, b + 1)).depth > 0);
                }
            }
            match text::rfind_char(text, '}') {
                Some(end) => if end < start {
                    Err(PayloadError::Malformed)
                } else {
                    assert(text@[end as int] == '}' && text@[start as int] == '{');
                    Err(PayloadError::Unterminated)
                },
                None => Err(PayloadError::Unterminated),
            }
        },
    }
}

// ---------------------------------------------------------------------------
// Identities
// ---------------------------------------------------------------------------

/// A kind tag, a hyphen and the decimal digits of a 64-bit number.
pub open spec fn is_tagged(value: Seq<char>, tag: char) -> bool {
    &&& value.len() > 2
    &&& value[0] == tag
    &&& value[1] == '-'
    &&& text::all_digits(value.skip(2))
    &&& text::numeral_value(value.skip(2)) <= u64::MAX
}

/// True for an element identity of that kind. The tag is the only type
/// information that a bare reference carries.
fn is_element_id(value: &str, tag: char) -> (r: bool)
    ensures
        r == is_tagged(value@, tag),
{
    let len: usize = value.unicode_len();
    if len <= 2 || value.get_char(0) != tag || value.get_char(1) != '-' {
        return false;
    }
    let rest = value.substring_char(2, len);
    assert(rest@ =~= value@.skip(2));
    if !text::digits_only(rest) {
        return false;
    }
    assert(rest@[0] != '+');
    assert(text::unsigned_digits(rest@) == rest@);
    text::parse_unsigned(rest).is_some()
}

/// True for Concept identities.
pub fn is_concept_entity_id(value: &str) -> (r: bool)
    ensures
        r == is_tagged(value@, 'C'),
{
    is_element_id(value, 'C')
}

/// True for Proposition identities.
pub fn is_proposition_entity_id(value: &str) -> (r: bool)
    ensures
        r == is_tagged(value@, 'P'),
{
    is_element_id(value, 'P')
}

/// True for Assertion identities.
pub fn is_assertion_entity_id(value: &str) -> (r: bool)
    ensures
        r == is_tagged(value@, 'A'),
{
    is_element_id(value, 'A')
}

/// An element that is cited and metered.
pub open spec fn is_entity(value: Seq<char>) -> bool {
    is_tagged(value, 'C') || is_tagged(value, 'P') || is_tagged(value, 'A')
}

/// True for any element that is cited or metered. Evidence and Activities are
/// left out: they are records of provenance rather than memories.
pub fn is_entity_id(value: &str) -> (r: bool)
    ensures
        r == is_entity(value@),
{
    is_concept_entity_id(value) || is_proposition_entity_id(value) || is_assertion_entity_id(value)
}

/// Evidence and Activities are never cited or metered as memories.
pub proof fn provenance_is_no_memory(value: Seq<char>)
    requires
        value.len() > 0,
        value[0] == 'E' || value[0] == 'X',
    ensures
        !is_entity(value),
{
}

/// What follows the last slash.
pub open spec fn local_name(reference: Seq<char>) -> Seq<char>
    decreases reference.len(),
{
    if reference.len() == 0 || reference.last() == '/' {
        Seq::empty()
    } else {
        local_name(reference.drop_last()).push(reference.last())
    }
}

/// The local name of a schema symbol: what a reader wants of a reference that
/// names one exact version.
pub fn local_symbol_name(reference: &str) -> (r: &str)
    ensures
        r@ == local_name(reference@),
{
    let v = text::chars_of(reference);
    let mut at: usize = v.len();
    while at > 0 && v[at - 1] != '/'
        invariant
            at <= v.len(),
            v@ == reference@,
            forall|k: int| at <= k < v.len() ==> reference@[k] != '/',
        decreases at,
    {
        at = at - 1;
    }
    proof {
        local_name_is_the_tail(reference@, at as int);
        assert(reference@.subrange(at as int, reference@.len() as int) =~= reference@.skip(
            at as int,
        ));
    }
    reference.substring_char(at, v.len())
}

proof fn local_name_is_the_tail(reference: Seq<char>, at: int)
    requires
        0 <= at <= reference.len(),
        at > 0 ==> reference[at - 1] == '/',
        forall|k: int| at <= k < reference.len() ==> reference[k] != '/',
    ensures
        local_name(reference) == reference.skip(at),
    decreases reference.len(),
{
    if reference.len() == 0 || at == reference.len() {
        assert(reference.skip(at) =~= Seq::empty());
        assert(local_name(reference) =~= Seq::empty());
    } else {
        local_name_is_the_tail(reference.drop_last(), at);
        assert(reference.skip(at) =~= reference.drop_last().skip(at).push(reference.last()));
    }
}

// ---------------------------------------------------------------------------
// Recall traces
// ---------------------------------------------------------------------------

/// One part of a message.
#[derive(Debug)]
pub enum Part {
    ToolCall { name: String, args: Json, call_id: Option<String> },
    ToolOutput { name: String, output: Json, is_error: Option<bool>, call_id: Option<String> },
    Other,
}

/// One message of a conversation.
#[derive(Debug)]
pub struct Message {
    pub content: Vec<Part>,
}

/// One call of a tool, and what it returned.
#[derive(Debug)]
pub struct ToolTrace {
    pub name: String,
    pub args: Json,
    pub call_id: Option<String>,
    pub output: Option<Json>,
    pub is_error: Option<bool>,
}

/// The tools that a recall called.
#[derive(Debug)]
pub struct RecallTrace {
    pub tools: Vec<ToolTrace>,
}

/// One call of a tool, through views.
pub struct Trace {
    pub name: Seq<char>,
    pub args: Datum,
    pub call_id: Option<Seq<char>>,
    pub output: Option<Datum>,
    pub is_error: Option<bool>,
}

pub open spec fn optional_text(s: Option<String>) -> Option<Seq<char>> {
    match s {
        Some(own) => Some(own@),
        None => None,
    }
}

impl View for ToolTrace {
    type V = Trace;

    open spec fn view(&self) -> Trace {
        Trace {
            name: self.name@,
            args: self.args@,
            call_id: optional_text(self.call_id),
            output: match self.output {
                Some(output) => Some(output@),
                None => None,
            },
            is_error: self.is_error,
        }
    }
}

pub open spec fn traces(tools: Seq<ToolTrace>) -> Seq<Trace> {
    tools.map_values(|t: ToolTrace| t@)
}

/// The call still waits for this output.
pub open spec fn awaits(trace: Trace, name: Seq<char>, call_id: Option<Seq<char>>) -> bool {
    trace.output is None && trace.name == name && (call_id is None || trace.call_id == call_id)
}

/// The latest call that waits for this output.
pub open spec fn latest_waiting(
    tools: Seq<Trace>,
    name: Seq<char>,
    call_id: Option<Seq<char>>,
) -> Option<int>
    decreases tools.len(),
{
    if tools.len() == 0 {
        None
    } else if awaits(tools.last(), name, call_id) {
        Some(tools.len() - 1)
    } else {
        latest_waiting(tools.drop_last(), name, call_id)
    }
}

/// The trace after one more part of a message.
pub open spec fn traced(tools: Seq<Trace>, part: Part) -> Seq<Trace> {
    match part {
        Part::ToolCall { name, args, call_id } => tools.push(
            Trace {
                name: name@,
                args: args@,
                call_id: optional_text(call_id),
                output: None,
                is_error: None,
            },
        ),
        Part::ToolOutput { name, output, is_error, call_id } => match latest_waiting(
            tools,
            name@,
            optional_text(call_id),
        ) {
            Some(at) => tools.update(
                at,
                Trace { output: Some(output@), is_error, ..tools[at] },
            ),
            None => tools.push(
                Trace {
                    name: name@,
                    args: Datum::Null,
                    call_id: optional_text(call_id),
                    output: Some(output@),
                    is_error,
                },
            ),
        },
        Part::Other => tools,
    }
}

pub open spec fn traced_parts(tools: Seq<Trace>, parts: Seq<Part>) -> Seq<Trace>
    decreases parts.len(),
{
    if parts.len() == 0 {
        tools
    } else {
        traced(traced_parts(tools, parts.drop_last()), parts.last())
    }
}

pub open spec fn traced_messages(messages: Seq<Message>) -> Seq<Trace>
    decreases messages.len(),
{
    if messages.len() == 0 {
        Seq::empty()
    } else {
        traced_parts(traced_messages(messages.drop_last()), messages.last().content@)
    }
}

fn find_waiting(tools: &Vec<ToolTrace>, name: &str, call_id: &Option<String>) -> (r: Option<usize>)
    ensures
        match r {
            Some(at) => at < tools.len() && latest_waiting(
                traces(tools@),
                name@,
                optional_text(*call_id),
            ) == Some(at as int),
            None => latest_waiting(traces(tools@), name@, optional_text(*call_id)) is None,
        },
{
    let ghost all = traces(tools@);
    let mut i: usize = tools.len();
    proof {
        assert(all.take(i as int) =~= all);
    }
    while i > 0
        invariant
            i <= tools.len(),
            all == traces(tools@),
            latest_waiting(all.take(i as int), name@, optional_text(*call_id)) == latest_waiting(
                all,
                name@,
                optional_text(*call_id),
            ),
        decreases i,
    {
        let tool = &tools[i - 1];
        proof {
            assert(all.take(i as int).last() == tools@[i - 1]@);
            assert(all.take(i as int).drop_last() =~= all.take(i - 1));
        }
        let same_call = match call_id {
            None => true,
            Some(id) => match &tool.call_id {
                Some(own) => text::same(own.as_str(), id.as_str()),
                None => false,
            },
        };
        if tool.output.is_none() && text::same(tool.name.as_str(), name) && same_call {
            return Some(i - 1);
        }
        i = i - 1;
    }
    None
}

fn trace_part(tools: &mut Vec<ToolTrace>, part: &Part)
    ensures
        traces(final(tools)@) == traced(traces(old(tools)@), *part),
{
    let ghost before = traces(tools@);
    match part {
        Part::ToolCall { name, args, call_id } => {
            tools.push(
                ToolTrace {
                    name: name.clone(),
                    args: args.copy(),
                    call_id: crate::runtime::optional_copy(call_id),
                    output: None,
                    is_error: None,
                },
            );
            assert(traces(tools@) =~= traced(before, *part));
        },
        Part::ToolOutput { name, output, is_error, call_id } => {
            match find_waiting(tools, name.as_str(), call_id) {
                Some(at) => {
                    let filled = ToolTrace {
                        name: tools[at].name.clone(),
                        args: tools[at].args.copy(),
                        call_id: crate::runtime::optional_copy(&tools[at].call_id),
                        output: Some(output.copy()),
                        is_error: *is_error,
                    };
                    tools.set(at, filled);
                    assert(traces(tools@) =~= traced(before, *part));
                },
                None => {
                    tools.push(
                        ToolTrace {
                            name: name.clone(),
                            args: Json::Null,
                            call_id: crate::runtime::optional_copy(call_id),
                            output: Some(output.copy()),
                            is_error: *is_error,
                        },
                    );
                    assert(traces(tools@) =~= traced(before, *part));
                },
            }
        },
        Part::Other => {},
    }
}

impl RecallTrace {
    /// The calls of a conversation, each with the output that answers it.
    pub fn from_messages(messages: &Vec<Message>) -> (r: RecallTrace)
        ensures
            traces(r.tools@) == traced_messages(messages@),
    {
        let mut tools: Vec<ToolTrace> = Vec::new();
        let mut i: usize = 0;
        proof {
            assert(messages@.take(0) =~= Seq::empty());
            assert(traces(tools@) =~= Seq::empty());
        }
        while i < messages.len()
            invariant
                i <= messages.len(),
                traces(tools@) == traced_messages(messages@.take(i as int)),
            decreases messages.len() - i,
        {
            let parts = &messages[i].content;
            let ghost start = traces(tools@);
            let mut k: usize = 0;
            proof {
                assert(parts@.take(0) =~= Seq::empty());
            }
            while k < parts.len()
                invariant
                    k <= parts.len(),
                    traces(tools@) == traced_parts(start, parts@.take(k as int)),
                decreases parts.len() - k,
            {
                trace_part(&mut tools, &parts[k]);
                k = k + 1;
                proof {
                    assert(parts@.take(k as int).drop_last() =~= parts@.take(k - 1));
                    assert(parts@.take(k as int).last() == parts@[k - 1]);
                }
            }
            i = i + 1;
            proof {
                assert(parts@.take(k as int) =~= parts@);
                assert(messages@.take(i as int).drop_last() =~= messages@.take(i - 1));
                assert(messages@.take(i as int).last() == messages@[i - 1]);
            }
        }
        proof {
            assert(messages@.take(i as int) =~= messages@);
        }
        RecallTrace { tools }
    }
}

// ---------------------------------------------------------------------------
// Elements in results
// ---------------------------------------------------------------------------

/// The response reports success, in full or in part.
pub open spec fn envelope_counts(v: Datum) -> bool {
    &&& v.text_at("kip"@) == Some("2.0"@)
    &&& v.text_at("status"@) == Some("succeeded"@) || v.text_at("status"@) == Some("partial"@)
}

/// An element that a read returned: an identity and the marks of a record.
pub open spec fn is_returned_element(v: Datum) -> bool {
    &&& v.text_at("id"@) matches Some(id) && nexus::is_element(id)
    &&& v.has("_system"@) || v.has("schema_ref"@) || v.has("predicate_ref"@) || v.has(
        "asserted_by"@,
    )
}

/// The elements that a result returns, in order: through the known containers of
/// the protocol alone. Attributes, payloads, explanations and references are not
/// taken for retrieved memories.
pub open spec fn elements(v: Datum) -> Seq<Datum>
    decreases v, 0int,
{
    match v {
        Datum::Array(items) => elements_of(items),
        Datum::Object(_) => {
            proof {
                v.member_is_smaller("results"@);
                v.member_is_smaller("result"@);
                v.member_is_smaller("hits"@);
                v.member_is_smaller("element"@);
            }
            if !(v.at("error"@) is Null) {
                Seq::empty()
            } else if v.has("kip"@) {
                match v.get("results"@) {
                    Some(results) => match results {
                        Datum::Array(list) => if envelope_counts(v) {
                            succeeded_elements(list)
                        } else {
                            Seq::empty()
                        },
                        _ => Seq::empty(),
                    },
                    None => Seq::empty(),
                }
            } else if v.has("result"@) {
                match v.get("result"@) {
                    Some(result) => if !v.has("status"@) || v.text_at("status"@) == Some(
                        "succeeded"@,
                    ) {
                        elements(result)
                    } else {
                        Seq::empty()
                    },
                    None => Seq::empty(),
                }
            } else if v.at("hits"@) is Array {
                match v.get("hits"@) {
                    Some(hits) => match hits {
                        Datum::Array(list) => hit_elements(list),
                        _ => Seq::empty(),
                    },
                    None => Seq::empty(),
                }
            } else if v.has("element"@) {
                match v.get("element"@) {
                    Some(element) => if v.text_at("id"@) == element.text_at("id"@) {
                        elements(element)
                    } else {
                        Seq::empty()
                    },
                    None => Seq::empty(),
                }
            } else if is_returned_element(v) {
                seq![v]
            } else {
                Seq::empty()
            }
        },
        _ => Seq::empty(),
    }
}

/// The elements of every item.
pub open spec fn elements_of(items: Seq<Datum>) -> Seq<Datum>
    decreases items, 0int,
{
    if items.len() == 0 {
        Seq::empty()
    } else {
        elements_of(items.drop_last()) + elements(items.last())
    }
}

/// The elements of the operations that are confirmed to have succeeded.
pub open spec fn succeeded_elements(results: Seq<Datum>) -> Seq<Datum>
    decreases results, 0int,
{
    if results.len() == 0 {
        Seq::empty()
    } else {
        succeeded_elements(results.drop_last()) + if results.last().text_at("status"@) == Some(
            "succeeded"@,
        ) {
            elements(results.last())
        } else {
            Seq::empty()
        }
    }
}

/// The elements of the hits that name what they hold.
pub open spec fn hit_elements(hits: Seq<Datum>) -> Seq<Datum>
    decreases hits, 0int,
{
    if hits.len() == 0 {
        Seq::empty()
    } else {
        let hit = hits.last();
        proof {
            hit.member_is_smaller("element"@);
        }
        hit_elements(hits.drop_last()) + match hit.get("element"@) {
            Some(element) => if hit.text_at("id"@) == element.text_at("id"@) {
                elements(element)
            } else {
                Seq::empty()
            },
            None => Seq::empty(),
        }
    }
}

/// The values behind a list of references.
pub open spec fn values(list: Seq<&Json>) -> Seq<Datum> {
    list.map_values(|j: &Json| j@)
}

/// Whether two values carry the same identity, or both carry none.
fn same_id(a: &Json, b: &Json) -> (r: bool)
    ensures
        r == (a@.text_at("id"@) == b@.text_at("id"@)),
{
    match (a.text_at("id"), b.text_at("id")) {
        (Some(x), Some(y)) => text::same(x, y),
        (None, None) => true,
        _ => false,
    }
}

/// Collects the elements that a result returns, records of provenance among
/// them.
pub fn collect_element_objects<'a>(value: &'a Json, found: &mut Vec<&'a Json>)
    ensures
        values(final(found)@) == values(old(found)@) + elements(value@),
    decreases value, 1int,
{
    let ghost before = values(found@);
    proof {
        value.view_of_parts();
    }
    match value {
        Json::Array(items) => {
            let ghost all = crate::json::items_view(items@);
            let mut i: usize = 0;
            proof {
                assert(all.take(0) =~= Seq::empty());
                assert(before + elements_of(all.take(0)) =~= before);
            }
            while i < items.len()
                invariant
                    i <= items.len(),
                    *value == Json::Array(*items),
                    all == crate::json::items_view(items@),
                    values(found@) == before + elements_of(all.take(i as int)),
                decreases items.len() - i,
            {
                proof {
                    value.item_is_smaller(i as int);
                }
                collect_element_objects(&items[i], found);
                i = i + 1;
                proof {
                    assert(all.take(i as int).drop_last() =~= all.take(i - 1));
                    assert(all.take(i as int).last() == items@[i - 1]@);
                    assert(values(found@) =~= before + elements_of(all.take(i as int)));
                }
            }
            proof {
                assert(all.take(i as int) =~= all);
            }
        },
        Json::Object(members) => {
            proof {
                assert(before + Seq::<Datum>::empty() =~= before);
            }
            if value.has_value("error") {
                return;
            }
            if value.has("kip") {
                collect_from_envelope(value, found);
                return;
            }
            if let Some(result) = value.get("result") {
                let counts = match value.get("status") {
                    None => true,
                    Some(status) => status.is_text("succeeded"),
                };
                if counts {
                    collect_element_objects(result, found);
                }
                return;
            }
            if let Some(hits) = value.get("hits") {
                if let Json::Array(list) = hits {
                    proof {
                        hits.view_of_parts();
                    }
                    let ghost all = crate::json::items_view(list@);
                    let mut i: usize = 0;
                    proof {
                        assert(all.take(0) =~= Seq::empty());
                        assert(before + hit_elements(all.take(0)) =~= before);
                    }
                    while i < list.len()
                        invariant
                            i <= list.len(),
                            *hits == Json::Array(*list),
                            decreases_to!(*value => *hits),
                            all == crate::json::items_view(list@),
                            values(found@) == before + hit_elements(all.take(i as int)),
                        decreases list.len() - i,
                    {
                        let hit = &list[i];
                        proof {
                            hits.item_is_smaller(i as int);
                            assert(all.take(i + 1).drop_last() =~= all.take(i as int));
                            assert(all.take(i + 1).last() == hit@);
                            assert(hit_elements(all.take(i as int)) + Seq::<Datum>::empty()
                                =~= hit_elements(all.take(i as int)));
                        }
                        if let Some(element) = hit.get("element") {
                            if same_id(hit, element) {
                                collect_element_objects(element, found);
                            }
                        }
                        i = i + 1;
                        assert(values(found@) =~= before + hit_elements(all.take(i as int)));
                    }
                    proof {
                        assert(all.take(i as int) =~= all);
                    }
                    return;
                }
            }
            if let Some(element) = value.get("element") {
                if same_id(value, element) {
                    collect_element_objects(element, found);
                }
                return;
            }
            let identified = match value.text_at("id") {
                Some(id) => nexus::element_id_valid(id),
                None => false,
            };
            if identified && (value.has("_system") || value.has("schema_ref") || value.has(
                "predicate_ref",
            ) || value.has("asserted_by")) {
                found.push(value);
                assert(values(found@) =~= before + seq![value@]);
            }
        },
        _ => {
            assert(before + Seq::<Datum>::empty() =~= before);
        },
    }
}

fn collect_from_envelope<'a>(value: &'a Json, found: &mut Vec<&'a Json>)
    requires
        value@ is Object,
        value@.at("error"@) is Null,
        value@.has("kip"@),
    ensures
        values(final(found)@) == values(old(found)@) + elements(value@),
    decreases value, 0int,
{
    let ghost before = values(found@);
    proof {
        value.view_of_parts();
        assert(before + Seq::<Datum>::empty() =~= before);
    }
    let counts = value.member_is("kip", "2.0") && (value.member_is("status", "succeeded")
        || value.member_is("status", "partial"));
    proof {
        assert(counts == envelope_counts(value@));
    }
    if !counts {
        return;
    }
    if let Some(results) = value.get("results") {
        if let Json::Array(list) = results {
            proof {
                results.view_of_parts();
            }
            let ghost all = crate::json::items_view(list@);
            let mut i: usize = 0;
            proof {
                assert(all.take(0) =~= Seq::empty());
                assert(before + succeeded_elements(all.take(0)) =~= before);
            }
            while i < list.len()
                invariant
                    i <= list.len(),
                    *results == Json::Array(*list),
                    decreases_to!(*value => *results),
                    all == crate::json::items_view(list@),
                    values(found@) == before + succeeded_elements(all.take(i as int)),
                decreases list.len() - i,
            {
                let result = &list[i];
                proof {
                    results.item_is_smaller(i as int);
                    assert(all.take(i + 1).drop_last() =~= all.take(i as int));
                    assert(all.take(i + 1).last() == result@);
                    assert(succeeded_elements(all.take(i as int)) + Seq::<Datum>::empty()
                        =~= succeeded_elements(all.take(i as int)));
                }
                if result.member_is("status", "succeeded") {
                    collect_element_objects(result, found);
                }
                i = i + 1;
                assert(values(found@) =~= before + succeeded_elements(all.take(i as int)));
            }
            proof {
                assert(all.take(i as int) =~= all);
            }
        }
    }
}

// ---------------------------------------------------------------------------
// Citations
// ---------------------------------------------------------------------------

/// The identity of a returned element.
pub open spec fn id_of(element: Datum) -> Seq<char> {
    match element.text_at("id"@) {
        Some(id) => id,
        None => Seq::empty(),
    }
}

/// The returned elements that are memories.
pub open spec fn memories(list: Seq<Datum>) -> Seq<Datum> {
    list.filter(|e: Datum| is_entity(id_of(e)))
}

/// Every one of these was returned as an element.
pub open spec fn all_returned(list: Seq<Datum>) -> bool {
    forall|i: int| 0 <= i < list.len() ==> is_returned_element(#[trigger] list[i])
}

proof fn both_returned(a: Seq<Datum>, b: Seq<Datum>)
    requires
        all_returned(a),
        all_returned(b),
    ensures
        all_returned(a + b),
{
    assert forall|i: int| 0 <= i < (a + b).len() implies is_returned_element(
        #[trigger] (a + b)[i],
    ) by {
        if i < a.len() {
            assert((a + b)[i] == a[i]);
        } else {
            assert((a + b)[i] == b[i - a.len()]);
        }
    }
}

proof fn elements_are_returned(v: Datum)
    ensures
        all_returned(elements(v)),
    decreases v, 1int,
{
    match v {
        Datum::Array(items) => {
            items_are_returned(items);
        },
        Datum::Object(_) => {
            v.member_is_smaller("results"@);
            v.member_is_smaller("result"@);
            v.member_is_smaller("hits"@);
            v.member_is_smaller("element"@);
            if let Some(Datum::Array(list)) = v.get("results"@) {
                succeeded_are_returned(list);
            }
            if let Some(result) = v.get("result"@) {
                elements_are_returned(result);
            }
            if let Some(Datum::Array(list)) = v.get("hits"@) {
                hits_are_returned(list);
            }
            if let Some(element) = v.get("element"@) {
                elements_are_returned(element);
            }
        },
        _ => {},
    }
}

proof fn items_are_returned(items: Seq<Datum>)
    ensures
        all_returned(elements_of(items)),
    decreases items, 1int,
{
    if items.len() > 0 {
        items_are_returned(items.drop_last());
        elements_are_returned(items.last());
        both_returned(elements_of(items.drop_last()), elements(items.last()));
    }
}

proof fn succeeded_are_returned(results: Seq<Datum>)
    ensures
        all_returned(succeeded_elements(results)),
    decreases results, 1int,
{
    if results.len() > 0 {
        succeeded_are_returned(results.drop_last());
        elements_are_returned(results.last());
        both_returned(succeeded_elements(results.drop_last()), elements(results.last()));
        both_returned(succeeded_elements(results.drop_last()), Seq::empty());
    }
}

proof fn hits_are_returned(hits: Seq<Datum>)
    ensures
        all_returned(hit_elements(hits)),
    decreases hits, 1int,
{
    if hits.len() > 0 {
        hits_are_returned(hits.drop_last());
        both_returned(hit_elements(hits.drop_last()), Seq::empty());
        hits.last().member_is_smaller("element"@);
        if let Some(element) = hits.last().get("element"@) {
            elements_are_returned(element);
            both_returned(hit_elements(hits.drop_last()), elements(element));
        }
    }
}

/// Whatever is collected is an element that a read returned: it carries an
/// identity and the marks of a record.
pub proof fn only_returned_elements_are_collected(v: Datum, i: int)
    requires
        0 <= i < elements(v).len(),
    ensures
        is_returned_element(elements(v)[i]),
{
    elements_are_returned(v);
}

/// A failed response, or one that carries an error, returns no elements.
pub proof fn failures_return_no_elements(v: Datum)
    requires
        v is Object,
        !(v.at("error"@) is Null) || (v.has("kip"@) && !envelope_counts(v)),
    ensures
        elements(v).len() == 0,
{
}

/// The returned elements of a result that are memories.
pub fn collect_entity_objects<'a>(value: &'a Json) -> (found: Vec<&'a Json>)
    ensures
        values(found@) == memories(elements(value@)),
{
    let mut all: Vec<&'a Json> = Vec::new();
    collect_element_objects(value, &mut all);
    let ghost seen = elements(value@);
    proof {
        assert(values(all@) =~= seen);
        reveal(Seq::filter);
    }
    let mut found: Vec<&'a Json> = Vec::new();
    let mut i: usize = 0;
    proof {
        assert(seen.take(0) =~= Seq::empty());
        assert(values(found@) =~= memories(seen.take(0)));
    }
    while i < all.len()
        invariant
            i <= all.len(),
            values(all@) == seen,
            values(found@) == memories(seen.take(i as int)),
        decreases all.len() - i,
    {
        let ghost before = values(found@);
        proof {
            reveal(Seq::filter);
            assert(seen.take(i + 1).drop_last() =~= seen.take(i as int));
            assert(seen.take(i + 1).last() == all@[i as int]@);
        }
        let element = all[i];
        let memory = match element.text_at("id") {
            Some(id) => is_entity_id(id),
            None => is_entity_id(""),
        };
        proof {
            reveal_strlit("");
            assert(""@ =~= Seq::empty());
        }
        if memory {
            found.push(element);
            assert(values(found@) =~= before.push(element@));
        }
        i = i + 1;
    }
    proof {
        assert(seen.take(i as int) =~= seen);
    }
    found
}

/// A memory that an answer rests on.
#[derive(Debug)]
pub struct MemoryCitation {
    pub entity: String,
    /// The local name of its type or predicate.
    pub symbol: Option<String>,
    pub name: Option<String>,
    /// The stance of an Assertion, as the engine wrote it.
    pub confidence: Option<Number>,
    /// Whose stance it is.
    pub source: Option<String>,
    pub created_at: Option<String>,
}

/// A citation, through views.
pub struct Citation {
    pub entity: Seq<char>,
    pub symbol: Option<Seq<char>>,
    pub name: Option<Seq<char>>,
    pub confidence: Option<Datum>,
    pub source: Option<Seq<char>>,
    pub created_at: Option<Seq<char>>,
}

pub open spec fn number_value(n: Number) -> Datum {
    match n {
        Number::Unsigned(u) => Datum::Unsigned(u),
        Number::Negative(i) => Datum::Negative(i),
        Number::Decimal(s) => Datum::Decimal(s@),
    }
}

impl View for MemoryCitation {
    type V = Citation;

    open spec fn view(&self) -> Citation {
        Citation {
            entity: self.entity@,
            symbol: optional_text(self.symbol),
            name: optional_text(self.name),
            confidence: match self.confidence {
                Some(n) => Some(number_value(n)),
                None => None,
            },
            source: optional_text(self.source),
            created_at: optional_text(self.created_at),
        }
    }
}

/// The identity that a reference names: a bare one, or the member of an object.
pub open spec fn reference_id(v: Datum) -> Option<Seq<char>> {
    match v {
        Datum::Text(id) => Some(id),
        Datum::Object(_) => v.text_at("id"@),
        _ => None,
    }
}

/// The citation of a memory: its type or predicate by the local name, its name,
/// the stance that only an Assertion has, whose stance it is, and when the
/// engine recorded it.
pub open spec fn cited(element: Datum) -> Citation {
    let id = id_of(element);
    let symbol = match element.get("schema_ref"@) {
        Some(reference) => reference.as_text(),
        None => element.text_at("predicate_ref"@),
    };
    Citation {
        entity: id,
        symbol: match symbol {
            Some(reference) => Some(local_name(reference)),
            None => None,
        },
        name: element.text_at("name"@),
        confidence: if is_tagged(id, 'A') && element.at("confidence"@).is_number() {
            Some(element.at("confidence"@))
        } else {
            None
        },
        source: match element.get("asserted_by"@) {
            Some(actor) => reference_id(actor),
            None => None,
        },
        created_at: element.at("_system"@).text_at("created_at"@),
    }
}

fn owned_text(s: Option<&str>) -> (r: Option<String>)
    ensures
        match s {
            Some(part) => r matches Some(own) && own@ == part@,
            None => r is None,
        },
{
    match s {
        Some(part) => Some(part.to_owned()),
        None => None,
    }
}

/// Reads a reference to an element.
fn element_reference(value: &Json) -> (r: Option<String>)
    ensures
        optional_text(r) == reference_id(value@),
{
    match value {
        Json::Text(id) => Some(id.clone()),
        Json::Object(_) => owned_text(value.text_at("id")),
        _ => None,
    }
}

fn number_of(value: &Json) -> (r: Option<Number>)
    ensures
        match r {
            Some(n) => value@.is_number() && number_value(n) == value@,
            None => !value@.is_number(),
        },
{
    match value {
        Json::Number(Number::Unsigned(u)) => Some(Number::Unsigned(*u)),
        Json::Number(Number::Negative(i)) => Some(Number::Negative(*i)),
        Json::Number(Number::Decimal(s)) => Some(Number::Decimal(s.clone())),
        _ => None,
    }
}

fn cite(element: &Json) -> (r: MemoryCitation)
    ensures
        r@ == cited(element@),
{
    let entity = match element.text_at("id") {
        Some(id) => id.to_owned(),
        None => String::new(),
    };
    let reference = match element.get("schema_ref") {
        Some(reference) => reference.as_text(),
        None => element.text_at("predicate_ref"),
    };
    let symbol = match reference {
        Some(reference) => Some(local_symbol_name(reference).to_owned()),
        None => None,
    };
    let confidence = if is_assertion_entity_id(entity.as_str()) {
        match element.get("confidence") {
            Some(value) => number_of(value),
            None => None,
        }
    } else {
        None
    };
    let source = match element.get("asserted_by") {
        Some(actor) => element_reference(actor),
        None => None,
    };
    let created_at = match element.get("_system") {
        Some(system) => owned_text(system.text_at("created_at")),
        None => None,
    };
    MemoryCitation {
        entity,
        symbol,
        name: owned_text(element.text_at("name")),
        confidence,
        source,
        created_at,
    }
}

pub open spec fn citations(list: Seq<MemoryCitation>) -> Seq<Citation> {
    list.map_values(|c: MemoryCitation| c@)
}

/// The entity is cited already.
pub open spec fn is_cited(list: Seq<Citation>, entity: Seq<char>) -> bool {
    exists|i: int| 0 <= i < list.len() && (#[trigger] list[i]).entity == entity
}

/// The citations with those of these memories added: each memory once, where it
/// is seen first.
pub open spec fn cited_all(list: Seq<Citation>, elements: Seq<Datum>) -> Seq<Citation>
    decreases elements.len(),
{
    if elements.len() == 0 {
        list
    } else {
        let before = cited_all(list, elements.drop_last());
        if is_cited(before, id_of(elements.last())) {
            before
        } else {
            before.push(cited(elements.last()))
        }
    }
}

fn already_cited(list: &Vec<MemoryCitation>, entity: &str) -> (r: bool)
    ensures
        r == is_cited(citations(list@), entity@),
{
    let mut i: usize = 0;
    while i < list.len()
        invariant
            i <= list.len(),
            forall|k: int| 0 <= k < i ==> (#[trigger] citations(list@)[k]).entity != entity@,
        decreases list.len() - i,
    {
        assert(citations(list@)[i as int].entity == list@[i as int].entity@);
        if text::same(list[i].entity.as_str(), entity) {
            return true;
        }
        i = i + 1;
    }
    false
}

fn collect_citations(value: &Json, list: &mut Vec<MemoryCitation>)
    ensures
        citations(final(list)@) == cited_all(
            citations(old(list)@),
            memories(elements(value@)),
        ),
{
    let found = collect_entity_objects(value);
    let ghost all = values(found@);
    let ghost start = citations(list@);
    let mut i: usize = 0;
    proof {
        assert(all.take(0) =~= Seq::empty());
    }
    while i < found.len()
        invariant
            i <= found.len(),
            all == values(found@),
            citations(list@) == cited_all(start, all.take(i as int)),
        decreases found.len() - i,
    {
        let element = found[i];
        proof {
            assert(all.take(i + 1).drop_last() =~= all.take(i as int));
            assert(all.take(i + 1).last() == element@);
        }
        let citation = cite(element);
        if !already_cited(list, citation.entity.as_str()) {
            let ghost before = citations(list@);
            list.push(citation);
            assert(citations(list@) =~= before.push(citation@));
        }
        i = i + 1;
    }
    proof {
        assert(all.take(i as int) =~= all);
    }
}

/// The citations of the tools that did not fail.
pub open spec fn cited_tools(tools: Seq<ToolTrace>) -> Seq<Citation>
    decreases tools.len(),
{
    if tools.len() == 0 {
        Seq::empty()
    } else {
        let before = cited_tools(tools.drop_last());
        match tools.last().output {
            Some(output) => if tools.last().is_error == Some(true) {
                before
            } else {
                cited_all(before, memories(elements(output@)))
            },
            None => before,
        }
    }
}

/// The memories that a recall retrieved, as its trace shows them. What a model
/// says about the identities that it used is never trusted.
pub fn extract_memory_citations(trace: &RecallTrace) -> (r: Vec<MemoryCitation>)
    ensures
        citations(r@) == cited_tools(trace.tools@),
{
    let mut list: Vec<MemoryCitation> = Vec::new();
    let mut i: usize = 0;
    proof {
        assert(trace.tools@.take(0) =~= Seq::empty());
        assert(citations(list@) =~= Seq::empty());
    }
    while i < trace.tools.len()
        invariant
            i <= trace.tools.len(),
            citations(list@) == cited_tools(trace.tools@.take(i as int)),
        decreases trace.tools.len() - i,
    {
        let tool = &trace.tools[i];
        proof {
            assert(trace.tools@.take(i + 1).drop_last() =~= trace.tools@.take(i as int));
            assert(trace.tools@.take(i + 1).last() == trace.tools@[i as int]);
        }
        let failed = match tool.is_error {
            Some(e) => e,
            None => false,
        };
        if !failed {
            if let Some(output) = &tool.output {
                collect_citations(output, &mut list);
            }
        }
        i = i + 1;
    }
    proof {
        assert(trace.tools@.take(i as int) =~= trace.tools@);
    }
    list
}

/// The memories found anywhere in one result.
pub fn citations_from_json(value: &Json) -> (r: Vec<MemoryCitation>)
    ensures
        citations(r@) == cited_all(Seq::empty(), memories(elements(value@))),
{
    let mut list: Vec<MemoryCitation> = Vec::new();
    assert(citations(list@) =~= Seq::empty());
    collect_citations(value, &mut list);
    list
}

/// The identities of the memories in the outputs of tools that did not fail.
pub open spec fn retrieved(tools: Seq<ToolTrace>, id: Seq<char>) -> bool {
    exists|t: int, e: int| #[trigger] retrieved_at(tools, id, t, e)
}

pub open spec fn retrieved_at(tools: Seq<ToolTrace>, id: Seq<char>, t: int, e: int) -> bool {
    &&& 0 <= t < tools.len()
    &&& tools[t].is_error != Some(true)
    &&& tools[t].output matches Some(output) && 0 <= e < memories(elements(output@)).len()
        && id_of(memories(elements(output@))[e]) == id
}

impl RecallTrace {
    /// The memories that a recall actually retrieved, in the order of their
    /// identities: the signal that usage is metered by.
    pub fn entity_ids(&self) -> (ids: Vec<String>)
        ensures
            text::is_sorted_set(text::views(ids@)),
            forall|id: Seq<char>| #[trigger]
                text::views(ids@).contains(id) <==> retrieved(self.tools@, id),
    {
        let mut ids: Vec<String> = Vec::new();
        let mut t: usize = 0;
        while t < self.tools.len()
            invariant
                t <= self.tools.len(),
                text::is_sorted_set(text::views(ids@)),
                forall|id: Seq<char>| #[trigger]
                    text::views(ids@).contains(id) <==> retrieved(
                        self.tools@.take(t as int),
                        id,
                    ),
            decreases self.tools.len() - t,
        {
            let tool = &self.tools[t];
            let failed = match tool.is_error {
                Some(e) => e,
                None => false,
            };
            let ghost earlier = self.tools@.take(t as int);
            let ghost now = self.tools@.take(t + 1);
            let ghost start = text::views(ids@);
            if !failed {
                if let Some(output) = &tool.output {
                    let found = collect_entity_objects(output);
                    let ghost all = memories(elements(output@));
                    let mut e: usize = 0;
                    while e < found.len()
                        invariant
                            e <= found.len(),
                            all == values(found@),
                            text::is_sorted_set(text::views(ids@)),
                            forall|id: Seq<char>| #[trigger]
                                text::views(ids@).contains(id) <==> start.contains(id) || exists|
                                    k: int,
                                |
                                    0 <= k < e && id_of(#[trigger] all[k]) == id,
                        decreases found.len() - e,
                    {
                        let ghost before = text::views(ids@);
                        assert(all[e as int] == found@[e as int]@);
                        match found[e].text_at("id") {
                            Some(id) => {
                                let _new = text::insert_sorted(&mut ids, id);
                                assert(id_of(all[e as int]) == id@);
                            },
                            None => {
                                proof {
                                    reveal_strlit("");
                                    assert(""@ =~= Seq::empty());
                                }
                                let _new = text::insert_sorted(&mut ids, "");
                            },
                        }
                        e = e + 1;
                        proof {
                            let last = id_of(all[e - 1]);
                            assert forall|id: Seq<char>| #[trigger]
                                text::views(ids@).contains(id) <==> start.contains(id) || exists|
                                    k: int,
                                |
                                    0 <= k < e && id_of(#[trigger] all[k]) == id by {
                                if before.contains(id) && !start.contains(id) {
                                    let k = choose|k: int|
                                        0 <= k < e - 1 && id_of(#[trigger] all[k]) == id;
                                    assert(0 <= k < e);
                                }
                                if exists|k: int| 0 <= k < e && id_of(#[trigger] all[k]) == id {
                                    let k = choose|k: int|
                                        0 <= k < e && id_of(#[trigger] all[k]) == id;
                                    if k < e - 1 {
                                        assert(before.contains(id));
                                    }
                                }
                            }
                        }
                    }
                }
            }
            t = t + 1;
            proof {
                assert forall|id: Seq<char>| #[trigger] text::views(ids@).contains(id)
                    <==> retrieved(now, id) by {
                    if retrieved(earlier, id) {
                        let (a, b) = choose|a: int, b: int| #[trigger]
                            retrieved_at(earlier, id, a, b);
                        assert(retrieved_at(now, id, a, b));
                    }
                    if retrieved(now, id) {
                        let (a, b) = choose|a: int, b: int| #[trigger]
                            retrieved_at(now, id, a, b);
                        if a < t - 1 {
                            assert(retrieved_at(earlier, id, a, b));
                        } else {
                            assert(now[a] == self.tools@[t - 1]);
                        }
                    }
                    if text::views(ids@).contains(id) && !start.contains(id) {
                        let output = self.tools@[t - 1].output->Some_0;
                        let all = memories(elements(output@));
                        let k = choose|k: int| 0 <= k < all.len() && id_of(#[trigger] all[k]) == id;
                        assert(retrieved_at(now, id, t - 1, k));
                    }
                }
            }
        }
        proof {
            assert(self.tools@.take(t as int) =~= self.tools@);
        }
        ids
    }
}

/// No entity is cited twice.
pub open spec fn cited_once(list: Seq<Citation>) -> bool {
    forall|i: int, j: int|
        0 <= i < j < list.len() ==> (#[trigger] list[i]).entity != (#[trigger] list[j]).entity
}

proof fn citing_all(list: Seq<Citation>, elements: Seq<Datum>, id: Seq<char>)
    requires
        cited_once(list),
    ensures
        cited_once(cited_all(list, elements)),
        is_cited(cited_all(list, elements), id) <==> is_cited(list, id) || exists|e: int|
            0 <= e < elements.len() && id_of(#[trigger] elements[e]) == id,
    decreases elements.len(),
{
    if elements.len() > 0 {
        let rest = elements.drop_last();
        citing_all(list, rest, id);
        let before = cited_all(list, rest);
        let after = cited_all(list, elements);
        let last = id_of(elements.last());
        assert(elements[elements.len() - 1] == elements.last());
        if exists|e: int| 0 <= e < rest.len() && id_of(#[trigger] rest[e]) == id {
            let e = choose|e: int| 0 <= e < rest.len() && id_of(#[trigger] rest[e]) == id;
            assert(id_of(elements[e]) == id);
        }
        if exists|e: int| 0 <= e < elements.len() && id_of(#[trigger] elements[e]) == id {
            let e = choose|e: int| 0 <= e < elements.len() && id_of(#[trigger] elements[e]) == id;
            if e < rest.len() {
                assert(id_of(rest[e]) == id);
            }
        }
        if is_cited(before, last) {
        } else {
            assert(after[before.len() as int].entity == last);
            if is_cited(before, id) {
                let i = choose|i: int| 0 <= i < before.len() && (#[trigger] before[i]).entity == id;
                assert(after[i].entity == id);
            }
            if is_cited(after, id) {
                let i = choose|i: int| 0 <= i < after.len() && (#[trigger] after[i]).entity == id;
                if i < before.len() {
                    assert(before[i].entity == id);
                }
            }
            assert forall|i: int, j: int| 0 <= i < j < after.len() implies (
            #[trigger] after[i]).entity != (#[trigger] after[j]).entity by {
                assert(before[i].entity == after[i].entity);
                if j < before.len() {
                    assert(before[j].entity == after[j].entity);
                }
            }
        }
    }
}

proof fn citing_tools(tools: Seq<ToolTrace>, id: Seq<char>)
    ensures
        cited_once(cited_tools(tools)),
        is_cited(cited_tools(tools), id) <==> retrieved(tools, id),
    decreases tools.len(),
{
    if tools.len() == 0 {
    } else {
        let rest = tools.drop_last();
        citing_tools(rest, id);
        let last = tools.len() - 1;
        if retrieved(rest, id) {
            let (t, e) = choose|t: int, e: int| #[trigger] retrieved_at(rest, id, t, e);
            assert(retrieved_at(tools, id, t, e));
        }
        if retrieved(tools, id) {
            let (t, e) = choose|t: int, e: int| #[trigger] retrieved_at(tools, id, t, e);
            if t < last {
                assert(retrieved_at(rest, id, t, e));
            }
        }
        if let Some(output) = tools.last().output {
            let all = memories(elements(output@));
            if tools.last().is_error != Some(true) {
                citing_all(cited_tools(rest), all, id);
                if exists|e: int| 0 <= e < all.len() && id_of(#[trigger] all[e]) == id {
                    let e = choose|e: int| 0 <= e < all.len() && id_of(#[trigger] all[e]) == id;
                    assert(retrieved_at(tools, id, last, e));
                }
            }
        }
    }
}

/// What is cited is exactly what the tools that did not fail returned as
/// memories, and each memory is cited once.
pub proof fn citations_are_what_was_retrieved(tools: Seq<ToolTrace>, id: Seq<char>)
    ensures
        cited_once(cited_tools(tools)),
        is_cited(cited_tools(tools), id) <==> retrieved(tools, id),
{
    citing_tools(tools, id);
}

// ---------------------------------------------------------------------------
// The self-report at the end of an answer
// ---------------------------------------------------------------------------

/// Opens the self-report of a recall.
pub const RECALL_META_TAG_OPEN: &'static str = "<memory_meta>";

/// Closes the self-report of a recall.
pub const RECALL_META_TAG_CLOSE: &'static str = "</memory_meta>";

/// The last closing tag stands at `close`, and the nearest opening tag before it
/// at `open`.
pub open spec fn is_footer(content: Seq<char>, open: int, close: int) -> bool {
    &&& text::occurs_at(content, RECALL_META_TAG_CLOSE@, close)
    &&& forall|k: int| k > close ==> !text::occurs_at(content, RECALL_META_TAG_CLOSE@, k)
    &&& text::occurs_at(content.take(close), RECALL_META_TAG_OPEN@, open)
    &&& forall|k: int|
        k > open ==> !text::occurs_at(content.take(close), RECALL_META_TAG_OPEN@, k)
}

/// There is no self-report to split off.
pub open spec fn no_footer(content: Seq<char>) -> bool {
    forall|open: int, close: int| !is_footer(content, open, close)
}

/// What stands before and after the self-report, joined by a line break where
/// both are there.
pub open spec fn joined(before: Seq<char>, after: Seq<char>) -> Seq<char> {
    if before.len() > 0 && after.len() > 0 {
        before + "\n"@ + after
    } else if before.len() > 0 {
        before
    } else {
        after
    }
}

/// The answer without the self-report, and the text between its tags.
pub open spec fn footer_split(
    content: Seq<char>,
    open: int,
    close: int,
    answer: Seq<char>,
    report: Seq<char>,
) -> bool {
    &&& answer == joined(
        text::trimmed(content.take(open)),
        text::trimmed(content.skip(close + RECALL_META_TAG_CLOSE@.len())),
    )
    &&& report == content.subrange(open + RECALL_META_TAG_OPEN@.len(), close)
}

/// The JSON object of a report, where there is one.
pub open spec fn has_payload(report: Seq<char>, payload: Option<Seq<char>>) -> bool {
    match payload {
        Some(p) => is_payload(report, p),
        None => forall|p: Seq<char>| !#[trigger] is_payload(report, p),
    }
}

/// Splits the self-report off an answer. The last closing tag and the nearest
/// opening tag before it delimit the one block that is taken out; everything
/// else stays in the answer. The second part is the JSON object of the report;
/// there is none where there is no report, or no object in it.
pub fn split_recall_meta(content: &str) -> (r: (String, Option<String>))
    ensures
        no_footer(content@) ==> r.0@ == text::trimmed_end(content@) && r.1 is None,
        !no_footer(content@) ==> exists|open: int, close: int, report: Seq<char>| #[trigger]
            footer_split(content@, open, close, r.0@, report) && is_footer(content@, open, close)
                && has_payload(report, optional_text(r.1)),
{
    let len: usize = content.unicode_len();
    let close: usize = match text::rfind(content, RECALL_META_TAG_CLOSE) {
        Some(close) => close,
        None => {
            assert(no_footer(content@));
            return (text::trim_end(content).to_owned(), None);
        },
    };
    let head = content.substring_char(0, close);
    assert(head@ =~= content@.take(close as int));
    let open: usize = match text::rfind(head, RECALL_META_TAG_OPEN) {
        Some(open) => open,
        None => {
            assert forall|o: int, c: int| !is_footer(content@, o, c) by {
                if is_footer(content@, o, c) {
                    assert(c == close);
                }
            }
            return (text::trim_end(content).to_owned(), None);
        },
    };
    assert(is_footer(content@, open as int, close as int));
    let open_len: usize = RECALL_META_TAG_OPEN.unicode_len();
    let close_len: usize = RECALL_META_TAG_CLOSE.unicode_len();
    let report = content.substring_char(open + open_len, close);
    let payload = match parse_json_payload(report) {
        Ok(payload) => Some(payload),
        Err(_) => None,
    };
    assert(has_payload(report@, optional_text(payload)));
    let before = text::trim(content.substring_char(0, open));
    let after = text::trim(content.substring_char(close + close_len, len));
    proof {
        assert(content@.subrange(0, open as int) =~= content@.take(open as int));
        assert(content@.subrange(close + close_len, len as int) =~= content@.skip(
            close + close_len,
        ));
    }
    let answer = if !before.is_empty() && !after.is_empty() {
        let mut joined = before.to_owned();
        joined.append("\n");
        joined.append(after);
        joined
    } else if !before.is_empty() {
        before.to_owned()
    } else {
        after.to_owned()
    };
    let r = (answer, payload);
    proof {
        let o = open as int;
        let c = close as int;
        assert(footer_split(content@, o, c, r.0@, report@));
        assert(is_footer(content@, o, c));
        assert(has_payload(report@, optional_text(r.1)));
    }
    r
}

/// Splitting takes out one tagged block and white space, and loses nothing else:
/// what stood before the block and what stood after it are both in the answer,
/// in order.
pub proof fn splitting_loses_no_content(
    content: Seq<char>,
    open: int,
    close: int,
    answer: Seq<char>,
    report: Seq<char>,
)
    requires
        is_footer(content, open, close),
        footer_split(content, open, close, answer, report),
    ensures
        content == content.take(open) + RECALL_META_TAG_OPEN@ + report + RECALL_META_TAG_CLOSE@
            + content.skip(close + RECALL_META_TAG_CLOSE@.len()),
        answer == text::trimmed(content.take(open)) + answer.skip(
            text::trimmed(content.take(open)).len() as int,
        ),
        answer == answer.take(
            answer.len() - text::trimmed(
                content.skip(close + RECALL_META_TAG_CLOSE@.len()),
            ).len(),
        ) + text::trimmed(content.skip(close + RECALL_META_TAG_CLOSE@.len())),
{
    let before = text::trimmed(content.take(open));
    let after = text::trimmed(content.skip(close + RECALL_META_TAG_CLOSE@.len()));
    let start = open + RECALL_META_TAG_OPEN@.len();
    let end = close + RECALL_META_TAG_CLOSE@.len();
    assert(content.take(close).subrange(open, start) =~= content.subrange(open, start));
    assert(content =~= content.take(open) + content.subrange(open, start) + content.subrange(
        start,
        close,
    ) + content.subrange(close, end) + content.skip(end));
    assert(answer =~= before + answer.skip(before.len() as int));
    assert(answer =~= answer.take(answer.len() - after.len()) + after);
}

// ---------------------------------------------------------------------------
// Counts
// ---------------------------------------------------------------------------

/// The first integer of a count result: the number itself, or what a container
/// of one, or a result without an error, holds.
pub open spec fn integer_in(v: Datum) -> Option<u64>
    decreases v,
{
    match v {
        Datum::Unsigned(n) => Some(n),
        Datum::Array(items) => if items.len() == 1 {
            integer_in(items[0])
        } else {
            None
        },
        Datum::Object(_) => {
            proof {
                v.member_is_smaller("result"@);
                v.member_is_smaller("count"@);
            }
            if !(v.at("error"@) is Null) {
                None
            } else {
                match v.get("result"@) {
                    Some(result) => integer_in(result),
                    None => match v.get("count"@) {
                        Some(count) => integer_in(count),
                        None => None,
                    },
                }
            }
        },
        _ => None,
    }
}

pub fn first_integer(value: &Json) -> (r: Option<u64>)
    ensures
        r == integer_in(value@),
    decreases value,
{
    proof {
        value.view_of_parts();
    }
    match value {
        Json::Number(_) => value.as_u64(),
        Json::Array(items) => {
            if items.len() == 1 {
                proof {
                    value.item_is_smaller(0);
                }
                assert(crate::json::items_view(items@)[0] == items@[0]@);
                first_integer(&items[0])
            } else {
                None
            }
        },
        Json::Object(_) => {
            if value.has_value("error") {
                return None;
            }
            match value.get("result") {
                Some(result) => first_integer(result),
                None => match value.get("count") {
                    Some(count) => first_integer(count),
                    None => None,
                },
            }
        },
        _ => None,
    }
}

/// The count that a read returned; a read that failed counts nothing.
pub open spec fn counted(response: ReadEnvelope) -> Option<u64> {
    match probe::single_result(response) {
        Ok(result) => integer_in(result),
        Err(_) => None,
    }
}

/// The count that a read returned. There is none where the read failed: a
/// missing census is never taken for a clean one.
pub fn kip_count(response: &ReadEnvelope) -> (r: Option<u64>)
    ensures
        r == counted(*response),
{
    match probe::single_read_result(response) {
        Ok(result) => first_integer(result),
        Err(_) => None,
    }
}

/// The sum of counts, bounded by the greatest number; none if one is missing.
pub open spec fn counted_sum(counts: Seq<Option<u64>>) -> Option<u64>
    decreases counts.len(),
{
    if counts.len() == 0 {
        Some(0)
    } else {
        match (counted_sum(counts.drop_last()), counts.last()) {
            (Some(total), Some(n)) => Some(
                if total + n <= u64::MAX {
                    (total + n) as u64
                } else {
                    u64::MAX
                },
            ),
            _ => None,
        }
    }
}

proof fn a_missing_count_stays_missing(counts: Seq<Option<u64>>, i: int)
    requires
        0 <= i < counts.len(),
        counts[i] is None,
    ensures
        counted_sum(counts) is None,
    decreases counts.len(),
{
    if i < counts.len() - 1 {
        a_missing_count_stays_missing(counts.drop_last(), i);
    }
}

/// Counts the Events that no formation or consolidation took as its input.
pub const UNCONSOLIDATED_EVENTS_KQL: &'static str = "FIND(COUNT(?x)) WHERE { ?x CONCEPT {type: \"Event\"} NOT { ?a ACTIVITY {} STRUCTURAL (?a, \"inputs\", ?x) STRUCTURAL (?a, \"outputs\", ?to) FILTER(?a.activity_class == \"experience_formation\" || ?a.activity_class == \"semantic_consolidation\" || ?a.activity_class == \"procedural_consolidation\") } }";

/// Counts the Experiences that no formation or consolidation took as its input.
pub const UNCONSOLIDATED_EXPERIENCES_KQL: &'static str = "FIND(COUNT(?x)) WHERE { ?x CONCEPT {type: \"Experience\"} NOT { ?a ACTIVITY {} STRUCTURAL (?a, \"inputs\", ?x) STRUCTURAL (?a, \"outputs\", ?to) FILTER(?a.activity_class == \"experience_formation\" || ?a.activity_class == \"semantic_consolidation\" || ?a.activity_class == \"procedural_consolidation\") } }";

/// Counts the Concepts that no Proposition mentions on either side.
pub const ORPHAN_COUNT_KQL: &'static str = "FIND(COUNT(?c)) WHERE { ?c CONCEPT {} NOT { (?c, ?out, ?o) } NOT { (?s, ?in, ?c) } }";

/// The commands whose counts add up to what maintenance still owes.
pub fn unconsolidated_count_kql() -> (r: Vec<&'static str>)
    ensures
        r@ == seq![UNCONSOLIDATED_EVENTS_KQL, UNCONSOLIDATED_EXPERIENCES_KQL],
{
    let mut commands: Vec<&'static str> = Vec::new();
    commands.push(UNCONSOLIDATED_EVENTS_KQL);
    commands.push(UNCONSOLIDATED_EXPERIENCES_KQL);
    commands
}

/// Sums a group of counts; a partial sum is never taken for a census.
pub fn kip_count_sum(counts: &Vec<Option<u64>>) -> (r: Option<u64>)
    ensures
        r == counted_sum(counts@),
{
    let mut total: u64 = 0;
    let mut i: usize = 0;
    proof {
        assert(counts@.take(0) =~= Seq::empty());
    }
    while i < counts.len()
        invariant
            i <= counts.len(),
            counted_sum(counts@.take(i as int)) == Some(total),
        decreases counts.len() - i,
    {
        proof {
            assert(counts@.take(i + 1).drop_last() =~= counts@.take(i as int));
            assert(counts@.take(i + 1).last() == counts@[i as int]);
        }
        match counts[i] {
            Some(n) => {
                total = total.saturating_add(n);
            },
            None => {
                proof {
                    a_missing_count_stays_missing(counts@, i as int);
                }
                return None;
            },
        }
        i = i + 1;
    }
    proof {
        assert(counts@.take(i as int) =~= counts@);
    }
    Some(total)
}

} // verus!
