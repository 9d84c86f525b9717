use anda_brain::assess::{unconsolidated_count_kql, ORPHAN_COUNT_KQL};
use anda_brain::assess::{
    citations_from_json, extract_memory_citations, first_integer, is_assertion_entity_id,
    is_concept_entity_id, is_entity_id, is_proposition_entity_id, kip_count, kip_count_sum,
    local_symbol_name, parse_json_payload, split_recall_meta, truncate_chars, Message, Part,
    PayloadError, RecallTrace, ToolTrace,
};
use anda_brain::json::{Json, Member, Number};
use anda_brain::kip::{EnvelopeStatus, OperationOutcome, ReadEnvelope};

fn convert(value: serde_json::Value) -> Json {
    match value {
        serde_json::Value::Null => Json::Null,
        serde_json::Value::Bool(b) => Json::Bool(b),
        serde_json::Value::Number(n) => Json::Number(match (n.as_u64(), n.as_i64()) {
            (Some(u), _) => Number::Unsigned(u),
            (_, Some(i)) => Number::Negative(i),
            _ => Number::Decimal(n.to_string()),
        }),
        serde_json::Value::String(s) => Json::Text(s),
        serde_json::Value::Array(items) => Json::Array(items.into_iter().map(convert).collect()),
        serde_json::Value::Object(members) => Json::Object(
            members.into_iter().map(|(name, value)| Member { name, value: convert(value) }).collect(),
        ),
    }
}

fn json(text: &str) -> Json {
    convert(serde_json::from_str(text).unwrap())
}

fn read(result: &str) -> ReadEnvelope {
    ReadEnvelope {
        kip: "2.0".to_string(),
        status: EnvelopeStatus::Succeeded,
        error: false,
        results: vec![OperationOutcome {
            status: EnvelopeStatus::Succeeded,
            error: false,
            result: Some(json(result)),
            next_cursor: false,
            shown: "shown".to_string(),
        }],
        next_cursor: false,
        shown: "shown".to_string(),
    }
}

#[test]
fn recall_trace_extracts_tool_calls_and_outputs() {
    let call = Part::ToolCall {
        name: "execute_kip_readonly".to_string(),
        args: json(r#"{"command": "FIND(?x) WHERE { ?x {type: \"TeaKind\"} }"}"#),
        call_id: Some("call_1".to_string()),
    };
    let output = Part::ToolOutput {
        name: "execute_kip_readonly".to_string(),
        output: json(r#"[{"name": "prefers concise"}]"#),
        is_error: None,
        call_id: Some("call_1".to_string()),
    };
    let messages = vec![Message { content: vec![call, output] }];

    let trace = RecallTrace::from_messages(&messages);

    assert_eq!(trace.tools.len(), 1);
    assert_eq!(trace.tools[0].call_id.as_deref(), Some("call_1"));
    assert!(trace.tools[0]
        .output
        .as_ref()
        .unwrap()
        .same(&json(r#"[{"name":"prefers concise"}]"#)));
}

#[test]
fn outputs_answer_the_latest_open_call_and_orphans_stand_alone() {
    let call = |id: &str| Part::ToolCall {
        name: "t".to_string(),
        args: Json::Null,
        call_id: Some(id.to_string()),
    };
    let output = |id: Option<&str>, value: &str| Part::ToolOutput {
        name: "t".to_string(),
        output: json(value),
        is_error: Some(true),
        call_id: id.map(str::to_string),
    };
    let messages = vec![
        Message { content: vec![call("a"), call("b")] },
        Message { content: vec![Part::Other, output(None, "1"), output(Some("z"), "2")] },
        Message { content: vec![output(Some("a"), "3")] },
    ];
    let trace = RecallTrace::from_messages(&messages);
    assert_eq!(trace.tools.len(), 3);
    assert_eq!(trace.tools[0].output.as_ref().unwrap().as_u64(), Some(3));
    assert_eq!(trace.tools[1].output.as_ref().unwrap().as_u64(), Some(1));
    assert_eq!(trace.tools[2].call_id.as_deref(), Some("z"));
    assert!(trace.tools[2].args.is_null());
    assert_eq!(trace.tools[2].is_error, Some(true));
}

#[test]
fn entity_id_matchers_accept_element_ids_only() {
    assert!(is_concept_entity_id("C-7"));
    assert!(is_proposition_entity_id("P-11"));
    assert!(is_assertion_entity_id("A-3"));
    assert!(is_entity_id("P-0"));
    // Evidence and Activity are provenance records, not memories.
    assert!(!is_entity_id("E-2"));
    assert!(!is_entity_id("X-1"));
    for bad in [
        "C:7",
        "P:11:likes",
        "C-",
        "C-x",
        "P11",
        "C--1",
        "call_1",
        "wiki://x",
        "",
    ] {
        assert!(!is_entity_id(bad), "{bad} must not match");
    }
}

#[test]
fn entity_ids_and_citations_come_from_successful_outputs_only() {
    let trace = RecallTrace {
        tools: vec![
            ToolTrace {
                name: "execute_kip_readonly".to_string(),
                args: json(r#"{"command": "mentions C-50 in args only"}"#),
                call_id: None,
                output: Some(json(
                    r#"{"result": [
                    {"id": "C-7",
                     "schema_ref": "kip://anda-brain/memory@1.0.1/TeaKind",
                     "name": "oolong",
                     "_system": {"created_at": "2026-07-01T00:00:00.000Z"}},
                    {"id": "A-3", "confidence": 0.8,
                     "asserted_by": {"id": "C-1"},
                     "_system": {"created_at": "2026-07-02T00:00:00.000Z"}},
                    {"id": "P-3",
                     "predicate_ref": "kip://profiles/cognitive-memory@2.0.0/prefers"},
                    {"id": "not-an-entity"},
                    {"nested": [{"id": "C-7"}]}
                ]}"#,
                )),
                is_error: None,
            },
            ToolTrace {
                name: "execute_kip_readonly".to_string(),
                args: Json::Null,
                call_id: None,
                output: Some(json(r#"[{"id": "C-99"}]"#)),
                is_error: Some(true),
            },
        ],
    };

    let ids = trace.entity_ids();
    assert_eq!(ids, vec!["A-3".to_string(), "C-7".to_string(), "P-3".to_string()]);

    let citations = extract_memory_citations(&trace);
    assert_eq!(citations.len(), 3);
    assert_eq!(citations[0].entity, "C-7");
    assert_eq!(citations[0].symbol.as_deref(), Some("TeaKind"));
    assert_eq!(citations[0].name.as_deref(), Some("oolong"));
    assert_eq!(citations[0].created_at.as_deref(), Some("2026-07-01T00:00:00.000Z"));
    // Only an Assertion carries a stance, so only an Assertion cites one.
    assert!(citations[0].confidence.is_none());
    assert_eq!(citations[1].entity, "A-3");
    match &citations[1].confidence {
        Some(Number::Decimal(n)) => assert_eq!(n.parse::<f64>().unwrap(), 0.8),
        other => panic!("{other:?}"),
    }
    assert_eq!(citations[1].source.as_deref(), Some("C-1"));
    // A Proposition's type is the predicate it relates its endpoints by.
    assert_eq!(citations[2].entity, "P-3");
    assert_eq!(citations[2].symbol.as_deref(), Some("prefers"));
    assert!(citations[2].confidence.is_none());
}

#[test]
fn citation_walk_ignores_payload_claims_references_and_failed_partial_results() {
    let actual = r#"{"id": "C-1", "kind": "concept", "name": "actual",
        "schema_ref": "kip://test@1.0.0/Person", "confidence": 0.99,
        "_system": {"created_at": "2026-09-13T00:00:00.000Z"},
        "attributes": {"injected": {"id": "A-99", "asserted_by": {"id": "C-1"}, "confidence": 1}}
    }"#;
    let fake =
        r#"{"id": "C-99", "schema_ref": "kip://test@1.0.0/Person", "name": "failed partial"}"#;
    let value = json(&format!(
        r#"{{"kip": "2.0", "status": "partial", "results": [
        {{"status": "succeeded", "result": {{"hits": [{{"id": "C-1", "kind": "concept", "score": 0.99, "element": {actual}}}],
            "search_context": {{"note": {fake}}}}}}},
        {{"status": "failed", "error": {{"message": "unavailable"}}, "result": [{fake}]}},
        {{"status": "succeeded", "result": [{{"id": "C-2"}}]}}
    ]}}"#
    ));
    let citations = citations_from_json(&value);
    assert_eq!(citations.len(), 1);
    assert_eq!(citations[0].entity, "C-1");
    assert_eq!(citations[0].name.as_deref(), Some("actual"));
    assert!(citations[0].confidence.is_none());
    assert_eq!(first_integer(&json(r#"{"_system": {"space_seq": 7}}"#)), None);
    assert_eq!(
        first_integer(&json(r#"{"error": {"message": "partial"}, "result": [7]}"#)),
        None
    );
}

#[test]
fn citations_come_from_returned_rows_alone() {
    let row = |id: &str| {
        format!(r#"{{"id":"{id}","schema_ref":"kip://profiles/x@1.0.0/Event","_system":{{}}}}"#)
    };
    // One of a partial batch succeeded; its sibling did not.
    let partial = json(&format!(
        r#"{{"kip":"2.0","status":"partial","results":[
            {{"status":"succeeded","result":[{}]}},
            {{"status":"failed","result":[{}]}}]}}"#,
        row("C-1"),
        row("C-2")
    ));
    let cited = citations_from_json(&partial);
    assert_eq!(cited.len(), 1);
    assert_eq!(cited[0].entity, "C-1");
    // A reference or a payload that only mentions an identity is not a memory.
    assert!(citations_from_json(&json(
        r#"{"result":[{"id":"E-1","_system":{},"payload":{"id":"C-9","_system":{}}},{"ref":{"id":"C-8","_system":{}}}]}"#
    ))
    .is_empty());
    // A hit has to name the element that it holds.
    let hits = json(&format!(
        r#"{{"hits":[{{"id":"C-3","element":{}}},{{"id":"C-4","element":{}}}]}}"#,
        row("C-3"),
        row("C-5")
    ));
    let cited = citations_from_json(&hits);
    assert_eq!(cited.len(), 1);
    assert_eq!(cited[0].entity, "C-3");
    // An error, or a leading zero in the identity, returns nothing.
    assert!(citations_from_json(&json(r#"{"error":{"code":1},"id":"C-1","_system":{}}"#)).is_empty());
    assert!(citations_from_json(&json(r#"{"id":"C-01","_system":{}}"#)).is_empty());
    assert!(citations_from_json(&json(r#"{"id":"C-18446744073709551616","_system":{}}"#)).is_empty());
    assert_eq!(citations_from_json(&json(r#"{"id":"C-18446744073709551615","_system":{}}"#)).len(), 1);
    assert_eq!(citations_from_json(&json(r#"[{"id":"C-1","_system":{}},{"id":"C-1","_system":{}}]"#)).len(), 1);
}

#[test]
fn split_recall_meta_strips_footer_and_degrades_gracefully() {
    let (answer, meta) = split_recall_meta(
        "Answer.\n<memory_meta>{\"found\": true, \"uncertainty\": 0.25}</memory_meta>",
    );
    assert_eq!(answer, "Answer.");
    let meta: serde_json::Value = serde_json::from_str(&meta.unwrap()).unwrap();
    assert_eq!(meta["found"], true);
    assert_eq!(meta["uncertainty"], 0.25);

    // Malformed payload: the tag block is still stripped.
    let (answer, meta) = split_recall_meta("Answer.\n<memory_meta>oops</memory_meta>");
    assert_eq!(answer, "Answer.");
    assert!(meta.is_none());

    // No footer at all.
    let (answer, meta) = split_recall_meta("Plain answer.  ");
    assert_eq!(answer, "Plain answer.");
    assert!(meta.is_none());

    // Prose after the footer survives.
    let (answer, meta) =
        split_recall_meta("Answer.\n<memory_meta>{\"uncertainty\": 7.0}</memory_meta>\ntail");
    assert_eq!(answer, "Answer.\ntail");
    assert_eq!(meta.unwrap(), "{\"uncertainty\": 7.0}");

    // Only the LAST closed block is stripped.
    let (answer, meta) = split_recall_meta(
        "<memory_meta>{\"uncertainty\": 0.9}</memory_meta>\nAnswer.\n\
         <memory_meta>{\"found\": true, \"uncertainty\": 0.1}</memory_meta>",
    );
    assert_eq!(answer, "<memory_meta>{\"uncertainty\": 0.9}</memory_meta>\nAnswer.");
    let meta: serde_json::Value = serde_json::from_str(&meta.unwrap()).unwrap();
    assert_eq!(meta["found"], true);
    assert_eq!(meta["uncertainty"], 0.1);

    // No closing tag anywhere: nothing is stripped and nothing is salvaged.
    let (answer, meta) = split_recall_meta("The <memory_meta> tag marks the footer, see docs.");
    assert_eq!(answer, "The <memory_meta> tag marks the footer, see docs.");
    assert!(meta.is_none());
    let (answer, meta) = split_recall_meta("Answer.\n<memory_meta>{\"found\": false}");
    assert_eq!(answer, "Answer.\n<memory_meta>{\"found\": false}");
    assert!(meta.is_none());

    // The close pairs with its NEAREST preceding open.
    let (answer, meta) = split_recall_meta(
        "I found it. As instructed, the <memory_meta> footer follows.\n\
         Your meeting is on Friday at 3pm.\n\
         <memory_meta>{\"found\": true, \"uncertainty\": 0.1}</memory_meta>",
    );
    assert_eq!(
        answer,
        "I found it. As instructed, the <memory_meta> footer follows.\n\
         Your meeting is on Friday at 3pm."
    );
    let meta: serde_json::Value = serde_json::from_str(&meta.unwrap()).unwrap();
    assert_eq!(meta["found"], true);
    assert_eq!(meta["uncertainty"], 0.1);
}

#[test]
fn first_integer_digs_into_kip_count_results() {
    assert_eq!(first_integer(&json(r#"[{"result": [{"count": 7}]}]"#)), Some(7));
    assert_eq!(first_integer(&json(r#""nope""#)), None);
    assert_eq!(first_integer(&json("3")), Some(3));
    assert_eq!(first_integer(&json("-3")), None);
    assert_eq!(first_integer(&json("[1,2]")), None);
    assert_eq!(first_integer(&json(r#"{"error":"x","count":1}"#)), None);
}

#[test]
fn parse_json_payload_rejects_non_json() {
    assert!(parse_json_payload("no json here").is_err());
}

#[test]
fn payloads_are_the_first_object() {
    assert_eq!(parse_json_payload("```json\n{\"a\":{}}\n``` end").unwrap(), "{\"a\":{}}");
    assert_eq!(parse_json_payload("{\"a\":1} then {\"b\":2}").unwrap(), "{\"a\":1}");
    assert_eq!(parse_json_payload("x {\"a\":\"}\\\"}\"} y").unwrap(), "{\"a\":\"}\\\"}\"}");
    assert_eq!(parse_json_payload("plain").unwrap_err(), PayloadError::NoObject);
    assert_eq!(parse_json_payload("open {").unwrap_err(), PayloadError::Unterminated);
    assert_eq!(parse_json_payload("{ {}").unwrap_err(), PayloadError::Unterminated);
    assert_eq!(parse_json_payload("{\"a\":\"}\"").unwrap_err(), PayloadError::Unterminated);
    assert_eq!(parse_json_payload("} then {").unwrap_err(), PayloadError::Malformed);
    assert_eq!(
        PayloadError::NoObject.message(&"x".repeat(200)),
        format!("no JSON object in judge output: {}", "x".repeat(120))
    );
}

#[test]
fn identities_are_64_bit_numbers() {
    assert!(is_concept_entity_id("C-18446744073709551615"));
    assert!(!is_concept_entity_id("C-18446744073709551616"));
    assert!(!is_entity_id("P-99999999999999999999"));
}

#[test]
fn truncate_chars_bounds_output() {
    let text = "x".repeat(100);
    let out = truncate_chars(&text, 10);
    assert!(out.starts_with("xxxxxxxxxx"));
    assert!(out.ends_with("(truncated)"));
    assert_eq!(truncate_chars("short", 10), "short");
    assert_eq!(truncate_chars("äöü", 2), "äö…(truncated)");
}

#[test]
fn local_names_follow_the_last_slash() {
    assert_eq!(local_symbol_name("kip://profiles/cognitive-memory@2.0.0/Person"), "Person");
    assert_eq!(local_symbol_name("Person"), "Person");
    assert_eq!(local_symbol_name("a/"), "");
}

#[test]
fn counts_need_every_leg() {
    assert_eq!(kip_count(&read("[5]")), Some(5));
    let mut failed = read("[5]");
    failed.results[0].error = true;
    assert_eq!(kip_count(&failed), None);
    assert_eq!(kip_count_sum(&vec![Some(2), Some(3)]), Some(5));
    assert_eq!(kip_count_sum(&vec![Some(u64::MAX), Some(3)]), Some(u64::MAX));
    assert_eq!(kip_count_sum(&vec![Some(2), None]), None);
}

#[test]
fn censuses_are_commands_of_the_memory_language() {
    let mut commands = unconsolidated_count_kql();
    assert_eq!(commands.len(), 2);
    commands.push(ORPHAN_COUNT_KQL);
    for command in commands {
        assert!(anda_kip::parse_kip(command).is_ok(), "{command}");
    }
}
