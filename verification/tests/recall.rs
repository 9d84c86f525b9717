use anda_brain::json::{Json, Member, Number};
use anda_brain::kip::{CommandShape, Limit};
use anda_brain::recall::compact::{memory, primer};
use anda_brain::recall::delivery::{
    bound_operations, bound_read, bound_wiki_search, capped_limit, delivery_failure,
    expire_procedure_checks, expired_while_packing, may_pack, normalized_request, plan_refresh,
    procedure_checked, BudgetError, LimitError, PlannerRequest,
};
use anda_brain::recall::material::{
    contains_program, discover_skills, make_id, Failure, Material, Procedure, MAX_ROWS, PROFILE,
};
use anda_brain::recall::passes::{
    conclude, fall_back, falls_back, judge_call, judge_reply, may_call, passes, read_done,
    read_selection, weigh, Admission, CallStep, ModelReply, Planner, ReplyStep, ToolCall,
    ToolResult,
};
use anda_brain::recall::planner::{
    check_input, constraints_read, context_read, discovery_read, host_note, required_verdict,
    Discovery, InputError,
};
use anda_brain::recall::packet::PacketFormat;
use anda_brain::recall::ranks::{rank_slot, ContentPin};
use anda_brain::recall::requests::{selector, BoundedCall, Terms};
use anda_brain::recall::session::{
    check_input_size, failure_reason, instructions, max_model_turns, recall_time_remaining,
    shown_history, timeout_message, ConversationStatus, PastConversation, RecallFailure, Turns,
    NAME, READONLY_KIP_TIMEOUT_SECS,
};
use anda_brain::recall::{budgeted, prose};
use anda_brain::recall::{Channel, MemoryItem, Priority, RecallBudget, TOKENIZER};

fn convert(value: serde_json::Value) -> Json {
    match value {
        serde_json::Value::Null => Json::Null,
        serde_json::Value::Bool(b) => Json::Bool(b),
        serde_json::Value::Number(n) => Json::Number(match (n.as_u64(), n.as_i64()) {
            (Some(u), _) => Number::Unsigned(u),
            (_, Some(i)) => Number::Negative(i),
            _ => Number::Decimal(n.to_string()),
        }),
        serde_json::Value::String(s) => Json::Text(s),
        serde_json::Value::Array(items) => Json::Array(items.into_iter().map(convert).collect()),
        serde_json::Value::Object(members) => Json::Object(
            members.into_iter().map(|(name, value)| Member { name, value: convert(value) }).collect(),
        ),
    }
}

fn json(text: &str) -> Json {
    convert(serde_json::from_str(text).unwrap())
}

fn back(value: &Json) -> serde_json::Value {
    serde_json::from_str(&value.to_text()).unwrap()
}

fn strings(list: &[&str]) -> Vec<String> {
    list.iter().map(|s| s.to_string()).collect()
}

const LATE: &str = "2098-01-01T00:00:00.000Z";
const LATER: &str = "2099-01-01T00:00:00.000Z";

// Limits and expiry

#[test]
fn readonly_kip_timeout_stays_bounded() {
    assert_eq!(READONLY_KIP_TIMEOUT_SECS, 15);
}

#[test]
fn query_limits_never_raise_literal_or_parameter_bounds_and_expired_flags_are_removed() {
    let small = Limit::Number(Some(1));
    assert_eq!(capped_limit(&small, None, None).unwrap(), 1);
    let parameter = Limit::Parameter("n".to_string());
    let global = json(r#"{"n":2}"#);
    let local = json(r#"{"n":1}"#);
    assert_eq!(capped_limit(&parameter, Some(&local), Some(&global)).unwrap(), 1);
    assert!(capped_limit(&parameter, None, None).is_err());
    let mut items = vec![MemoryItem {
        id: "p".to_string(),
        channel: Channel::Procedures,
        priority: Priority::Required,
        content: json(
            r#"{"recommendation_allowed":true,"context_expires_at_ms":0,"review_due_at":"2099-01-01T00:00:00.000Z","reasons":[]}"#,
        ),
    }];
    assert!(expire_procedure_checks(&mut items, 1_790_000_000_000, "2026-09-21T00:00:00.000Z", false));
    assert_eq!(back(&items[0].content)["recommendation_allowed"], false);
    assert_eq!(items[0].priority, Priority::Warning);
}

#[test]
fn limits_are_capped_by_the_host() {
    assert_eq!(capped_limit(&Limit::Absent, None, None), Ok(MAX_ROWS as u64));
    assert_eq!(capped_limit(&Limit::Number(Some(9_999)), None, None), Ok(32));
    assert_eq!(capped_limit(&Limit::Number(None), None, None), Err(LimitError::NotInteger));
    assert_eq!(capped_limit(&Limit::Other, None, None), Err(LimitError::NotInteger));
    let text = json(r#"{"n":"2"}"#);
    assert_eq!(
        capped_limit(&Limit::Parameter("n".to_string()), Some(&text), None),
        Err(LimitError::Unresolved)
    );
    assert!(LimitError::Unresolved.message().contains("parameter must resolve"));
}

fn request(operations: &str) -> Json {
    json(&format!(
        r#"{{"kip":"2.0","execution":{{"mode":"independent"}},"operations":[{operations}],"parameters":{{"n":5,"m":99}}}}"#
    ))
}

#[test]
fn every_operation_of_a_read_gets_a_limit() {
    let query = r#"{"command":"FIND(?e) WHERE {?e CONCEPT {}} LIMIT 7"}"#;
    let open = r#"{"command":"FIND(?e) WHERE {?e CONCEPT {}}"}"#;
    let own = r#"{"command":"FIND(?e) WHERE {?e CONCEPT {}} LIMIT :n","parameters":{"n":3}}"#;
    let shared = r#"{"command":"FIND(?e) WHERE {?e CONCEPT {}} LIMIT :m"}"#;
    assert_eq!(
        bound_read(&request(&[query, open, own, shared].join(","))).unwrap(),
        [7, 32, 3, 32]
    );
    let search = r#"{"command":"SEARCH CONCEPT \"x\" LIMIT 4"}"#;
    assert_eq!(bound_read(&request(search)).unwrap(), [4]);
    assert_eq!(
        bound_read(&request(&[query; 5].join(","))),
        Err(BudgetError::TooManyOperations)
    );
    let describe = r#"{"command":"DESCRIBE PRIMER"}"#;
    assert_eq!(bound_read(&request(describe)), Err(BudgetError::MetaUnavailable));
    let write =
        r#"{"command":"MUTATE { CREATE CONCEPT ?c {SET FIELDS {name:\"x\",schema_ref:\"Person\"}} }"}"#;
    assert_eq!(bound_read(&request(write)), Err(BudgetError::ReadOnly));
    let unbound = r#"{"command":"FIND(?e) WHERE {?e CONCEPT {}} LIMIT :k"}"#;
    assert_eq!(
        bound_read(&request(unbound)),
        Err(BudgetError::Limit(LimitError::Unresolved))
    );
    assert_eq!(bound_read(&json("{}")), Err(BudgetError::InvalidRequest));
    let broken = r#"{"command":"FIND FIND"}"#;
    assert_eq!(
        bound_read(&request(&[describe, broken].join(","))),
        Err(BudgetError::InvalidRequest)
    );
    let none = json("{}");
    assert_eq!(
        bound_operations(&vec![Some(CommandShape::Search(Limit::Number(Some(2))))], &none),
        Ok(vec![2])
    );
    assert_eq!(
        bound_operations(&vec![Some(CommandShape::Meta), None], &none),
        Err(BudgetError::InvalidRequest)
    );
    assert_eq!(
        bound_operations(&vec![Some(CommandShape::Write)], &none),
        Err(BudgetError::ReadOnly)
    );
    assert_eq!(
        back(&bound_wiki_search(json(r#"{"query":"q","top_k":50,"expand":3}"#))),
        serde_json::from_str::<serde_json::Value>(r#"{"query":"q","top_k":8,"expand":0}"#).unwrap()
    );
}

fn permit(id: &str, expires: u64, due: &str) -> MemoryItem {
    MemoryItem {
        id: id.to_string(),
        channel: Channel::Procedures,
        priority: Priority::Required,
        content: json(&format!(
            r#"{{"recommendation_allowed":true,"context_expires_at_ms":{expires},"review_due_at":"{due}"}}"#
        )),
    }
}

#[test]
fn permissions_end_with_their_time() {
    let allowed = |item: &MemoryItem| back(&item.content)["recommendation_allowed"] == true;
    let mut items = vec![permit("a", 11, LATER), permit("b", 10, LATER), permit("c", 11, LATE)];
    assert!(expire_procedure_checks(&mut items, 10, LATE, false));
    assert!(allowed(&items[0]) && !allowed(&items[1]) && !allowed(&items[2]));
    assert!(!expire_procedure_checks(&mut items, 10, LATE, false));
    assert!(expire_procedure_checks(&mut items, 10, LATE, true));
    assert!(!allowed(&items[0]));

    let mut items = vec![permit("a", 11, LATER), permit("b", 10, LATER)];
    assert!(!expired_while_packing(&mut items, 10, LATE, true, false));
    assert!(allowed(&items[1]));
    assert!(expired_while_packing(&mut items, 10, LATE, false, false));
    assert!(!allowed(&items[0]) && !allowed(&items[1]));

    let mut material = Material::new(8);
    let result = |text: &str, error| Some(ToolResult { value: json(text), error });
    procedure_checked(&mut material, "C-1", result(&permit("x", 11, LATER).content.to_text(), false), 10, LATE);
    procedure_checked(&mut material, "C-2", result(&permit("x", 10, LATER).content.to_text(), false), 10, LATE);
    procedure_checked(&mut material, "C-3", result("{}", true), 10, LATE);
    procedure_checked(&mut material, "C-4", None, 10, LATE);
    assert_eq!(material.items[0].priority, Priority::Required);
    for i in 1..4 {
        assert_eq!(material.items[i].priority, Priority::Warning);
        assert!(!allowed(&material.items[i]));
    }
    assert_eq!(back(&material.items[3].content)["skill_ref"], "C-4");
    assert_eq!(
        back(&material.items[1].content)["host_delivery_warning"],
        "current applicability was not established or expired before delivery"
    );
}

#[test]
fn earlier_checks_are_dropped_before_delivery() {
    let mut material = Material::new(8);
    let id = material.add(Channel::Procedures, Priority::Required, json(r#"{"a":1}"#)).unwrap();
    material.add(Channel::Kip, Priority::Relevant, json(r#"{"id":"C-5"}"#));
    material.procedures.push(Procedure { item: id, skill: "C-7".to_string() });
    material.skills.push("C-3".to_string());
    assert!(plan_refresh(&mut material, false).is_none());
    assert_eq!(material.items.len(), 2);
    assert_eq!(plan_refresh(&mut material, true).unwrap(), ["C-3", "C-7"]);
    assert_eq!(material.items.len(), 1);
    assert_eq!(material.items[0].channel, Channel::Kip);
    material.skills = (10..19).map(|i| format!("C-{i}")).collect();
    assert!(plan_refresh(&mut material, true).is_none());
    assert!(material.critical_missing);
    assert_eq!(material.failure, Some(Failure::ProcedureWindow));
    assert!(may_pack(false, false) && !may_pack(true, false) && !may_pack(false, true));
    assert_eq!(delivery_failure(true, None), Some(Failure::OutputBudget));
    assert_eq!(delivery_failure(true, Some(Failure::Deadline)), Some(Failure::Deadline));
    assert_eq!(delivery_failure(false, Some(Failure::Deadline)), None);
}

#[test]
fn nothing_bypasses_the_count_of_a_request() {
    let request = |documents| PlannerRequest {
        instructions: "i".to_string(),
        prompt: "p\n".to_string(),
        tools: json("[]"),
        max_output_tokens: None,
        tool_choice_required: true,
        effort: Some("low".to_string()),
        chat_history: 0,
        raw_history: 0,
        documents,
        content: 0,
        output_schema: false,
    };
    assert_eq!(normalized_request(&request(1)), None);
    assert_eq!(normalized_request(&PlannerRequest { chat_history: 1, ..request(0) }), None);
    assert_eq!(normalized_request(&PlannerRequest { raw_history: 1, ..request(0) }), None);
    assert_eq!(normalized_request(&PlannerRequest { content: 1, ..request(0) }), None);
    assert_eq!(normalized_request(&PlannerRequest { output_schema: true, ..request(0) }), None);
    assert_eq!(normalized_request(&request(0)), normalized_request(&request(0)));
    for other in [
        PlannerRequest { instructions: "i\"".to_string(), ..request(0) },
        PlannerRequest { prompt: "p".to_string(), ..request(0) },
        PlannerRequest { tools: json("[null]"), ..request(0) },
        PlannerRequest { max_output_tokens: Some(0), ..request(0) },
        PlannerRequest { tool_choice_required: false, ..request(0) },
        PlannerRequest { effort: None, ..request(0) },
    ] {
        assert_ne!(normalized_request(&other), normalized_request(&request(0)));
    }
    let value: serde_json::Value =
        serde_json::from_str(&normalized_request(&request(0)).unwrap()).unwrap();
    assert_eq!(
        value,
        serde_json::from_str::<serde_json::Value>(
            r#"{"format":"anda-brain-recall-input/1","instructions":"i","prompt":"p\n","tools":[],"max_output_tokens":null,"tool_choice_required":true,"effort":"low"}"#
        )
        .unwrap()
    );
}

// Compact views

#[test]
fn compact_views_keep_constraints_and_provenance_without_duplicate_legacy_rows() {
    let metadata = r#"{"source":"recorded conversation","observed_at":"2026-06-01T00:00:00.000Z"}"#;
    let original = format!(
        r#"{{"id":"C-10","kind":"concept","schema_ref":"{PROFILE}Commitment",
        "_system":{{"version":1}},"attributes":{{"summary":"Never publish without approval","description":"Never publish without approval",
        "status":"pending","approval_required":true,"legacy":{{"id":9,"metadata":{metadata}}}}},
        "facets":{{"kip://legacy/nexus@1.1.0/LegacyRecord":{{"record":{{"_id":9,"type":"Commitment",
        "attributes":{{"status":"pending","history":"{}"}},"metadata":{metadata}}}}}}}}}"#,
        "old text ".repeat(3000)
    );
    let original = json(&original);
    let (compact, cut) = memory(&original, true);
    assert!(cut);
    let view = back(&compact);
    assert_eq!(view["attributes"]["approval_required"], true);
    assert_eq!(view["attributes"]["summary"], "Never publish without approval");
    assert_eq!(
        view["recall_detail"]["legacy_source"]["metadata"],
        serde_json::from_str::<serde_json::Value>(metadata).unwrap()
    );
    assert_eq!(view["recall_detail"]["element"], "C-10");
    assert!(view["facets"].get("kip://legacy/nexus@1.1.0/LegacyRecord").is_none());
    assert!(compact.to_text().len() < original.to_text().len() / 10);
}

#[test]
fn small_values_stay_as_they_are() {
    let small = json(r#"{"id":"C-1","attributes":{"name":"x"}}"#);
    let (view, cut) = memory(&small, false);
    assert!(!cut);
    assert_eq!(back(&view), back(&small));
    let note = back(&primer(&json(r#"{"identity":"brain"}"#)));
    assert!(note.is_object());
}

#[test]
fn equal_numbers_are_alike_however_they_are_spelled() {
    for (summary, description, repeats) in
        [("-0.0", "0.0", true), ("0.5", "0.5", true), ("0.5", "0.25", false), ("1", "1.0", false)]
    {
        let value = json(&format!(
            r#"{{"id":"C-1","kind":"concept","attributes":{{"description":{description},"summary":{summary}}}}}"#
        ));
        let (view, cut) = memory(&value, true);
        assert_eq!(cut, repeats, "{summary} {description}");
        assert_eq!(back(&view)["attributes"].get("description").is_none(), repeats);
    }
}

#[test]
fn a_view_of_a_view_leaves_nothing_more_out() {
    let value = json(
        r#"[{"id":"C-1","kind":"concept","attributes":{"description":"d","summary":"d","extra":1},"facets":{"kip://legacy/nexus@1/LegacyRecord":{},"other":{}},"note":"kept"},7]"#,
    );
    for required in [true, false] {
        let (view, cut) = memory(&value, required);
        assert!(cut);
        let (again, more) = memory(&view, required);
        assert!(!more);
        assert_eq!(again.to_text(), view.to_text());
        let seen = back(&view);
        assert_eq!((&seen[1], &seen[0]["note"]), (&7.into(), &"kept".into()));
        assert_eq!(seen[0]["facets"], serde_json::from_str::<serde_json::Value>(r#"{"other":{}}"#).unwrap());
        let omitted: Vec<&str> = seen[0]["recall_detail"]["omitted_fields"]
            .as_array()
            .unwrap()
            .iter()
            .map(|f| f.as_str().unwrap())
            .collect();
        let mut expected = vec![
            "facets.kip://legacy/nexus@1/LegacyRecord",
            "attributes.description (same as summary)",
        ];
        if !required {
            expected.push("attributes.extra");
        }
        assert_eq!(omitted, expected);
    }
}

#[test]
fn walks_look_at_every_depth_up_to_their_bound() {
    let skill = format!(r#"{{"schema_ref":"{PROFILE}Skill","id":"C-7"}}"#);
    let deep = json(&format!("{}{skill}{}", r#"[{"a":"#.repeat(9), "}]".repeat(9)));
    assert!(contains_program(&deep));
    let mut skills = Vec::new();
    discover_skills(&deep, &mut skills);
    assert_eq!(skills, vec!["C-7"]);
    let wide = |n: usize| json(&format!("[{}]", vec!["0"; n].join(",")));
    assert!(!contains_program(&wide(4095)));
    assert!(contains_program(&wide(4096)));
}

// Material

#[test]
fn identities_keep_the_order_of_admission() {
    assert_eq!(make_id(0), "m000");
    assert_eq!(make_id(42), "m042");
    assert_eq!(make_id(1_234), "m1234");
    let mut material = Material::new(64);
    let ids: Vec<String> = (0..14)
        .map(|rank| {
            material
                .add(Channel::Kip, Priority::Relevant, json(&format!(r#"{{"rank":{rank}}}"#)))
                .unwrap()
        })
        .collect();
    let mut sorted = ids.clone();
    sorted.sort();
    assert_eq!(sorted, ids);
    sorted.dedup();
    assert_eq!(sorted.len(), 14);
}

#[test]
fn offers_are_bounded_and_their_channels_accounted() {
    let mut material = Material::new(1);
    assert!(material.add(Channel::Notes, Priority::Relevant, Json::Null).is_none());
    assert!(material.coverage.omitted.is_empty());
    assert!(material.add(Channel::Kip, Priority::Relevant, json(r#"{"a":1}"#)).is_some());
    assert!(material.add(Channel::Wiki, Priority::Relevant, json(r#"{"a":2}"#)).is_none());
    assert!(!material.critical_missing);
    assert!(material.add(Channel::Primer, Priority::Warning, json(r#"{"a":3}"#)).is_none());
    assert!(material.critical_missing);
    let coverage = material.coverage();
    assert_eq!(coverage.queried, [Channel::Notes, Channel::Kip, Channel::Wiki, Channel::Primer]);
    assert_eq!(coverage.omitted, [Channel::Wiki, Channel::Primer]);
    assert_eq!(coverage.partial, [Channel::Wiki, Channel::Primer]);
    assert_eq!(
        coverage.unchecked,
        [Channel::Counterparty, Channel::History, Channel::Procedures]
    );
    let mut large = Material::new(4);
    let text = Json::Text("x".repeat(1_048_575));
    assert!(large.add(Channel::Wiki, Priority::Relevant, text).is_none());
    assert!(large.add(Channel::Wiki, Priority::Relevant, Json::Text("x".repeat(1_048_574))).is_some());
    assert_eq!(Failure::RequiredRead.as_str(), "recall_required_read_incomplete");
}

#[test]
fn programs_are_found_wherever_they_stand() {
    let skill = format!(r#"{{"deep":[{{"schema_ref":"{PROFILE}Skill","id":"C-9"}}]}}"#);
    assert!(contains_program(&json(&skill)));
    let revision = format!(r#"[[{{"schema_ref":"{PROFILE}SkillRevision","id":"C-8"}}]]"#);
    assert!(contains_program(&json(&revision)));
    assert!(!contains_program(&json(r#"{"schema_ref":"Skill"}"#)));
    assert!(contains_program(&Json::Array((0..4_096).map(|_| Json::Null).collect())));
    let mut skills = Vec::new();
    discover_skills(&json(&skill), &mut skills);
    discover_skills(&json(&revision), &mut skills);
    discover_skills(&json(&skill), &mut skills);
    assert_eq!(skills, ["C-9"]);
}

// The start

#[test]
fn questions_are_checked_before_anything_is_read() {
    assert_eq!(check_input("q", "p"), Ok(()));
    assert_eq!(check_input(" \t\n", "p"), Err(InputError::EmptyQuery));
    assert_eq!(check_input("q", &"x".repeat(1_048_577)), Err(InputError::TooLarge));
    assert_eq!(check_input("q", &"x".repeat(1_048_576)), Ok(()));
    assert_eq!(back(&host_note())["action_ready"], false);
    let budget = |tokenizer: &str, max_tokens, context_tokens| RecallBudget {
        tokenizer: tokenizer.to_string(),
        max_tokens,
        context_tokens,
    };
    assert!(budget(TOKENIZER, 1, 131_072).validate().is_ok());
    assert!(budget(TOKENIZER, 65_537, 1).validate().is_err());
    assert!(budget(TOKENIZER, 1, 0).validate().is_err());
    assert!(budget("other", 1, 1).validate().is_err());
}

#[test]
fn what_is_required_must_be_there() {
    let mut material = Material::new(64);
    context_read(&mut material, &json(r#"{"identity":"b"}"#), true, None, true);
    assert!(!material.critical_missing);
    assert_eq!(material.items[0].priority, Priority::Required);
    assert_eq!(material.coverage.omitted, [Channel::Counterparty]);
    constraints_read(&mut material, Some(&vec![json(r#"{"id":"C-1","attributes":{}}"#)]));
    assert_eq!(material.items.len(), 2);
    assert!(!required_verdict(&mut material, false));
    assert!(required_verdict(&mut material, true));
    assert_eq!(material.failure, Some(Failure::OutputBudget));

    let mut unread = Material::new(64);
    context_read(&mut unread, &Json::Null, false, None, false);
    assert!(unread.critical_missing);
    assert!(required_verdict(&mut unread, false));
    assert_eq!(unread.failure, Some(Failure::RequiredRead));

    let mut failed = Material::new(64);
    constraints_read(&mut failed, None);
    assert!(failed.critical_missing);
    let rows: Vec<Json> = (0..33).map(|i| json(&format!(r#"{{"id":"C-{i}"}}"#))).collect();
    let mut full = Material::new(64);
    constraints_read(&mut full, Some(&rows));
    assert!(full.critical_missing);
    assert_eq!(full.items.len(), 32);
}

#[test]
fn hits_become_items_once() {
    let mut material = Material::new(64);
    constraints_read(&mut material, Some(&vec![json(r#"{"id":"C-1","attributes":{}}"#)]));
    let skill = format!(r#"{{"element":{{"id":"C-3","schema_ref":"{PROFILE}Skill"}}}}"#);
    let hits = vec![
        json(r#"{"element":{"id":"C-1"}}"#),
        json(r#"{"element":{"id":"C-2"}}"#),
        json(&skill),
    ];
    let ids = discovery_read(&mut material, Discovery::Hits(&hits));
    assert_eq!(ids, ["m000", "m001", "m002"]);
    assert_eq!(material.items.len(), 3);
    assert_eq!(material.items[2].priority, Priority::UnprovenProcedure);
    assert_eq!(material.skills, ["C-3"]);
    assert!(material.coverage.partial.contains(&Channel::Kip));
    let many: Vec<Json> =
        (10..30).map(|i| json(&format!(r#"{{"element":{{"id":"C-{i}"}}}}"#))).collect();
    assert_eq!(discovery_read(&mut material, Discovery::Hits(&many)).len(), 8);
    assert!(discovery_read(&mut material, Discovery::NoHits).is_empty());
    assert!(discovery_read(&mut material, Discovery::Unavailable).is_empty());
}

// Passes

fn item(id: &str, priority: Priority) -> MemoryItem {
    MemoryItem { id: id.to_string(), channel: Channel::Kip, priority, content: json(r#"{"a":1}"#) }
}

#[test]
fn optional_items_give_way_before_mandatory_ones() {
    let mut material = Material::new(8);
    let mut visible = vec![
        item("m000", Priority::Required),
        item("m001", Priority::Relevant),
        item("m002", Priority::Relevant),
        item("m003", Priority::Warning),
    ];
    material.items = visible.iter().map(MemoryItem::copy).collect();
    let mut planner = Planner::new();
    assert_eq!(weigh(&mut material, &mut planner, &mut visible, 60, 100), Admission::Admitted);
    assert_eq!(planner.context_spent, 60);
    assert_eq!(weigh(&mut material, &mut planner, &mut visible, 41, 100), Admission::Evicted);
    let names = |list: &Vec<MemoryItem>| list.iter().map(|i| i.id.clone()).collect::<Vec<_>>();
    assert_eq!(names(&visible), ["m000", "m001", "m003"]);
    assert_eq!(names(&material.items), ["m000", "m001", "m003"]);
    assert_eq!(material.coverage.omitted, [Channel::Kip]);
    assert_eq!(weigh(&mut material, &mut planner, &mut visible, 41, 100), Admission::Evicted);
    assert_eq!(weigh(&mut material, &mut planner, &mut visible, 41, 100), Admission::Exhausted);
    assert_eq!(material.failure, Some(Failure::ContextBudget));
    assert!(planner.failed && falls_back(&material));
    assert_eq!(names(&visible), ["m000", "m003"]);
}

fn reply(failed: bool, value: Option<&str>, calls: Vec<ToolCall>) -> ModelReply {
    ModelReply {
        failed,
        content: value.unwrap_or("").to_string(),
        value: value.map(json),
        calls,
    }
}

fn call(name: &str, args: &str) -> ToolCall {
    ToolCall { name: name.to_string(), args: json(args) }
}

#[test]
fn replies_select_read_or_fail() {
    let mut material = Material::new(8);
    let mut planner = Planner::new();
    let chosen = reply(false, Some(r#"{"selected_ids":["m001","made-up"]}"#), vec![]);
    assert_eq!(judge_reply(&mut material, &mut planner, Some(&chosen)), ReplyStep::Stop);
    assert!(planner.finished && !planner.failed);
    material.items = vec![item("m001", Priority::Relevant)];
    conclude(&mut material, &mut planner);
    assert_eq!(planner.selected, ["m001"]);
    assert_eq!(material.failure, None);

    let mut planner = Planner::new();
    let prose = reply(false, None, vec![]);
    assert_eq!(judge_reply(&mut material, &mut planner, Some(&prose)), ReplyStep::Stop);
    assert!(planner.failed);
    conclude(&mut material, &mut planner);
    assert_eq!(material.failure, Some(Failure::PlannerIncomplete));

    let mut material = Material::new(8);
    let mut planner = Planner::new();
    judge_reply(&mut material, &mut planner, None);
    assert_eq!(material.failure, Some(Failure::ModelUnavailable));

    let mut planner = Planner::new();
    let reads = |n: usize| {
        reply(false, None, (0..n).map(|_| call("wiki_read", "{}")).collect())
    };
    assert_eq!(judge_reply(&mut material, &mut planner, Some(&reads(4))), ReplyStep::Calls);
    assert_eq!(judge_reply(&mut material, &mut planner, Some(&reads(5))), ReplyStep::Stop);
    assert!(planner.failed);
    let mut planner = Planner::new();
    planner.calls = 14;
    assert_eq!(judge_reply(&mut material, &mut planner, Some(&reads(2))), ReplyStep::Calls);
    assert_eq!(judge_reply(&mut material, &mut planner, Some(&reads(3))), ReplyStep::Stop);
    assert!(read_selection(&json(r#"{"selected_ids":["a"],"more":1}"#)).is_none());
    assert!(read_selection(&json(r#"{"selected_ids":[1]}"#)).is_none());
}

#[test]
fn only_listed_tools_are_called() {
    let tools = strings(&["execute_kip_readonly", "kip_reference", "execute_kip"]);
    let judged = |c: ToolCall| {
        let mut planner = Planner::new();
        let step = judge_call(&mut planner, &c, &tools);
        (step, planner)
    };
    assert_eq!(judged(call("execute_kip_readonly", "{}")).0, CallStep::Read(Channel::Kip));
    assert_eq!(judged(call("kip_reference", "{}")).0, CallStep::Reference);
    let (step, planner) = judged(call("wiki_read", "{}"));
    assert!(step == CallStep::Stop && planner.failed);
    let (step, planner) = judged(call("execute_kip", "{}"));
    assert!(step == CallStep::Stop && planner.failed);
    let (step, planner) = judged(call("select_recall_items", r#"{"selected_ids":["m000"]}"#));
    assert!(step == CallStep::Stop && planner.finished && !planner.failed);
    assert_eq!(planner.selected, ["m000"]);
    let long = format!(r#"{{"x":"{}"}}"#, "y".repeat(16_384));
    let (step, planner) = judged(call("execute_kip_readonly", &long));
    assert!(step == CallStep::Stop && planner.failed);
}

#[test]
fn reads_are_evidence_of_what_they_returned_only() {
    let mut material = Material::new(8);
    let told = read_done(
        &mut material,
        "execute_kip_readonly",
        Channel::Kip,
        Some(ToolResult { value: json(r#"{"id":"C-1"}"#), error: false }),
        None,
    );
    assert!(told.is_none() || material.items.len() == 1);
    assert_eq!(material.items[0].priority, Priority::Relevant);
    assert!(material.coverage.partial.contains(&Channel::Kip));
    read_done(
        &mut material,
        "check_procedure_status",
        Channel::Procedures,
        Some(ToolResult { value: json(r#"{"recommendation_allowed":true}"#), error: false }),
        Some("C-7"),
    );
    assert_eq!(material.items[1].priority, Priority::VerifiedProcedure);
    assert_eq!(material.procedures[0].skill, "C-7");
    read_done(&mut material, "wiki_read", Channel::Wiki, None, None);
    let last = material.items.last().unwrap();
    assert_eq!(last.priority, Priority::Warning);
    assert_eq!(back(&last.content)["status"], "unavailable");
}

#[test]
fn a_recall_falls_back_to_what_the_host_read() {
    let mut material = Material::new(8);
    let mut notes = item("m001", Priority::Relevant);
    notes.channel = Channel::Notes;
    let candidates = vec![item("m000", Priority::Required), notes];
    material.next_id = 2;
    material.failure = Some(Failure::ContextBudget);
    let coverage = material.coverage();
    let mut planner = Planner::new();
    planner.failed = true;
    fall_back(&mut material, &mut planner, candidates, coverage);
    assert!(planner.finished && !planner.failed);
    assert_eq!(planner.selected, ["m000", "m002"]);
    assert_eq!(material.failure, None);
    assert_eq!(material.items[1].priority, Priority::Warning);
    assert!(material.coverage.omitted.contains(&Channel::Notes));

    assert_eq!((passes(3), passes(99)), (3, 8));
    let mut material = Material::new(8);
    let mut planner = Planner::new();
    assert!(may_call(&mut material, &mut planner, true));
    assert!(!may_call(&mut material, &mut planner, false));
    assert_eq!(material.failure, Some(Failure::Deadline));
    let mut planner = Planner::new();
    material.critical_missing = true;
    assert!(!may_call(&mut material, &mut planner, true));
}

#[test]
fn items_are_ranked_by_one_concept_only() {
    let pin = |id: &str, digest: &str| ContentPin {
        id: id.to_string(),
        content_digest: digest.to_string(),
    };
    assert_eq!(rank_slot(&vec![pin("C-1", "d"), pin("C-1", "d")]).unwrap().id, "C-1");
    assert!(rank_slot(&vec![pin("C-1", "d"), pin("C-1", "e")]).is_none());
    assert!(rank_slot(&vec![pin("P-1", "d")]).is_none());
    assert!(rank_slot(&vec![]).is_none());
}

// Sessions

#[test]
fn turns_count_across_compactions() {
    assert_eq!(NAME, "recall_memory");
    assert_eq!((max_model_turns(0), max_model_turns(2)), (7, 2));
    let mut turns = Turns::new();
    let outcome = turns.took_turn(2, false, false, 4);
    assert_eq!(outcome.status, ConversationStatus::Working);
    assert!(!outcome.persist && !outcome.stop);
    turns.compacted(0);
    assert_eq!((turns.total, turns.accounted), (3, 0));
    assert!(!turns.replace_initial_input);
    turns.took_turn(1, false, false, 4);
    assert_eq!(turns.total, 4);
    assert_eq!(turns.may_start(4, 0, 0), Err(RecallFailure::TurnLimit));
    assert_eq!(turns.may_start(5, 0, 1_000), Ok(179_000));
    assert_eq!(turns.may_start(5, 0, 180_001), Err(RecallFailure::Timeout));
    assert!(turns.must_persist(ConversationStatus::Working));
    let outcome = turns.took_turn(2, true, false, 4);
    assert_eq!(outcome.status, ConversationStatus::Failed);
    assert!(outcome.persist && outcome.stop);
    assert!(!turns.must_persist(ConversationStatus::Working));
    assert_eq!(recall_time_remaining(500, 400), Some(180_000));
    assert_eq!(recall_time_remaining(0, 180_000), Some(0));
    assert_eq!(
        failure_reason(RecallFailure::TurnLimit, 7),
        "recall exceeded model turn limit of 7"
    );
    assert_eq!(failure_reason(RecallFailure::Timeout, 7), "recall timed out after 180 seconds");
}

#[test]
fn oversized_inputs_are_refused() {
    assert_eq!(check_input_size(10, 10), Ok(()));
    assert_eq!(
        check_input_size(11, 10),
        Err("Input too large: 11 tokens (estimated), max allowed is 10 tokens".to_string())
    );
    assert_eq!(
        timeout_message(15),
        "read-only KIP execution timed out after 15 seconds; memory is busy, retry later"
    );
}

#[test]
fn only_completed_recalls_are_shown_again() {
    let past = |id, status| PastConversation { id, status };
    let list = vec![
        past(9, ConversationStatus::Failed),
        past(8, ConversationStatus::Completed),
        past(7, ConversationStatus::Completed),
    ];
    assert_eq!(shown_history(&list, 0), Some(8));
    assert_eq!(shown_history(&list, 8), None);
    let text = instructions("R", "P", "{}", "[]", "null", "now");
    assert!(text.starts_with("R\n\n---\n\nP\n\n---\n\n# `DESCRIBE PRIMER` Result:\n{}"));
    assert!(text.ends_with("\n\n# Counterparty profile:\nnull\n\n# Current Datetime: now"));
}

// Whole walks

fn prose_context() -> prose::Told {
    prose::Told::Context {
        reference: "r".to_string(),
        prompt: "q".to_string(),
        primer: "p".to_string(),
        notes: "n".to_string(),
        counterparty: "c".to_string(),
        datetime: "d".to_string(),
    }
}

fn talking(rounds: usize, persist_every: usize) -> prose::Prose {
    let (mut p, first) = prose::Prose::begin(10, 100, rounds, persist_every, 0).unwrap();
    assert_eq!(first, prose::Ask::Open);
    assert_eq!(p.step(prose::Told::Opened, 0), Ok(prose::Ask::ReadContext));
    assert!(matches!(p.step(prose_context(), 0), Ok(prose::Ask::Compact { .. })));
    assert_eq!(p.instructions, instructions("r", "q", "p", "n", "c", "d"));
    p
}

#[test]
fn an_answer_is_written_before_it_is_given() {
    let mut p = talking(4, 3);
    assert!(matches!(p.step(prose::Told::Compacted(None), 1), Ok(prose::Ask::Turn { .. })));
    let working = prose::Told::Took { runner_turns: 1, failed: false, done: false };
    assert!(matches!(p.step(working, 2), Ok(prose::Ask::Compact { .. })));
    p.step(prose::Told::Compacted(None), 3).unwrap();
    let done = prose::Told::Took { runner_turns: 2, failed: false, done: true };
    assert_eq!(
        p.step(done, 4),
        Ok(prose::Ask::Persist(ConversationStatus::Completed))
    );
    assert_eq!(p.step(prose::Told::Saved, 5), Ok(prose::Ask::Answer));
    assert_eq!(p.step(prose::Told::Saved, 5), Err(prose::OutOfTurn));
    assert_eq!(p.turns.total, 2);
}

#[test]
fn turns_and_time_run_out() {
    let mut p = talking(1, 9);
    p.step(prose::Told::Compacted(None), 1).unwrap();
    let working = || prose::Told::Took { runner_turns: 1, failed: false, done: false };
    match p.step(working(), 2) {
        Ok(prose::Ask::Fail(reason)) => {
            assert_eq!(reason, failure_reason(RecallFailure::TurnLimit, 1))
        }
        other => panic!("{other:?}"),
    }
    assert_eq!(p.status, ConversationStatus::Failed);
    let mut p = talking(4, 9);
    p.step(prose::Told::Compacted(None), 1).unwrap();
    match p.step(working(), 10_000_000) {
        Ok(prose::Ask::Fail(reason)) => {
            assert_eq!(reason, failure_reason(RecallFailure::Timeout, 4))
        }
        other => panic!("{other:?}"),
    }
    let mut p = talking(4, 9);
    assert_eq!(p.step(prose::Told::RunnerFailed, 1), Ok(prose::Ask::FailRunner));
    let mut p = talking(4, 9);
    p.step(prose::Told::Compacted(Some(0)), 1).unwrap();
    assert_eq!(p.turns.total, 1);
    assert_eq!(p.step(prose::Told::NoTurn, 1), Ok(prose::Ask::NoOutput));
    assert!(prose::Prose::begin(101, 100, 4, 9, 0).is_err());
}

fn budget() -> RecallBudget {
    RecallBudget { tokenizer: TOKENIZER.to_string(), max_tokens: 2048, context_tokens: 8192 }
}

fn moment() -> budgeted::Moment {
    budgeted::Moment { ms: 10, timestamp: LATE.to_string() }
}

fn surroundings() -> budgeted::Told {
    budgeted::Told::Context {
        primer: json(r#"{"identity":"brain"}"#),
        notes: None,
        profile: None,
        asked: false,
        history: Json::Null,
    }
}

/// Walks up to the first look at the planner's request.
fn planning(turns: usize, tools: &[&str]) -> budgeted::Recall {
    let (mut r, first) =
        budgeted::Recall::begin(&budget(), "rain?", "rain?", 16, turns, strings(tools)).unwrap();
    assert_eq!(first, budgeted::Ask::TryPacket);
    let fits = || budgeted::Told::Tried { insufficient: false };
    assert_eq!(r.step(fits(), &moment()), Ok(budgeted::Ask::ReadContext));
    assert_eq!(r.step(surroundings(), &moment()), Ok(budgeted::Ask::ReadConstraints(budgeted::CONSTRAINTS_QUERY)));
    let none = budgeted::Told::Constraints(Some(vec![]));
    assert_eq!(r.step(none, &moment()), Ok(budgeted::Ask::TryPacket));
    assert_eq!(r.step(fits(), &moment()), Ok(budgeted::Ask::Search(budgeted::DISCOVERY_QUERY)));
    let hits = budgeted::Hits::Found(vec![json(r#"{"id":"C-1","name":"umbrella"}"#)]);
    let next = r.step(budgeted::Told::Hits(hits), &moment());
    assert_eq!(next, Ok(budgeted::Ask::CountRequest));
    r
}

fn format() -> PacketFormat {
    PacketFormat {
        name: "packet/1".to_string(),
        primer: "primer".to_string(),
        notes: "notes".to_string(),
        counterparty: "counterparty".to_string(),
        history: "history".to_string(),
        kip: "kip".to_string(),
        wiki: "wiki".to_string(),
        procedures: "procedures".to_string(),
        required: "required".to_string(),
        warning: "warning".to_string(),
        verified_procedure: "verified".to_string(),
        relevant: "relevant".to_string(),
        unproven_procedure: "unproven".to_string(),
    }
}

fn terms() -> Terms {
    Terms {
        context: json(r#"{"counterparty":"alice"}"#),
        system: "Remember.".to_string(),
        tools: vec![json(r#"{"name":"execute_kip_readonly"}"#)],
        effort: "medium".to_string(),
        format: format(),
    }
}

#[test]
fn the_planner_is_asked_with_what_the_recall_holds() {
    let mut r = planning(3, &["execute_kip_readonly"]);
    let request = r.request(&terms());
    assert_eq!(request.instructions, budgeted::planner_instructions("Remember."));
    assert_eq!((request.max_output_tokens, request.tool_choice_required), (None, true));
    assert_eq!(request.effort.as_deref(), Some("medium"));
    let tools = back(&request.tools);
    assert_eq!(tools[0]["name"], "execute_kip_readonly");
    assert_eq!(tools[1], back(&selector()));
    assert_eq!(tools[1]["name"], "select_recall_items");
    assert_eq!(tools[1]["parameters"]["required"][0], "selected_ids");
    let prompt: serde_json::Value = serde_json::from_str(&request.prompt).unwrap();
    assert_eq!((&prompt["query"], &prompt["context"]["counterparty"]), (&"rain?".into(), &"alice".into()));
    let items = prompt["memory_items"].as_array().unwrap();
    assert_eq!(items.len(), r.visible.len());
    for (shown, held) in items.iter().zip(&r.visible) {
        assert_eq!(shown["id"], held.id.as_str());
        assert_eq!(shown["content"], back(&held.content));
        assert!(shown["channel"].is_string() && shown["priority"].is_string());
    }
    assert_eq!((&items[0]["channel"], &items[0]["priority"]), (&"primer".into(), &"required".into()));
    assert_eq!(prompt["observations"].as_array().unwrap().len(), r.observations.len());
    assert_eq!(prompt["observations"][1]["query_search"]["partial"], true);
    let partial = serde_json::from_str::<serde_json::Value>(r#"["notes","kip"]"#).unwrap();
    assert_eq!(prompt["coverage"]["partial"], partial);
    let unchecked = serde_json::from_str::<serde_json::Value>(r#"["wiki","procedures"]"#).unwrap();
    assert_eq!(prompt["coverage"]["unchecked"], unchecked);
    // What is sent is what was counted.
    let counted = normalized_request(&request);
    r.step(budgeted::Told::Counted { bytes: 100, tokens: 50 }, &moment()).unwrap();
    r.step(budgeted::Told::Time { left: true }, &moment()).unwrap();
    assert_eq!(normalized_request(&r.request(&terms())), counted);
}

/// Walks up to the call that the model replied with.
fn calling(name: &str, args: &str) -> budgeted::Recall {
    let mut r = planning(3, &["execute_kip_readonly", "wiki_search", "wiki_read"]);
    r.step(budgeted::Told::Counted { bytes: 100, tokens: 50 }, &moment()).unwrap();
    r.step(budgeted::Told::Time { left: true }, &moment()).unwrap();
    let call = ToolCall { name: name.to_string(), args: json(args) };
    let told = budgeted::Told::Reply(Some(reply(false, None, vec![call])));
    assert!(matches!(r.step(told, &moment()), Ok(budgeted::Ask::Read(_))));
    r
}

#[test]
fn the_reads_of_a_planner_are_bounded() {
    let r = calling("execute_kip_readonly", "{}");
    let kql = |limit: &str| {
        json(&format!(
            r#"{{"kip":"2.0","operations":[{{"command":"FIND(?c) WHERE {{?c CONCEPT {{}}}}{limit}"}}]}}"#
        ))
    };
    for (limit, expected) in [("", 32), (" LIMIT 5", 5), (" LIMIT 500", 32)] {
        match r.bounded_call(Some(kql(limit))) {
            Ok(BoundedCall::Kip { request, limits }) => {
                assert_eq!(limits, vec![expected]);
                assert_eq!(request.to_text(), kql(limit).to_text());
            }
            other => panic!("{other:?}"),
        }
    }
    assert_eq!(r.bounded_call(None).unwrap_err(), BudgetError::InvalidRequest);
    let five = vec![r#"{"command":"SEARCH CONCEPT :q LIMIT 1"}"#; 5].join(",");
    let many = json(&format!(r#"{{"kip":"2.0","operations":[{five}]}}"#));
    assert_eq!(r.bounded_call(Some(many)).unwrap_err(), BudgetError::TooManyOperations);
    for (args, top) in [("{}", 8), (r#"{"top_k":3,"expand":9}"#, 3), (r#"{"top_k":50}"#, 8)] {
        match calling("wiki_search", args).bounded_call(None) {
            Ok(BoundedCall::Tool { name, args }) => {
                assert_eq!(name, "wiki_search");
                let args = back(&args);
                assert_eq!((&args["top_k"], &args["expand"]), (&top.into(), &0.into()));
            }
            other => panic!("{other:?}"),
        }
    }
    match calling("wiki_read", r#"{"top_k":50}"#).bounded_call(None) {
        Ok(BoundedCall::Tool { name, args }) => {
            assert_eq!((name.as_str(), args.to_text().as_str()), ("wiki_read", r#"{"top_k":50}"#))
        }
        other => panic!("{other:?}"),
    }
}

#[test]
fn the_recalls_own_queries_parse() {
    for query in [budgeted::CONSTRAINTS_QUERY, budgeted::DISCOVERY_QUERY] {
        assert!(anda_kip::parse_kip(query).is_ok(), "{query}");
    }
    assert!(budgeted::CONSTRAINTS_QUERY.ends_with(&format!(" LIMIT {}", MAX_ROWS + 1)));
    let parameters = planning(3, &[]).search_parameters();
    assert_eq!(parameters.to_text(), r#"{"query":"rain?"}"#);
}

#[test]
fn a_recall_plans_reads_and_packs() {
    let mut r = planning(3, &["execute_kip_readonly"]);
    let counted = || budgeted::Told::Counted { bytes: 100, tokens: 50 };
    assert_eq!(r.step(counted(), &moment()), Ok(budgeted::Ask::ReadClock));
    let time = || budgeted::Told::Time { left: true };
    assert_eq!(r.step(time(), &moment()), Ok(budgeted::Ask::Complete));
    assert_eq!(r.planner.context_spent, 50);
    let ids: Vec<String> = r.visible.iter().map(|i| format!("\"{}\"", i.id)).collect();
    let chosen = format!(r#"{{"selected_ids":[{}]}}"#, ids.join(","));
    let told = budgeted::Told::Reply(Some(reply(false, Some(&chosen), vec![])));
    assert_eq!(r.step(told, &moment()), Ok(budgeted::Ask::Pack { empty: false }));
    let packed = budgeted::Told::Packed { insufficient: false };
    assert_eq!(r.step(packed, &moment()), Ok(budgeted::Ask::Close(None)));
    let again = budgeted::Told::Packed { insufficient: false };
    assert_eq!(r.step(again, &moment()), Err(budgeted::OutOfTurn));
}

#[test]
fn a_recall_without_its_constraints_is_empty() {
    let (mut r, _) =
        budgeted::Recall::begin(&budget(), "rain?", "rain?", 16, 3, vec![]).unwrap();
    r.step(budgeted::Told::Tried { insufficient: false }, &moment()).unwrap();
    r.step(surroundings(), &moment()).unwrap();
    let lost = budgeted::Told::Constraints(None);
    assert_eq!(r.step(lost, &moment()), Ok(budgeted::Ask::Pack { empty: true }));
    let packed = budgeted::Told::Packed { insufficient: true };
    assert!(matches!(r.step(packed, &moment()), Ok(budgeted::Ask::Close(Some(_)))));

    let (mut r, _) =
        budgeted::Recall::begin(&budget(), "rain?", "rain?", 16, 3, vec![]).unwrap();
    let small = budgeted::Told::Tried { insufficient: true };
    assert_eq!(r.step(small, &moment()), Ok(budgeted::Ask::Pack { empty: true }));
    assert_eq!(r.material.failure, Some(Failure::OutputBudget));
    assert!(matches!(
        budgeted::Recall::begin(&budget(), " ", "p", 16, 3, vec![]),
        Err(budgeted::StartError::Input(InputError::EmptyQuery))
    ));
    let mut none = budget();
    none.max_tokens = 0;
    assert!(matches!(
        budgeted::Recall::begin(&none, "q", "p", 16, 3, vec![]),
        Err(budgeted::StartError::Budget)
    ));
}

#[test]
fn model_calls_stay_within_the_context_budget() {
    let mut r = planning(3, &[]);
    let large = budgeted::Told::Counted { bytes: 100, tokens: 8_193 };
    let next = r.step(large, &moment()).unwrap();
    assert!(!matches!(next, budgeted::Ask::Complete | budgeted::Ask::ReadClock));
    assert_eq!((r.planner.calls, r.planner.context_spent), (0, 0));
    let mut r = planning(3, &[]);
    r.step(budgeted::Told::Counted { bytes: 100, tokens: 50 }, &moment()).unwrap();
    let late = budgeted::Told::Time { left: false };
    assert_eq!(r.step(late, &moment()), Ok(budgeted::Ask::Pack { empty: true }));
    assert_eq!(r.planner.calls, 0);
}

#[test]
fn the_planner_sees_what_the_host_writes() {
    let observations = vec![json(r#"{"primer":1}"#)];
    let items = json(r#"[{"id":"m000"}]"#);
    let text = budgeted::planner_prompt("rain?", Json::Null, items, &observations, json("{}"));
    let value: serde_json::Value = serde_json::from_str(&text).unwrap();
    assert_eq!(value["query"], "rain?");
    assert!(text.contains("m000") && text.contains("primer"));
    let told = budgeted::planner_instructions("SYSTEM");
    assert!(told.starts_with("SYSTEM") && told.len() > "SYSTEM".len());
}
