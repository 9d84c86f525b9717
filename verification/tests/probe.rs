use anda_brain::assess::probe::{
    observe, probe_observation, search_observation, single_read_result, ProbeError,
    ProbeObservation,
};
use anda_brain::attention::expiry::{earliest_basis, earliest_of};
use anda_brain::json::{Json, Member, Number};
use anda_brain::kip::{
    CommandShape, EnvelopeStatus, Limit, OperationOutcome, ReadEnvelope, Standing,
};
use anda_brain::nexus::time_ms;

fn convert(value: serde_json::Value) -> Json {
    match value {
        serde_json::Value::Null => Json::Null,
        serde_json::Value::Bool(b) => Json::Bool(b),
        serde_json::Value::Number(n) => Json::Number(match (n.as_u64(), n.as_i64()) {
            (Some(u), _) => Number::Unsigned(u),
            (_, Some(i)) => Number::Negative(i),
            _ => Number::Decimal(n.to_string()),
        }),
        serde_json::Value::String(s) => Json::Text(s),
        serde_json::Value::Array(items) => Json::Array(items.into_iter().map(convert).collect()),
        serde_json::Value::Object(members) => Json::Object(
            members.into_iter().map(|(name, value)| Member { name, value: convert(value) }).collect(),
        ),
    }
}

fn read(result: &str) -> ReadEnvelope {
    ReadEnvelope {
        kip: "2.0".to_string(),
        status: EnvelopeStatus::Succeeded,
        error: false,
        results: vec![OperationOutcome {
            status: EnvelopeStatus::Succeeded,
            error: false,
            result: Some(convert(serde_json::from_str(result).unwrap())),
            next_cursor: false,
            shown: "shown".to_string(),
        }],
        next_cursor: false,
        shown: "shown".to_string(),
    }
}

fn request(command: &str) -> String {
    format!(r#"{{"kip":"2.0","operations":[{{"command":"{command}"}}]}}"#)
}

const BELIEF: &str = "FIND(?b) WHERE {?p PROPOSITION(id: :id) ?b BELIEF(?p)}";
const PROJECTION: &str = r#"{"proposition_id":"P-1","status":"accepted","slot_status":"accepted","basis":{"space_id":"kip:space:default","snapshot_seq":4,"schema_environment_version":1,"identity_version":1,"policy":{"id":"p","version":"1"},"trust_version":"1","authorization_view":"v","context_refs":[],"purpose":"p","risk":"low","valid_at":"2026-01-01T00:00:00.000Z","next_invalid_at":"2030-01-01T00:00:00.000Z"}}"#;

#[test]
fn missing_coverage_and_failed_operations_stay_unknown() {
    let unknown = || read(r#"{"hits": [], "search_context": {"mode": "keyword"}}"#);
    assert_eq!(search_observation(&unknown()).unwrap().exhaustive, None);
    let mut paged =
        read(r#"{"hits": [], "search_context": {"mode": "keyword"}, "exhaustive": true}"#);
    paged.results[0].next_cursor = true;
    assert_eq!(search_observation(&paged).unwrap().exhaustive, Some(false));
    assert!(search_observation(&read(
        r#"{"hits": [], "search_context": {"mode": "keyword"}, "exhaustive": "yes"}"#
    ))
    .is_err());
    assert!(search_observation(&read(r#"{"hits": []}"#)).is_err());
    let mut other = unknown();
    other.status = EnvelopeStatus::Other;
    assert!(search_observation(&other).is_err());
    let mut failed = unknown();
    failed.results[0].status = EnvelopeStatus::Other;
    assert!(single_read_result(&failed).is_err());
    let empty = ReadEnvelope {
        kip: "2.0".to_string(),
        status: EnvelopeStatus::Succeeded,
        error: false,
        results: vec![],
        next_cursor: false,
        shown: "shown".to_string(),
    };
    assert!(single_read_result(&empty).is_err());
}

#[test]
fn hits_name_the_element_that_they_hold() {
    let good = read(
        r#"{"hits":[{"id":"C-1","element":{"id":"C-1"}}],"search_context":{},"exhaustive":true}"#,
    );
    let found = search_observation(&good).unwrap();
    assert_eq!((found.hits.len(), found.exhaustive), (1, Some(true)));
    let wrong = read(r#"{"hits":[{"id":"C-1","element":{"id":"C-2"}}],"search_context":{}}"#);
    assert_eq!(search_observation(&wrong).unwrap_err(), ProbeError::HitWithoutElement);
    let search = CommandShape::Search(Limit::Absent);
    let seen = observe(&search, &good).unwrap();
    assert_eq!(seen.hit_count(), 1);
    assert_eq!((seen.raw_presence(), seen.belief_holds()), (None, None));
    assert_eq!(observe(&CommandShape::Write, &good).unwrap_err(), ProbeError::WrongOperation);
}

#[test]
fn records_are_no_belief_and_absence_needs_a_complete_read() {
    let raw = request("FIND(?e) WHERE {?e CONCEPT {}}");
    let seen = probe_observation(&raw, &read(r#"[{"id":"C-1","status":"accepted"}]"#)).unwrap();
    assert_eq!(seen.raw_presence(), Some(true));
    assert_eq!(seen.belief_holds(), None);
    let none = probe_observation(&raw, &read("[]")).unwrap();
    assert_eq!(none.raw_presence(), Some(false));
    let mut paged = read("[]");
    paged.results[0].next_cursor = true;
    assert_eq!(probe_observation(&raw, &paged).unwrap().raw_presence(), None);
    assert_eq!(
        probe_observation("{}", &read("[]")).unwrap_err(),
        ProbeError::InvalidRequest
    );
    assert_eq!(
        probe_observation(&request("FIND FIND"), &read("[]")).unwrap_err(),
        ProbeError::Unparsed
    );
    assert_eq!(
        probe_observation(&request("DESCRIBE PRIMER"), &read("{}")).unwrap_err(),
        ProbeError::WrongOperation
    );
}

#[test]
fn messages_quote_what_failed() {
    let raw = request("FIND(?e) WHERE {?e CONCEPT {}}");
    let mut failed = read("[]");
    failed.status = EnvelopeStatus::Other;
    failed.shown = "Response { .. }".to_string();
    let e = probe_observation(&raw, &failed).unwrap_err();
    assert_eq!(e.message(&raw, &failed), "read envelope did not succeed: Response { .. }");
    let mut failed = read("[]");
    failed.results[0].error = true;
    failed.results[0].shown = "Operation { .. }".to_string();
    let e = probe_observation(&raw, &failed).unwrap_err();
    assert_eq!(e.message(&raw, &failed), "read operation did not succeed: Operation { .. }");
    let none = read("[]");
    let e = probe_observation("{}", &none).unwrap_err();
    let outside = anda_kip::Request::from_json("{}").unwrap_err().to_string();
    assert_eq!(e.message("{}", &none), outside);
    let broken = request("FIND FIND");
    let e = probe_observation(&broken, &none).unwrap_err();
    let outside = anda_kip::parse_kip("FIND FIND").unwrap_err().to_string();
    assert_eq!(e.message(&broken, &none), outside);
    let odd = read("[{}]");
    let e = probe_observation(&request(BELIEF), &odd).unwrap_err();
    assert_eq!(e, ProbeError::InvalidProjection);
    let outside = serde_json::from_str::<anda_kip::Projection>("{}").unwrap_err().to_string();
    assert!(outside.starts_with(&e.message(&request(BELIEF), &odd)), "{outside}");
    let e = ProbeError::NoHits;
    assert_eq!(e.message(&raw, &none), "SEARCH result is missing its hits array");
}

#[test]
fn projections_decide_belief() {
    let row = |status: &str| format!("[{}]", PROJECTION.replace("accepted", status));
    let holds = |status: &str| {
        probe_observation(&request(BELIEF), &read(&row(status))).unwrap().belief_holds()
    };
    assert_eq!(holds("accepted"), Some(true));
    assert_eq!(holds("rejected"), Some(false));
    assert_eq!(holds("contested"), None);
    assert_eq!(holds("uncertain"), None);
    assert_eq!(holds("insufficient"), None);
    let torn = PROJECTION.replacen("accepted", "rejected", 1);
    assert_eq!(
        probe_observation(&request(BELIEF), &read(&format!("[{torn}]"))).unwrap_err(),
        ProbeError::InconsistentProjection
    );
    match probe_observation(&request(BELIEF), &read(&row("accepted"))).unwrap() {
        ProbeObservation::Belief { projection: p, row: whole } => {
            assert_eq!(whole.text_at("proposition_id"), Some("P-1"));
            assert_eq!(p.slot_status, Some(Standing::Accepted));
            assert_eq!(p.basis.unwrap().space_id, "kip:space:default");
        }
        other => panic!("{other:?}"),
    }
}

#[test]
fn the_earliest_expiry_is_found_and_lies_ahead() {
    let due = time_ms("2030-01-01T00:00:00.000Z").unwrap();
    assert_eq!(due, 1_893_456_000_000);
    let response = read(&format!("[{PROJECTION}]"));
    let (at, basis) = earliest_basis(&request(BELIEF), &response, due - 1).unwrap();
    assert_eq!(at, due);
    assert_eq!(basis.next_invalid_at.as_deref(), Some("2030-01-01T00:00:00.000Z"));
    assert!(earliest_basis(&request(BELIEF), &response, due).is_none());
    let past = request(
        "FIND(?b) WHERE {?p PROPOSITION(id: :id) ?b BELIEF(?p)} AS OF SEQ 4",
    );
    assert!(earliest_basis(&past, &response, 0).is_none());
    assert!(earliest_basis("{}", &response, 0).is_none());
    assert!(earliest_of(&vec![None], &response, 0).is_none());
    let mut failed = read(&format!("[{PROJECTION}]"));
    failed.error = true;
    assert!(earliest_basis(&request(BELIEF), &failed, 0).is_none());
    assert_eq!(time_ms("2030-01-01T00:00:00Z"), None);
    assert_eq!(time_ms("1969-12-31T23:59:59.999Z"), None);
}
