use anda_brain::json::{Json, Member, Number};
use anda_brain::nexus::{
    digest_valid, json_digest, json_digits, principal_valid, ANONYMOUS_PRINCIPAL, SYSTEM_PRINCIPAL,
};
use anda_brain::tally::Tally;
use anda_brain::text::{
    byte_len, decimal_text, digits_only, ends_with, find, find_char, insert_sorted,
    parse_unsigned, rfind, rfind_char, same, split_once, split_values, starts_with, strip_prefix,
    text_less, trim, trim_end, trim_end_of, trim_start, white_space,
};
use anda_brain::wake::WakeState;

fn object(members: Vec<(&str, Json)>) -> Json {
    Json::Object(
        members
            .into_iter()
            .map(|(name, value)| Member { name: name.to_string(), value })
            .collect(),
    )
}

// Text

#[test]
fn texts_are_cut_and_searched_as_std_does() {
    for s in ["", " a b ", "\u{3000}x\u{2003}", "a,b,,c", "ä/ö/ü", "sha256:00", "\t\r\n"] {
        assert_eq!(trim(s), s.trim());
        assert_eq!(trim_start(s), s.trim_start());
        assert_eq!(trim_end(s), s.trim_end());
        assert_eq!(byte_len(s), s.len());
        assert_eq!(trim_end_of(s, ' '), s.trim_end_matches(' '));
        for part in ["", "a", ",", "ö/", "sha256:"] {
            assert_eq!(starts_with(s, part), s.starts_with(part));
            assert_eq!(ends_with(s, part), s.ends_with(part));
            assert_eq!(strip_prefix(s, part), s.strip_prefix(part));
            assert_eq!(split_once(s, part), s.split_once(part));
            let chars = |at: usize| s[..at].chars().count();
            assert_eq!(find(s, part), s.find(part).map(chars));
            assert_eq!(rfind(s, part), s.rfind(part).map(chars));
        }
        for c in [',', '/', 'x'] {
            let chars = |at: usize| s[..at].chars().count();
            assert_eq!(find_char(s, c), s.find(c).map(chars));
            assert_eq!(rfind_char(s, c), s.rfind(c).map(chars));
        }
        for t in ["", "a", "ä", " a b "] {
            assert_eq!(text_less(s, t), s < t);
            assert_eq!(same(s, t), s == t);
        }
    }
    assert_eq!(split_values("a, b,,c ", ','), ["a", "b", "c"]);
    for code in 0..0x3100u32 {
        if let Some(c) = char::from_u32(code) {
            assert_eq!(white_space(c), c.is_whitespace(), "{code:x}");
        }
    }
}

#[test]
fn numbers_are_written_and_read_as_std_does() {
    for n in [0, 7, 10, 42, 999, 1_000, 123_456_789, u64::MAX] {
        assert_eq!(decimal_text(n), n.to_string());
        assert_eq!(parse_unsigned(&n.to_string()), Some(n));
    }
    for s in ["", "+", "+7", "007", "-1", "1a", " 1", "18446744073709551616", "99999999999999999999"] {
        assert_eq!(parse_unsigned(s), s.parse::<u64>().ok(), "{s}");
    }
    assert!(digits_only("0123") && !digits_only("12a"));
    let mut names = Vec::new();
    for s in ["b", "a", "c", "a"] {
        insert_sorted(&mut names, s);
    }
    assert_eq!(names, ["a", "b", "c"]);
}

// JSON

#[test]
fn json_is_written_as_serde_does() {
    for text in [
        "null",
        "true",
        "[1,-2,\"x\"]",
        r#"{"a":{"b":[]},"c":"\"\\\n\t\r\u0001\b\f/é😀"}"#,
        "18446744073709551615",
        "-9223372036854775808",
    ] {
        let value: serde_json::Value = serde_json::from_str(text).unwrap();
        assert_eq!(convert(value.clone()).to_text(), value.to_string());
    }
    // Every character of the lower planes, alone and as a name.
    for n in 0..0x3000u32 {
        if let Some(c) = char::from_u32(n) {
            let mut members = serde_json::Map::new();
            members.insert(c.to_string(), c.to_string().into());
            members.insert("b".to_string(), serde_json::Value::Null);
            let value = serde_json::Value::Object(members);
            assert_eq!(convert(value.clone()).to_text(), value.to_string());
        }
    }
    for n in [0.5f64, -0.0, 1.0, 1e300, -2.5e-7, 123456789.125] {
        let value = serde_json::Value::from(n);
        assert_eq!(convert(value.clone()).to_text(), value.to_string());
    }
}

fn convert(value: serde_json::Value) -> Json {
    match value {
        serde_json::Value::Null => Json::Null,
        serde_json::Value::Bool(b) => Json::Bool(b),
        serde_json::Value::Number(n) => Json::Number(match (n.as_u64(), n.as_i64()) {
            (Some(u), _) => Number::Unsigned(u),
            (_, Some(i)) => Number::Negative(i),
            _ => Number::Decimal(n.to_string()),
        }),
        serde_json::Value::String(s) => Json::Text(s),
        serde_json::Value::Array(items) => Json::Array(items.into_iter().map(convert).collect()),
        serde_json::Value::Object(members) => Json::Object(
            members.into_iter().map(|(name, value)| Member { name, value: convert(value) }).collect(),
        ),
    }
}

#[test]
fn members_are_set_found_and_compared() {
    let value = object(vec![("a", Json::unsigned(1)), ("b", Json::text("x"))]);
    assert_eq!(value.u64_at("a"), Some(1));
    assert_eq!(value.text_at("b"), Some("x"));
    assert!(value.get("c").is_none() && !value.has("c"));
    assert!(value.member_is("b", "x") && !value.member_is("a", "x"));
    let changed = value.copy().with("a", Json::Null).with("c", Json::Bool(true));
    assert!(changed.has("a") && !changed.has_value("a"));
    assert!(!changed.same(&value));
    assert!(changed.same(&changed.copy()));
}

// Digests and principals

#[test]
fn digests_are_those_of_the_engine() {
    let value = object(vec![("a", Json::text("x")), ("b", Json::unsigned(2))]);
    let parsed: serde_json::Value = serde_json::from_str(&value.to_text()).unwrap();
    let digest = anda_cognitive_nexus::content_digest(&parsed).unwrap();
    assert_eq!(json_digest(&value), digest);
    assert_eq!(format!("sha256:{}", json_digits(&value)), digest);
    assert!(digest_valid(&digest));
    assert!(!digest_valid(&digest.to_uppercase()));
    assert!(!digest_valid(&digest[..70]));
    assert!(!digest_valid(&format!("{digest}0")));
}

#[test]
fn principals_name_authenticated_parties() {
    assert_eq!(SYSTEM_PRINCIPAL, anda_cognitive_nexus::governance::SYSTEM_PRINCIPAL);
    assert_eq!(ANONYMOUS_PRINCIPAL, anda_cognitive_nexus::governance::ANONYMOUS_PRINCIPAL);
    assert!(principal_valid("kip:principal:alice"));
    assert!(!principal_valid(SYSTEM_PRINCIPAL));
    assert!(!principal_valid(ANONYMOUS_PRINCIPAL));
    assert!(!principal_valid("alice"));
    assert!(!principal_valid(&format!("kip:principal:{}", "x".repeat(243))));
    assert!(principal_valid(&format!("kip:principal:{}", "x".repeat(242))));
}

// Counts and wakes

#[test]
fn counts_are_kept_by_name() {
    let mut tally = Tally::new();
    for name in ["b", "a", "b"] {
        tally.bump(name);
    }
    assert_eq!((tally.count_of("a"), tally.count_of("b"), tally.count_of("c")), (1, 2, 0));
    let names: Vec<&str> = tally.counts.iter().map(|c| c.name.as_str()).collect();
    assert_eq!(names, ["a", "b"]);
}

#[test]
fn wakes_wait_or_have_ended() {
    let pending = WakeState::Pending { not_before_ms: 5 };
    assert!(pending.is_waiting(4) && !pending.is_waiting(5) && !pending.has_ended());
    assert!(WakeState::Cancelled { receipt_ref: "r".to_string() }.has_ended());
}

#[test]
fn every_member_name_can_be_digested() {
    let named = |value: serde_json::Value| {
        let mut members = serde_json::Map::new();
        members.insert("$serde_json::private::RawValue".to_string(), value);
        anda_cognitive_nexus::content_digest(&serde_json::Value::Object(members)).unwrap()
    };
    let own = |value: Json| {
        json_digest(&Json::Object(vec![anda_brain::json::Member {
            name: "$serde_json::private::RawValue".to_string(),
            value,
        }]))
    };
    assert_eq!(own(Json::unsigned(5)), named(serde_json::Value::from(5)));
    assert_eq!(own(Json::text("5")), named(serde_json::Value::from("5")));
}
