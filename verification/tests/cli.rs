use anda_brain::cli::{
    auth_token, mcp_http_config_from_cli, model_config_from_cli, normalize_http_path_prefix,
    parse_managers, plan_cors, split_csv_values, storage_kind, storage_of, AnyHost, Commands,
    Cors, CorsError, McpSettings, ModelSettings, StorageCommand,
};

const ANONYMOUS: &str = "2vxsx-fae";
const MANAGEMENT: &str = "aaaaa-aa";

#[test]
fn any_host_matches_every_host_name() {
    assert_eq!(AnyHost, "api.example.com");
    assert_eq!(AnyHost, "localhost");
    assert_eq!(AnyHost, "");
}

#[test]
fn cli_helpers_build_runtime_configuration() {
    let mut cli = ModelSettings {
        family: "openai".to_string(),
        name: "gpt-test".to_string(),
        api_key: "test-key".to_string(),
        api_base: "https://api.example.test".to_string(),
        context_window: 128,
        max_output: 64,
    };
    let model = model_config_from_cli(&cli);
    assert_eq!(model.family, "openai");
    assert_eq!(model.model, "gpt-test");
    assert_eq!(model.context_window, 128);
    assert_eq!(model.max_output, 64);
    assert!(!model.disabled);

    cli.api_key.clear();
    assert!(model_config_from_cli(&cli).disabled);

    let _ = plan_cors("").unwrap();
    let _ = plan_cors("  ").unwrap();
    let _ = plan_cors("*").unwrap();
    let _ = plan_cors("https://example.test, https://app.example.test,").unwrap();
    // An origin that fails header parsing (embedded DEL byte) must abort startup
    // instead of being silently dropped.
    assert!(plan_cors("https://example.test,bad\u{7f}origin").is_err());
    // Only separators and whitespace is a configuration mistake too.
    assert!(plan_cors(",").is_err());

    assert_eq!(normalize_http_path_prefix("mcp/"), "/mcp");
    assert_eq!(
        split_csv_values("localhost, brain.example.com, "),
        vec!["localhost", "brain.example.com"]
    );
    let mcp = mcp_http_config_from_cli(&McpSettings {
        path_prefix: "brain-mcp/".to_string(),
        allowed_hosts: "brain.example.com,127.0.0.1".to_string(),
        allowed_origins: "https://agents.example.com".to_string(),
        auto_create_space: true,
        auto_create_tier: 1,
    });
    assert_eq!(mcp.path_prefix, "/brain-mcp");
    assert_eq!(mcp.allowed_hosts.len(), 2);
    assert_eq!(mcp.allowed_origins, vec!["https://agents.example.com"]);
    assert!(mcp.auto_create_space);
}

#[test]
fn origins_are_kept_or_refused_by_name() {
    match plan_cors("https://a.test, https://b.test").unwrap() {
        Cors::Origins(list) => assert_eq!(list, vec!["https://a.test", "https://b.test"]),
        other => panic!("{other:?}"),
    }
    assert!(matches!(plan_cors(" * ").unwrap(), Cors::Open));
    assert!(matches!(plan_cors("").unwrap(), Cors::Closed));
    match plan_cors("ok,bad\u{7f},worse\n") {
        Err(CorsError::InvalidOrigin(origin)) => assert_eq!(origin, "bad\u{7f}"),
        other => panic!("{other:?}"),
    }
    assert!(matches!(plan_cors(" , "), Err(CorsError::NoOrigin)));
    // Text beyond ASCII is a header value; a control character is not.
    assert!(plan_cors("https://ü.test").is_ok());
    assert!(plan_cors("a\u{1}b").is_err());
}

#[test]
fn parse_managers_accepts_empty_and_rejects_invalid_ids() {
    assert!(parse_managers("").unwrap().is_empty());

    let managers = parse_managers(ANONYMOUS).unwrap();
    assert_eq!(managers.len(), 1);
    assert!(managers.contains(&ANONYMOUS.to_string()));

    // Whitespace around ids and stray commas are tolerated.
    let managers = parse_managers(&format!(" {ANONYMOUS} , ,{ANONYMOUS},")).unwrap();
    assert_eq!(managers.len(), 1);
    assert!(managers.contains(&ANONYMOUS.to_string()));
    assert!(parse_managers(" , ").unwrap().is_empty());

    assert!(parse_managers("not a principal").is_err());
    assert!(parse_managers(&format!("{ANONYMOUS},not a principal")).is_err());
}

#[test]
fn managers_are_canonical_and_name_the_one_that_is_wrong() {
    let managers = parse_managers(&format!("{MANAGEMENT},2VXSX-FAE")).unwrap();
    assert_eq!(managers, vec![ANONYMOUS.to_string(), MANAGEMENT.to_string()]);
    assert_eq!(parse_managers("aaaaa-aa,nope,worse").unwrap_err().0, "nope");
}

#[test]
fn storage_follows_the_command() {
    let local = storage_of(Some(Commands::Local { db: "./db".to_string() }));
    assert!(matches!(&local, Some(StorageCommand::Local { db }) if db == "./db"));
    assert_eq!(storage_kind(&local), "local");
    let nested = storage_of(Some(Commands::Mcp {
        space_id: "mcp_test".to_string(),
        auth_token: None,
        auto_create_space: false,
        auto_create_tier: 1,
        storage: Some(StorageCommand::Aws {
            bucket: "b".to_string(),
            region: "r".to_string(),
        }),
    }));
    assert_eq!(storage_kind(&nested), "aws");
    assert_eq!(storage_kind(&storage_of(None)), "memory");
    assert_eq!(auth_token(Some(String::new())), None);
    assert_eq!(auth_token(Some("t".to_string())), Some("t".to_string()));
}

#[test]
fn path_prefixes_start_with_a_slash() {
    assert_eq!(normalize_http_path_prefix(" /a/b// "), "/a/b");
    assert_eq!(normalize_http_path_prefix("///"), "/mcp");
    assert_eq!(normalize_http_path_prefix("x"), "/x");
}

#[test]
fn csv_values_survive_joining_and_splitting() {
    for input in ["", " , ,", "a", " a b ,, c\t,d", "x,x"] {
        let values = split_csv_values(input);
        assert!(values.iter().all(|v| !v.is_empty() && !v.contains(',') && v.trim() == v));
        assert_eq!(split_csv_values(&values.join(",")), values);
    }
    assert_eq!(split_csv_values(" a b ,, c\t,d"), vec!["a b", "c", "d"]);
}
