use mcp_binary::McpServerOpts;
use mcp_binary::MutationMode;
use mcp_binary::command::build_args;
use mcp_binary::command::dec_string;

fn minimal_opts() -> McpServerOpts {
    McpServerOpts {
        port: 5000,
        address: "127.0.0.1".to_string(),
        directory: None,
        collection: None,
        allow_mutations: MutationMode::Disabled,
        introspection: false,
        operations: vec![],
        headers: vec![],
        manifest: None,
        uplink_manifest: false,
        uplink: false,
        custom_scalars_config: None,
        disable_type_description: false,
        disable_schema_description: false,
        explorer: false,
    }
}

fn full_opts() -> McpServerOpts {
    McpServerOpts {
        port: 5000,
        address: "127.0.0.1".to_string(),
        directory: Some("work".to_string()),
        collection: Some("coll-id".to_string()),
        allow_mutations: MutationMode::Explicit,
        introspection: true,
        operations: vec!["op1.graphql".to_string(), "op2.graphql".to_string()],
        headers: vec!["x-a:1".to_string(), "x-b:2".to_string()],
        manifest: Some("pq-manifest.graphql.json".to_string()),
        uplink_manifest: false,
        uplink: true,
        custom_scalars_config: Some("scalars.json".to_string()),
        disable_type_description: true,
        disable_schema_description: true,
        explorer: true,
    }
}

fn count(args: &[String], tok: &str) -> usize {
    args.iter().filter(|a| a.as_str() == tok).count()
}

#[test]
fn minimal_options_emit_only_mandatory_pairs() {
    let args = build_args(
        &"schema.graphql".to_string(),
        &"http://localhost:4000".to_string(),
        &minimal_opts(),
    );
    assert_eq!(
        args,
        vec![
            "--schema".to_string(),
            "schema.graphql".to_string(),
            "--endpoint".to_string(),
            "http://localhost:4000".to_string(),
            "--http-port".to_string(),
            "5000".to_string(),
            "--http-address".to_string(),
            "127.0.0.1".to_string(),
            "--allow-mutations".to_string(),
            "none".to_string(),
        ]
    );
}

#[test]
fn full_options_emit_every_flag_in_fixed_order() {
    let args = build_args(
        &"schema.graphql".to_string(),
        &"http://localhost:4000".to_string(),
        &full_opts(),
    );
    let expected: Vec<String> = [
        "--schema",
        "schema.graphql",
        "--endpoint",
        "http://localhost:4000",
        "--http-port",
        "5000",
        "--http-address",
        "127.0.0.1",
        "--directory",
        "work",
        "--collection",
        "coll-id",
        "--allow-mutations",
        "explicit",
        "--introspection",
        "--operations",
        "op1.graphql",
        "op2.graphql",
        "--header",
        "x-a:1",
        "--header",
        "x-b:2",
        "--manifest",
        "pq-manifest.graphql.json",
        "--uplink-manifest",
        "--custom-scalars-config",
        "scalars.json",
        "--disable-type-description",
        "--disable-schema-description",
        "--explorer",
    ]
    .iter()
    .map(|s| s.to_string())
    .collect();
    assert_eq!(args, expected);
}

#[test]
fn builder_is_deterministic() {
    let schema = "s.graphql".to_string();
    let endpoint = "http://e:1".to_string();
    let a = build_args(&schema, &endpoint, &full_opts());
    let b = build_args(&schema, &endpoint, &full_opts());
    assert_eq!(a, b);
}

#[test]
fn absent_boolean_flags_never_appear() {
    let args = build_args(&"s".to_string(), &"e".to_string(), &minimal_opts());
    assert_eq!(count(&args, "--introspection"), 0);
    assert_eq!(count(&args, "--uplink-manifest"), 0);
    assert_eq!(count(&args, "--disable-type-description"), 0);
    assert_eq!(count(&args, "--disable-schema-description"), 0);
    assert_eq!(count(&args, "--explorer"), 0);
}

#[test]
fn present_boolean_flags_appear_exactly_once() {
    let args = build_args(&"s".to_string(), &"e".to_string(), &full_opts());
    assert_eq!(count(&args, "--introspection"), 1);
    assert_eq!(count(&args, "--uplink-manifest"), 1);
    assert_eq!(count(&args, "--disable-type-description"), 1);
    assert_eq!(count(&args, "--disable-schema-description"), 1);
    assert_eq!(count(&args, "--explorer"), 1);
}

#[test]
fn uplink_alone_emits_one_uplink_manifest_token() {
    let mut o = minimal_opts();
    o.uplink = true;
    let args = build_args(&"s".to_string(), &"e".to_string(), &o);
    assert_eq!(count(&args, "--uplink-manifest"), 1);
}

#[test]
fn uplink_manifest_alone_emits_one_uplink_manifest_token() {
    let mut o = minimal_opts();
    o.uplink_manifest = true;
    let args = build_args(&"s".to_string(), &"e".to_string(), &o);
    assert_eq!(count(&args, "--uplink-manifest"), 1);
}

#[test]
fn both_uplink_options_emit_one_uplink_manifest_token_never_two() {
    let mut o = minimal_opts();
    o.uplink = true;
    o.uplink_manifest = true;
    let args = build_args(&"s".to_string(), &"e".to_string(), &o);
    assert_eq!(count(&args, "--uplink-manifest"), 1);
}

#[test]
fn mutation_modes_render_their_value_names() {
    for (mode, name) in [
        (MutationMode::Disabled, "none"),
        (MutationMode::Explicit, "explicit"),
        (MutationMode::All, "all"),
    ] {
        let mut o = minimal_opts();
        o.allow_mutations = mode;
        let args = build_args(&"s".to_string(), &"e".to_string(), &o);
        let at = args.iter().position(|a| a == "--allow-mutations").unwrap();
        assert_eq!(args[at + 1], name);
    }
}

#[test]
fn port_renders_in_decimal() {
    assert_eq!(dec_string(0), "0");
    assert_eq!(dec_string(7), "7");
    assert_eq!(dec_string(80), "80");
    assert_eq!(dec_string(4000), "4000");
    assert_eq!(dec_string(65535), "65535");
}

#[test]
fn header_values_each_get_their_own_flag() {
    let mut o = minimal_opts();
    o.headers = vec!["a".to_string(), "b".to_string(), "c".to_string()];
    let args = build_args(&"s".to_string(), &"e".to_string(), &o);
    assert_eq!(count(&args, "--header"), 3);
    let tail: Vec<&str> = args[args.len() - 6..].iter().map(|s| s.as_str()).collect();
    assert_eq!(tail, vec!["--header", "a", "--header", "b", "--header", "c"]);
}

#[test]
fn operations_share_one_flag() {
    let mut o = minimal_opts();
    o.operations = vec!["one".to_string(), "two".to_string()];
    let args = build_args(&"s".to_string(), &"e".to_string(), &o);
    assert_eq!(count(&args, "--operations"), 1);
    let tail: Vec<&str> = args[args.len() - 3..].iter().map(|s| s.as_str()).collect();
    assert_eq!(tail, vec!["--operations", "one", "two"]);
}

#[test]
fn empty_operation_list_emits_no_operations_flag() {
    let args = build_args(&"s".to_string(), &"e".to_string(), &minimal_opts());
    assert_eq!(count(&args, "--operations"), 0);
    assert_eq!(count(&args, "--header"), 0);
}
