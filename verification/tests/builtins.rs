use lonis::builtins::harness_manifest;
use lonis::builtins::{builtin_registry, Builtin};
use lonis::capabilities::Capabilities;
use lonis::error::{INVALID_INPUT, NOT_FOUND, SUCCESS};
use lonis::input::{input_source, parse_inline_input, parse_stdin_input, InputSource};
use lonis::registry::Tool;
use lonis::run::run_exit_code;

#[test]
fn bad_input_exits_two() {
    // `lonis call lonis:builtin:echo --mode json` with nothing on stdin.
    let registry = builtin_registry("0.1.0");
    assert_eq!(input_source(None), InputSource::Stdin);
    let input = parse_stdin_input("").unwrap();
    let outcome = registry.invoke("lonis:builtin:echo", input);
    assert_eq!(run_exit_code(&outcome, true), 2);
    assert_eq!(run_exit_code(&outcome, true), INVALID_INPUT);
}

#[test]
fn tools_list_shows_builtins() {
    let registry = builtin_registry("0.1.0");
    let ids = registry.ids();
    assert!(ids.iter().any(|id| id == "lonis:builtin:echo"));
    assert!(ids.iter().any(|id| id == "lonis:builtin:version"));
    for (id, tool) in registry.iter() {
        assert_eq!(tool.tool_version(), "0.1.0");
        assert_eq!(tool.tool_id().as_str(), id);
    }
}

#[test]
fn call_echo_returns_one_result_block() {
    let registry = builtin_registry("0.1.0");
    let input = parse_inline_input("{\"hello\":\"world\"}").unwrap();
    let outcome = registry.invoke("lonis:builtin:echo", input.clone());
    let blocks = outcome.as_ref().unwrap();
    assert_eq!(blocks.len(), 1);
    assert_eq!(blocks[0].producer, "lonis:builtin:echo");
    assert_eq!(blocks[0].output, input);
    assert_eq!(run_exit_code(&outcome, true), SUCCESS);
}

#[test]
fn unknown_tool_exits_three() {
    let registry = builtin_registry("0.1.0");
    let outcome = registry.invoke("lonis:nope:x", parse_inline_input("{}").unwrap());
    let err = outcome.as_ref().unwrap_err();
    assert_eq!(err.kind, "not_found");
    assert_eq!(run_exit_code(&outcome, true), NOT_FOUND);
}

#[test]
fn describe_echo_emits_contract() {
    let echo = Builtin::echo("0.1.0");
    let contract = echo.contract().unwrap();
    assert_eq!(contract.name, "lonis:builtin:echo");
    assert_eq!(contract.determinism, "deterministic");
}

#[test]
fn version_reports_the_harness_version() {
    let registry = builtin_registry("9.9.9");
    let blocks = registry
        .invoke("lonis:builtin:version", parse_inline_input("null").unwrap())
        .unwrap();
    assert_eq!(blocks.len(), 1);
    assert_eq!(blocks[0].producer, "lonis:builtin:version");
    assert_eq!(blocks[0].output, serde_json::Value::String("9.9.9".into()));
}

#[test]
fn harness_manifest_lists_the_builtins() {
    let registry = builtin_registry("0.1.0");
    let manifest = harness_manifest(&registry, "0.1.0");
    assert_eq!(manifest.name, "lonis");
    assert_eq!(manifest.version, "0.1.0");
    assert_eq!(manifest.protocol_version, "lonis.provider/v1");
    assert_eq!(manifest.tools, vec!["lonis:builtin:echo", "lonis:builtin:version"]);
    assert_eq!(manifest.capabilities, vec!["diagnostics"]);
}

#[test]
fn each_builtin_id_holds_its_own_tool() {
    let registry = builtin_registry("4.5.6");
    match registry.get("lonis:builtin:echo").unwrap() {
        Builtin::Echo(c) => assert_eq!(c.version, "4.5.6"),
        Builtin::Version(_) => panic!("the echo id holds the version tool"),
    }
    match registry.get("lonis:builtin:version").unwrap() {
        Builtin::Version(c) => assert_eq!(c.version, "4.5.6"),
        Builtin::Echo(_) => panic!("the version id holds the echo tool"),
    }
}

#[test]
fn builtin_contracts_are_complete() {
    let echo = Builtin::echo("0.1.0").contract().unwrap();
    assert_eq!(echo.description, "echo the input");
    assert_eq!(echo.input_schema, "lonis.builtin.echo/input/v1");
    assert_eq!(echo.output_schema, "lonis.builtin.echo/output/v1");
    assert_eq!((echo.determinism.as_str(), echo.side_effects.as_str(), echo.cost.as_str()), ("deterministic", "none", "low"));
    let version = Builtin::version("0.1.0").contract().unwrap();
    assert_eq!(version.name, "lonis:builtin:version");
    assert_eq!(version.description, "report the harness version");
    assert_eq!(version.output_schema, "lonis.builtin.version/output/v1");
}
