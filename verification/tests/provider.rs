use lonis::error::{ToolError, TOOL_FAILED};
use lonis::subprocess::failure_error;
use lonis::error::SERIALIZATION;
use lonis::ids::{mangle_tool_id, ToolId};
use lonis::provider::{
    call_args, describe_args, describe_shape_error, manifest_shape_error, tools_list_shape_error,
    SubprocessProvider,
};
use lonis::subprocess::{
    Availability, CommandProbe, SubprocessTool, DEFAULT_MAX_STDERR_BYTES, DEFAULT_MAX_STDOUT_BYTES,
    DEFAULT_TIMEOUT_MILLIS,
};

#[test]
fn mangle_dotted_names() {
    assert_eq!(mangle_tool_id("mock.echo").as_str(), "mock:echo");
    assert_eq!(
        mangle_tool_id("figma.get_document").as_str(),
        "figma:get_document"
    );
    assert_eq!(
        mangle_tool_id("lonis:builtin:echo").as_str(),
        "lonis:builtin:echo"
    );
    assert_eq!(mangle_tool_id("bare").as_str(), "provider:bare");
}

#[test]
fn tool_ids_need_two_non_empty_segments() {
    assert!(ToolId::new("lonis:builtin:echo").is_ok());
    assert!(ToolId::new("mock:echo").is_ok());
    assert!(ToolId::new("bare").is_err());
    assert!(ToolId::new("").is_err());
    assert!(ToolId::new(":echo").is_err());
    assert!(ToolId::new("mock:").is_err());
    assert!(ToolId::new("mock::echo").is_err());
    assert_eq!(ToolId::new("bare").unwrap_err().rejected, "bare");
}

#[test]
fn new_provider_uses_json_mode_discovery_and_default_bounds() {
    let provider = SubprocessProvider::new("/usr/bin/mock");
    assert_eq!(provider.command, "/usr/bin/mock");
    assert_eq!(provider.manifest_args, vec!["--mode", "json", "manifest"]);
    assert_eq!(provider.tools_list_args, vec!["--mode", "json", "tools", "list"]);
    assert_eq!(provider.configure.tool_id.as_str(), "lonis:provider:discovery");
    assert_eq!(provider.configure.timeout_millis, DEFAULT_TIMEOUT_MILLIS);
    assert_eq!(provider.configure.timeout_millis, 5000);
    assert_eq!(provider.configure.max_stdout_bytes, DEFAULT_MAX_STDOUT_BYTES);
    assert_eq!(provider.configure.max_stdout_bytes, 1_048_576);
    assert_eq!(provider.configure.max_stderr_bytes, DEFAULT_MAX_STDERR_BYTES);
    assert_eq!(provider.configure.max_stderr_bytes, 262_144);
    assert!(provider.configure.env.is_empty());
    assert!(provider.configure.cwd.is_none());
}

#[test]
fn provider_tool_inherits_bounds_and_calls_through_prefix() {
    let provider = SubprocessProvider::new("/usr/bin/mock")
        .with_timeout_millis(200)
        .with_max_stdout_bytes(1024)
        .with_env(vec![("KEY".into(), "value".into())])
        .with_cwd("/tmp/work");
    let tool = provider.tool("mock.echo");
    assert_eq!(tool.tool_id.as_str(), "mock:echo");
    assert_eq!(tool.command, "/usr/bin/mock");
    assert_eq!(tool.args, vec!["--mode", "json", "call", "mock.echo"]);
    assert_eq!(tool.timeout_millis, 200);
    assert_eq!(tool.max_stdout_bytes, 1024);
    assert_eq!(tool.env, vec![("KEY".to_owned(), "value".to_owned())]);
    assert_eq!(tool.cwd.as_deref(), Some("/tmp/work"));
}

#[test]
fn bare_provider_tool_gets_provider_namespace() {
    let tool = SubprocessProvider::new("mock").tool("bare");
    assert_eq!(tool.tool_id.as_str(), "provider:bare");
    assert_eq!(tool.args, vec!["--mode", "json", "call", "bare"]);
}

#[test]
fn discovery_argument_overrides() {
    let provider = SubprocessProvider::new("mock")
        .with_manifest_args(vec!["--text".into()])
        .with_tools_list_args(vec!["list".into()]);
    assert_eq!(provider.manifest_args, vec!["--text"]);
    assert_eq!(provider.tools_list_args, vec!["list"]);
}

#[test]
fn describe_and_call_arguments() {
    assert_eq!(
        describe_args("mock.echo"),
        vec!["--mode", "json", "tools", "describe", "mock.echo"]
    );
    assert_eq!(call_args("mock.fail"), vec!["--mode", "json", "call", "mock.fail"]);
}

#[test]
fn missing_provider_reports_unavailable() {
    let provider = SubprocessProvider::new("/definitely/not/a/provider");
    let availability = provider.availability(CommandProbe::Absent);
    assert!(!availability.is_ready());
    assert_eq!(
        availability,
        Availability::Missing {
            reason: "`/definitely/not/a/provider` was not found".into()
        }
    );
    assert!(provider.availability(CommandProbe::Executable).is_ready());
    assert!(matches!(
        provider.availability(CommandProbe::NotExecutable),
        Availability::NotExecutable { .. }
    ));
}

#[test]
fn facade_exposes_subprocess_adapter() {
    let tool = SubprocessTool::new(
        ToolId::new("lonis:facade:cat").unwrap(),
        "/definitely/missing",
    );
    assert!(!tool.availability(CommandProbe::Absent).is_ready());
}

#[test]
fn discovery_errors_are_invalid_output() {
    let provider = SubprocessProvider::new("mock");
    let err = provider.invalid_json_error("expected value at line 1");
    assert_eq!(err.kind, "invalid_output");
    assert_eq!(err.exit_code, SERIALIZATION);
    assert_eq!(
        err.message,
        "provider `mock` did not emit the expected JSON: expected value at line 1"
    );
    let err = manifest_shape_error("missing field `name`");
    assert_eq!(err.kind, "invalid_output");
    assert_eq!(err.exit_code, 9);
    assert_eq!(
        err.message,
        "provider manifest does not match the v0 shape: missing field `name`"
    );
    assert_eq!(
        tools_list_shape_error("x").message,
        "provider tools list does not match the v0 shape: x"
    );
    assert_eq!(
        describe_shape_error("y").message,
        "provider tools describe is not a ToolContract: y"
    );
}

#[test]
fn subprocess_tool_builders() {
    let tool = SubprocessTool::new(ToolId::new("lonis:test:cat").unwrap(), "cat")
        .with_args(vec!["-n".into()])
        .with_max_stderr_bytes(10)
        .with_description("concatenate")
        .with_version("1.0");
    assert_eq!(tool.args, vec!["-n"]);
    assert_eq!(tool.max_stderr_bytes, 10);
    assert_eq!(tool.description.as_deref(), Some("concatenate"));
    assert_eq!(tool.version.as_deref(), Some("1.0"));
    assert_eq!(tool.timeout_millis, 5000);
}

#[test]
fn discovery_output_is_trimmed_json() {
    let provider = SubprocessProvider::new("/opt/mock");
    let value = provider.parse_discovery_output(b"  {\"name\": \"mock\"}\n").unwrap();
    assert_eq!(value, serde_json::from_str::<serde_json::Value>("{\"name\": \"mock\"}").unwrap());
    let err = provider.parse_discovery_output(b"plain text output\n").unwrap_err();
    assert_eq!(err.kind, "invalid_output");
    assert_eq!(err.exit_code, SERIALIZATION);
    assert!(err
        .message
        .starts_with("provider `/opt/mock` did not emit the expected JSON: "));
}

#[test]
fn failure_mapping_prefers_structured_errors() {
    let structured = ToolError::new("mock_failure", "the mock failed deliberately", 3);
    assert_eq!(failure_error(Some(structured.clone()), Some(3), b"ignored"), structured);
    let plain = failure_error(None, Some(2), b"boom\n");
    assert_eq!(plain.kind, "tool_failed");
    assert_eq!(plain.message, "boom");
    assert_eq!(plain.exit_code, 2);
    assert_eq!(failure_error(None, Some(0), b"").exit_code, TOOL_FAILED);
    assert_eq!(failure_error(None, Some(300), b"").exit_code, TOOL_FAILED);
    assert_eq!(failure_error(None, None, b"").exit_code, TOOL_FAILED);
}
