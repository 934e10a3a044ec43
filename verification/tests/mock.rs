use lonis::mock::{mock_action, mock_mode, strip_mode_args, MockAction, MockMode};

fn args(list: &[&str]) -> Vec<String> {
    list.iter().map(|s| s.to_string()).collect()
}

#[test]
fn strips_mode_pairs() {
    assert_eq!(
        strip_mode_args(&args(&["--mode", "json", "tools", "list"])),
        args(&["tools", "list"])
    );
    assert_eq!(
        strip_mode_args(&args(&["call", "--mode", "json", "mock.echo"])),
        args(&["call", "mock.echo"])
    );
    assert_eq!(strip_mode_args(&args(&["--text", "--mode"])), args(&["--text"]));
    assert_eq!(strip_mode_args(&args(&[])), args(&[]));
}

#[test]
fn provider_subcommands() {
    assert_eq!(mock_action(&args(&["manifest"])), MockAction::Manifest);
    assert_eq!(mock_action(&args(&["tools", "list"])), MockAction::ToolsList);
    assert_eq!(
        mock_action(&args(&["tools", "describe", "mock.echo"])),
        MockAction::DescribeEcho
    );
    assert_eq!(
        mock_action(&args(&["tools", "describe", "mock.nope"])),
        MockAction::NotFound("mock.nope".into())
    );
    assert_eq!(
        mock_action(&args(&["call", "mock.echo"])),
        MockAction::Run(MockMode::Blocks)
    );
    assert_eq!(
        mock_action(&args(&["call", "mock.fail"])),
        MockAction::Run(MockMode::Fail)
    );
    assert_eq!(
        mock_action(&args(&["call", "x"])),
        MockAction::NotFound("x".into())
    );
    assert_eq!(
        mock_action(&args(&["call"])),
        MockAction::NotFound(String::new())
    );
}

#[test]
fn run_modes() {
    assert_eq!(mock_action(&args(&[])), MockAction::Run(MockMode::Blocks));
    assert_eq!(
        mock_action(&args(&["--sleep", "30000"])),
        MockAction::Run(MockMode::Sleep(Some("30000".into())))
    );
    assert_eq!(
        mock_action(&args(&["--big"])),
        MockAction::Run(MockMode::Big(None))
    );
    assert_eq!(
        mock_action(&args(&["tools"])),
        MockAction::Run(MockMode::Unknown("tools".into()))
    );
    assert_eq!(mock_mode("--ndjson", None), MockMode::Ndjson);
    assert_eq!(mock_mode("--text", None), MockMode::Text);
    assert_eq!(mock_mode("--unknown-kind", None), MockMode::UnknownKind);
    assert_eq!(mock_mode("--fail-plain", None), MockMode::FailPlain);
    assert_eq!(
        mock_mode("--stream", Some("3")),
        MockMode::Stream(Some("3".into()))
    );
    assert_eq!(mock_mode("--stream-fail", None), MockMode::StreamFail);
    assert_eq!(
        mock_mode("--stream-sleep", Some("30000")),
        MockMode::StreamSleep(Some("30000".into()))
    );
    assert_eq!(mock_mode("--what", None), MockMode::Unknown("--what".into()));
}
