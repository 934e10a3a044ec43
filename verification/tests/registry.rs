use lonis::capabilities::{
    Capabilities, DerivedCapabilities, OutputMode, SchemaVersion, ToolContract,
};
use lonis::error::{ToolError, GENERIC, INVALID_INPUT, NOT_FOUND, SUCCESS};
use lonis::ids::ToolId;
use lonis::registry::{Tool, ToolRegistry};
use lonis::run::{run_exit_code, StreamAction, StreamEnd, StreamRun};
use lonis::stream::BlockStream;

fn json(text: &str) -> serde_json::Value {
    serde_json::from_str(text).unwrap()
}

/// A test block: a kind tag and a JSON body.
#[derive(Debug, Clone, PartialEq)]
struct TestBlock {
    kind: String,
    producer: String,
    data: serde_json::Value,
}

struct Echo;

impl Capabilities for Echo {
    fn schema_version(&self) -> SchemaVersion {
        SchemaVersion::default()
    }
    fn tool_version(&self) -> String {
        "0.0.1".into()
    }
    fn output_formats(&self) -> Vec<OutputMode> {
        vec![OutputMode::Human, OutputMode::Json, OutputMode::Ndjson]
    }
    fn exit_code_map(&self) -> Vec<(String, u8)> {
        vec![("ok".into(), SUCCESS), ("bad_input".into(), INVALID_INPUT)]
    }
    fn tool_id(&self) -> ToolId {
        ToolId::new("lonis:test:echo").unwrap()
    }
}

impl Tool<TestBlock> for Echo {
    fn invoke(&self, input: serde_json::Value) -> Result<Vec<TestBlock>, ToolError> {
        if input.is_null() {
            return Err(ToolError::new(
                "bad_input",
                "echo requires non-null input",
                INVALID_INPUT,
            ));
        }
        let id = self.tool_id();
        Ok(vec![
            TestBlock {
                kind: "message".into(),
                producer: id.as_str().into(),
                data: json("{\"content\": \"echoing\"}"),
            },
            TestBlock {
                kind: "result".into(),
                producer: id.as_str().into(),
                data: input,
            },
        ])
    }
}

struct Other(DerivedCapabilities);

impl Capabilities for Other {
    fn schema_version(&self) -> SchemaVersion {
        self.0.schema_version()
    }
    fn tool_version(&self) -> String {
        self.0.tool_version()
    }
    fn output_formats(&self) -> Vec<OutputMode> {
        self.0.output_formats()
    }
    fn exit_code_map(&self) -> Vec<(String, u8)> {
        self.0.exit_code_map()
    }
    fn tool_id(&self) -> ToolId {
        self.0.tool_id()
    }
}

impl Tool<TestBlock> for Other {
    fn invoke(&self, _input: serde_json::Value) -> Result<Vec<TestBlock>, ToolError> {
        Ok(Vec::new())
    }
    fn contract(&self) -> Option<ToolContract> {
        Some(ToolContract {
            name: self.0.tool_id().as_str().into(),
            description: "does nothing".into(),
            input_schema: "other/input/v1".into(),
            output_schema: "other/output/v1".into(),
            determinism: "deterministic".into(),
            side_effects: "none".into(),
            cost: "low".into(),
        })
    }
}

type Registry = ToolRegistry<Box<dyn Tool<TestBlock>>>;

fn build_reg() -> Registry {
    let mut reg: Registry = ToolRegistry::new();
    reg.register(Box::new(Echo)).unwrap();
    reg
}

#[test]
fn register_and_get() {
    let mut reg: Registry = ToolRegistry::new();
    assert!(reg.is_empty());
    reg.register(Box::new(Echo)).unwrap();
    assert_eq!(reg.len(), 1);
    assert!(reg.get("lonis:test:echo").is_some());
    assert!(reg.get("lonis:nope:x").is_none());
}

#[test]
fn rejects_duplicate() {
    let mut reg: Registry = ToolRegistry::new();
    reg.register(Box::new(Echo)).unwrap();
    let err = reg.register(Box::new(Echo)).unwrap_err();
    assert_eq!(err.kind, "already_registered");
    assert_eq!(err.exit_code, GENERIC);
    assert_eq!(
        err.message,
        "a tool with id `lonis:test:echo` is already registered"
    );
    assert_eq!(reg.len(), 1);
}

#[test]
fn iter_sorted() {
    let reg = build_reg();
    let ids: Vec<_> = reg.iter().into_iter().map(|(id, _)| id).collect();
    assert_eq!(ids, vec!["lonis:test:echo"]);
}

#[test]
fn iteration_is_sorted_whatever_the_registration_order() {
    let mut reg: Registry = ToolRegistry::default();
    for id in ["zeta:b:c", "alpha:b:c", "lonis:test:echo2", "alpha:a:z", "Zed:x:y"] {
        reg.register(Box::new(Other(DerivedCapabilities::new(id, "1.0"))))
            .unwrap();
    }
    reg.register(Box::new(Echo)).unwrap();
    assert_eq!(
        reg.ids(),
        vec![
            "Zed:x:y",
            "alpha:a:z",
            "alpha:b:c",
            "lonis:test:echo",
            "lonis:test:echo2",
            "zeta:b:c"
        ]
    );
    let from_iter: Vec<String> = reg
        .iter()
        .into_iter()
        .map(|(id, tool)| {
            assert_eq!(tool.tool_id().as_str(), id);
            id.to_owned()
        })
        .collect();
    assert_eq!(from_iter, reg.ids());
    assert!(reg.contains("alpha:b:c"));
    assert!(!reg.contains("alpha:b"));
}

#[test]
fn invoke_returns_blocks() {
    let reg = build_reg();
    let blocks = reg
        .invoke("lonis:test:echo", json("{\"hi\": 1}"))
        .unwrap();
    assert_eq!(blocks.len(), 2);
    assert_eq!(blocks[0].kind, "message");
    assert_eq!(blocks[1].kind, "result");
    assert_eq!(blocks[1].producer, "lonis:test:echo");
}

#[test]
fn invoke_unknown_is_not_found() {
    let reg = build_reg();
    let err = reg
        .invoke("lonis:nope:x", serde_json::Value::Null)
        .unwrap_err();
    assert_eq!(err.kind, "not_found");
    assert_eq!(err.exit_code, NOT_FOUND);
    assert_eq!(err.message, "no tool with id `lonis:nope:x`");
}

#[test]
fn invoke_propagates_tool_error() {
    let reg = build_reg();
    let err = reg
        .invoke("lonis:test:echo", serde_json::Value::Null)
        .unwrap_err();
    assert_eq!(err.kind, "bad_input");
    assert_eq!(err.exit_code, INVALID_INPUT);
}

#[test]
fn render_error_human_display() {
    let err = ToolError::new("bad_input", "nope", INVALID_INPUT);
    assert_eq!(err.display_text(), "bad_input: nope");
}

#[test]
fn run_tool_success_exit_zero() {
    let reg = build_reg();
    let outcome = reg.invoke("lonis:test:echo", json("42"));
    assert_eq!(run_exit_code(&outcome, true), SUCCESS);
    assert_eq!(run_exit_code(&outcome, false), GENERIC);
}

#[test]
fn run_tool_not_found_exit_three() {
    let reg = build_reg();
    let outcome = reg.invoke("lonis:nope:x", serde_json::Value::Null);
    assert_eq!(run_exit_code(&outcome, true), NOT_FOUND);
}

#[test]
fn run_tool_bad_input_exit_two() {
    let reg = build_reg();
    let outcome = reg.invoke("lonis:test:echo", serde_json::Value::Null);
    assert_eq!(run_exit_code(&outcome, true), INVALID_INPUT);
}

#[test]
fn contract_default_is_none() {
    assert!(Echo.contract().is_none());
    let other = Other(DerivedCapabilities::new("lonis:test:other", "1.0"));
    assert_eq!(other.contract().unwrap().name, "lonis:test:other");
}

#[test]
fn invoke_stream_replays_the_collected_blocks() {
    let reg = build_reg();
    let mut stream = reg
        .invoke_stream("lonis:test:echo", json("{\"a\": 1}"))
        .unwrap();
    let first = stream.next().unwrap().unwrap();
    assert_eq!(first.kind, "message");
    let second = stream.next().unwrap().unwrap();
    assert_eq!(second.kind, "result");
    assert_eq!(second.data, json("{\"a\": 1}"));
    assert!(stream.next().is_none());
    assert!(stream.next().is_none());
    let err = reg
        .invoke_stream("lonis:nope:x", serde_json::Value::Null)
        .err()
        .unwrap();
    assert_eq!(err.kind, "not_found");
}

#[test]
fn stream_run_buffers_json_and_emits_ndjson() {
    let mut run: StreamRun<u32> = StreamRun::new(OutputMode::Json);
    assert!(matches!(run.on_item(Ok(1)), StreamAction::Buffer));
    assert!(matches!(run.on_item(Ok(2)), StreamAction::Buffer));
    let (end, code) = run.finish();
    assert_eq!(code, SUCCESS);
    match end {
        StreamEnd::EmitArray(v) => assert_eq!(v, vec![1, 2]),
        StreamEnd::Done => panic!("json mode must emit the buffered array"),
    }

    let mut run: StreamRun<u32> = StreamRun::new(OutputMode::Ndjson);
    assert!(matches!(run.on_item(Ok(7)), StreamAction::Emit(7)));
    match run.on_item(Err(ToolError::new("mock_failure", "boom", 3))) {
        StreamAction::Fail(err, code) => {
            assert_eq!(err.kind, "mock_failure");
            assert_eq!(code, 3);
        }
        _ => panic!("an error item ends the run"),
    }
    assert!(matches!(run.finish().0, StreamEnd::Done));
}

#[test]
fn block_stream_from_blocks_yields_in_order() {
    let mut stream = BlockStream::from_blocks(vec![10, 20, 30]);
    assert_eq!(stream.next().unwrap().unwrap(), 10);
    assert_eq!(stream.next().unwrap().unwrap(), 20);
    assert_eq!(stream.next().unwrap().unwrap(), 30);
    assert!(stream.next().is_none());
}

#[test]
fn collect_then_stream_default_via_custom_tool() {
    // A tool without an `invoke_stream` override streams its collected blocks.
    struct OneShot;
    impl Capabilities for OneShot {
        fn schema_version(&self) -> SchemaVersion {
            SchemaVersion::default()
        }
        fn tool_version(&self) -> String {
            "0.0.1".into()
        }
        fn output_formats(&self) -> Vec<OutputMode> {
            vec![OutputMode::Ndjson]
        }
        fn exit_code_map(&self) -> Vec<(String, u8)> {
            vec![("ok".into(), 0)]
        }
        fn tool_id(&self) -> ToolId {
            ToolId::new("lonis:test:oneshot").unwrap()
        }
    }
    impl Tool<TestBlock> for OneShot {
        fn invoke(&self, _input: serde_json::Value) -> Result<Vec<TestBlock>, ToolError> {
            Ok(vec![
                TestBlock {
                    kind: "test.one".into(),
                    producer: "lonis:test:oneshot".into(),
                    data: json("1"),
                },
                TestBlock {
                    kind: "test.two".into(),
                    producer: "lonis:test:oneshot".into(),
                    data: json("2"),
                },
            ])
        }
    }
    let mut stream = OneShot.invoke_stream(serde_json::Value::Null).expect("stream");
    let mut items = Vec::new();
    while let Some(item) = stream.next() {
        items.push(item.expect("all ok"));
    }
    assert_eq!(items.len(), 2);
    assert_eq!(items[0].kind, "test.one");
    assert_eq!(items[1].kind, "test.two");
}

#[test]
fn facade_composes_schema_and_core() {
    struct FacadeEcho;
    impl Capabilities for FacadeEcho {
        fn schema_version(&self) -> SchemaVersion {
            SchemaVersion::default()
        }
        fn tool_version(&self) -> String {
            "0.0.1".into()
        }
        fn output_formats(&self) -> Vec<OutputMode> {
            vec![OutputMode::Human, OutputMode::Json, OutputMode::Ndjson]
        }
        fn exit_code_map(&self) -> Vec<(String, u8)> {
            vec![("ok".into(), SUCCESS)]
        }
        fn tool_id(&self) -> ToolId {
            ToolId::new("lonis:facade:echo").unwrap()
        }
    }
    impl Tool<TestBlock> for FacadeEcho {
        fn invoke(&self, input: serde_json::Value) -> Result<Vec<TestBlock>, ToolError> {
            let id = self.tool_id();
            Ok(vec![TestBlock {
                kind: "result".into(),
                producer: id.as_str().into(),
                data: input,
            }])
        }
    }
    let mut registry: ToolRegistry<Box<dyn Tool<TestBlock>>> = ToolRegistry::new();
    registry.register(Box::new(FacadeEcho)).unwrap();
    let blocks = registry
        .invoke::<TestBlock>("lonis:facade:echo", json("{\"via\": \"facade\"}"))
        .unwrap();
    assert_eq!(blocks.len(), 1);
    assert_eq!(blocks[0].kind, "result");
    assert_eq!(blocks[0].data, json("{\"via\": \"facade\"}"));
}

#[test]
fn failed_invocation_streams_its_error_as_the_final_item() {
    let reg = build_reg();
    let mut stream = reg
        .invoke_stream("lonis:test:echo", serde_json::Value::Null)
        .expect("a failed invocation still yields a stream");
    let err = stream.next().unwrap().unwrap_err();
    assert_eq!(err.kind, "bad_input");
    assert_eq!(err.exit_code, INVALID_INPUT);
    assert!(stream.next().is_none());
}

#[test]
fn get_and_iter_pair_ids_with_their_tools() {
    let mut reg: Registry = ToolRegistry::new();
    reg.register(Box::new(Echo)).unwrap();
    reg.register(Box::new(Other(DerivedCapabilities::new("lonis:test:other", "0.2.0"))))
        .unwrap();
    assert_eq!(reg.get("lonis:test:other").unwrap().tool_version(), "0.2.0");
    assert_eq!(reg.get("lonis:test:echo").unwrap().tool_version(), "0.0.1");
    for (id, tool) in reg.iter() {
        assert_eq!(tool.tool_id().as_str(), id);
    }
}

#[test]
fn tool_error_carries_details() {
    let err = ToolError::new("mock_failure", "boom", 3).with_details(json("{\"deliberate\": true}"));
    assert_eq!(err.details, Some(json("{\"deliberate\": true}")));
    assert_eq!(err.clone(), err);
    assert_eq!(ToolError::new("a", "b", 1).details, None);
}
