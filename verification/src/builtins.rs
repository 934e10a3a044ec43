//! The harness's own tools: `lonis:builtin:echo` hands its input back in a
//! result block, `lonis:builtin:version` reports the harness version.

use vstd::prelude::*;

use crate::capabilities::{
    baseline_exit_codes, Capabilities, DerivedCapabilities, OutputMode, SchemaVersion, ToolContract,
};
use crate::error::{ToolError, INVALID_INPUT};
use crate::ids::{is_valid_tool_id, ToolId};
use crate::json::{json_is_null, json_string, json_string_of, json_value_of};
use crate::provider::ProviderManifest;
use crate::registry::{Tool, ToolRegistry};
use crate::text::texts;

verus! {

/// A `result` block: the tool that produced it and its output.
#[derive(Debug)]
pub struct ResultBlock {
    /// The producing tool's id.
    pub producer: String,
    /// The tool's output.
    pub output: serde_json::Value,
}

/// The echo tool's id.
pub open spec fn echo_id() -> Seq<char> {
    "lonis:builtin:echo"@
}

/// The version tool's id.
pub open spec fn version_id() -> Seq<char> {
    "lonis:builtin:version"@
}

proof fn lemma_builtin_ids_valid()
    ensures
        is_valid_tool_id(echo_id()),
        is_valid_tool_id(version_id()),
{
    reveal_strlit("lonis:builtin:echo");
    reveal_strlit("lonis:builtin:version");
    let e = echo_id();
    let v = version_id();
    assert(e[5] == ':' && e.contains(':'));
    assert(v[5] == ':' && v.contains(':'));
    assert forall|i: int| 0 <= i < e.len() - 1 && e[i] == ':' implies #[trigger] e[i + 1] != ':' by {}
    assert forall|i: int| 0 <= i < v.len() - 1 && v[i] == ':' implies #[trigger] v[i + 1] != ':' by {}
}

/// The harness's builtin tools.
#[derive(Debug)]
pub enum Builtin {
    /// `lonis:builtin:echo`.
    Echo(DerivedCapabilities),
    /// `lonis:builtin:version`.
    Version(DerivedCapabilities),
}

impl Builtin {
    /// The echo tool of a harness of version `version`.
    pub fn echo(version: &str) -> (r: Builtin)
        ensures
            r matches Builtin::Echo(c) && c.id@ == echo_id() && c.version@ == version@,
    {
        proof {
            lemma_builtin_ids_valid();
        }
        Builtin::Echo(DerivedCapabilities::new("lonis:builtin:echo", version))
    }

    /// The version tool of a harness of version `version`.
    pub fn version(version: &str) -> (r: Builtin)
        ensures
            r matches Builtin::Version(c) && c.id@ == version_id() && c.version@ == version@,
    {
        proof {
            lemma_builtin_ids_valid();
        }
        Builtin::Version(DerivedCapabilities::new("lonis:builtin:version", version))
    }

    fn capabilities(&self) -> (r: &DerivedCapabilities)
        ensures
            match self {
                Builtin::Echo(c) => r == c,
                Builtin::Version(c) => r == c,
            },
    {
        match self {
            Builtin::Echo(c) => c,
            Builtin::Version(c) => c,
        }
    }
}

impl Capabilities for Builtin {
    fn schema_version(&self) -> (r: SchemaVersion)
        ensures
            r.major == 1,
    {
        self.capabilities().schema_version()
    }

    fn tool_version(&self) -> (r: String)
        ensures
            r@ == (match self {
                Builtin::Echo(c) => c.version@,
                Builtin::Version(c) => c.version@,
            }),
    {
        self.capabilities().tool_version()
    }

    fn output_formats(&self) -> (r: Vec<OutputMode>)
        ensures
            r@ == seq![OutputMode::Human, OutputMode::Json, OutputMode::Ndjson],
    {
        self.capabilities().output_formats()
    }

    fn exit_code_map(&self) -> (r: Vec<(String, u8)>)
        ensures
            r@.len() == 6,
            r@[0].0@ == "ok"@ && r@[0].1 == 0,
            r@[1].0@ == "generic"@ && r@[1].1 == 1,
            r@[2].0@ == "invalid_input"@ && r@[2].1 == 2,
            r@[3].0@ == "not_found"@ && r@[3].1 == 3,
            r@[4].0@ == "confirmation_required"@ && r@[4].1 == 4,
            r@[5].0@ == "rate_limited"@ && r@[5].1 == 5,
            r@.len() == baseline_exit_codes().len(),
            forall|i: int|
                0 <= i < r@.len() ==> (#[trigger] r@[i]).0@ == baseline_exit_codes()[i].0
                    && r@[i].1 == baseline_exit_codes()[i].1,
    {
        self.capabilities().exit_code_map()
    }

    fn tool_id(&self) -> (r: ToolId)
        ensures
            r@ == self.id_of(),
    {
        self.capabilities().id.clone()
    }
}

impl Builtin {
    /// The id of a builtin.
    pub open spec fn id_of(&self) -> Seq<char> {
        match self {
            Builtin::Echo(c) => c.id@,
            Builtin::Version(c) => c.id@,
        }
    }
}

impl Tool<ResultBlock> for Builtin {
    /// Echo rejects `null` input with `bad_input` (exit code 2) and
    /// otherwise returns one result block holding the input; version returns
    /// one result block holding the harness version.
    fn invoke(&self, input: serde_json::Value) -> (r: Result<Vec<ResultBlock>, ToolError>)
        ensures
            match self {
                Builtin::Echo(c) => if input == json_value_of("null"@) {
                    r matches Err(e) && e.kind@ == "bad_input"@ && e.message@
                        == "echo requires non-null input"@ && e.exit_code == INVALID_INPUT
                } else {
                    r matches Ok(blocks) && blocks@.len() == 1 && blocks@[0].producer@ == c.id@
                        && blocks@[0].output == input
                },
                Builtin::Version(c) => r matches Ok(blocks) && blocks@.len() == 1
                    && blocks@[0].producer@ == c.id@ && blocks@[0].output == json_string_of(
                    c.version@,
                ),
            },
    {
        match self {
            Builtin::Echo(c) => {
                if json_is_null(&input) {
                    Err(ToolError::new("bad_input", "echo requires non-null input", INVALID_INPUT))
                } else {
                    Ok(vec![ResultBlock { producer: c.id.as_str().to_owned(), output: input }])
                }
            },
            Builtin::Version(c) => {
                Ok(
                    vec![
                        ResultBlock {
                            producer: c.id.as_str().to_owned(),
                            output: json_string(c.version.as_str()),
                        },
                    ],
                )
            },
        }
    }

    fn contract(&self) -> (r: Option<ToolContract>)
        ensures
            r matches Some(c) && c.name@ == self.id_of() && c.determinism@ == "deterministic"@
                && c.side_effects@ == "none"@ && c.cost@ == "low"@,
            self is Echo ==> (r matches Some(c) && c.description@ == "echo the input"@
                && c.input_schema@ == "lonis.builtin.echo/input/v1"@ && c.output_schema@
                == "lonis.builtin.echo/output/v1"@),
            self is Version ==> (r matches Some(c) && c.description@
                == "report the harness version"@ && c.input_schema@
                == "lonis.builtin.version/input/v1"@ && c.output_schema@
                == "lonis.builtin.version/output/v1"@),
    {
        match self {
            Builtin::Echo(c) => Some(
                ToolContract {
                    name: c.id.as_str().to_owned(),
                    description: "echo the input".to_owned(),
                    input_schema: "lonis.builtin.echo/input/v1".to_owned(),
                    output_schema: "lonis.builtin.echo/output/v1".to_owned(),
                    determinism: "deterministic".to_owned(),
                    side_effects: "none".to_owned(),
                    cost: "low".to_owned(),
                },
            ),
            Builtin::Version(c) => Some(
                ToolContract {
                    name: c.id.as_str().to_owned(),
                    description: "report the harness version".to_owned(),
                    input_schema: "lonis.builtin.version/input/v1".to_owned(),
                    output_schema: "lonis.builtin.version/output/v1".to_owned(),
                    determinism: "deterministic".to_owned(),
                    side_effects: "none".to_owned(),
                    cost: "low".to_owned(),
                },
            ),
        }
    }
}

/// The harness's own provider manifest: `lonis`, of version `version`,
/// listing the ids of `registry` in order, with the `diagnostics`
/// capability.
pub fn harness_manifest<T>(registry: &ToolRegistry<T>, version: &str) -> (r: ProviderManifest)
    ensures
        r.name@ == "lonis"@,
        r.version@ == version@,
        r.description@ == "Lonis — an AI-native tool harness for the Anima ecosystem"@,
        r.provider_type@ == "external-executable"@,
        r.protocol_version@ == "lonis.provider/v1"@,
        texts(r.tools@) == registry@,
        r.display_name is None,
        texts(r.capabilities@) == seq!["diagnostics"@],
{
    let capabilities = vec!["diagnostics".to_owned()];
    proof {
        assert(texts(capabilities@) =~= seq!["diagnostics"@]);
    }
    ProviderManifest {
        name: "lonis".to_owned(),
        version: version.to_owned(),
        description: "Lonis — an AI-native tool harness for the Anima ecosystem".to_owned(),
        provider_type: "external-executable".to_owned(),
        protocol_version: "lonis.provider/v1".to_owned(),
        tools: registry.ids(),
        display_name: None,
        capabilities,
    }
}

/// The registry of the harness's builtins: echo and version.
pub fn builtin_registry(version: &str) -> (r: ToolRegistry<Builtin>)
    ensures
        r.wf(),
        r@.len() == 2,
        r@.contains(echo_id()),
        r@.contains(version_id()),
        r.tool_of(echo_id()) matches Builtin::Echo(c) && c.id@ == echo_id() && c.version@
            == version@,
        r.tool_of(version_id()) matches Builtin::Version(c) && c.id@ == version_id()
            && c.version@ == version@,
{
    let mut registry: ToolRegistry<Builtin> = ToolRegistry::new();
    proof {
        lemma_builtin_ids_valid();
        reveal_strlit("lonis:builtin:echo");
        reveal_strlit("lonis:builtin:version");
        assert(echo_id() != version_id());
    }
    let echo = Builtin::echo(version);
    let echo_id = echo.tool_id();
    let version_tool = Builtin::version(version);
    let version_tool_id = version_tool.tool_id();
    let _ = registry.register_as(echo_id, echo);
    let _ = registry.register_as(version_tool_id, version_tool);
    registry
}

} // verus!
