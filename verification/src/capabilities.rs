//! Tool self-description: output modes, schema version, capabilities and
//! tool contracts.

use vstd::prelude::*;

use crate::error::{CONFIRMATION_REQUIRED, GENERIC, INVALID_INPUT, NOT_FOUND, RATE_LIMITED, SUCCESS};
use crate::ids::{is_valid_tool_id, ToolId};

verus! {

/// How results are rendered.
#[derive(Clone, Copy, Debug, PartialEq, Eq, Structural)]
pub enum OutputMode {
    /// One human line per block (the default).
    Human,
    /// One JSON array of blocks.
    Json,
    /// One block per line.
    Ndjson,
}

/// The version of the tool self-description schema.
#[derive(Clone, Copy, Debug, PartialEq, Eq, Structural)]
pub struct SchemaVersion {
    /// The major version.
    pub major: u32,
}

impl Default for SchemaVersion {
    fn default() -> (r: SchemaVersion)
        ensures
            r.major == 1,
    {
        SchemaVersion { major: 1 }
    }
}

/// A tool's declared contract.
#[derive(Debug, Clone, PartialEq, Eq)]
pub struct ToolContract {
    /// The tool's namespaced name.
    pub name: String,
    /// What the tool does.
    pub description: String,
    /// Input schema reference.
    pub input_schema: String,
    /// Output schema reference.
    pub output_schema: String,
    /// `deterministic` or `nondeterministic`.
    pub determinism: String,
    /// `none`, `reads_external` or `mutates_external`.
    pub side_effects: String,
    /// `low`, `medium` or `high`.
    pub cost: String,
}

/// Self-description every tool provides.
pub trait Capabilities {
    /// The self-description schema version.
    fn schema_version(&self) -> SchemaVersion;

    /// The tool's own version.
    fn tool_version(&self) -> String;

    /// The output modes the tool renders.
    fn output_formats(&self) -> Vec<OutputMode>;

    /// Error kinds and the exit codes they map to.
    fn exit_code_map(&self) -> Vec<(String, u8)>;

    /// The tool's namespaced id.
    fn tool_id(&self) -> ToolId;
}

/// The baseline exit-code map: `(kind, code)` pairs.
pub open spec fn baseline_exit_codes() -> Seq<(Seq<char>, u8)> {
    seq![
        ("ok"@, SUCCESS),
        ("generic"@, GENERIC),
        ("invalid_input"@, INVALID_INPUT),
        ("not_found"@, NOT_FOUND),
        ("confirmation_required"@, CONFIRMATION_REQUIRED),
        ("rate_limited"@, RATE_LIMITED),
    ]
}

/// The baseline exit-code map pairs each kind with the code of the same
/// name in the shared table: ok 0, generic 1, invalid_input 2, not_found 3,
/// confirmation_required 4, rate_limited 5.
pub proof fn law_baseline_codes_match_their_kinds()
    ensures
        baseline_exit_codes().len() == 6,
        baseline_exit_codes()[0] == ("ok"@, 0u8),
        baseline_exit_codes()[1] == ("generic"@, 1u8),
        baseline_exit_codes()[2] == ("invalid_input"@, 2u8),
        baseline_exit_codes()[3] == ("not_found"@, 3u8),
        baseline_exit_codes()[4] == ("confirmation_required"@, 4u8),
        baseline_exit_codes()[5] == ("rate_limited"@, 5u8),
{
}

/// The capabilities a tool gets from its id alone: schema version 1, all
/// three output modes, the baseline exit-code map, and the version of the
/// crate that declares the tool.
#[derive(Debug)]
pub struct DerivedCapabilities {
    /// The tool's id.
    pub id: ToolId,
    /// The declaring crate's version.
    pub version: String,
}

impl DerivedCapabilities {
    /// Capabilities for the tool `tool_id`, declared in a crate of version
    /// `version`. The id must be a valid namespaced id.
    pub fn new(tool_id: &str, version: &str) -> (r: DerivedCapabilities)
        requires
            is_valid_tool_id(tool_id@),
        ensures
            r.id@ == tool_id@,
            r.version@ == version@,
    {
        match ToolId::new(tool_id) {
            Ok(id) => DerivedCapabilities { id, version: version.to_owned() },
            Err(_) => {
                proof {
                    assert(false);
                }
                DerivedCapabilities { id: ToolId::new(tool_id).unwrap(), version: version.to_owned() }
            },
        }
    }

    /// The derived output modes: human, JSON and NDJSON.
    pub fn derived_output_formats() -> (r: Vec<OutputMode>)
        ensures
            r@ == seq![OutputMode::Human, OutputMode::Json, OutputMode::Ndjson],
    {
        let r = vec![OutputMode::Human, OutputMode::Json, OutputMode::Ndjson];
        assert(r@ =~= seq![OutputMode::Human, OutputMode::Json, OutputMode::Ndjson]);
        r
    }

    /// The derived exit-code map: the baseline.
    pub fn derived_exit_code_map() -> (r: Vec<(String, u8)>)
        ensures
            r@.len() == 6,
            r@[0].0@ == "ok"@ && r@[0].1 == 0,
            r@[1].0@ == "generic"@ && r@[1].1 == 1,
            r@[2].0@ == "invalid_input"@ && r@[2].1 == 2,
            r@[3].0@ == "not_found"@ && r@[3].1 == 3,
            r@[4].0@ == "confirmation_required"@ && r@[4].1 == 4,
            r@[5].0@ == "rate_limited"@ && r@[5].1 == 5,
            r@.len() == baseline_exit_codes().len(),
            forall|i: int|
                0 <= i < r@.len() ==> (#[trigger] r@[i]).0@ == baseline_exit_codes()[i].0
                    && r@[i].1 == baseline_exit_codes()[i].1,
    {
        let r = vec![
            ("ok".to_owned(), SUCCESS),
            ("generic".to_owned(), GENERIC),
            ("invalid_input".to_owned(), INVALID_INPUT),
            ("not_found".to_owned(), NOT_FOUND),
            ("confirmation_required".to_owned(), CONFIRMATION_REQUIRED),
            ("rate_limited".to_owned(), RATE_LIMITED),
        ];
        r
    }
}

impl Capabilities for DerivedCapabilities {
    fn schema_version(&self) -> (r: SchemaVersion)
        ensures
            r.major == 1,
    {
        SchemaVersion::default()
    }

    fn tool_version(&self) -> (r: String)
        ensures
            r@ == self.version@,
    {
        self.version.clone()
    }

    fn output_formats(&self) -> (r: Vec<OutputMode>)
        ensures
            r@ == seq![OutputMode::Human, OutputMode::Json, OutputMode::Ndjson],
    {
        DerivedCapabilities::derived_output_formats()
    }

    fn exit_code_map(&self) -> (r: Vec<(String, u8)>)
        ensures
            r@.len() == 6,
            r@[0].0@ == "ok"@ && r@[0].1 == 0,
            r@[1].0@ == "generic"@ && r@[1].1 == 1,
            r@[2].0@ == "invalid_input"@ && r@[2].1 == 2,
            r@[3].0@ == "not_found"@ && r@[3].1 == 3,
            r@[4].0@ == "confirmation_required"@ && r@[4].1 == 4,
            r@[5].0@ == "rate_limited"@ && r@[5].1 == 5,
            r@.len() == baseline_exit_codes().len(),
            forall|i: int|
                0 <= i < r@.len() ==> (#[trigger] r@[i]).0@ == baseline_exit_codes()[i].0
                    && r@[i].1 == baseline_exit_codes()[i].1,
    {
        DerivedCapabilities::derived_exit_code_map()
    }

    fn tool_id(&self) -> (r: ToolId)
        ensures
            r@ == self.id@,
    {
        self.id.clone()
    }
}

} // verus!
