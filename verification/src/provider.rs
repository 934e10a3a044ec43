//! `SubprocessProvider`: one external executable hosting many tools behind
//! the provider subcommands (`manifest`, `tools list`, `tools describe
//! <name>`, `call <name>`).

use vstd::prelude::*;

use crate::error::{ToolError, SERIALIZATION};
use crate::ids::{check_tool_id, dots_to_colons, has_empty_segment, is_valid_tool_id, mangle_tool_id, mangled_id, ToolId};
use crate::subprocess::{Availability, CommandProbe, SubprocessTool};
use crate::input::{trim_text, trimmed};
use crate::json::{json_error_text, json_text_parses, json_value_of, parse_json};
use crate::text::{texts, utf8_lossy, utf8_lossy_text};

verus! {

/// Provider metadata emitted by `<cmd> manifest`. Unknown fields are
/// tolerated when read.
#[derive(Debug, Clone, PartialEq, Eq)]
pub struct ProviderManifest {
    /// Provider name (e.g. `lonis`, `figma`).
    pub name: String,
    /// Provider version string.
    pub version: String,
    /// What the provider does.
    pub description: String,
    /// Provider kind (`external-executable` for this adapter).
    pub provider_type: String,
    /// The provider protocol version the executable speaks.
    pub protocol_version: String,
    /// Tool names the provider hosts.
    pub tools: Vec<String>,
    /// Human display name, when provided.
    pub display_name: Option<String>,
    /// Declared provider capabilities, when provided.
    pub capabilities: Vec<String>,
}

/// The `<cmd> tools list` response.
#[derive(Debug, Clone, PartialEq, Eq)]
pub struct ProviderToolList {
    /// The provider's name, when echoed.
    pub provider: Option<String>,
    /// Compact tool summaries.
    pub tools: Vec<ProviderToolSummary>,
}

/// A compact tool summary from `tools list`.
#[derive(Debug, Clone, PartialEq, Eq)]
pub struct ProviderToolSummary {
    /// The tool's name within the provider (e.g. `mock.echo`).
    pub name: String,
    /// Short purpose description, when provided.
    pub description: Option<String>,
}

/// A provider: one external executable hosting many tools.
///
/// Discovery commands default to the provider surface with `--mode json`;
/// every argument prefix is overridable.
#[derive(Debug)]
pub struct SubprocessProvider {
    /// The executable.
    pub command: String,
    /// The `manifest` discovery arguments.
    pub manifest_args: Vec<String>,
    /// The `tools list` discovery arguments.
    pub tools_list_args: Vec<String>,
    /// The bounded execution configuration shared with constructed tools.
    pub configure: SubprocessTool,
}

/// The id under which discovery runs.
pub open spec fn discovery_id() -> Seq<char> {
    "lonis:provider:discovery"@
}

/// The argument vector `--mode json <subcommand…>` as text.
pub open spec fn json_mode_args(rest: Seq<Seq<char>>) -> Seq<Seq<char>> {
    seq!["--mode"@, "json"@] + rest
}

fn discovery_tool_id() -> (r: ToolId)
    ensures
        r@ == discovery_id(),
{
    proof {
        reveal_strlit("lonis:provider:discovery");
        let s = discovery_id();
        assert(s[5] == ':');
        assert(s.contains(':'));
        assert forall|i: int| 0 <= i < s.len() - 1 && s[i] == ':' implies #[trigger] s[i + 1]
            != ':' by {}
        assert(is_valid_tool_id(s));
    }
    match ToolId::new("lonis:provider:discovery") {
        Ok(id) => id,
        Err(_) => {
            proof {
                assert(false);
            }
            ToolId::new("lonis:provider:discovery").unwrap()
        },
    }
}

fn strings3(a: &str, b: &str, c: &str) -> (r: Vec<String>)
    ensures
        texts(r@) == seq![a@, b@, c@],
{
    let r = vec![a.to_owned(), b.to_owned(), c.to_owned()];
    assert(texts(r@) =~= seq![a@, b@, c@]);
    r
}

fn strings4(a: &str, b: &str, c: &str, d: &str) -> (r: Vec<String>)
    ensures
        texts(r@) == seq![a@, b@, c@, d@],
{
    let r = vec![a.to_owned(), b.to_owned(), c.to_owned(), d.to_owned()];
    assert(texts(r@) =~= seq![a@, b@, c@, d@]);
    r
}

fn strings5(a: &str, b: &str, c: &str, d: &str, e: &str) -> (r: Vec<String>)
    ensures
        texts(r@) == seq![a@, b@, c@, d@, e@],
{
    let r = vec![a.to_owned(), b.to_owned(), c.to_owned(), d.to_owned(), e.to_owned()];
    assert(texts(r@) =~= seq![a@, b@, c@, d@, e@]);
    r
}

/// The argument vector of `tools describe <name>`.
pub fn describe_args(name: &str) -> (r: Vec<String>)
    ensures
        texts(r@) == json_mode_args(seq!["tools"@, "describe"@, name@]),
{
    let r = strings5("--mode", "json", "tools", "describe", name);
    assert(json_mode_args(seq!["tools"@, "describe"@, name@]) =~= seq![
        "--mode"@,
        "json"@,
        "tools"@,
        "describe"@,
        name@,
    ]);
    r
}

/// The argument vector of `call <name>`.
pub fn call_args(name: &str) -> (r: Vec<String>)
    ensures
        texts(r@) == json_mode_args(seq!["call"@, name@]),
{
    let r = strings4("--mode", "json", "call", name);
    assert(json_mode_args(seq!["call"@, name@]) =~= seq!["--mode"@, "json"@, "call"@, name@]);
    r
}

impl SubprocessProvider {
    /// A provider over an executable, with the default discovery arguments
    /// and the default bounds.
    pub fn new(command: &str) -> (r: SubprocessProvider)
        ensures
            r.command@ == command@,
            texts(r.manifest_args@) == json_mode_args(seq!["manifest"@]),
            texts(r.tools_list_args@) == json_mode_args(seq!["tools"@, "list"@]),
            r.configure.tool_id@ == discovery_id(),
            r.configure.command@ == command@,
            r.configure.args@.len() == 0,
            r.configure.timeout_millis == crate::subprocess::DEFAULT_TIMEOUT_MILLIS,
            r.configure.max_stdout_bytes == crate::subprocess::DEFAULT_MAX_STDOUT_BYTES,
            r.configure.max_stderr_bytes == crate::subprocess::DEFAULT_MAX_STDERR_BYTES,
            r.configure.env@.len() == 0,
            r.configure.cwd is None,
    {
        let manifest_args = strings3("--mode", "json", "manifest");
        let tools_list_args = strings4("--mode", "json", "tools", "list");
        assert(json_mode_args(seq!["manifest"@]) =~= seq!["--mode"@, "json"@, "manifest"@]);
        assert(json_mode_args(seq!["tools"@, "list"@]) =~= seq![
            "--mode"@,
            "json"@,
            "tools"@,
            "list"@,
        ]);
        SubprocessProvider {
            command: command.to_owned(),
            manifest_args,
            tools_list_args,
            configure: SubprocessTool::new(discovery_tool_id(), command),
        }
    }

    /// Override the manifest discovery arguments.
    pub fn with_manifest_args(self, args: Vec<String>) -> (r: SubprocessProvider)
        ensures
            r == (SubprocessProvider { manifest_args: args, ..self }),
    {
        SubprocessProvider { manifest_args: args, ..self }
    }

    /// Override the tools-list discovery arguments.
    pub fn with_tools_list_args(self, args: Vec<String>) -> (r: SubprocessProvider)
        ensures
            r == (SubprocessProvider { tools_list_args: args, ..self }),
    {
        SubprocessProvider { tools_list_args: args, ..self }
    }

    /// Set the hard wall-clock timeout for discovery and invocation.
    pub fn with_timeout_millis(self, millis: u64) -> (r: SubprocessProvider)
        ensures
            r == (SubprocessProvider {
                configure: SubprocessTool { timeout_millis: millis, ..self.configure },
                ..self
            }),
    {
        let SubprocessProvider { command, manifest_args, tools_list_args, configure } = self;
        SubprocessProvider {
            command,
            manifest_args,
            tools_list_args,
            configure: configure.with_timeout_millis(millis),
        }
    }

    /// Set the stdout byte cap for discovery and invocation.
    pub fn with_max_stdout_bytes(self, bytes: u64) -> (r: SubprocessProvider)
        ensures
            r == (SubprocessProvider {
                configure: SubprocessTool { max_stdout_bytes: bytes, ..self.configure },
                ..self
            }),
    {
        let SubprocessProvider { command, manifest_args, tools_list_args, configure } = self;
        SubprocessProvider {
            command,
            manifest_args,
            tools_list_args,
            configure: configure.with_max_stdout_bytes(bytes),
        }
    }

    /// Set the variables added on top of the cleared environment for
    /// discovery and invocation.
    pub fn with_env(self, vars: Vec<(String, String)>) -> (r: SubprocessProvider)
        ensures
            r == (SubprocessProvider {
                configure: SubprocessTool { env: vars, ..self.configure },
                ..self
            }),
    {
        let SubprocessProvider { command, manifest_args, tools_list_args, configure } = self;
        SubprocessProvider {
            command,
            manifest_args,
            tools_list_args,
            configure: configure.with_env(vars),
        }
    }

    /// Set the working directory for discovery and invocation.
    pub fn with_cwd(self, cwd: &str) -> (r: SubprocessProvider)
        ensures
            r.configure.cwd matches Some(c) && c@ == cwd@,
            r == (SubprocessProvider {
                configure: SubprocessTool { cwd: r.configure.cwd, ..self.configure },
                ..self
            }),
    {
        let SubprocessProvider { command, manifest_args, tools_list_args, configure } = self;
        SubprocessProvider {
            command,
            manifest_args,
            tools_list_args,
            configure: configure.with_cwd(cwd),
        }
    }

    /// Classify what the host found at the provider's executable (the
    /// command of its execution configuration).
    pub fn availability(&self, probe: CommandProbe) -> (r: Availability)
        ensures
            probe == CommandProbe::Executable ==> r is Ready,
            probe == CommandProbe::NotExecutable ==> (r matches Availability::NotExecutable {
                reason,
            } && reason@ == "`"@ + self.configure.command@ + "` is not executable"@),
            probe == CommandProbe::Absent ==> (r matches Availability::Missing { reason }
                && reason@ == "`"@ + self.configure.command@ + "` was not found"@),
    {
        self.configure.availability(probe)
    }

    /// A tool invoking `name` through the provider's `call` subcommand,
    /// inheriting the provider's bounds. Dotted names are mangled into a
    /// namespaced [`ToolId`].
    pub fn tool(&self, name: &str) -> (r: SubprocessTool)
        requires
            !has_empty_segment(dots_to_colons(name@)),
        ensures
            r.tool_id@ == mangled_id(name@),
            r.tool_id.wf(),
            r.command@ == self.configure.command@,
            texts(r.args@) == json_mode_args(seq!["call"@, name@]),
            self.configure.same_bounds(&r),
    {
        let id = mangle_tool_id(name);
        let r = self.configure.clone_for(id, call_args(name));
        r
    }

    /// The error for discovery output that is not JSON.
    pub fn invalid_json_error(&self, detail: &str) -> (r: ToolError)
        ensures
            r.kind@ == "invalid_output"@,
            r.exit_code == SERIALIZATION,
            r.message@ == "provider `"@ + self.command@ + "` did not emit the expected JSON: "@
                + detail@,
    {
        let mut message = String::new();
        message.append("provider `");
        message.append(self.command.as_str());
        message.append("` did not emit the expected JSON: ");
        message.append(detail);
        ToolError::new("invalid_output", message.as_str(), SERIALIZATION)
    }

    /// Read a discovery command's stdout: the bytes as (lossy) UTF-8 text,
    /// trimmed, parsed as one JSON value; text that is not JSON is the
    /// provider's `invalid_output` error.
    pub fn parse_discovery_output(&self, stdout: &[u8]) -> (r: Result<serde_json::Value, ToolError>)
        ensures
            r is Ok <==> json_text_parses(trimmed(utf8_lossy_text(stdout@))),
            r matches Ok(v) ==> v == json_value_of(trimmed(utf8_lossy_text(stdout@))),
            r matches Err(e) ==> e.kind@ == "invalid_output"@ && e.exit_code == SERIALIZATION
                && e.message@ == "provider `"@ + self.command@
                + "` did not emit the expected JSON: "@ + json_error_text(
                trimmed(utf8_lossy_text(stdout@)),
            ),
    {
        let text = utf8_lossy(stdout);
        match parse_json(trim_text(text.as_str())) {
            Ok(value) => Ok(value),
            Err(detail) => Err(self.invalid_json_error(detail.as_str())),
        }
    }
}

/// The error for a manifest that does not have the provider shape.
pub fn manifest_shape_error(detail: &str) -> (r: ToolError)
    ensures
        r.kind@ == "invalid_output"@,
        r.exit_code == SERIALIZATION,
        r.message@ == "provider manifest does not match the v0 shape: "@ + detail@,
{
    let mut message = String::new();
    message.append("provider manifest does not match the v0 shape: ");
    message.append(detail);
    ToolError::new("invalid_output", message.as_str(), SERIALIZATION)
}

/// The error for a tools list that does not have the provider shape.
pub fn tools_list_shape_error(detail: &str) -> (r: ToolError)
    ensures
        r.kind@ == "invalid_output"@,
        r.exit_code == SERIALIZATION,
        r.message@ == "provider tools list does not match the v0 shape: "@ + detail@,
{
    let mut message = String::new();
    message.append("provider tools list does not match the v0 shape: ");
    message.append(detail);
    ToolError::new("invalid_output", message.as_str(), SERIALIZATION)
}

/// The error for a `tools describe` answer that is not a tool contract.
pub fn describe_shape_error(detail: &str) -> (r: ToolError)
    ensures
        r.kind@ == "invalid_output"@,
        r.exit_code == SERIALIZATION,
        r.message@ == "provider tools describe is not a ToolContract: "@ + detail@,
{
    let mut message = String::new();
    message.append("provider tools describe is not a ToolContract: ");
    message.append(detail);
    ToolError::new("invalid_output", message.as_str(), SERIALIZATION)
}

} // verus!
