//! `SubprocessTool`: the configuration of one external CLI hosted as one
//! tool, with first-class bounds (a hard wall-clock timeout, byte caps on
//! both output streams) and isolation (cleared environment, neutral working
//! directory).

use vstd::prelude::*;

use crate::error::{ToolError, TOOL_FAILED};
use crate::ids::ToolId;
use crate::input::{trim_text, trimmed};
use crate::text::{utf8_lossy, utf8_lossy_text};
use crate::text::{clone_opt, clone_pairs};

verus! {

/// Default hard wall-clock timeout, in milliseconds.
pub const DEFAULT_TIMEOUT_MILLIS: u64 = 5000;

/// Default stdout byte cap (1 MiB).
pub const DEFAULT_MAX_STDOUT_BYTES: u64 = 1048576;

/// Default stderr byte cap (256 KiB).
pub const DEFAULT_MAX_STDERR_BYTES: u64 = 262144;

/// How a tool's stdout is read.
#[derive(Clone, Copy, Debug, PartialEq, Eq, Structural)]
pub enum StdoutMapping {
    /// Blocks: a JSON array, one block per line, or one block object.
    Blocks,
    /// Plain text, wrapped in one `result` block.
    Text,
}

/// What the host found at a tool's command path.
#[derive(Clone, Copy, Debug, PartialEq, Eq, Structural)]
pub enum CommandProbe {
    /// The command exists and may be executed.
    Executable,
    /// The command exists but may not be executed.
    NotExecutable,
    /// There is no such command.
    Absent,
}

/// Whether a tool's executable is invocable on this host.
#[derive(Debug, PartialEq, Eq)]
pub enum Availability {
    /// The executable is present and executable.
    Ready,
    /// The executable is absent.
    Missing {
        /// Why.
        reason: String,
    },
    /// The executable is present but cannot be executed.
    NotExecutable {
        /// Why.
        reason: String,
    },
}

impl Availability {
    /// Whether the tool can be invoked.
    pub fn is_ready(&self) -> (r: bool)
        ensures
            r == (self is Ready),
    {
        match self {
            Availability::Ready => true,
            _ => false,
        }
    }

    /// The error an invocation fails with before it starts: none when the
    /// executable is ready, otherwise `unavailable` (exit code
    /// `TOOL_FAILED`) with the reason.
    pub fn unavailable_error(&self) -> (r: Option<ToolError>)
        ensures
            match self {
                Availability::Ready => r is None,
                Availability::Missing { reason } => r matches Some(e) && e.kind@ == "unavailable"@
                    && e.message@ == reason@ && e.exit_code == TOOL_FAILED && e.details is None,
                Availability::NotExecutable { reason } => r matches Some(e) && e.kind@
                    == "unavailable"@ && e.message@ == reason@ && e.exit_code == TOOL_FAILED
                    && e.details is None,
            },
    {
        match self {
            Availability::Ready => None,
            Availability::Missing { reason } => Some(
                ToolError::new("unavailable", reason.as_str(), TOOL_FAILED),
            ),
            Availability::NotExecutable { reason } => Some(
                ToolError::new("unavailable", reason.as_str(), TOOL_FAILED),
            ),
        }
    }
}

/// One external CLI hosted as one tool.
#[derive(Debug)]
pub struct SubprocessTool {
    /// The tool's id.
    pub tool_id: ToolId,
    /// The executable.
    pub command: String,
    /// The fixed argument vector (no shell, no interpolation).
    pub args: Vec<String>,
    /// Hard wall-clock timeout, in milliseconds.
    pub timeout_millis: u64,
    /// Stdout byte cap.
    pub max_stdout_bytes: u64,
    /// Stderr byte cap.
    pub max_stderr_bytes: u64,
    /// Variables set on top of the cleared environment.
    pub env: Vec<(String, String)>,
    /// Working directory; `None` is the system temp directory.
    pub cwd: Option<String>,
    /// How stdout is read.
    pub mapping: StdoutMapping,
    /// Contract description, when set.
    pub description: Option<String>,
    /// Tool version, when set.
    pub version: Option<String>,
}

impl SubprocessTool {
    /// Whether `other` runs under the same bounds and isolation as `self`.
    pub open spec fn same_bounds(&self, other: &SubprocessTool) -> bool {
        &&& other.timeout_millis == self.timeout_millis
        &&& other.max_stdout_bytes == self.max_stdout_bytes
        &&& other.max_stderr_bytes == self.max_stderr_bytes
        &&& other.env@ == self.env@
        &&& other.cwd == self.cwd
    }

    /// A tool over `command` with no arguments and the default bounds
    /// (5 s, 1 MiB stdout, 256 KiB stderr), blocks on stdout, and the
    /// system temp directory as working directory.
    pub fn new(tool_id: ToolId, command: &str) -> (r: SubprocessTool)
        ensures
            r.tool_id@ == tool_id@,
            r.command@ == command@,
            r.args@.len() == 0,
            r.timeout_millis == DEFAULT_TIMEOUT_MILLIS,
            r.max_stdout_bytes == DEFAULT_MAX_STDOUT_BYTES,
            r.max_stderr_bytes == DEFAULT_MAX_STDERR_BYTES,
            r.env@.len() == 0,
            r.cwd is None,
            r.mapping == StdoutMapping::Blocks,
            r.description is None,
            r.version is None,
    {
        SubprocessTool {
            tool_id,
            command: command.to_owned(),
            args: Vec::new(),
            timeout_millis: DEFAULT_TIMEOUT_MILLIS,
            max_stdout_bytes: DEFAULT_MAX_STDOUT_BYTES,
            max_stderr_bytes: DEFAULT_MAX_STDERR_BYTES,
            env: Vec::new(),
            cwd: None,
            mapping: StdoutMapping::Blocks,
            description: None,
            version: None,
        }
    }

    /// Set the fixed argument vector.
    pub fn with_args(self, args: Vec<String>) -> (r: SubprocessTool)
        ensures
            r == (SubprocessTool { args, ..self }),
    {
        SubprocessTool { args, ..self }
    }

    /// Set the hard wall-clock timeout, in milliseconds.
    pub fn with_timeout_millis(self, millis: u64) -> (r: SubprocessTool)
        ensures
            r == (SubprocessTool { timeout_millis: millis, ..self }),
    {
        SubprocessTool { timeout_millis: millis, ..self }
    }

    /// Set the stdout byte cap.
    pub fn with_max_stdout_bytes(self, bytes: u64) -> (r: SubprocessTool)
        ensures
            r == (SubprocessTool { max_stdout_bytes: bytes, ..self }),
    {
        SubprocessTool { max_stdout_bytes: bytes, ..self }
    }

    /// Set the stderr byte cap.
    pub fn with_max_stderr_bytes(self, bytes: u64) -> (r: SubprocessTool)
        ensures
            r == (SubprocessTool { max_stderr_bytes: bytes, ..self }),
    {
        SubprocessTool { max_stderr_bytes: bytes, ..self }
    }

    /// Set the variables added on top of the cleared environment.
    pub fn with_env(self, vars: Vec<(String, String)>) -> (r: SubprocessTool)
        ensures
            r == (SubprocessTool { env: vars, ..self }),
    {
        SubprocessTool { env: vars, ..self }
    }

    /// Set the working directory.
    pub fn with_cwd(self, cwd: &str) -> (r: SubprocessTool)
        ensures
            r.cwd matches Some(c) && c@ == cwd@,
            r == (SubprocessTool { cwd: r.cwd, ..self }),
    {
        SubprocessTool { cwd: Some(cwd.to_owned()), ..self }
    }

    /// Set how stdout is read.
    pub fn with_mapping(self, mapping: StdoutMapping) -> (r: SubprocessTool)
        ensures
            r == (SubprocessTool { mapping, ..self }),
    {
        SubprocessTool { mapping, ..self }
    }

    /// Set the contract description.
    pub fn with_description(self, description: &str) -> (r: SubprocessTool)
        ensures
            r.description matches Some(d) && d@ == description@,
            r == (SubprocessTool { description: r.description, ..self }),
    {
        SubprocessTool { description: Some(description.to_owned()), ..self }
    }

    /// Set the tool version.
    pub fn with_version(self, version: &str) -> (r: SubprocessTool)
        ensures
            r.version matches Some(v) && v@ == version@,
            r == (SubprocessTool { version: r.version, ..self }),
    {
        SubprocessTool { version: Some(version.to_owned()), ..self }
    }

    /// Classify what the host found at the command path.
    pub fn availability(&self, probe: CommandProbe) -> (r: Availability)
        ensures
            probe == CommandProbe::Executable ==> r is Ready,
            probe == CommandProbe::NotExecutable ==> (r matches Availability::NotExecutable {
                reason,
            } && reason@ == "`"@ + self.command@ + "` is not executable"@),
            probe == CommandProbe::Absent ==> (r matches Availability::Missing { reason }
                && reason@ == "`"@ + self.command@ + "` was not found"@),
    {
        match probe {
            CommandProbe::Executable => Availability::Ready,
            CommandProbe::NotExecutable => {
                let mut reason = String::new();
                reason.append("`");
                reason.append(self.command.as_str());
                reason.append("` is not executable");
                Availability::NotExecutable { reason }
            },
            CommandProbe::Absent => {
                let mut reason = String::new();
                reason.append("`");
                reason.append(self.command.as_str());
                reason.append("` was not found");
                Availability::Missing { reason }
            },
        }
    }

    /// A tool with a new id and argument vector over the same command,
    /// inheriting these bounds and this isolation.
    pub fn clone_for(&self, tool_id: ToolId, args: Vec<String>) -> (r: SubprocessTool)
        ensures
            r.tool_id@ == tool_id@,
            r.command@ == self.command@,
            r.args@ == args@,
            self.same_bounds(&r),
            r.mapping == StdoutMapping::Blocks,
            r.description is None,
            r.version is None,
    {
        SubprocessTool {
            tool_id,
            command: self.command.clone(),
            args,
            timeout_millis: self.timeout_millis,
            max_stdout_bytes: self.max_stdout_bytes,
            max_stderr_bytes: self.max_stderr_bytes,
            env: clone_pairs(&self.env),
            cwd: clone_opt(&self.cwd),
            mapping: StdoutMapping::Blocks,
            description: None,
            version: None,
        }
    }
}

/// The exit code a failed child's unstructured error maps to: the child's
/// own code when it is in `1..=255`, otherwise `TOOL_FAILED`.
pub open spec fn failure_exit_code(code: Option<i32>) -> u8 {
    match code {
        Some(c) => if 0 < c && c < 256 {
            c as u8
        } else {
            TOOL_FAILED
        },
        None => TOOL_FAILED,
    }
}

/// An unstructured failure carries the child's own exit code when that is
/// a non-zero code a process can exit with (1 to 255); otherwise (no code,
/// a signal, zero, or a code out of range) the generic tool-failure code 6.
pub proof fn law_failure_carries_the_child_code(c: i32)
    ensures
        0 < c && c < 256 ==> failure_exit_code(Some(c)) as int == c as int,
        c <= 0 || c >= 256 ==> failure_exit_code(Some(c)) == 6,
        failure_exit_code(None) == 6,
{
}

/// Map a failed child: a structured error read from its stderr is
/// propagated as is; otherwise the error is `tool_failed`, its message the
/// trimmed (lossy UTF-8) stderr and its code from
/// [`failure_exit_code`].
pub fn failure_error(structured: Option<ToolError>, code: Option<i32>, stderr: &[u8]) -> (r: ToolError)
    ensures
        match structured {
            Some(e) => r == e,
            None => r.kind@ == "tool_failed"@ && r.message@ == trimmed(utf8_lossy_text(stderr@))
                && r.exit_code == failure_exit_code(code),
        },
        structured is None ==> match code {
            Some(c) => if 0 < c && c < 256 {
                r.exit_code as int == c as int
            } else {
                r.exit_code == 6
            },
            None => r.exit_code == 6,
        },
{
    match structured {
        Some(e) => e,
        None => {
            let text = utf8_lossy(stderr);
            let exit_code: u8 = match code {
                Some(c) => if 0 < c && c < 256 {
                    c as u8
                } else {
                    TOOL_FAILED
                },
                None => TOOL_FAILED,
            };
            ToolError::new("tool_failed", trim_text(text.as_str()), exit_code)
        },
    }
}

} // verus!
