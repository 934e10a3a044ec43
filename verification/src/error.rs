//! The shared exit-code vocabulary and the structured tool error.

use vstd::prelude::*;

use crate::json::json_clone;

verus! {

/// Success.
pub const SUCCESS: u8 = 0;

/// Generic failure.
pub const GENERIC: u8 = 1;

/// Invalid input.
pub const INVALID_INPUT: u8 = 2;

/// Unknown tool or item.
pub const NOT_FOUND: u8 = 3;

/// Confirmation required.
pub const CONFIRMATION_REQUIRED: u8 = 4;

/// Rate limited.
pub const RATE_LIMITED: u8 = 5;

/// An external tool failed.
pub const TOOL_FAILED: u8 = 6;

/// A bound (timeout, byte cap) was exceeded.
pub const LIMIT_EXCEEDED: u8 = 7;

/// Input/output failure.
pub const IO: u8 = 8;

/// Output that is not in the expected shape.
pub const SERIALIZATION: u8 = 9;

/// Not implemented.
pub const NOT_IMPLEMENTED: u8 = 69;

/// Internal error.
pub const INTERNAL: u8 = 70;

/// A structured tool error: `{kind, message, exit_code}` (rendered on
/// stderr).
#[derive(Debug, PartialEq, Eq)]
pub struct ToolError {
    /// Machine-readable error kind (`not_found`, `bad_input`, …).
    pub kind: String,
    /// Human-readable message.
    pub message: String,
    /// Process exit code this error maps to.
    pub exit_code: u8,
    /// Structured detail, if any.
    pub details: Option<serde_json::Value>,
}

impl Clone for ToolError {
    fn clone(&self) -> (r: Self)
        ensures
            r == *self,
    {
        let details = match &self.details {
            Some(d) => Some(json_clone(d)),
            None => None,
        };
        ToolError {
            kind: self.kind.clone(),
            message: self.message.clone(),
            exit_code: self.exit_code,
            details,
        }
    }
}

impl ToolError {
    /// Build an error from its parts.
    pub fn new(kind: &str, message: &str, exit_code: u8) -> (r: ToolError)
        ensures
            r.kind@ == kind@,
            r.message@ == message@,
            r.exit_code == exit_code,
            r.details is None,
    {
        ToolError { kind: kind.to_owned(), message: message.to_owned(), exit_code, details: None }
    }

    /// The same error with structured detail attached.
    pub fn with_details(self, details: serde_json::Value) -> (r: ToolError)
        ensures
            r == (ToolError { details: Some(details), ..self }),
    {
        ToolError { details: Some(details), ..self }
    }

    /// The short human form `kind: message`.
    pub fn display_text(&self) -> (r: String)
        ensures
            r@ == self.kind@ + ": "@ + self.message@,
    {
        let mut out = self.kind.clone();
        out.append(": ");
        out.append(self.message.as_str());
        out
    }
}

} // verus!
