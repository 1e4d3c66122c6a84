//! The command line as the launcher reads it, and the `check` request built
//! from it.

use vstd::prelude::*;

verus! {

/// The Frama-C binary used when none is named.
pub const DEFAULT_FRAMA_C: &'static str = "frama-c";

/// The ceiling on concurrent sandboxes when none is named.
pub const DEFAULT_MAX_SANDBOXES: usize = 32;

/// How much of a `check` payload is returned.
#[derive(Clone, Copy, Debug, PartialEq, Eq)]
pub enum Detail {
    Summary,
    Full,
}

/// The `check` subcommand, one field per option.
#[derive(Clone, Debug, PartialEq, Eq)]
pub struct CheckCommand {
    /// The C source file to check.
    pub file: String,
    /// Machine-readable output; the only output mode there is, so it is read
    /// by nothing.
    pub json: bool,
    /// Fail when the payload's `incomplete` list is not empty.
    pub require_complete: bool,
    /// Optional function focus.
    pub function: Option<String>,
    /// Also run WP smoke tests.
    pub smoke: bool,
    /// Response size.
    pub detail: Option<Detail>,
    /// Include directories for Frama-C's preprocessor.
    pub include_paths: Vec<String>,
    /// Preprocessor definitions, `NAME` or `NAME=VALUE`.
    pub defines: Vec<String>,
    /// Headers force-included ahead of every source.
    pub force_includes: Vec<String>,
}

/// The whole command line.
#[derive(Clone, Debug, PartialEq, Eq)]
pub struct Launch {
    /// Deprecated and ignored; still accepted so that older configurations
    /// keep working.
    pub socket: Option<String>,
    /// Path to the frama-c binary.
    pub frama_c: String,
    /// Ceiling on concurrent sandboxes.
    pub max_sandboxes: usize,
    /// `Some` for the `check` subcommand, `None` to serve MCP on stdio.
    pub command: Option<CheckCommand>,
}

/// The parameters handed to `check`. Every parameter not listed here is left
/// at its default.
#[derive(Clone, Debug, PartialEq, Eq)]
pub struct CheckRequest {
    pub files: Option<Vec<String>>,
    pub function: Option<String>,
    /// `Some(true)` to ask for smoke tests, `None` to leave the default.
    pub smoke: Option<bool>,
    pub detail: Option<Detail>,
    pub include_paths: Option<Vec<String>>,
    pub defines: Option<Vec<String>>,
    pub force_includes: Option<Vec<String>>,
}

/// What the smoke option of a command becomes in its request: a set flag asks
/// for smoke tests, an unset one leaves the default in place rather than
/// asking for none.
pub open spec fn smoke_request(smoke: bool) -> Option<bool> {
    if smoke {
        Some(true)
    } else {
        None
    }
}

/// Builds the `check` request for a `check` command: the one file, the
/// function focus, the smoke flag, the detail level and the three
/// preprocessor lists, each passed as given. `json` does not reach the
/// request.
pub fn check_request(command: CheckCommand) -> (request: CheckRequest)
    ensures
        request.files matches Some(files) && files@ == seq![command.file],
        request.function == command.function,
        request.smoke == smoke_request(command.smoke),
        request.detail == command.detail,
        request.include_paths == Some(command.include_paths),
        request.defines == Some(command.defines),
        request.force_includes == Some(command.force_includes),
{
    let mut files: Vec<String> = Vec::new();
    files.push(command.file);
    let smoke = if command.smoke {
        Some(true)
    } else {
        None
    };
    CheckRequest {
        files: Some(files),
        function: command.function,
        smoke,
        detail: command.detail,
        include_paths: Some(command.include_paths),
        defines: Some(command.defines),
        force_includes: Some(command.force_includes),
    }
}

} // verus!
