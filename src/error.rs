use vstd::prelude::*;

use vstd::string::StringExecFns;

use crate::redirect::Stream;

verus! {

/// What can go wrong while handling one line.
#[derive(Debug)]
pub enum ShellError {
    /// An input or output operation failed; the text describes it.
    Io(String),
    /// A builtin was called without a required operand, or the like.
    InvalidInput(String),
    /// An external program could not be run.
    ExecError(String),
    /// The command is neither a builtin nor found on the search path.
    CommandNotFound(String),
    /// A redirection operator ends the line.
    MissingRedirectTarget,
    /// The same stream is redirected twice on one line.
    DuplicateRedirect(Stream),
}

pub open spec fn io_prefix() -> Seq<char> {
    "IO error: "@
}

pub open spec fn not_found_suffix() -> Seq<char> {
    ": command not found"@
}

pub open spec fn missing_target_text() -> Seq<char> {
    "missing filename after redirection"@
}

/// The text for a stream redirected twice.
pub open spec fn duplicate_text(stream: Stream) -> Seq<char> {
    match stream {
        Stream::Stdout => "multiple stdout redirects"@,
        Stream::Stderr => "multiple stderr redirects"@,
    }
}

impl ShellError {
    /// The text reported for this error.
    pub open spec fn text(&self) -> Seq<char> {
        match self {
            ShellError::Io(e) => io_prefix() + e@,
            ShellError::InvalidInput(s) => s@,
            ShellError::ExecError(s) => s@,
            ShellError::CommandNotFound(name) => name@ + not_found_suffix(),
            ShellError::MissingRedirectTarget => missing_target_text(),
            ShellError::DuplicateRedirect(stream) => duplicate_text(*stream),
        }
    }

    /// The text reported for this error.
    pub fn message(&self) -> (r: String)
        ensures
            r@ == self.text(),
    {
        match self {
            ShellError::Io(e) => {
                String::from_str("IO error: ").concat(e.as_str())
            },
            ShellError::InvalidInput(s) => s.clone(),
            ShellError::ExecError(s) => s.clone(),
            ShellError::CommandNotFound(name) => {
                name.clone().concat(": command not found")
            },
            ShellError::MissingRedirectTarget => String::from_str(
                "missing filename after redirection",
            ),
            ShellError::DuplicateRedirect(Stream::Stdout) => String::from_str(
                "multiple stdout redirects",
            ),
            ShellError::DuplicateRedirect(Stream::Stderr) => String::from_str(
                "multiple stderr redirects",
            ),
        }
    }
}

} // verus!
