//! The ways in which constructing a probe, or running one, can fail.

use crate::output::{output_text, CommandOutput, CommandOutputView};
use vstd::prelude::*;

verus! {

/// The kinds of input/output failure that the library tells apart.
#[derive(Copy, Debug, PartialEq, Eq, Structural)]
pub enum IoFailureKind {
    /// The file or program does not exist.
    NotFound,
    /// The operation was not permitted.
    PermissionDenied,
    /// Any other failure.
    Other,
}

impl Clone for IoFailureKind {
    fn clone(&self) -> (copy: Self)
        ensures
            copy == *self,
    {
        match self {
            IoFailureKind::NotFound => IoFailureKind::NotFound,
            IoFailureKind::PermissionDenied => IoFailureKind::PermissionDenied,
            IoFailureKind::Other => IoFailureKind::Other,
        }
    }
}

/// A failure to read or write a file, or to launch a command.
#[derive(Debug, PartialEq, Eq)]
pub struct IoFailure {
    /// What went wrong, as far as the library needs to know.
    pub kind: IoFailureKind,
    /// The host's own words for the failure.
    pub message: String,
}

/// The mathematical content of an `IoFailure`.
pub struct IoFailureView {
    pub kind: IoFailureKind,
    pub message: Seq<char>,
}

impl View for IoFailure {
    type V = IoFailureView;

    open spec fn view(&self) -> IoFailureView {
        IoFailureView { kind: self.kind, message: self.message@ }
    }
}

impl Clone for IoFailure {
    fn clone(&self) -> (copy: Self)
        ensures
            copy@ == self@,
    {
        IoFailure { kind: self.kind, message: self.message.clone() }
    }
}

/// The name of a kind of failure.
pub open spec fn kind_name(kind: IoFailureKind) -> Seq<char> {
    match kind {
        IoFailureKind::NotFound => "NotFound"@,
        IoFailureKind::PermissionDenied => "PermissionDenied"@,
        IoFailureKind::Other => "Other"@,
    }
}

/// The text that shows a failure in full, for debugging: its kind, and its
/// message as it is between double quotes.
pub open spec fn failure_debug_text(failure: IoFailureView) -> Seq<char> {
    "IoFailure { kind: "@ + kind_name(failure.kind) + ", message: \""@ + failure.message
        + "\" }"@
}

impl IoFailureKind {
    /// The name of the kind.
    pub fn name(&self) -> (text: &'static str)
        ensures
            text@ == kind_name(*self),
    {
        match self {
            IoFailureKind::NotFound => "NotFound",
            IoFailureKind::PermissionDenied => "PermissionDenied",
            IoFailureKind::Other => "Other",
        }
    }
}

impl IoFailure {
    /// Shows the failure in full, for debugging.
    pub fn debug_text(&self) -> (text: String)
        ensures
            text@ == failure_debug_text(self@),
    {
        let mut text = String::from_str("IoFailure { kind: ");
        text.append(self.kind.name());
        text.append(", message: \"");
        text.append(self.message.as_str());
        text.append("\" }");
        text
    }

    /// A failure of the given kind, described by `message`.
    pub fn new(kind: IoFailureKind, message: &str) -> (failure: Self)
        ensures
            failure@ == (IoFailureView { kind, message: message@ }),
    {
        IoFailure { kind, message: String::from_str(message) }
    }
}

/// Errors that can occur during probe construction.
#[derive(Debug, PartialEq, Eq)]
pub enum NewProbeError {
    /// The metadata of the work directory could not be read.
    WorkDirMetadataInaccessible(IoFailure),
    /// The path given for the work directory does not name a directory.
    WorkDirNotADirectory(String),
}

/// The mathematical content of a `NewProbeError`.
pub enum NewProbeErrorView {
    WorkDirMetadataInaccessible(IoFailureView),
    WorkDirNotADirectory(Seq<char>),
}

impl View for NewProbeError {
    type V = NewProbeErrorView;

    open spec fn view(&self) -> NewProbeErrorView {
        match self {
            NewProbeError::WorkDirMetadataInaccessible(failure) => {
                NewProbeErrorView::WorkDirMetadataInaccessible(failure@)
            },
            NewProbeError::WorkDirNotADirectory(path) => NewProbeErrorView::WorkDirNotADirectory(
                path@,
            ),
        }
    }
}

/// The short description of a construction error.
pub open spec fn new_probe_error_description(error: NewProbeErrorView) -> Seq<char> {
    match error {
        NewProbeErrorView::WorkDirMetadataInaccessible(_) => {
            "could not query metadata from the provided work directory"@
        },
        NewProbeErrorView::WorkDirNotADirectory(_) => {
            "the path in this context must be a directory"@
        },
    }
}

/// The full message of a construction error.
pub open spec fn new_probe_error_message(error: NewProbeErrorView) -> Seq<char> {
    match error {
        NewProbeErrorView::WorkDirMetadataInaccessible(failure) => {
            "NewProbeError: fs::metadata returned "@ + failure.message
        },
        NewProbeErrorView::WorkDirNotADirectory(path) => {
            "NewProbeError: \""@ + path + "\" is not a directory"@
        },
    }
}

impl NewProbeError {
    /// A short description of the kind of error.
    pub fn description(&self) -> (text: &'static str)
        ensures
            text@ == new_probe_error_description(self@),
    {
        match self {
            NewProbeError::WorkDirMetadataInaccessible(_) => {
                "could not query metadata from the provided work directory"
            },
            NewProbeError::WorkDirNotADirectory(_) => {
                "the path in this context must be a directory"
            },
        }
    }

    /// The underlying input/output failure, if there is one.
    pub fn cause(&self) -> (failure: Option<&IoFailure>)
        ensures
            match self {
                NewProbeError::WorkDirMetadataInaccessible(inner) => failure == Some(inner),
                NewProbeError::WorkDirNotADirectory(_) => failure.is_none(),
            },
    {
        match self {
            NewProbeError::WorkDirMetadataInaccessible(inner) => Some(inner),
            NewProbeError::WorkDirNotADirectory(_) => None,
        }
    }

    /// The message that tells a user what went wrong.
    pub fn message(&self) -> (text: String)
        ensures
            text@ == new_probe_error_message(self@),
    {
        match self {
            NewProbeError::WorkDirMetadataInaccessible(failure) => {
                let mut text = String::from_str("NewProbeError: fs::metadata returned ");
                text.append(failure.message.as_str());
                text
            },
            NewProbeError::WorkDirNotADirectory(path) => {
                let mut text = String::from_str("NewProbeError: \"");
                text.append(path.as_str());
                text.append("\" is not a directory");
                text
            },
        }
    }
}

/// Errors that can occur when a probe program is compiled and run.
#[derive(Debug, PartialEq, Eq)]
pub enum CProbeError {
    /// An input/output failure prevented the operation from continuing.
    IoError(IoFailure),
    /// Compilation failed. Holds the compiler's output.
    CompileError(CommandOutput),
    /// The probe program failed when run. Holds the compiler's output, then
    /// the program's.
    RunError(CommandOutput, CommandOutput),
    /// All other errors, such as corrupt output from a probe program.
    OtherError(String),
}

/// The mathematical content of a `CProbeError`.
pub enum CProbeErrorView {
    IoError(IoFailureView),
    CompileError(CommandOutputView),
    RunError(CommandOutputView, CommandOutputView),
    OtherError(Seq<char>),
}

impl View for CProbeError {
    type V = CProbeErrorView;

    open spec fn view(&self) -> CProbeErrorView {
        match self {
            CProbeError::IoError(failure) => CProbeErrorView::IoError(failure@),
            CProbeError::CompileError(output) => CProbeErrorView::CompileError(output@),
            CProbeError::RunError(compile_output, run_output) => CProbeErrorView::RunError(
                compile_output@,
                run_output@,
            ),
            CProbeError::OtherError(text) => CProbeErrorView::OtherError(text@),
        }
    }
}

impl Clone for CProbeError {
    fn clone(&self) -> (copy: Self)
        ensures
            copy@ == self@,
    {
        match self {
            CProbeError::IoError(failure) => CProbeError::IoError(failure.clone()),
            CProbeError::CompileError(output) => CProbeError::CompileError(output.clone()),
            CProbeError::RunError(compile_output, run_output) => CProbeError::RunError(
                compile_output.clone(),
                run_output.clone(),
            ),
            CProbeError::OtherError(text) => CProbeError::OtherError(text.clone()),
        }
    }
}

/// The short description of a probe error.
pub open spec fn probe_error_description(error: CProbeErrorView) -> Seq<char> {
    match error {
        CProbeErrorView::IoError(_) => "I/O error"@,
        CProbeErrorView::CompileError(_) => "error when compiling C probe program"@,
        CProbeErrorView::RunError(_, _) => "error when running C probe program"@,
        CProbeErrorView::OtherError(text) => text,
    }
}

/// The full message of a probe error.
pub open spec fn probe_error_message(error: CProbeErrorView) -> Seq<char> {
    match error {
        CProbeErrorView::IoError(failure) => "I/O error: "@ + failure.message,
        CProbeErrorView::CompileError(output) => "compilation error with output: "@ + output_text(
            output,
        ),
        CProbeErrorView::RunError(_, run_output) => "test program error with output: "@
            + output_text(run_output),
        CProbeErrorView::OtherError(text) => text,
    }
}

/// The text that shows a probe error in full, for debugging.
pub open spec fn probe_error_debug_text(error: CProbeErrorView) -> Seq<char> {
    match error {
        CProbeErrorView::IoError(failure) => "IoError{ "@ + failure_debug_text(failure) + " }"@,
        CProbeErrorView::CompileError(output) => "CompileError"@ + output_text(output),
        CProbeErrorView::RunError(compile_output, run_output) => "RunError{compile_output: "@
            + output_text(compile_output) + "run_output: "@ + output_text(run_output) + "}"@,
        CProbeErrorView::OtherError(text) => "OtherError{ "@ + text + " }"@,
    }
}

impl CProbeError {
    /// Shows the error in full, for debugging: the variant, and all that
    /// it holds.
    pub fn debug_text(&self) -> (text: String)
        ensures
            text@ == probe_error_debug_text(self@),
    {
        match self {
            CProbeError::IoError(failure) => {
                let mut text = String::from_str("IoError{ ");
                let detail = failure.debug_text();
                text.append(detail.as_str());
                text.append(" }");
                text
            },
            CProbeError::CompileError(output) => {
                let mut text = String::from_str("CompileError");
                let detail = output.describe();
                text.append(detail.as_str());
                text
            },
            CProbeError::RunError(compile_output, run_output) => {
                let mut text = String::from_str("RunError{compile_output: ");
                let compile = compile_output.describe();
                text.append(compile.as_str());
                text.append("run_output: ");
                let run = run_output.describe();
                text.append(run.as_str());
                text.append("}");
                text
            },
            CProbeError::OtherError(other) => {
                let mut text = String::from_str("OtherError{ ");
                text.append(other.as_str());
                text.append(" }");
                text
            },
        }
    }

    /// A short description of the kind of error.
    pub fn description(&self) -> (text: &str)
        ensures
            text@ == probe_error_description(self@),
    {
        match self {
            CProbeError::IoError(_) => "I/O error",
            CProbeError::CompileError(_) => "error when compiling C probe program",
            CProbeError::RunError(_, _) => "error when running C probe program",
            CProbeError::OtherError(text) => text.as_str(),
        }
    }

    /// The underlying input/output failure, if there is one.
    pub fn cause(&self) -> (failure: Option<&IoFailure>)
        ensures
            match self {
                CProbeError::IoError(inner) => failure == Some(inner),
                _ => failure.is_none(),
            },
    {
        match self {
            CProbeError::IoError(inner) => Some(inner),
            _ => None,
        }
    }

    /// The message that tells a user what went wrong.
    pub fn message(&self) -> (text: String)
        ensures
            text@ == probe_error_message(self@),
    {
        match self {
            CProbeError::IoError(failure) => {
                let mut text = String::from_str("I/O error: ");
                text.append(failure.message.as_str());
                text
            },
            CProbeError::CompileError(output) => {
                let mut text = String::from_str("compilation error with output: ");
                let detail = output.describe();
                text.append(detail.as_str());
                text
            },
            CProbeError::RunError(_, run_output) => {
                let mut text = String::from_str("test program error with output: ");
                let detail = run_output.describe();
                text.append(detail.as_str());
                text
            },
            CProbeError::OtherError(text) => text.clone(),
        }
    }
}

impl From<IoFailure> for CProbeError {
    fn from(failure: IoFailure) -> (error: Self) {
        CProbeError::IoError(failure)
    }
}

impl vstd::std_specs::convert::FromSpecImpl<IoFailure> for CProbeError {
    open spec fn obeys_from_spec() -> bool {
        true
    }

    open spec fn from_spec(failure: IoFailure) -> Self {
        CProbeError::IoError(failure)
    }
}

/// The result of most operations that compile and run probe programs.
pub type CProbeResult<T> = Result<T, CProbeError>;

} // verus!
