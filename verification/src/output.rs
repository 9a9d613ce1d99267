//! What a command left behind: its exit status and captured output.

use crate::error::{CProbeError, CProbeErrorView, CProbeResult};
use vstd::prelude::*;
use vstd::utf8::*;

verus! {

/// How a process ended: with an exit code, or without one when a signal
/// ended it.
#[derive(Copy, Debug, PartialEq, Eq, Structural)]
pub struct ExitStatus {
    /// The exit code, if the process exited of its own accord.
    pub code: Option<i32>,
}

impl Clone for ExitStatus {
    fn clone(&self) -> (copy: Self)
        ensures
            copy == *self,
    {
        ExitStatus { code: self.code }
    }
}

impl ExitStatus {
    /// The status of a process that exited with `code`.
    pub fn from_code(code: i32) -> (status: Self)
        ensures
            status.code == Some(code),
    {
        ExitStatus { code: Some(code) }
    }

    /// The status of a process that a signal ended.
    pub fn terminated() -> (status: Self)
        ensures
            status.code.is_none(),
    {
        ExitStatus { code: None }
    }

    /// A process succeeded when it exited with code zero.
    pub open spec fn succeeded(self) -> bool {
        self.code == Some(0i32)
    }

    /// Tells whether the process succeeded.
    pub fn success(&self) -> (ok: bool)
        ensures
            ok == self.succeeded(),
    {
        match self.code {
            Some(code) => code == 0,
            None => false,
        }
    }
}

/// The result of a command that was launched and has ended.
#[derive(Debug, PartialEq, Eq)]
pub struct CommandOutput {
    /// How the process ended.
    pub status: ExitStatus,
    /// What the process wrote to its standard output.
    pub stdout: Vec<u8>,
    /// What the process wrote to its standard error.
    pub stderr: Vec<u8>,
}

/// The mathematical content of a `CommandOutput`.
pub struct CommandOutputView {
    pub status: ExitStatus,
    pub stdout: Seq<u8>,
    pub stderr: Seq<u8>,
}

impl View for CommandOutput {
    type V = CommandOutputView;

    open spec fn view(&self) -> CommandOutputView {
        CommandOutputView { status: self.status, stdout: self.stdout@, stderr: self.stderr@ }
    }
}

/// A copy of `bytes`.
pub fn copy_bytes(bytes: &Vec<u8>) -> (copy: Vec<u8>)
    ensures
        copy@ == bytes@,
{
    let mut copy: Vec<u8> = Vec::with_capacity(bytes.len());
    let mut i: usize = 0;
    while i < bytes.len()
        invariant
            i <= bytes.len(),
            copy@ == bytes@.take(i as int),
        decreases bytes.len() - i,
    {
        copy.push(bytes[i]);
        i = i + 1;
    }
    copy
}

impl Clone for CommandOutput {
    fn clone(&self) -> (copy: Self)
        ensures
            copy@ == self@,
    {
        CommandOutput {
            status: self.status,
            stdout: copy_bytes(&self.stdout),
            stderr: copy_bytes(&self.stderr),
        }
    }
}

/// The text that invalid-tolerant decoding makes of bytes that are not
/// well-formed UTF-8: what is well formed in them becomes the characters it
/// encodes, and every malformed sequence becomes a replacement character.
pub uninterp spec fn utf8_lossy(bytes: Seq<u8>) -> Seq<char>;

/// The text that `bytes` hold: the characters they encode if they are
/// well-formed UTF-8, else what invalid-tolerant decoding makes of them.
pub open spec fn lossy_text(bytes: Seq<u8>) -> Seq<char> {
    if valid_utf8(bytes) {
        decode_utf8(bytes)
    } else {
        utf8_lossy(bytes)
    }
}

/// Decodes `bytes` as UTF-8, replacing what is malformed.
///
/// Calls `String::from_utf8_lossy`. The contract claims that well-formed
/// UTF-8 is decoded to the characters it encodes, and gives a name to the
/// result for all other bytes.
#[verifier::external_body]
fn from_utf8_lossy(bytes: &Vec<u8>) -> (text: String)
    ensures
        valid_utf8(bytes@) ==> text@ == decode_utf8(bytes@),
        !valid_utf8(bytes@) ==> text@ == utf8_lossy(bytes@),
{
    String::from_utf8_lossy(bytes).into_owned()
}

/// Decodes `bytes` as UTF-8, replacing what is malformed.
pub fn decode_lossy(bytes: &Vec<u8>) -> (text: String)
    ensures
        text@ == lossy_text(bytes@),
{
    from_utf8_lossy(bytes)
}

/// The text that describes the exit status `status`.
pub open spec fn status_text(status: ExitStatus) -> Seq<char> {
    match status.code {
        Some(code) => "exit code "@ + crate::text::signed_decimal(code as int),
        None => "terminated by signal"@,
    }
}

/// The text that describes a command's output, for diagnostics.
pub open spec fn output_text(output: CommandOutputView) -> Seq<char> {
    "{ status: "@ + status_text(output.status) + ", stdout: "@ + lossy_text(output.stdout)
        + ", stderr: "@ + lossy_text(output.stderr) + " }"@
}

impl ExitStatus {
    /// Describes the status in words.
    pub fn describe(&self) -> (text: String)
        ensures
            text@ == status_text(*self),
    {
        match self.code {
            Some(code) => {
                let mut text = String::from_str("exit code ");
                let digits = crate::text::render_signed(code as i64);
                text.append(digits.as_str());
                text
            },
            None => String::from_str("terminated by signal"),
        }
    }
}

impl CommandOutput {
    /// Describes the output in a form fit for a diagnostic message. Output
    /// that is not valid UTF-8 is shown with replacement characters.
    pub fn describe(&self) -> (text: String)
        ensures
            text@ == output_text(self@),
    {
        let mut text = String::from_str("{ status: ");
        let status = self.status.describe();
        text.append(status.as_str());
        text.append(", stdout: ");
        let stdout = decode_lossy(&self.stdout);
        text.append(stdout.as_str());
        text.append(", stderr: ");
        let stderr = decode_lossy(&self.stderr);
        text.append(stderr.as_str());
        text.append(" }");
        text
    }
}

/// Outputs of both compilation and running.
#[derive(Debug, PartialEq, Eq)]
pub struct CompileRunOutput {
    /// Output of the compilation phase.
    pub compile_output: CommandOutput,
    /// Output of the run phase. It is absent when the compilation failed,
    /// because the program is then never run.
    pub run_output: Option<CommandOutput>,
}

/// The mathematical content of a `CompileRunOutput`.
pub struct CompileRunOutputView {
    pub compile_output: CommandOutputView,
    pub run_output: Option<CommandOutputView>,
}

impl CompileRunOutputView {
    /// The run phase is absent exactly when the compilation did not
    /// succeed.
    pub open spec fn wf(self) -> bool {
        self.run_output.is_none() <==> !self.compile_output.status.succeeded()
    }

    /// What a probe reports: the program's standard output as text when both
    /// phases succeeded, else the error that names the phase at fault.
    pub open spec fn successful_run_output(self) -> Result<Seq<char>, CProbeErrorView> {
        match self.run_output {
            Some(run_output) => if run_output.status.succeeded() {
                Ok(lossy_text(run_output.stdout))
            } else {
                Err(CProbeErrorView::RunError(self.compile_output, run_output))
            },
            None => Err(CProbeErrorView::CompileError(self.compile_output)),
        }
    }
}

/// The view of an optional command output.
pub open spec fn view_of_optional_output(output: Option<CommandOutput>) -> Option<
    CommandOutputView,
> {
    match output {
        Some(output) => Some(output@),
        None => None,
    }
}

impl View for CompileRunOutput {
    type V = CompileRunOutputView;

    open spec fn view(&self) -> CompileRunOutputView {
        CompileRunOutputView {
            compile_output: self.compile_output@,
            run_output: view_of_optional_output(self.run_output),
        }
    }
}

impl Clone for CompileRunOutput {
    fn clone(&self) -> (copy: Self)
        ensures
            copy@ == self@,
    {
        CompileRunOutput {
            compile_output: self.compile_output.clone(),
            run_output: match &self.run_output {
                Some(output) => Some(output.clone()),
                None => None,
            },
        }
    }
}

/// The text that describes the outputs of both phases, for diagnostics.
pub open spec fn compile_run_output_text(output: CompileRunOutputView) -> Seq<char> {
    "probe_c_api::CompileRunOutput{ compile output: "@ + output_text(output.compile_output)
        + " run output: "@ + (match output.run_output {
        Some(run_output) => output_text(run_output),
        None => "None"@,
    }) + " }"@
}

impl CompileRunOutput {
    /// Describes the outputs of both phases in a form fit for a diagnostic
    /// message.
    pub fn describe(&self) -> (text: String)
        ensures
            text@ == compile_run_output_text(self@),
    {
        let mut text = String::from_str("probe_c_api::CompileRunOutput{ compile output: ");
        let compile = self.compile_output.describe();
        text.append(compile.as_str());
        text.append(" run output: ");
        match &self.run_output {
            Some(run_output) => {
                let run = run_output.describe();
                text.append(run.as_str());
            },
            None => {
                text.append("None");
            },
        }
        text.append(" }");
        text
    }

    /// Returns a probe program's standard output as text.
    ///
    /// If the compilation or the run failed, the error says which. Output
    /// that is not valid UTF-8 is converted with replacement characters.
    pub fn successful_run_output(&self) -> (result: CProbeResult<String>)
        ensures
            match self@.successful_run_output() {
                Ok(text) => result matches Ok(found) && found@ == text,
                Err(error) => result matches Err(found) && found@ == error,
            },
    {
        match &self.run_output {
            Some(run_output) => {
                if run_output.status.success() {
                    Ok(decode_lossy(&run_output.stdout))
                } else {
                    Err(CProbeError::RunError(self.compile_output.clone(), run_output.clone()))
                }
            },
            None => Err(CProbeError::CompileError(self.compile_output.clone())),
        }
    }
}

} // verus!
