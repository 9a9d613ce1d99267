//! Build-time discovery of facts about a C API: sizes, alignments,
//! signedness, macro definitions and constant values, found by compiling and
//! running tiny probe programs and decoding what they print.
//!
//! The library performs no input or output itself. It synthesizes probe
//! programs, decides each step of a probe invocation, and decodes results;
//! the caller writes files and launches processes as the library directs.

use vstd::prelude::*;

pub mod decode;
pub mod error;
pub mod integer;
pub mod laws;
pub mod output;
pub mod pipeline;
pub mod probe;
pub mod scratch;
pub mod source;
pub mod text;

pub use crate::error::{CProbeError, CProbeResult, IoFailure, IoFailureKind, NewProbeError};
pub use crate::integer::{equivalent_rust_integer, RustInteger};
pub use crate::output::{CommandOutput, CompileRunOutput, ExitStatus};
pub use crate::pipeline::{Action, Answer, Event, Goal, Invocation, Program};
pub use crate::probe::{Metadata, Probe};
pub use crate::scratch::ScratchNames;

verus! {

/// Result of the compile and run strategies: the output of a command that
/// was launched and has ended, or the failure to launch it.
pub type CommandResult = Result<CommandOutput, IoFailure>;

} // verus!
