//! Decoding of what a probe program printed into a typed value.
//!
//! A probe reports its answer on standard output, as text: a decimal
//! integer for sizes, alignments and constants, the literal `true` or
//! `false` for yes-or-no questions. The decoder takes the output of a
//! successful run, sets the white space around it aside and reads it in
//! the form that the caller expects. Text in any other form is an error,
//! never a wrong answer.

use crate::error::{CProbeError, CProbeErrorView, CProbeResult};
use crate::output::{CompileRunOutput, CompileRunOutputView};
use crate::text::{
    bool_of_text, read_bool, read_signed, read_unsigned, signed_of_text, unsigned_of_text,
};
use vstd::prelude::*;

verus! {

/// The error for output that is no unsigned integer.
pub open spec fn not_unsigned() -> CProbeErrorView {
    CProbeErrorView::OtherError(
        "unexpected output from probe program: expected an unsigned integer"@,
    )
}

/// The error for output that is no signed integer.
pub open spec fn not_signed() -> CProbeErrorView {
    CProbeErrorView::OtherError("unexpected output from probe program: expected a signed integer"@)
}

/// The error for output that is neither `true` nor `false`.
pub open spec fn not_bool() -> CProbeErrorView {
    CProbeErrorView::OtherError("unexpected output from probe program: expected true or false"@)
}

/// What the text `text` means to a caller that expects an unsigned integer.
pub open spec fn unsigned_from_text(text: Seq<char>) -> Result<usize, CProbeErrorView> {
    match unsigned_of_text(text) {
        Some(value) => Ok(value),
        None => Err(not_unsigned()),
    }
}

/// What the text `text` means to a caller that expects a signed integer.
pub open spec fn signed_from_text(text: Seq<char>) -> Result<i64, CProbeErrorView> {
    match signed_of_text(text) {
        Some(value) => Ok(value),
        None => Err(not_signed()),
    }
}

/// What the text `text` means to a caller that expects a boolean.
pub open spec fn bool_from_text(text: Seq<char>) -> Result<bool, CProbeErrorView> {
    match bool_of_text(text) {
        Some(value) => Ok(value),
        None => Err(not_bool()),
    }
}

/// What the invocation `output` means to a caller that expects an unsigned
/// integer.
pub open spec fn unsigned_from_output(output: CompileRunOutputView) -> Result<
    usize,
    CProbeErrorView,
> {
    match output.successful_run_output() {
        Ok(text) => unsigned_from_text(text),
        Err(error) => Err(error),
    }
}

/// What the invocation `output` means to a caller that expects a signed
/// integer.
pub open spec fn signed_from_output(output: CompileRunOutputView) -> Result<i64, CProbeErrorView> {
    match output.successful_run_output() {
        Ok(text) => signed_from_text(text),
        Err(error) => Err(error),
    }
}

/// What the invocation `output` means to a caller that expects a boolean.
pub open spec fn bool_from_output(output: CompileRunOutputView) -> Result<bool, CProbeErrorView> {
    match output.successful_run_output() {
        Ok(text) => bool_from_text(text),
        Err(error) => Err(error),
    }
}

/// Tells whether `found` is the value or the error that `expected` holds.
pub open spec fn agrees<T>(found: CProbeResult<T>, expected: Result<T, CProbeErrorView>) -> bool {
    match expected {
        Ok(value) => found == Ok::<T, CProbeError>(value),
        Err(error) => found matches Err(e) && e@ == error,
    }
}

/// Reads the text that a probe printed as an unsigned integer.
pub fn decode_unsigned_text(text: &str) -> (result: CProbeResult<usize>)
    ensures
        agrees(result, unsigned_from_text(text@)),
{
    match read_unsigned(text) {
        Some(value) => Ok(value),
        None => Err(
            CProbeError::OtherError(
                String::from_str(
                    "unexpected output from probe program: expected an unsigned integer",
                ),
            ),
        ),
    }
}

/// Reads the text that a probe printed as a signed integer.
pub fn decode_signed_text(text: &str) -> (result: CProbeResult<i64>)
    ensures
        agrees(result, signed_from_text(text@)),
{
    match read_signed(text) {
        Some(value) => Ok(value),
        None => Err(
            CProbeError::OtherError(
                String::from_str("unexpected output from probe program: expected a signed integer"),
            ),
        ),
    }
}

/// Reads the text that a probe printed as a boolean.
pub fn decode_bool_text(text: &str) -> (result: CProbeResult<bool>)
    ensures
        agrees(result, bool_from_text(text@)),
{
    match read_bool(text) {
        Some(value) => Ok(value),
        None => Err(
            CProbeError::OtherError(
                String::from_str("unexpected output from probe program: expected true or false"),
            ),
        ),
    }
}

/// Decodes the outcome of an invocation as an unsigned integer.
pub fn decode_unsigned(output: &CompileRunOutput) -> (result: CProbeResult<usize>)
    ensures
        agrees(result, unsigned_from_output(output@)),
{
    match output.successful_run_output() {
        Ok(text) => decode_unsigned_text(text.as_str()),
        Err(error) => Err(error),
    }
}

/// Decodes the outcome of an invocation as a signed integer.
pub fn decode_signed(output: &CompileRunOutput) -> (result: CProbeResult<i64>)
    ensures
        agrees(result, signed_from_output(output@)),
{
    match output.successful_run_output() {
        Ok(text) => decode_signed_text(text.as_str()),
        Err(error) => Err(error),
    }
}

/// Decodes the outcome of an invocation as a boolean.
pub fn decode_bool(output: &CompileRunOutput) -> (result: CProbeResult<bool>)
    ensures
        agrees(result, bool_from_output(output@)),
{
    match output.successful_run_output() {
        Ok(text) => decode_bool_text(text.as_str()),
        Err(error) => Err(error),
    }
}

} // verus!
