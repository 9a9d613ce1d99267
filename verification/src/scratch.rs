//! Names for the scratch files of a probe invocation.
//!
//! Every invocation writes one source file and, through the compiler, one
//! executable into the work directory, and removes both when it is done.
//! Invocations that share a work directory keep out of each other's way by
//! naming their files after a number drawn at random from the whole range
//! of `u64`, afresh for each invocation. Nothing is locked and no file is
//! looked for first: two invocations collide only if they draw the same
//! number, which is improbable enough to be accepted as the price of
//! needing no synchronization.

use crate::text::{decimal, lemma_decimal_denotes, render_unsigned};
use vstd::prelude::*;

verus! {

/// The names of an invocation's files, relative to the work directory.
#[derive(Debug, PartialEq, Eq)]
pub struct ScratchNames {
    /// The name of the source file.
    pub source: String,
    /// The name of the executable that the compiler is asked to produce.
    pub executable: String,
}

/// The mathematical content of `ScratchNames`.
pub struct ScratchNamesView {
    pub source: Seq<char>,
    pub executable: Seq<char>,
}

impl View for ScratchNames {
    type V = ScratchNamesView;

    open spec fn view(&self) -> ScratchNamesView {
        ScratchNamesView { source: self.source@, executable: self.executable@ }
    }
}

impl Clone for ScratchNames {
    fn clone(&self) -> (copy: Self)
        ensures
            copy@ == self@,
    {
        ScratchNames { source: self.source.clone(), executable: self.executable.clone() }
    }
}

/// The name of the source file for the number `suffix`.
pub open spec fn source_name(suffix: nat) -> Seq<char> {
    "source-"@ + decimal(suffix) + ".c"@
}

/// The name of the executable for the number `suffix`, on a platform whose
/// executables carry `extension` (empty where they carry none).
pub open spec fn executable_name(suffix: nat, extension: Seq<char>) -> Seq<char> {
    if extension.len() == 0 {
        "exe-"@ + decimal(suffix)
    } else {
        "exe-"@ + decimal(suffix) + "."@ + extension
    }
}

/// The names of the files for the number `suffix`.
pub open spec fn scratch_names(suffix: nat, extension: Seq<char>) -> ScratchNamesView {
    ScratchNamesView {
        source: source_name(suffix),
        executable: executable_name(suffix, extension),
    }
}

/// Builds the names of the files for the number `suffix`.
pub fn names_for(suffix: u64, extension: &str) -> (names: ScratchNames)
    ensures
        names@ == scratch_names(suffix as nat, extension@),
{
    let digits = render_unsigned(suffix);
    let mut source = String::from_str("source-");
    source.append(digits.as_str());
    source.append(".c");
    let mut executable = String::from_str("exe-");
    executable.append(digits.as_str());
    if !extension.is_empty() {
        executable.append(".");
        executable.append(extension);
    }
    ScratchNames { source, executable }
}

/// Draws a number uniformly at random from the whole range of `u64`.
///
/// Calls `rand::random::<u64>()`, which takes the number from the thread's
/// generator. Nothing is claimed of the number drawn.
#[verifier::external_body]
fn random_suffix() -> (suffix: u64) {
    rand::random::<u64>()
}

/// Draws a fresh random number and builds the names of the files for it.
pub fn random_names(extension: &str) -> (names: ScratchNames)
    ensures
        exists|suffix: u64| names@ == scratch_names(suffix as nat, extension@),
{
    let suffix: u64 = random_suffix();
    names_for(suffix, extension)
}

/// Different numbers never give the same decimal numeral.
pub proof fn lemma_decimal_injective(a: nat, b: nat)
    requires
        decimal(a) == decimal(b),
    ensures
        a == b,
{
    lemma_decimal_denotes(a);
    lemma_decimal_denotes(b);
}

/// Invocations that drew different numbers share no file: neither their
/// source files nor their executables have the same name.
pub proof fn lemma_names_distinct(a: nat, b: nat, extension: Seq<char>)
    requires
        a != b,
    ensures
        scratch_names(a, extension).source != scratch_names(b, extension).source,
        scratch_names(a, extension).executable != scratch_names(b, extension).executable,
{
    let da = decimal(a);
    let db = decimal(b);
    if source_name(a) == source_name(b) {
        let prefix = "source-"@;
        assert(da.len() == db.len()) by {
            assert(source_name(a).len() == prefix.len() + da.len() + ".c"@.len());
            assert(source_name(b).len() == prefix.len() + db.len() + ".c"@.len());
        }
        assert forall|i: int| 0 <= i < da.len() implies da[i] == db[i] by {
            assert(source_name(a)[prefix.len() + i] == da[i]);
            assert(source_name(b)[prefix.len() + i] == db[i]);
        }
        assert(da == db);
        lemma_decimal_injective(a, b);
    }
    if executable_name(a, extension) == executable_name(b, extension) {
        let prefix = "exe-"@;
        let xa = executable_name(a, extension);
        let xb = executable_name(b, extension);
        assert(da.len() == db.len()) by {
            if extension.len() == 0 {
                assert(xa.len() == prefix.len() + da.len());
                assert(xb.len() == prefix.len() + db.len());
            } else {
                assert(xa.len() == prefix.len() + da.len() + "."@.len() + extension.len());
                assert(xb.len() == prefix.len() + db.len() + "."@.len() + extension.len());
            }
        }
        assert forall|i: int| 0 <= i < da.len() implies da[i] == db[i] by {
            assert(xa[prefix.len() + i] == da[i]);
            assert(xb[prefix.len() + i] == db[i]);
        }
        assert(da == db);
        lemma_decimal_injective(a, b);
    }
}

/// No invocation's source file has the name of any invocation's executable.
pub proof fn lemma_source_is_no_executable(a: nat, b: nat, extension: Seq<char>)
    ensures
        scratch_names(a, extension).source != scratch_names(b, extension).executable,
{
    reveal_strlit("source-");
    reveal_strlit("exe-");
    assert(source_name(a)[0] == 's');
    assert(executable_name(b, extension)[0] == 'e');
}

} // verus!
