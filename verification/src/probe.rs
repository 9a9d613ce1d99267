//! The probe: how programs are put together for one C API, and the
//! questions that can be asked of it.

use crate::error::{IoFailure, NewProbeError, NewProbeErrorView};
use crate::pipeline::{Goal, GoalView, Invocation, InvocationView, Program, ProgramView};
use crate::scratch::{random_names, scratch_names, ScratchNames};
use crate::source::{
    align_of_body, align_of_body_text, is_defined_macro_body, is_defined_macro_body_text,
    is_signed_body, is_signed_body_text, program, signed_integer_constant_body,
    signed_integer_constant_body_text, size_of_body, size_of_body_text, synthesize,
    texts_of_strings, texts_of_strs,
};
use vstd::prelude::*;

verus! {

/// What the file system knows of a path.
#[derive(Copy, Debug, PartialEq, Eq, Structural)]
pub struct Metadata {
    /// Whether the path names a directory.
    pub is_dir: bool,
}

impl Clone for Metadata {
    fn clone(&self) -> (copy: Self)
        ensures
            copy == *self,
    {
        Metadata { is_dir: self.is_dir }
    }
}

/// How to put together probe programs for one C API, and where to keep
/// their files.
///
/// A probe never changes once it is made, so any number of invocations may
/// be begun from it, also at the same time.
#[derive(Debug)]
pub struct Probe {
    headers: Vec<String>,
    work_dir: String,
    exe_extension: String,
}

/// The mathematical content of a `Probe`.
pub struct ProbeView {
    /// The headers that every program of the probe brings in, each with
    /// its delimiters.
    pub headers: Seq<Seq<char>>,
    /// The path of the directory that holds the scratch files.
    pub work_dir: Seq<char>,
    /// The extension of executable files, without a dot; empty where they
    /// have none.
    pub exe_extension: Seq<char>,
}

impl View for Probe {
    type V = ProbeView;

    closed spec fn view(&self) -> ProbeView {
        ProbeView {
            headers: texts_of_strings(self.headers@),
            work_dir: self.work_dir@,
            exe_extension: self.exe_extension@,
        }
    }
}

/// The header that declares `printf`.
pub open spec fn stdio() -> Seq<Seq<char>> {
    seq!["<stdio.h>"@]
}

/// The headers that declare `printf` and `alignof`.
pub open spec fn stdio_and_stdalign() -> Seq<Seq<char>> {
    seq!["<stdio.h>"@, "<stdalign.h>"@]
}

impl ProbeView {
    /// The program that wraps `main_body` in `main`, after the probe's
    /// headers and then `headers`.
    pub open spec fn main_source(self, headers: Seq<Seq<char>>, main_body: Seq<char>) -> Seq<
        char,
    > {
        program(self.headers, headers, main_body)
    }

    /// The program that prints the size of `type_`.
    pub open spec fn size_of_program(self, type_: Seq<char>) -> Seq<char> {
        self.main_source(stdio(), size_of_body(type_))
    }

    /// The program that prints the alignment of `type_`.
    pub open spec fn align_of_program(self, type_: Seq<char>) -> Seq<char> {
        self.main_source(stdio_and_stdalign(), align_of_body(type_))
    }

    /// The program that prints whether the macro `token` is defined.
    pub open spec fn is_defined_macro_program(self, token: Seq<char>) -> Seq<char> {
        self.main_source(stdio(), is_defined_macro_body(token))
    }

    /// The program that prints whether the integer type `type_` is signed.
    pub open spec fn is_signed_program(self, type_: Seq<char>) -> Seq<char> {
        self.main_source(stdio(), is_signed_body(type_))
    }

    /// The program that prints the value of the constant `name`.
    pub open spec fn signed_integer_constant_program(self, name: Seq<char>) -> Seq<char> {
        self.main_source(stdio(), signed_integer_constant_body(name))
    }

    /// The program `source` with the scratch files of the number `suffix`.
    pub open spec fn scratch(self, source: Seq<char>, suffix: u64) -> ProgramView {
        ProgramView { names: scratch_names(suffix as nat, self.exe_extension), source }
    }

    /// The invocation that is to reach `goal` with the program `source`,
    /// having drawn the number `suffix` for its scratch files.
    pub open spec fn invocation(self, goal: GoalView, source: Seq<char>, suffix: u64)
        -> InvocationView {
        InvocationView::start(goal, self.scratch(source, suffix))
    }

    /// The invocation that finds the fixed-width integer type that `type_`
    /// is interchangeable with. It asks for the size first and for the
    /// signedness second, each with scratch files of its own.
    pub open spec fn integer_invocation(self, type_: Seq<char>, first: u64, second: u64)
        -> InvocationView {
        self.invocation(
            GoalView::IntegerSize { then: self.scratch(self.is_signed_program(type_), second) },
            self.size_of_program(type_),
            first,
        )
    }
}

impl Probe {
    /// Makes a probe that brings `headers` into every program and keeps
    /// its scratch files in `work_dir`.
    ///
    /// Each header carries its delimiters, angle brackets or double
    /// quotes. `metadata` is what the file system answered when asked about
    /// `work_dir`. The directory is checked here, once, and not again when
    /// it is used: the probe is made if and only if the path names a
    /// directory. The probe assumes executables without an extension; see
    /// `with_exe_extension`.
    pub fn new(headers: Vec<String>, work_dir: &str, metadata: Result<Metadata, IoFailure>) -> (made:
        Result<Probe, NewProbeError>)
        ensures
            match metadata {
                Ok(found) => if found.is_dir {
                    made matches Ok(probe) && probe@ == (ProbeView {
                        headers: texts_of_strings(headers@),
                        work_dir: work_dir@,
                        exe_extension: Seq::empty(),
                    })
                } else {
                    made matches Err(error) && error@ == NewProbeErrorView::WorkDirNotADirectory(
                        work_dir@,
                    )
                },
                Err(failure) => made matches Err(error) && error@
                    == NewProbeErrorView::WorkDirMetadataInaccessible(failure@),
            },
    {
        match metadata {
            Ok(found) => {
                if !found.is_dir {
                    return Err(NewProbeError::WorkDirNotADirectory(String::from_str(work_dir)));
                }
            },
            Err(failure) => {
                return Err(NewProbeError::WorkDirMetadataInaccessible(failure));
            },
        }
        Ok(Probe { headers, work_dir: String::from_str(work_dir), exe_extension: String::new() })
    }

    /// The same probe for a platform whose executables carry `extension`
    /// (without a dot; empty where they carry none).
    pub fn with_exe_extension(self, extension: &str) -> (probe: Probe)
        ensures
            probe@ == (ProbeView { exe_extension: extension@, ..self@ }),
    {
        Probe {
            headers: self.headers,
            work_dir: self.work_dir,
            exe_extension: String::from_str(extension),
        }
    }

    /// Describes the probe by its work directory.
    pub fn describe(&self) -> (text: String)
        ensures
            text@ == "probe_c_api::Probe in \""@ + self@.work_dir + "\""@,
    {
        let mut text = String::from_str("probe_c_api::Probe in \"");
        text.append(self.work_dir.as_str());
        text.append("\"");
        text
    }

    /// The headers that every program of the probe brings in.
    pub fn headers(&self) -> (headers: &Vec<String>)
        ensures
            texts_of_strings(headers@) == self@.headers,
    {
        &self.headers
    }

    /// The path of the directory that holds the scratch files.
    pub fn work_dir(&self) -> (path: &str)
        ensures
            path@ == self@.work_dir,
    {
        self.work_dir.as_str()
    }

    /// The extension of executable files.
    pub fn exe_extension(&self) -> (extension: &str)
        ensures
            extension@ == self@.exe_extension,
    {
        self.exe_extension.as_str()
    }

    /// Names a source file and an executable after a number drawn at
    /// random, so that invocations that run at the same time keep out of
    /// each other's way.
    pub fn random_source_and_exe_paths(&self) -> (names: ScratchNames)
        ensures
            exists|suffix: u64| names@ == scratch_names(suffix as nat, self@.exe_extension),
    {
        let names = random_names(self.exe_extension.as_str());
        let ghost suffix = choose|suffix: u64|
            names@ == scratch_names(suffix as nat, self.exe_extension@);
        assert(names@ == scratch_names(suffix as nat, self@.exe_extension));
        names
    }

    /// Writes the program that wraps `main_body` in `main`, after the
    /// probe's headers and then `headers`.
    pub fn main_source_template(&self, headers: Vec<&str>, main_body: &str) -> (source: String)
        ensures
            source@ == self@.main_source(texts_of_strs(headers@), main_body@),
    {
        synthesize(&self.headers, &headers, main_body)
    }

    /// Begins an invocation that is to reach `goal` with the program
    /// `source`, with freshly named scratch files.
    pub fn invoke(&self, goal: Goal, source: String) -> (invocation: Invocation)
        ensures
            exists|suffix: u64| invocation@ == self@.invocation(goal@, source@, suffix),
    {
        let names = self.random_source_and_exe_paths();
        let ghost suffix = choose|suffix: u64|
            names@ == scratch_names(suffix as nat, self@.exe_extension);
        let invocation = Invocation::start(goal, Program { names, source });
        assert(invocation@ == self@.invocation(goal@, source@, suffix));
        invocation
    }

    /// Begins an invocation that writes `source` to a file and has it
    /// compiled. Its answer is the compiler's output.
    pub fn check_compile(&self, source: &str) -> (invocation: Invocation)
        ensures
            exists|suffix: u64| invocation@ == self@.invocation(GoalView::Compile, source@, suffix),
    {
        self.invoke(Goal::Compile, String::from_str(source))
    }

    /// Begins an invocation that writes `source` to a file, has it
    /// compiled, and runs it if that succeeded. Its answer is the output
    /// of both phases.
    pub fn check_run(&self, source: &str) -> (invocation: Invocation)
        ensures
            exists|suffix: u64| invocation@ == self@.invocation(GoalView::Run, source@, suffix),
    {
        self.invoke(Goal::Run, String::from_str(source))
    }

    /// Begins an invocation for a program made of `main_body` in `main`
    /// that prints one value, which is then read as `goal` asks.
    pub fn run_to_get_rust_constant(&self, goal: Goal, headers: Vec<&str>, main_body: &str) -> (
        invocation: Invocation)
        ensures
            exists|suffix: u64|
                invocation@ == self@.invocation(
                    goal@,
                    self@.main_source(texts_of_strs(headers@), main_body@),
                    suffix,
                ),
    {
        let source = self.main_source_template(headers, main_body);
        self.invoke(goal, source)
    }

    /// Writes the program that prints the size of `type_`.
    pub fn size_of_program(&self, type_: &str) -> (source: String)
        ensures
            source@ == self@.size_of_program(type_@),
    {
        let headers: Vec<&str> = vec!["<stdio.h>"];
        assert(texts_of_strs(headers@) == stdio());
        let body = size_of_body_text(type_);
        self.main_source_template(headers, body.as_str())
    }

    /// Writes the program that prints the alignment of `type_`.
    pub fn align_of_program(&self, type_: &str) -> (source: String)
        ensures
            source@ == self@.align_of_program(type_@),
    {
        let headers: Vec<&str> = vec!["<stdio.h>", "<stdalign.h>"];
        assert(texts_of_strs(headers@) == stdio_and_stdalign());
        let body = align_of_body_text(type_);
        self.main_source_template(headers, body.as_str())
    }

    /// Writes the program that prints whether the macro `token` is
    /// defined.
    pub fn is_defined_macro_program(&self, token: &str) -> (source: String)
        ensures
            source@ == self@.is_defined_macro_program(token@),
    {
        let headers: Vec<&str> = vec!["<stdio.h>"];
        assert(texts_of_strs(headers@) == stdio());
        let body = is_defined_macro_body_text(token);
        self.main_source_template(headers, body.as_str())
    }

    /// Writes the program that prints whether the integer type `type_` is
    /// signed.
    pub fn is_signed_program(&self, type_: &str) -> (source: String)
        ensures
            source@ == self@.is_signed_program(type_@),
    {
        let headers: Vec<&str> = vec!["<stdio.h>"];
        assert(texts_of_strs(headers@) == stdio());
        let body = is_signed_body_text(type_);
        self.main_source_template(headers, body.as_str())
    }

    /// Writes the program that prints the value of the constant `name`.
    pub fn signed_integer_constant_program(&self, name: &str) -> (source: String)
        ensures
            source@ == self@.signed_integer_constant_program(name@),
    {
        let headers: Vec<&str> = vec!["<stdio.h>"];
        assert(texts_of_strs(headers@) == stdio());
        let body = signed_integer_constant_body_text(name);
        self.main_source_template(headers, body.as_str())
    }

    /// Begins an invocation that finds the size of a C type, in bytes.
    pub fn size_of(&self, type_: &str) -> (invocation: Invocation)
        ensures
            exists|suffix: u64|
                invocation@ == self@.invocation(
                    GoalView::Unsigned,
                    self@.size_of_program(type_@),
                    suffix,
                ),
    {
        self.invoke(Goal::Unsigned, self.size_of_program(type_))
    }

    /// Begins an invocation that finds the alignment of a C type, in
    /// bytes.
    ///
    /// The program relies on the alignment facilities of C11. Whether the
    /// compiler has them is for the caller to know: where it has not, the
    /// invocation ends with a compile error.
    pub fn align_of(&self, type_: &str) -> (invocation: Invocation)
        ensures
            exists|suffix: u64|
                invocation@ == self@.invocation(
                    GoalView::Unsigned,
                    self@.align_of_program(type_@),
                    suffix,
                ),
    {
        self.invoke(Goal::Unsigned, self.align_of_program(type_))
    }

    /// Begins an invocation that finds whether a macro is defined.
    ///
    /// This also tells whether a constant or function of the API is
    /// implemented as a macro.
    pub fn is_defined_macro(&self, token: &str) -> (invocation: Invocation)
        ensures
            exists|suffix: u64|
                invocation@ == self@.invocation(
                    GoalView::Boolean,
                    self@.is_defined_macro_program(token@),
                    suffix,
                ),
    {
        self.invoke(Goal::Boolean, self.is_defined_macro_program(token))
    }

    /// Begins an invocation that finds whether an integer type is signed.
    pub fn is_signed(&self, type_: &str) -> (invocation: Invocation)
        ensures
            exists|suffix: u64|
                invocation@ == self@.invocation(
                    GoalView::Boolean,
                    self@.is_signed_program(type_@),
                    suffix,
                ),
    {
        self.invoke(Goal::Boolean, self.is_signed_program(type_))
    }

    /// Begins an invocation that finds the value of an integer constant or
    /// macro.
    pub fn signed_integer_constant(&self, name: &str) -> (invocation: Invocation)
        ensures
            exists|suffix: u64|
                invocation@ == self@.invocation(
                    GoalView::Signed,
                    self@.signed_integer_constant_program(name@),
                    suffix,
                ),
    {
        self.invoke(Goal::Signed, self.signed_integer_constant_program(name))
    }

    /// Begins an invocation that finds the fixed-width integer type that a
    /// C integer type is interchangeable with.
    ///
    /// The invocation runs two programs, one for the size of the type and,
    /// if that succeeds, one for its signedness. An error in either ends
    /// it: no width and no signedness is ever assumed.
    pub fn equivalent_rust_integer(&self, type_: &str) -> (invocation: Invocation)
        ensures
            exists|first: u64, second: u64|
                invocation@ == self@.integer_invocation(type_@, first, second),
    {
        let second_names = self.random_source_and_exe_paths();
        let ghost second = choose|suffix: u64|
            second_names@ == scratch_names(suffix as nat, self@.exe_extension);
        let then = Program { names: second_names, source: self.is_signed_program(type_) };
        let goal = Goal::IntegerSize { then };
        let source = self.size_of_program(type_);
        let invocation = self.invoke(goal, source);
        let ghost first = choose|suffix: u64|
            invocation@ == self@.invocation(goal@, source@, suffix);
        assert(invocation@ == self@.integer_invocation(type_@, first, second));
        invocation
    }
}

} // verus!
