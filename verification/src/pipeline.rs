//! The steps of a probe invocation.
//!
//! An invocation writes a program to a scratch file, has it compiled,
//! removes the source, runs the executable if there is one, removes it, and
//! decodes what the program printed. The library does none of the writing
//! and launching itself. An `Invocation` holds where the work stands and
//! says what is to be done next; the caller does it and reports how it
//! went, and the invocation moves on. Every decision along the way is made
//! here, by one transition function.

use crate::decode::{
    bool_from_output, decode_bool, decode_signed, decode_unsigned, signed_from_output,
    unsigned_from_output,
};
use crate::error::{
    CProbeError, CProbeErrorView, CProbeResult, IoFailure, IoFailureKind, IoFailureView,
};
use crate::integer::{equivalent_integer, equivalent_rust_integer, RustInteger};
use crate::output::{
    view_of_optional_output, CommandOutput, CommandOutputView, CompileRunOutput,
    CompileRunOutputView,
};
use crate::scratch::{ScratchNames, ScratchNamesView};
use vstd::prelude::*;

verus! {

/// A program and the names of the scratch files that it is to use.
#[derive(Debug, PartialEq, Eq)]
pub struct Program {
    /// The names of the source file and of the executable.
    pub names: ScratchNames,
    /// The text of the program.
    pub source: String,
}

/// The mathematical content of a `Program`.
pub struct ProgramView {
    pub names: ScratchNamesView,
    pub source: Seq<char>,
}

impl View for Program {
    type V = ProgramView;

    open spec fn view(&self) -> ProgramView {
        ProgramView { names: self.names@, source: self.source@ }
    }
}

/// What an invocation is to find out.
#[derive(Debug, PartialEq, Eq)]
pub enum Goal {
    /// Whether the program compiles.
    Compile,
    /// How the program compiles and runs.
    Run,
    /// The unsigned integer that the program prints.
    Unsigned,
    /// The boolean that the program prints.
    Boolean,
    /// The signed integer that the program prints.
    Signed,
    /// The fixed-width integer type that a C type is interchangeable with.
    /// The program at hand prints the size of the type; `then` prints its
    /// signedness and runs once the size is known.
    IntegerSize { then: Program },
    /// The second half of the same question: the size is known, and the
    /// program at hand prints the signedness.
    IntegerSign { size: usize },
}

/// The mathematical content of a `Goal`.
pub enum GoalView {
    Compile,
    Run,
    Unsigned,
    Boolean,
    Signed,
    IntegerSize { then: ProgramView },
    IntegerSign { size: usize },
}

impl View for Goal {
    type V = GoalView;

    open spec fn view(&self) -> GoalView {
        match self {
            Goal::Compile => GoalView::Compile,
            Goal::Run => GoalView::Run,
            Goal::Unsigned => GoalView::Unsigned,
            Goal::Boolean => GoalView::Boolean,
            Goal::Signed => GoalView::Signed,
            Goal::IntegerSize { then } => GoalView::IntegerSize { then: then@ },
            Goal::IntegerSign { size } => GoalView::IntegerSign { size: *size },
        }
    }
}

/// What an invocation found out.
#[derive(Debug, PartialEq, Eq)]
pub enum Answer {
    /// The compiler's output.
    Compiled(CommandOutput),
    /// The outputs of the compiler and of the program.
    Ran(CompileRunOutput),
    /// The unsigned integer that the program printed.
    Unsigned(usize),
    /// The boolean that the program printed.
    Boolean(bool),
    /// The signed integer that the program printed.
    Signed(i64),
    /// The fixed-width integer type that the C type is interchangeable
    /// with, or `None` if its size is that of no such type.
    Integer(Option<RustInteger>),
}

/// The mathematical content of an `Answer`.
pub enum AnswerView {
    Compiled(CommandOutputView),
    Ran(CompileRunOutputView),
    Unsigned(usize),
    Boolean(bool),
    Signed(i64),
    Integer(Option<RustInteger>),
}

impl View for Answer {
    type V = AnswerView;

    open spec fn view(&self) -> AnswerView {
        match self {
            Answer::Compiled(output) => AnswerView::Compiled(output@),
            Answer::Ran(output) => AnswerView::Ran(output@),
            Answer::Unsigned(value) => AnswerView::Unsigned(*value),
            Answer::Boolean(value) => AnswerView::Boolean(*value),
            Answer::Signed(value) => AnswerView::Signed(*value),
            Answer::Integer(integer) => AnswerView::Integer(*integer),
        }
    }
}

/// The mathematical content of an invocation's result.
pub type ResultView = Result<AnswerView, CProbeErrorView>;

/// The view of a result.
pub open spec fn view_of_result(result: CProbeResult<Answer>) -> ResultView {
    match result {
        Ok(answer) => Ok(answer@),
        Err(error) => Err(error@),
    }
}

/// What the caller is asked to do next. File names are relative to the
/// probe's work directory.
#[derive(Debug, PartialEq, Eq)]
pub enum Action {
    /// Create the file `name` and write `text` to it.
    WriteSource { name: String, text: String },
    /// Have the compile strategy turn the file `source` into the executable
    /// `executable`.
    Compile { source: String, executable: String },
    /// Remove the file `name`.
    RemoveFile { name: String },
    /// Have the run strategy execute `executable`.
    Run { executable: String },
    /// Nothing: the invocation is finished.
    Done,
}

/// The mathematical content of an `Action`.
pub enum ActionView {
    WriteSource { name: Seq<char>, text: Seq<char> },
    Compile { source: Seq<char>, executable: Seq<char> },
    RemoveFile { name: Seq<char> },
    Run { executable: Seq<char> },
    Done,
}

impl View for Action {
    type V = ActionView;

    open spec fn view(&self) -> ActionView {
        match self {
            Action::WriteSource { name, text } => ActionView::WriteSource {
                name: name@,
                text: text@,
            },
            Action::Compile { source, executable } => ActionView::Compile {
                source: source@,
                executable: executable@,
            },
            Action::RemoveFile { name } => ActionView::RemoveFile { name: name@ },
            Action::Run { executable } => ActionView::Run { executable: executable@ },
            Action::Done => ActionView::Done,
        }
    }
}

/// How an action went.
#[derive(Debug, PartialEq, Eq)]
pub enum Event {
    /// A file was written or removed, or could not be.
    File(Result<(), IoFailure>),
    /// A command was launched and has ended, or could not be launched.
    Command(Result<CommandOutput, IoFailure>),
}

/// The mathematical content of an `Event`.
pub enum EventView {
    File(Result<(), IoFailureView>),
    Command(Result<CommandOutputView, IoFailureView>),
}

impl View for Event {
    type V = EventView;

    open spec fn view(&self) -> EventView {
        match self {
            Event::File(Ok(())) => EventView::File(Ok(())),
            Event::File(Err(failure)) => EventView::File(Err(failure@)),
            Event::Command(Ok(output)) => EventView::Command(Ok(output@)),
            Event::Command(Err(failure)) => EventView::Command(Err(failure@)),
        }
    }
}

/// Where an invocation stands: the step whose outcome it waits for.
#[derive(Debug, PartialEq, Eq)]
pub enum Stage {
    /// The source file is being written.
    WriteSource,
    /// The compiler is running.
    Compile,
    /// The compiler has ended, and the source file is being removed.
    RemoveSource { compile_output: CommandOutput },
    /// The compilation succeeded, and the program is running.
    Run { compile_output: CommandOutput },
    /// The executable is being removed.
    RemoveExecutable { compile_output: CommandOutput, run_output: Option<CommandOutput> },
    /// Nothing is left to do.
    Finished { result: CProbeResult<Answer> },
}

/// The mathematical content of a `Stage`.
pub enum StageView {
    WriteSource,
    Compile,
    RemoveSource { compile_output: CommandOutputView },
    Run { compile_output: CommandOutputView },
    RemoveExecutable { compile_output: CommandOutputView, run_output: Option<CommandOutputView> },
    Finished { result: ResultView },
}

impl View for Stage {
    type V = StageView;

    open spec fn view(&self) -> StageView {
        match self {
            Stage::WriteSource => StageView::WriteSource,
            Stage::Compile => StageView::Compile,
            Stage::RemoveSource { compile_output } => StageView::RemoveSource {
                compile_output: compile_output@,
            },
            Stage::Run { compile_output } => StageView::Run { compile_output: compile_output@ },
            Stage::RemoveExecutable { compile_output, run_output } => StageView::RemoveExecutable {
                compile_output: compile_output@,
                run_output: view_of_optional_output(*run_output),
            },
            Stage::Finished { result } => StageView::Finished { result: view_of_result(*result) },
        }
    }
}

/// The mathematical content of an `Invocation`.
pub struct InvocationView {
    pub goal: GoalView,
    pub stage: StageView,
    pub program: ProgramView,
}

impl InvocationView {
    /// The invocation for `goal` that has not done anything yet.
    pub open spec fn start(goal: GoalView, program: ProgramView) -> InvocationView {
        InvocationView { goal, stage: StageView::WriteSource, program }
    }

    /// The same invocation, one stage on.
    pub open spec fn at(self, stage: StageView) -> InvocationView {
        InvocationView { stage, ..self }
    }

    /// The same invocation, finished with `result`.
    pub open spec fn finished(self, result: ResultView) -> InvocationView {
        self.at(StageView::Finished { result })
    }

    /// The same invocation, given up for an input/output failure.
    pub open spec fn failed(self, failure: IoFailureView) -> InvocationView {
        self.finished(Err(CProbeErrorView::IoError(failure)))
    }

    /// What the caller is asked to do next.
    pub open spec fn action(self) -> ActionView {
        match self.stage {
            StageView::WriteSource => ActionView::WriteSource {
                name: self.program.names.source,
                text: self.program.source,
            },
            StageView::Compile => ActionView::Compile {
                source: self.program.names.source,
                executable: self.program.names.executable,
            },
            StageView::RemoveSource { .. } => ActionView::RemoveFile {
                name: self.program.names.source,
            },
            StageView::Run { .. } => ActionView::Run { executable: self.program.names.executable },
            StageView::RemoveExecutable { .. } => ActionView::RemoveFile {
                name: self.program.names.executable,
            },
            StageView::Finished { .. } => ActionView::Done,
        }
    }

    /// Tells whether `event` reports on the action that is pending.
    pub open spec fn awaits(self, event: EventView) -> bool {
        match self.stage {
            StageView::WriteSource
            | StageView::RemoveSource { .. }
            | StageView::RemoveExecutable { .. } => event is File,
            StageView::Compile | StageView::Run { .. } => event is Command,
            StageView::Finished { .. } => false,
        }
    }

    /// The invocation once its program has been compiled and, if that
    /// succeeded, run, and the scratch files are gone. Here the output is
    /// decoded as the goal asks. A question in two halves goes on to its
    /// second program if the first half was answered, and ends with the
    /// error of the first half if it was not.
    pub open spec fn conclude(self, output: CompileRunOutputView) -> InvocationView {
        match self.goal {
            GoalView::Compile => self.finished(Ok(AnswerView::Compiled(output.compile_output))),
            GoalView::Run => self.finished(Ok(AnswerView::Ran(output))),
            GoalView::Unsigned => self.finished(
                match unsigned_from_output(output) {
                    Ok(value) => Ok(AnswerView::Unsigned(value)),
                    Err(error) => Err(error),
                },
            ),
            GoalView::Boolean => self.finished(
                match bool_from_output(output) {
                    Ok(value) => Ok(AnswerView::Boolean(value)),
                    Err(error) => Err(error),
                },
            ),
            GoalView::Signed => self.finished(
                match signed_from_output(output) {
                    Ok(value) => Ok(AnswerView::Signed(value)),
                    Err(error) => Err(error),
                },
            ),
            GoalView::IntegerSize { then } => match unsigned_from_output(output) {
                Ok(size) => InvocationView::start(GoalView::IntegerSign { size }, then),
                Err(error) => self.finished(Err(error)),
            },
            GoalView::IntegerSign { size } => self.finished(
                match bool_from_output(output) {
                    Ok(signed) => Ok(AnswerView::Integer(equivalent_integer(size, signed))),
                    Err(error) => Err(error),
                },
            ),
        }
    }

    /// The invocation after `event`.
    ///
    /// A failure to write the source, to launch the compiler or the program,
    /// or to remove a scratch file ends the invocation at once with that
    /// failure. The source file is removed as soon as the compiler has
    /// ended, whatever its exit status. The program is run if and only if
    /// the compiler succeeded. An invocation that only compiles removes the
    /// executable afterwards and does not mind if there is none. An event
    /// that does not report on the pending action changes nothing.
    pub open spec fn next(self, event: EventView) -> InvocationView {
        match (self.stage, event) {
            (StageView::WriteSource, EventView::File(Ok(_))) => self.at(StageView::Compile),
            (StageView::WriteSource, EventView::File(Err(failure))) => self.failed(failure),
            (StageView::Compile, EventView::Command(Ok(compile_output))) => self.at(
                StageView::RemoveSource { compile_output },
            ),
            (StageView::Compile, EventView::Command(Err(failure))) => self.failed(failure),
            (StageView::RemoveSource { compile_output }, EventView::File(Ok(_))) => {
                if self.goal is Compile {
                    self.at(StageView::RemoveExecutable { compile_output, run_output: None })
                } else if compile_output.status.succeeded() {
                    self.at(StageView::Run { compile_output })
                } else {
                    self.conclude(CompileRunOutputView { compile_output, run_output: None })
                }
            },
            (StageView::RemoveSource { .. }, EventView::File(Err(failure))) => self.failed(
                failure,
            ),
            (StageView::Run { compile_output }, EventView::Command(Ok(run_output))) => self.at(
                StageView::RemoveExecutable { compile_output, run_output: Some(run_output) },
            ),
            (StageView::Run { .. }, EventView::Command(Err(failure))) => self.failed(failure),
            (
                StageView::RemoveExecutable { compile_output, run_output },
                EventView::File(Ok(_)),
            ) => self.conclude(CompileRunOutputView { compile_output, run_output }),
            (
                StageView::RemoveExecutable { compile_output, run_output },
                EventView::File(Err(failure)),
            ) => {
                if self.goal is Compile && failure.kind == IoFailureKind::NotFound {
                    self.conclude(CompileRunOutputView { compile_output, run_output })
                } else {
                    self.failed(failure)
                }
            },
            _ => self,
        }
    }

    /// The result, once the invocation is finished.
    pub open spec fn result(self) -> Option<ResultView> {
        match self.stage {
            StageView::Finished { result } => Some(result),
            _ => None,
        }
    }
}

/// Tells whether `answer` is of the kind that `goal` asks for. The first
/// half of a question in two halves is never answered by itself.
pub open spec fn answers(goal: GoalView, answer: AnswerView) -> bool {
    match goal {
        GoalView::Compile => answer is Compiled,
        GoalView::Run => answer is Ran,
        GoalView::Unsigned => answer is Unsigned,
        GoalView::Boolean => answer is Boolean,
        GoalView::Signed => answer is Signed,
        GoalView::IntegerSize { .. } => false,
        GoalView::IntegerSign { .. } => answer is Integer,
    }
}

impl InvocationView {
    /// What holds of every invocation, wherever it stands: a program is
    /// run only after it compiled, the outputs of a program that was
    /// compiled and run include a run exactly when the compilation
    /// succeeded, and an answer is of the kind that was asked for.
    pub open spec fn consistent(self) -> bool {
        match self.stage {
            StageView::Run { compile_output } => {
                &&& !(self.goal is Compile)
                &&& compile_output.status.succeeded()
            },
            StageView::RemoveExecutable { compile_output, run_output } => {
                if self.goal is Compile {
                    run_output is None
                } else {
                    compile_output.status.succeeded() && run_output is Some
                }
            },
            StageView::Finished { result } => {
                &&& result matches Ok(answer) ==> answers(self.goal, answer)
                &&& result matches Ok(AnswerView::Ran(output)) ==> output.wf()
            },
            _ => true,
        }
    }
}

/// One probe invocation: what it is to find out, the program it uses, and
/// where it stands.
#[derive(Debug)]
pub struct Invocation {
    goal: Goal,
    stage: Stage,
    program: Program,
}

impl View for Invocation {
    type V = InvocationView;

    closed spec fn view(&self) -> InvocationView {
        InvocationView { goal: self.goal@, stage: self.stage@, program: self.program@ }
    }
}

impl Invocation {
    #[verifier::type_invariant]
    spec fn holds_together(self) -> bool {
        self@.consistent()
    }

    /// Begins an invocation that is to reach `goal` with `program`. Its
    /// first action is to write the source file.
    pub fn start(goal: Goal, program: Program) -> (invocation: Invocation)
        ensures
            invocation@ == InvocationView::start(goal@, program@),
    {
        Invocation { goal, stage: Stage::WriteSource, program }
    }

    /// What the caller is asked to do next.
    pub fn action(&self) -> (action: Action)
        ensures
            action@ == self@.action(),
    {
        match &self.stage {
            Stage::WriteSource => Action::WriteSource {
                name: self.program.names.source.clone(),
                text: self.program.source.clone(),
            },
            Stage::Compile => Action::Compile {
                source: self.program.names.source.clone(),
                executable: self.program.names.executable.clone(),
            },
            Stage::RemoveSource { .. } => Action::RemoveFile {
                name: self.program.names.source.clone(),
            },
            Stage::Run { .. } => Action::Run { executable: self.program.names.executable.clone() },
            Stage::RemoveExecutable { .. } => Action::RemoveFile {
                name: self.program.names.executable.clone(),
            },
            Stage::Finished { .. } => Action::Done,
        }
    }

    /// Tells whether the invocation is finished.
    pub fn is_finished(&self) -> (finished: bool)
        ensures
            finished == self@.result().is_some(),
    {
        match &self.stage {
            Stage::Finished { .. } => true,
            _ => false,
        }
    }

    /// Tells whether `event` reports on the action that is pending.
    pub fn awaits(&self, event: &Event) -> (awaited: bool)
        ensures
            awaited == self@.awaits(event@),
    {
        match &self.stage {
            Stage::WriteSource | Stage::RemoveSource { .. } | Stage::RemoveExecutable { .. } => {
                match event {
                    Event::File(_) => true,
                    Event::Command(_) => false,
                }
            },
            Stage::Compile | Stage::Run { .. } => match event {
                Event::File(_) => false,
                Event::Command(_) => true,
            },
            Stage::Finished { .. } => false,
        }
    }

    /// Gives the result of a finished invocation, and `None` while there is
    /// something left to do.
    ///
    /// An answer is of the kind that the invocation was begun for, and the
    /// outputs of a program that was compiled and run include a run
    /// exactly when the compilation succeeded.
    pub fn finish(self) -> (result: Option<CProbeResult<Answer>>)
        ensures
            match self@.result() {
                Some(expected) => result matches Some(found) && view_of_result(found) == expected,
                None => result is None,
            },
            result matches Some(Ok(answer)) ==> answers(self@.goal, answer@),
            result matches Some(Ok(Answer::Ran(output))) ==> output@.wf(),
    {
        proof {
            use_type_invariant(&self);
        }
        match self.stage {
            Stage::Finished { result } => Some(result),
            _ => None,
        }
    }

    fn conclude(goal: Goal, program: Program, output: CompileRunOutput) -> (next: Invocation)
        requires
            output@.wf() || goal is Compile,
        ensures
            next@ == (InvocationView {
                goal: goal@,
                stage: StageView::WriteSource,
                program: program@,
            }).conclude(output@),
    {
        match goal {
            Goal::Compile => {
                let result = Ok(Answer::Compiled(output.compile_output));
                Invocation { goal: Goal::Compile, stage: Stage::Finished { result }, program }
            },
            Goal::Run => {
                let result = Ok(Answer::Ran(output));
                Invocation { goal: Goal::Run, stage: Stage::Finished { result }, program }
            },
            Goal::Unsigned => {
                let result = match decode_unsigned(&output) {
                    Ok(value) => Ok(Answer::Unsigned(value)),
                    Err(error) => Err(error),
                };
                Invocation { goal: Goal::Unsigned, stage: Stage::Finished { result }, program }
            },
            Goal::Boolean => {
                let result = match decode_bool(&output) {
                    Ok(value) => Ok(Answer::Boolean(value)),
                    Err(error) => Err(error),
                };
                Invocation { goal: Goal::Boolean, stage: Stage::Finished { result }, program }
            },
            Goal::Signed => {
                let result = match decode_signed(&output) {
                    Ok(value) => Ok(Answer::Signed(value)),
                    Err(error) => Err(error),
                };
                Invocation { goal: Goal::Signed, stage: Stage::Finished { result }, program }
            },
            Goal::IntegerSize { then } => match decode_unsigned(&output) {
                Ok(size) => Invocation::start(Goal::IntegerSign { size }, then),
                Err(error) => Invocation {
                    goal: Goal::IntegerSize { then },
                    stage: Stage::Finished { result: Err(error) },
                    program,
                },
            },
            Goal::IntegerSign { size } => {
                let result = match decode_bool(&output) {
                    Ok(signed) => Ok(Answer::Integer(equivalent_rust_integer(size, signed))),
                    Err(error) => Err(error),
                };
                Invocation {
                    goal: Goal::IntegerSign { size },
                    stage: Stage::Finished { result },
                    program,
                }
            },
        }
    }

    fn fail(goal: Goal, program: Program, failure: IoFailure) -> (next: Invocation)
        ensures
            next@ == (InvocationView {
                goal: goal@,
                stage: StageView::WriteSource,
                program: program@,
            }).failed(failure@),
    {
        Invocation {
            goal,
            stage: Stage::Finished { result: Err(CProbeError::IoError(failure)) },
            program,
        }
    }

    /// Moves the invocation on by one event: the outcome of the action
    /// that was pending.
    pub fn step(self, event: Event) -> (next: Invocation)
        ensures
            next@ == self@.next(event@),
    {
        proof {
            use_type_invariant(&self);
        }
        let Invocation { goal, stage, program } = self;
        match stage {
            Stage::WriteSource => match event {
                Event::File(Ok(_)) => Invocation { goal, stage: Stage::Compile, program },
                Event::File(Err(failure)) => Invocation::fail(goal, program, failure),
                _ => Invocation { goal, stage: Stage::WriteSource, program },
            },
            Stage::Compile => match event {
                Event::Command(Ok(compile_output)) => Invocation {
                    goal,
                    stage: Stage::RemoveSource { compile_output },
                    program,
                },
                Event::Command(Err(failure)) => Invocation::fail(goal, program, failure),
                _ => Invocation { goal, stage: Stage::Compile, program },
            },
            Stage::RemoveSource { compile_output } => match event {
                Event::File(Ok(_)) => {
                    let only_compile = match &goal {
                        Goal::Compile => true,
                        _ => false,
                    };
                    if only_compile {
                        Invocation {
                            goal,
                            stage: Stage::RemoveExecutable { compile_output, run_output: None },
                            program,
                        }
                    } else if compile_output.status.success() {
                        Invocation { goal, stage: Stage::Run { compile_output }, program }
                    } else {
                        Invocation::conclude(
                            goal,
                            program,
                            CompileRunOutput { compile_output, run_output: None },
                        )
                    }
                },
                Event::File(Err(failure)) => Invocation::fail(goal, program, failure),
                _ => Invocation { goal, stage: Stage::RemoveSource { compile_output }, program },
            },
            Stage::Run { compile_output } => match event {
                Event::Command(Ok(run_output)) => Invocation {
                    goal,
                    stage: Stage::RemoveExecutable { compile_output, run_output: Some(run_output) },
                    program,
                },
                Event::Command(Err(failure)) => Invocation::fail(goal, program, failure),
                _ => Invocation { goal, stage: Stage::Run { compile_output }, program },
            },
            Stage::RemoveExecutable { compile_output, run_output } => match event {
                Event::File(Ok(_)) => Invocation::conclude(
                    goal,
                    program,
                    CompileRunOutput { compile_output, run_output },
                ),
                Event::File(Err(failure)) => {
                    let only_compile = match &goal {
                        Goal::Compile => true,
                        _ => false,
                    };
                    let missing = match failure.kind {
                        IoFailureKind::NotFound => true,
                        _ => false,
                    };
                    if only_compile && missing {
                        Invocation::conclude(
                            goal,
                            program,
                            CompileRunOutput { compile_output, run_output },
                        )
                    } else {
                        Invocation::fail(goal, program, failure)
                    }
                },
                _ => Invocation {
                    goal,
                    stage: Stage::RemoveExecutable { compile_output, run_output },
                    program,
                },
            },
            Stage::Finished { result } => Invocation {
                goal,
                stage: Stage::Finished { result },
                program,
            },
        }
    }
}

} // verus!
