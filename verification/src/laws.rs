//! What holds of every probe invocation, whatever the compiler and the
//! program do.

use crate::decode::{bool_from_output, signed_from_output, unsigned_from_output};
use crate::error::CProbeErrorView;
use crate::output::{lossy_text, CommandOutputView, CompileRunOutputView};
use crate::pipeline::{
    ActionView, AnswerView, EventView, GoalView, InvocationView, ResultView, StageView,
};
use crate::probe::ProbeView;
use crate::text::{all_whitespace, bool_literal, decimal, signed_decimal};
use vstd::prelude::*;
use vstd::utf8::*;

verus! {

/// The invocation `invocation` after the events `events`, in order.
pub open spec fn after(invocation: InvocationView, events: Seq<EventView>) -> InvocationView
    decreases events.len(),
{
    if events.len() == 0 {
        invocation
    } else {
        after(invocation, events.drop_last()).next(events.last())
    }
}

/// What an invocation with the output `output` of a program that was
/// compiled and perhaps run answers to `goal`, if the goal is one that a
/// single program answers.
pub open spec fn decoded(goal: GoalView, output: CompileRunOutputView) -> ResultView {
    match goal {
        GoalView::Unsigned => match unsigned_from_output(output) {
            Ok(value) => Ok(AnswerView::Unsigned(value)),
            Err(error) => Err(error),
        },
        GoalView::Boolean => match bool_from_output(output) {
            Ok(value) => Ok(AnswerView::Boolean(value)),
            Err(error) => Err(error),
        },
        GoalView::Signed => match signed_from_output(output) {
            Ok(value) => Ok(AnswerView::Signed(value)),
            Err(error) => Err(error),
        },
        _ => Ok(AnswerView::Ran(output)),
    }
}

/// Tells whether a single program answers `goal` by being compiled and
/// run.
pub open spec fn single_run(goal: GoalView) -> bool {
    goal is Run || goal is Unsigned || goal is Boolean || goal is Signed
}

/// An invocation that has done nothing yet is consistent.
pub proof fn lemma_start_consistent(invocation: InvocationView)
    requires
        invocation.stage is WriteSource,
    ensures
        invocation.consistent(),
{
}

/// No event makes a consistent invocation inconsistent. So wherever an
/// invocation stands, a program is run only after it compiled, and the
/// outputs of a program that was compiled and run include a run exactly
/// when the compilation succeeded.
pub proof fn lemma_next_consistent(invocation: InvocationView, event: EventView)
    requires
        invocation.consistent(),
    ensures
        invocation.next(event).consistent(),
{
}

/// A finished invocation stays as it is, whatever is reported to it.
pub proof fn lemma_finished_is_final(invocation: InvocationView, event: EventView)
    requires
        invocation.result() is Some,
    ensures
        invocation.next(event) == invocation,
{
}

/// How many events an invocation can still take before it is finished, at
/// most.
pub open spec fn steps_left(invocation: InvocationView) -> nat {
    let here: nat = match invocation.stage {
        StageView::WriteSource => 5,
        StageView::Compile => 4,
        StageView::RemoveSource { .. } => 3,
        StageView::Run { .. } => 2,
        StageView::RemoveExecutable { .. } => 1,
        StageView::Finished { .. } => 0,
    };
    if invocation.goal is IntegerSize && !(invocation.stage is Finished) {
        here + 5
    } else {
        here
    }
}

/// Every event that reports on the pending action brings the invocation
/// nearer to its end, so an invocation whose actions are carried out is
/// finished after ten events at most, and after five if it has one
/// program. An invocation waits for an event exactly while it is not
/// finished.
pub proof fn lemma_progress(invocation: InvocationView, event: EventView)
    requires
        invocation.awaits(event),
    ensures
        steps_left(invocation.next(event)) < steps_left(invocation),
        steps_left(invocation) <= 10,
        !(invocation.goal is IntegerSize) ==> steps_left(invocation) <= 5,
{
}

/// An invocation is finished exactly when nothing is left to do, and until
/// then it waits for the outcome of its pending action.
pub proof fn lemma_done_when_finished(invocation: InvocationView)
    ensures
        invocation.action() is Done <==> invocation.result() is Some,
        invocation.result() is Some <==> steps_left(invocation) == 0,
        invocation.action() is WriteSource || invocation.action() is RemoveFile
            ==> invocation.awaits(EventView::File(Ok(()))),
        invocation.action() is Compile || invocation.action() is Run ==> forall|
            outcome: Result<CommandOutputView, crate::error::IoFailureView>,
        | invocation.awaits(EventView::Command(outcome)),
{
}

/// An invocation touches no files but its own: it writes and removes the
/// source file of its program, has that file compiled into the executable
/// of its program, and runs and removes that executable.
pub proof fn lemma_own_files_only(invocation: InvocationView)
    ensures
        match invocation.action() {
            ActionView::WriteSource { name, text } => {
                name == invocation.program.names.source && text == invocation.program.source
            },
            ActionView::Compile { source, executable } => {
                source == invocation.program.names.source && executable
                    == invocation.program.names.executable
            },
            ActionView::RemoveFile { name } => {
                name == invocation.program.names.source || name
                    == invocation.program.names.executable
            },
            ActionView::Run { executable } => executable == invocation.program.names.executable,
            ActionView::Done => true,
        },
{
}

/// When the compiler ran but failed, the program is not run: once the
/// source file is removed the invocation is finished. An invocation that
/// was to compile and run then holds the compiler's output, which is no
/// success, and no run; one that was to decode a value ends with a compile
/// error that holds the compiler's output.
pub proof fn lemma_compile_failure(
    invocation: InvocationView,
    compile_output: CommandOutputView,
)
    requires
        invocation.stage is Compile,
        single_run(invocation.goal),
        !compile_output.status.succeeded(),
    ensures
        ({
            let output = CompileRunOutputView { compile_output, run_output: None };
            let end = invocation.next(EventView::Command(Ok(compile_output))).next(
                EventView::File(Ok(())),
            );
            &&& output.wf()
            &&& invocation.goal is Run ==> end.result() == Some(
                Ok::<AnswerView, CProbeErrorView>(AnswerView::Ran(output)),
            )
            &&& !(invocation.goal is Run) ==> end.result() == Some(
                Err::<AnswerView, CProbeErrorView>(CProbeErrorView::CompileError(compile_output)),
            )
        }),
{
}

/// When the compiler succeeded, the program is run, and once both scratch
/// files are removed the invocation is finished with what the two outputs
/// mean for its goal.
pub proof fn lemma_compile_success(
    invocation: InvocationView,
    compile_output: CommandOutputView,
    run_output: CommandOutputView,
)
    requires
        invocation.stage is Compile,
        single_run(invocation.goal),
        compile_output.status.succeeded(),
    ensures
        ({
            let output = CompileRunOutputView { compile_output, run_output: Some(run_output) };
            let compiled = invocation.next(EventView::Command(Ok(compile_output))).next(
                EventView::File(Ok(())),
            );
            let end = compiled.next(EventView::Command(Ok(run_output))).next(
                EventView::File(Ok(())),
            );
            &&& compiled.stage == StageView::Run { compile_output }
            &&& output.wf()
            &&& end.result() == Some(decoded(invocation.goal, output))
        }),
{
}

/// A program that compiled but did not exit with success gives a run
/// error that holds both outputs, whatever it printed.
pub proof fn lemma_run_failure(goal: GoalView, output: CompileRunOutputView)
    requires
        goal is Unsigned || goal is Boolean || goal is Signed,
        output.run_output matches Some(run_output) && !run_output.status.succeeded(),
    ensures
        decoded(goal, output) == Err::<AnswerView, CProbeErrorView>(
            CProbeErrorView::RunError(output.compile_output, output.run_output->0),
        ),
{
}

/// A program that compiled and exited with success is decoded: the answer
/// is what its standard output means as text, and never a compile or run
/// error.
pub proof fn lemma_run_success(goal: GoalView, output: CompileRunOutputView)
    requires
        output.run_output matches Some(run_output) && run_output.status.succeeded(),
    ensures
        ({
            let text = lossy_text(output.run_output->0.stdout);
            &&& output.successful_run_output() == Ok::<Seq<char>, CProbeErrorView>(text)
            &&& goal is Unsigned ==> unsigned_from_output(output)
                == crate::decode::unsigned_from_text(text)
            &&& goal is Boolean ==> bool_from_output(output) == crate::decode::bool_from_text(text)
            &&& goal is Signed ==> signed_from_output(output) == crate::decode::signed_from_text(
                text,
            )
            &&& !(decoded(goal, output) matches Err(CProbeErrorView::CompileError(_)))
            &&& !(decoded(goal, output) matches Err(CProbeErrorView::RunError(_, _)))
            &&& !(decoded(goal, output) matches Err(CProbeErrorView::IoError(_)))
        }),
{
}

/// Text that was encoded as UTF-8 is read back as it was.
pub proof fn lemma_encoded_text_is_read(text: Seq<char>)
    ensures
        lossy_text(encode_utf8(text)) == text,
{
    encode_utf8_valid_utf8(text);
    encode_utf8_decode_utf8(text);
}

/// An unsigned integer that a program prints in decimal, with any white
/// space around it, is decoded to the same integer.
pub proof fn lemma_printed_unsigned_is_decoded(
    output: CompileRunOutputView,
    value: usize,
    before: Seq<char>,
    after: Seq<char>,
)
    requires
        output.run_output matches Some(run_output) && run_output.status.succeeded()
            && run_output.stdout == encode_utf8(before + decimal(value as nat) + after),
        all_whitespace(before),
        all_whitespace(after),
    ensures
        unsigned_from_output(output) == Ok::<usize, CProbeErrorView>(value),
{
    lemma_encoded_text_is_read(before + decimal(value as nat) + after);
    crate::text::lemma_unsigned_text_round_trip(value, before, after);
}

/// A signed integer that a program prints in decimal, with any white space
/// around it, is decoded to the same integer.
pub proof fn lemma_printed_signed_is_decoded(
    output: CompileRunOutputView,
    value: i64,
    before: Seq<char>,
    after: Seq<char>,
)
    requires
        output.run_output matches Some(run_output) && run_output.status.succeeded()
            && run_output.stdout == encode_utf8(before + signed_decimal(value as int) + after),
        all_whitespace(before),
        all_whitespace(after),
    ensures
        signed_from_output(output) == Ok::<i64, CProbeErrorView>(value),
{
    lemma_encoded_text_is_read(before + signed_decimal(value as int) + after);
    crate::text::lemma_signed_text_round_trip(value, before, after);
}

/// A boolean that a program prints as `true` or `false`, with any white
/// space around it, is decoded to the same boolean.
pub proof fn lemma_printed_bool_is_decoded(
    output: CompileRunOutputView,
    value: bool,
    before: Seq<char>,
    after: Seq<char>,
)
    requires
        output.run_output matches Some(run_output) && run_output.status.succeeded()
            && run_output.stdout == encode_utf8(before + bool_literal(value) + after),
        all_whitespace(before),
        all_whitespace(after),
    ensures
        bool_from_output(output) == Ok::<bool, CProbeErrorView>(value),
{
    lemma_encoded_text_is_read(before + bool_literal(value) + after);
    crate::text::lemma_bool_text_round_trip(value, before, after);
}

/// The question in two halves asks for the size first. If that half gives
/// an error, the invocation ends with it and the second program is never
/// written. If it gives a size, the invocation begins anew with the second
/// program, and ends with the fixed-width type of that size and of the
/// signedness that the second half gives, or with the error of the second
/// half.
pub proof fn lemma_integer_halves(
    invocation: InvocationView,
    size_output: CompileRunOutputView,
    sign_output: CompileRunOutputView,
)
    requires
        invocation.goal is IntegerSize,
    ensures
        match unsigned_from_output(size_output) {
            Err(error) => invocation.conclude(size_output).result() == Some(
                Err::<AnswerView, CProbeErrorView>(error),
            ),
            Ok(size) => {
                let second = invocation.conclude(size_output);
                &&& second == InvocationView::start(
                    GoalView::IntegerSign { size },
                    invocation.goal->then,
                )
                &&& second.conclude(sign_output).result() == Some(
                    match bool_from_output(sign_output) {
                        Ok(signed) => Ok(
                            AnswerView::Integer(
                                crate::integer::equivalent_integer(size, signed),
                            ),
                        ),
                        Err(error) => Err(error),
                    },
                )
            },
        },
{
}

/// Tells whether two goals differ at most in the names of scratch files.
pub open spec fn same_goal(a: GoalView, b: GoalView) -> bool {
    match (a, b) {
        (GoalView::IntegerSize { then: first }, GoalView::IntegerSize { then: second }) => {
            first.source == second.source
        },
        _ => a == b,
    }
}

/// Tells whether two invocations differ at most in the names of their
/// scratch files: they ask the same question with the same programs and
/// stand at the same stage.
pub open spec fn same_question(a: InvocationView, b: InvocationView) -> bool {
    &&& same_goal(a.goal, b.goal)
    &&& a.stage == b.stage
    &&& a.program.source == b.program.source
}

/// Invocations that differ only in the names of their scratch files still
/// differ only in those after the same event.
pub proof fn lemma_next_ignores_names(a: InvocationView, b: InvocationView, event: EventView)
    requires
        same_question(a, b),
    ensures
        same_question(a.next(event), b.next(event)),
{
}

/// The result of an invocation does not depend on the names of its
/// scratch files: two invocations that ask the same question and are told
/// the same of the compiler and of the program end with the same result.
pub proof fn lemma_result_ignores_names(
    a: InvocationView,
    b: InvocationView,
    events: Seq<EventView>,
)
    requires
        same_question(a, b),
    ensures
        same_question(after(a, events), after(b, events)),
        after(a, events).result() == after(b, events).result(),
    decreases events.len(),
{
    if events.len() > 0 {
        lemma_result_ignores_names(a, b, events.drop_last());
        lemma_next_ignores_names(
            after(a, events.drop_last()),
            after(b, events.drop_last()),
            events.last(),
        );
    }
}

/// Asking a probe the same question twice gives the same result if the
/// compiler and the program behave the same, whichever numbers were drawn
/// for the scratch files.
pub proof fn lemma_probe_is_deterministic(
    probe: ProbeView,
    goal: GoalView,
    source: Seq<char>,
    first: u64,
    second: u64,
    events: Seq<EventView>,
)
    ensures
        after(probe.invocation(goal, source, first), events).result() == after(
            probe.invocation(goal, source, second),
            events,
        ).result(),
{
    lemma_result_ignores_names(
        probe.invocation(goal, source, first),
        probe.invocation(goal, source, second),
        events,
    );
}

/// The same holds of the question in two halves, which draws two numbers.
pub proof fn lemma_integer_probe_is_deterministic(
    probe: ProbeView,
    type_: Seq<char>,
    first: (u64, u64),
    second: (u64, u64),
    events: Seq<EventView>,
)
    ensures
        after(probe.integer_invocation(type_, first.0, first.1), events).result() == after(
            probe.integer_invocation(type_, second.0, second.1),
            events,
        ).result(),
{
    lemma_result_ignores_names(
        probe.integer_invocation(type_, first.0, first.1),
        probe.integer_invocation(type_, second.0, second.1),
        events,
    );
}

} // verus!
