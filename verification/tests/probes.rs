use std::collections::BTreeMap;

use probe_c_api::{
    Action, Answer, CProbeError, CProbeResult, CommandOutput, CommandResult, CompileRunOutput,
    Event, ExitStatus, Invocation, IoFailure, IoFailureKind, Metadata, NewProbeError, Probe,
    RustInteger,
};

/// What the toy compiler made of a program: what it prints and how it exits.
struct Built {
    stdout: String,
    code: i32,
}

/// A host that keeps its files in memory and stands in for a C toolchain
/// on the few programs that the probes write.
struct Host {
    include_path: bool,
    sources: BTreeMap<String, String>,
    executables: BTreeMap<String, Built>,
    removed: Vec<String>,
}

fn known_type(name: &str, headers: &[String]) -> Option<(usize, usize, bool)> {
    let has = |h: &str| headers.iter().any(|x| x == h);
    match name {
        "char" => Some((1, 1, true)),
        "signed char" => Some((1, 1, true)),
        "unsigned char" => Some((1, 1, false)),
        "short" => Some((2, 2, true)),
        "int" => Some((4, 4, true)),
        "unsigned" => Some((4, 4, false)),
        "long long" => Some((8, 8, true)),
        "int32_t" if has("<inttypes.h>") => Some((4, 4, true)),
        "alias_signed_8_bit" if has("\"tests/test_types.h\"") => Some((1, 1, true)),
        "alias_signed_16_bit" if has("\"tests/test_types.h\"") => Some((2, 2, true)),
        "alias_signed_32_bit" if has("\"tests/test_types.h\"") => Some((4, 4, true)),
        "alias_signed_64_bit" if has("\"tests/test_types.h\"") => Some((8, 8, true)),
        "alias_unsigned_8_bit" if has("\"tests/test_types.h\"") => Some((1, 1, false)),
        "alias_unsigned_16_bit" if has("\"tests/test_types.h\"") => Some((2, 2, false)),
        "alias_unsigned_32_bit" if has("\"tests/test_types.h\"") => Some((4, 4, false)),
        "alias_unsigned_64_bit" if has("\"tests/test_types.h\"") => Some((8, 8, false)),
        "three_bytes" if has("\"tests/test_types.h\"") => Some((3, 1, false)),
        _ => None,
    }
}

fn known_constant(name: &str, headers: &[String]) -> Option<i64> {
    let has = |h: &str| headers.iter().any(|x| x == h);
    match name {
        "negative_one" | "NEGATIVE_ONE" if has("\"tests/test_constants.h\"") => Some(-1),
        "0" => Some(0),
        _ => None,
    }
}

fn defined_macro(name: &str, headers: &[String]) -> bool {
    name == "__STDC__"
        || (name == "NEGATIVE_ONE" && headers.iter().any(|x| x == "\"tests/test_constants.h\""))
}

fn between<'a>(line: &'a str, before: &str, after: &str) -> Option<&'a str> {
    line.strip_prefix(before)?.strip_suffix(after)
}

fn toy_cc(text: &str, include_path: bool) -> Result<Built, String> {
    let mut headers: Vec<String> = Vec::new();
    for line in text.lines() {
        if let Some(header) = line.strip_prefix("#include ") {
            let known = match header {
                "<stdio.h>" | "<stdalign.h>" | "<inttypes.h>" => true,
                "\"tests/test_types.h\"" | "\"tests/test_constants.h\"" => include_path,
                _ => false,
            };
            if !known {
                return Err(format!("fatal error: {}: No such file or directory", header));
            }
            headers.push(header.to_string());
        }
    }
    let main = text.find("int main(").ok_or("error: expected a definition of main")?;
    let open = main + text[main..].find('{').ok_or("error: expected '{'")?;
    let close = text.rfind('}').ok_or("error: expected '}'")?;
    if close <= open {
        return Err("error: expected '}'".to_string());
    }
    let body = &text[open + 1..close];
    let mut active: Vec<bool> = Vec::new();
    let mut stdout = String::new();
    let mut code: Option<i32> = None;
    for raw in body.lines() {
        let line = raw.trim();
        let live = active.iter().all(|a| *a) && code.is_none();
        if line.is_empty() {
            continue;
        } else if let Some(token) = line.strip_prefix("#ifdef ") {
            active.push(defined_macro(token, &headers));
        } else if line == "#else" || line == "} else {" {
            let top = active.pop().ok_or("error: unbalanced else")?;
            active.push(!top);
        } else if line == "#endif" || line == "}" {
            active.pop().ok_or("error: unbalanced end")?;
        } else if let Some(type_) = between(line, "if (((", ")-1) < 0) {") {
            let (_, _, signed) = known_type(type_, &headers)
                .ok_or(format!("error: unknown type name '{}'", type_))?;
            active.push(signed);
        } else if let Some(type_) = between(line, "printf(\"%zd\\n\", sizeof(", "));") {
            let (size, _, _) = known_type(type_, &headers)
                .ok_or(format!("error: unknown type name '{}'", type_))?;
            if live {
                stdout.push_str(&format!("{}\n", size));
            }
        } else if let Some(type_) = between(line, "printf(\"%zd\\n\", alignof(", "));") {
            if !headers.iter().any(|h| h == "<stdalign.h>") {
                return Err("error: implicit declaration of function 'alignof'".to_string());
            }
            let (_, align, _) = known_type(type_, &headers)
                .ok_or(format!("error: unknown type name '{}'", type_))?;
            if live {
                stdout.push_str(&format!("{}\n", align));
            }
        } else if let Some(name) = between(line, "printf(\"%lld\\n\", (long long)(", "));") {
            let value = known_constant(name, &headers)
                .ok_or(format!("error: '{}' undeclared", name))?;
            if live {
                stdout.push_str(&format!("{}\n", value));
            }
        } else if let Some(literal) = between(line, "printf(\"", "\");") {
            if live {
                stdout.push_str(literal);
            }
        } else if let Some(value) = between(line, "return ", ";") {
            let value: i32 = value.parse().map_err(|_| "error: expected expression")?;
            if live {
                code = Some(value);
            }
        } else {
            return Err(format!("error: expected expression before '{}'", line));
        }
    }
    if !active.is_empty() {
        return Err("error: expected '}' at end of input".to_string());
    }
    Ok(Built { stdout, code: code.unwrap_or(0) })
}

impl Host {
    fn new() -> Host {
        Host {
            include_path: false,
            sources: BTreeMap::new(),
            executables: BTreeMap::new(),
            removed: Vec::new(),
        }
    }

    fn with_include_path() -> Host {
        Host { include_path: true, ..Host::new() }
    }

    fn compile(&mut self, source: &str, executable: &str) -> CommandResult {
        let made = match self.sources.get(source) {
            Some(text) => toy_cc(text, self.include_path),
            None => Err(format!("fatal error: {}: No such file or directory", source)),
        };
        Ok(match made {
            Ok(built) => {
                self.executables.insert(executable.to_string(), built);
                CommandOutput { status: ExitStatus::from_code(0), stdout: vec![], stderr: vec![] }
            }
            Err(message) => CommandOutput {
                status: ExitStatus::from_code(1),
                stdout: vec![],
                stderr: message.into_bytes(),
            },
        })
    }

    fn run(&mut self, executable: &str) -> CommandResult {
        match self.executables.get(executable) {
            Some(built) => Ok(CommandOutput {
                status: ExitStatus::from_code(built.code),
                stdout: built.stdout.clone().into_bytes(),
                stderr: vec![],
            }),
            None => Err(IoFailure::new(IoFailureKind::NotFound, "No such file or directory")),
        }
    }

    fn remove(&mut self, name: &str) -> Result<(), IoFailure> {
        if self.sources.remove(name).is_some() || self.executables.remove(name).is_some() {
            self.removed.push(name.to_string());
            Ok(())
        } else {
            Err(IoFailure::new(IoFailureKind::NotFound, "No such file or directory"))
        }
    }

    fn drive(&mut self, mut invocation: Invocation) -> CProbeResult<Answer> {
        loop {
            let event = match invocation.action() {
                Action::WriteSource { name, text } => {
                    self.sources.insert(name, text);
                    Event::File(Ok(()))
                }
                Action::Compile { source, executable } => {
                    Event::Command(self.compile(&source, &executable))
                }
                Action::RemoveFile { name } => Event::File(self.remove(&name)),
                Action::Run { executable } => Event::Command(self.run(&executable)),
                Action::Done => return invocation.finish().unwrap(),
            };
            assert!(invocation.awaits(&event));
            invocation = invocation.step(event);
        }
    }

    fn is_clean(&self) -> bool {
        self.sources.is_empty() && self.executables.is_empty()
    }
}

fn default_probe() -> Probe {
    Probe::new(vec![], "/tmp", Ok(Metadata { is_dir: true })).unwrap()
}

fn compiled(answer: CProbeResult<Answer>) -> CommandOutput {
    match answer {
        Ok(Answer::Compiled(output)) => output,
        other => panic!("no compiler output: {:?}", other),
    }
}

fn ran(answer: CProbeResult<Answer>) -> CompileRunOutput {
    match answer {
        Ok(Answer::Ran(output)) => output,
        other => panic!("no outputs: {:?}", other),
    }
}

fn unsigned(answer: CProbeResult<Answer>) -> CProbeResult<usize> {
    match answer {
        Ok(Answer::Unsigned(value)) => Ok(value),
        Err(error) => Err(error),
        other => panic!("no unsigned integer: {:?}", other),
    }
}

fn boolean(answer: CProbeResult<Answer>) -> CProbeResult<bool> {
    match answer {
        Ok(Answer::Boolean(value)) => Ok(value),
        Err(error) => Err(error),
        other => panic!("no boolean: {:?}", other),
    }
}

fn signed(answer: CProbeResult<Answer>) -> CProbeResult<i64> {
    match answer {
        Ok(Answer::Signed(value)) => Ok(value),
        Err(error) => Err(error),
        other => panic!("no signed integer: {:?}", other),
    }
}

fn integer(answer: CProbeResult<Answer>) -> CProbeResult<Option<String>> {
    match answer {
        Ok(Answer::Integer(found)) => Ok(found.map(|i| i.name().to_string())),
        Err(error) => Err(error),
        other => panic!("no integer type: {:?}", other),
    }
}

#[test]
fn align_of_alignof_char() {
    let probe = default_probe();
    let mut host = Host::new();
    let char_align = unsigned(host.drive(probe.align_of("char"))).unwrap();
    assert_eq!(1, char_align);
}

#[test]
fn check_alignof_alignof_char() {
    let probe = default_probe();
    let mut host = Host::new();
    let char_align = unsigned(host.drive(probe.align_of("char"))).unwrap();
    assert_eq!(1, char_align);
    assert!(host.is_clean());
}

#[test]
fn check_compile_check_compile_pass() {
    let probe = default_probe();
    let mut host = Host::new();
    assert!(compiled(host.drive(probe.check_compile("int main() { return 0; }")))
        .status
        .success());
}

#[test]
fn check_compile_check_compile_fail() {
    let probe = default_probe();
    let mut host = Host::new();
    assert!(!compiled(host.drive(probe.check_compile("ain't it a C progarm, bub!")))
        .status
        .success());
}

#[test]
fn check_sizeof_sizeof_char() {
    let probe = default_probe();
    let mut host = Host::new();
    let char_size = unsigned(host.drive(probe.size_of("char"))).unwrap();
    assert_eq!(1, char_size);
}

#[test]
fn check_run_pass() {
    let probe = default_probe();
    let mut host = Host::new();
    assert!(ran(host.drive(probe.check_run("int main() { return 0; }")))
        .run_output
        .unwrap()
        .status
        .success());
}

#[test]
fn check_run_fail() {
    let probe = default_probe();
    let mut host = Host::new();
    assert!(!ran(host.drive(probe.check_run("int main() { return 1; }")))
        .run_output
        .unwrap()
        .status
        .success());
}

#[test]
fn check_run_compile_fail() {
    let probe = default_probe();
    let mut host = Host::new();
    let compile_run_output = ran(host.drive(probe.check_run("I don't think this is a C program.")));
    assert!(!compile_run_output.compile_output.status.success());
    assert!(compile_run_output.run_output.is_none());
}

#[test]
fn check_equivalent_rust_integer() {
    let probe =
        Probe::new(vec!["\"tests/test_types.h\"".into()], "/tmp", Ok(Metadata { is_dir: true }))
            .unwrap();
    let mut host = Host::with_include_path();
    for size in &["8", "16", "32", "64"] {
        assert_eq!(
            format!("i{}", size),
            integer(host.drive(
                probe.equivalent_rust_integer(&format!("alias_signed_{}_bit", size))
            ))
            .unwrap()
            .unwrap()
        );
        assert_eq!(
            format!("u{}", size),
            integer(host.drive(
                probe.equivalent_rust_integer(&format!("alias_unsigned_{}_bit", size))
            ))
            .unwrap()
            .unwrap()
        );
    }
    assert!(host.is_clean());
}

#[test]
fn signed_integer_constant() {
    let probe = Probe::new(
        vec!["\"tests/test_constants.h\"".into()],
        "/tmp",
        Ok(Metadata { is_dir: true }),
    )
    .unwrap();
    let mut host = Host::with_include_path();
    assert_eq!(-1, signed(host.drive(probe.signed_integer_constant("negative_one"))).unwrap());
    assert_eq!(-1, signed(host.drive(probe.signed_integer_constant("NEGATIVE_ONE"))).unwrap());
}

#[test]
fn check_macro_definition() {
    let probe = default_probe();
    let mut host = Host::new();
    assert!(boolean(host.drive(probe.is_defined_macro("__STDC__"))).unwrap());
    assert!(!boolean(host.drive(probe.is_defined_macro("THISSHOULDNTBEDEFINED"))).unwrap());
}

#[test]
fn signedness_of_char_types() {
    let probe = default_probe();
    let mut host = Host::new();
    assert!(!boolean(host.drive(probe.is_signed("unsigned char"))).unwrap());
    assert!(boolean(host.drive(probe.is_signed("signed char"))).unwrap());
    let first = boolean(host.drive(probe.is_signed("char"))).unwrap();
    let second = boolean(host.drive(probe.is_signed("char"))).unwrap();
    assert_eq!(first, second);
}

#[test]
fn new_probe_new_probe_checks_directory() {
    let file_path = "/tmp/foo.txt";
    let new_probe_result = Probe::new(vec![], file_path, Ok(Metadata { is_dir: false }));
    assert!(match new_probe_result {
        Err(NewProbeError::WorkDirNotADirectory(..)) => true,
        _ => false,
    });
}

#[test]
fn new_probe_new_probe_errors_on_inaccessible_metadata() {
    let fake_path = "/tmp/not_a_real_directory";
    let new_probe_result = Probe::new(
        vec![],
        fake_path,
        Err(IoFailure::new(IoFailureKind::NotFound, "No such file or directory")),
    );
    assert!(match new_probe_result {
        Err(NewProbeError::WorkDirMetadataInaccessible(..)) => true,
        _ => false,
    });
}

#[test]
fn new_new_probe_checks_directory() {
    let file_path = "/tmp/foo.txt";
    let new_probe_result = Probe::new(vec![], file_path, Ok(Metadata { is_dir: false }));
    match new_probe_result {
        Err(NewProbeError::WorkDirNotADirectory(path)) => assert_eq!(file_path, path),
        other => panic!("unexpected: {:?}", other),
    }
}

#[test]
fn new_new_probe_errors_on_inaccessible_metadata() {
    let fake_path = "/tmp/not_a_real_directory";
    let failure = IoFailure::new(IoFailureKind::PermissionDenied, "Permission denied");
    let new_probe_result = Probe::new(vec![], fake_path, Err(failure.clone()));
    match new_probe_result {
        Err(NewProbeError::WorkDirMetadataInaccessible(inner)) => assert_eq!(failure, inner),
        other => panic!("unexpected: {:?}", other),
    }
}

#[test]
fn size_of_sizeof_char() {
    let probe = default_probe();
    let mut host = Host::new();
    let char_size = unsigned(host.drive(probe.size_of("char"))).unwrap();
    assert_eq!(1, char_size);
    assert!(host.is_clean());
}

#[test]
fn sizeof_compilation_error() {
    let probe = default_probe();
    let mut host = Host::new();
    let error = unsigned(host.drive(probe.size_of("><"))).unwrap_err();
    assert!(match error {
        CProbeError::CompileError(..) => true,
        _ => false,
    });
}

#[test]
fn sizeof_type_in_header() {
    let probe =
        Probe::new(vec!["<inttypes.h>".to_string()], "/tmp", Ok(Metadata { is_dir: true }))
            .unwrap();
    let mut host = Host::new();
    let i32_size = unsigned(host.drive(probe.size_of("int32_t"))).unwrap();
    assert_eq!(4, i32_size);
    let plain = default_probe();
    assert!(unsigned(host.drive(plain.size_of("int32_t"))).is_err());
}

#[test]
fn try_compile_pass_try_compile_pass() {
    let probe = default_probe();
    let mut host = Host::new();
    let output = compiled(host.drive(probe.check_compile("int main() { return 0; }")));
    assert!(output.status.success(), "{:?}", output);
}

#[test]
fn try_compile_try_compile_pass() {
    let probe = default_probe();
    let mut host = Host::new();
    assert!(compiled(host.drive(probe.check_compile("int main() { return 0; }")))
        .status
        .success());
    assert!(host.is_clean());
}

#[test]
fn try_compile_fail() {
    let probe = default_probe();
    let mut host = Host::new();
    assert!(!compiled(host.drive(probe.check_compile("ain't it a C progarm, bub!")))
        .status
        .success());
    assert!(host.is_clean());
}

#[test]
fn a_size_of_no_fixed_width_type_has_no_equivalent() {
    let probe =
        Probe::new(vec!["\"tests/test_types.h\"".into()], "/tmp", Ok(Metadata { is_dir: true }))
            .unwrap();
    let mut host = Host::with_include_path();
    assert_eq!(None, integer(host.drive(probe.equivalent_rust_integer("three_bytes"))).unwrap());
    assert_eq!(Some(RustInteger::I32.name().to_string()), Some("i32".to_string()));
}

#[test]
fn an_unknown_type_ends_the_integer_question_at_its_first_half() {
    let probe = default_probe();
    let mut host = Host::new();
    let error = integer(host.drive(probe.equivalent_rust_integer("no_such_type"))).unwrap_err();
    assert!(matches!(error, CProbeError::CompileError(..)));
    assert_eq!(1, host.removed.len());
    assert!(host.is_clean());
}

#[test]
fn the_same_question_asked_twice_has_the_same_answer() {
    let probe = default_probe();
    let mut host = Host::new();
    let first = probe.size_of("long long");
    let second = probe.size_of("long long");
    assert_ne!(first.action(), second.action());
    assert_eq!(unsigned(host.drive(first)).unwrap(), unsigned(host.drive(second)).unwrap());
}
