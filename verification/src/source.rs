//! Synthesis of probe programs.
//!
//! A probe program is a complete C program in one file: the directives that
//! bring in the headers, then a `main` function around a body that prints
//! one result and returns an exit code. The body is taken as it is: this is
//! a template for well-formed snippets, not a boundary against hostile ones.

use vstd::prelude::*;

verus! {

/// The directive that brings in `header`. The header carries its own
/// delimiters, angle brackets or double quotes.
pub open spec fn directive(header: Seq<char>) -> Seq<char> {
    "#include "@ + header + "\n"@
}

/// The directives for `headers`, one per line, in order.
pub open spec fn directives(headers: Seq<Seq<char>>) -> Seq<char>
    decreases headers.len(),
{
    if headers.len() == 0 {
        Seq::empty()
    } else {
        directives(headers.drop_last()) + directive(headers.last())
    }
}

/// The program that brings in the probe's headers, then those of the call,
/// and wraps `body` in `main`.
pub open spec fn program(
    probe_headers: Seq<Seq<char>>,
    call_headers: Seq<Seq<char>>,
    body: Seq<char>,
) -> Seq<char> {
    directives(probe_headers) + directives(call_headers) + "\nint main(int argc, char **argv) {\n"@
        + body + "\n}\n"@
}

/// The texts of owned strings.
pub open spec fn texts_of_strings(strings: Seq<String>) -> Seq<Seq<char>> {
    strings.map_values(|s: String| s@)
}

/// The texts of string slices.
pub open spec fn texts_of_strs(strs: Seq<&str>) -> Seq<Seq<char>> {
    strs.map_values(|s: &str| s@)
}

/// The body that prints the size of `type_` in bytes.
pub open spec fn size_of_body(type_: Seq<char>) -> Seq<char> {
    "printf(\"%zd\\n\", sizeof("@ + type_ + "));\nreturn 0;"@
}

/// The body that prints the alignment of `type_` in bytes.
pub open spec fn align_of_body(type_: Seq<char>) -> Seq<char> {
    "printf(\"%zd\\n\", alignof("@ + type_ + "));\nreturn 0;"@
}

/// The body that prints whether the macro `token` is defined.
pub open spec fn is_defined_macro_body(token: Seq<char>) -> Seq<char> {
    "#ifdef "@ + token + "\nprintf(\"true\");\n#else\nprintf(\"false\");\n#endif\nreturn 0;"@
}

/// The body that prints whether the integer type `type_` is signed: whether
/// one less than its zero is negative.
pub open spec fn is_signed_body(type_: Seq<char>) -> Seq<char> {
    "if ((("@ + type_
        + ")-1) < 0) {\nprintf(\"true\");\n} else {\nprintf(\"false\");\n}\nreturn 0;"@
}

/// The body that prints the value of the constant or macro `name` as a
/// signed integer.
pub open spec fn signed_integer_constant_body(name: Seq<char>) -> Seq<char> {
    "printf(\"%lld\\n\", (long long)("@ + name + "));\nreturn 0;"@
}

fn push_directive(text: &mut String, header: &str)
    ensures
        final(text)@ == old(text)@ + directive(header@),
{
    text.append("#include ");
    text.append(header);
    text.append("\n");
}

fn push_directives_of_strings(text: &mut String, headers: &Vec<String>)
    ensures
        final(text)@ == old(text)@ + directives(texts_of_strings(headers@)),
{
    let ghost all = texts_of_strings(headers@);
    let mut i: usize = 0;
    assert(all.take(0) == Seq::<Seq<char>>::empty());
    while i < headers.len()
        invariant
            i <= headers.len(),
            all == texts_of_strings(headers@),
            text@ == old(text)@ + directives(all.take(i as int)),
        decreases headers.len() - i,
    {
        push_directive(text, headers[i].as_str());
        assert(all.take(i + 1).drop_last() == all.take(i as int));
        assert(all.take(i + 1).last() == headers[i as int]@);
        i = i + 1;
    }
    assert(all.take(headers.len() as int) == all);
}

fn push_directives_of_strs(text: &mut String, headers: &Vec<&str>)
    ensures
        final(text)@ == old(text)@ + directives(texts_of_strs(headers@)),
{
    let ghost all = texts_of_strs(headers@);
    let mut i: usize = 0;
    assert(all.take(0) == Seq::<Seq<char>>::empty());
    while i < headers.len()
        invariant
            i <= headers.len(),
            all == texts_of_strs(headers@),
            text@ == old(text)@ + directives(all.take(i as int)),
        decreases headers.len() - i,
    {
        push_directive(text, headers[i]);
        assert(all.take(i + 1).drop_last() == all.take(i as int));
        assert(all.take(i + 1).last() == headers[i as int]@);
        i = i + 1;
    }
    assert(all.take(headers.len() as int) == all);
}

/// Writes the program that brings in `probe_headers`, then `call_headers`,
/// and wraps `body` in `main`.
pub fn synthesize(probe_headers: &Vec<String>, call_headers: &Vec<&str>, body: &str) -> (text:
    String)
    ensures
        text@ == program(texts_of_strings(probe_headers@), texts_of_strs(call_headers@), body@),
{
    let mut text = String::new();
    push_directives_of_strings(&mut text, probe_headers);
    push_directives_of_strs(&mut text, call_headers);
    text.append("\nint main(int argc, char **argv) {\n");
    text.append(body);
    text.append("\n}\n");
    text
}

/// Writes the body that prints the size of `type_`.
pub fn size_of_body_text(type_: &str) -> (body: String)
    ensures
        body@ == size_of_body(type_@),
{
    let mut body = String::from_str("printf(\"%zd\\n\", sizeof(");
    body.append(type_);
    body.append("));\nreturn 0;");
    body
}

/// Writes the body that prints the alignment of `type_`.
pub fn align_of_body_text(type_: &str) -> (body: String)
    ensures
        body@ == align_of_body(type_@),
{
    let mut body = String::from_str("printf(\"%zd\\n\", alignof(");
    body.append(type_);
    body.append("));\nreturn 0;");
    body
}

/// Writes the body that prints whether the macro `token` is defined.
pub fn is_defined_macro_body_text(token: &str) -> (body: String)
    ensures
        body@ == is_defined_macro_body(token@),
{
    let mut body = String::from_str("#ifdef ");
    body.append(token);
    body.append("\nprintf(\"true\");\n#else\nprintf(\"false\");\n#endif\nreturn 0;");
    body
}

/// Writes the body that prints whether the integer type `type_` is signed.
pub fn is_signed_body_text(type_: &str) -> (body: String)
    ensures
        body@ == is_signed_body(type_@),
{
    let mut body = String::from_str("if (((");
    body.append(type_);
    body.append(")-1) < 0) {\nprintf(\"true\");\n} else {\nprintf(\"false\");\n}\nreturn 0;");
    body
}

/// Writes the body that prints the value of `name` as a signed integer.
pub fn signed_integer_constant_body_text(name: &str) -> (body: String)
    ensures
        body@ == signed_integer_constant_body(name@),
{
    let mut body = String::from_str("printf(\"%lld\\n\", (long long)(");
    body.append(name);
    body.append("));\nreturn 0;");
    body
}

} // verus!
