use probe_c_api::decode::{decode_bool_text, decode_signed_text, decode_unsigned_text};
use probe_c_api::text::{
    char_is_whitespace, chars_of, read_bool, read_signed, read_unsigned,
    render_signed, render_unsigned, trim_bounds,
};
use probe_c_api::{equivalent_rust_integer, CProbeError, RustInteger};

#[test]
fn read_unsigned_accepts_surrounding_white_space() {
    assert_eq!(Some(1), read_unsigned("1\n"));
    assert_eq!(Some(42), read_unsigned(" \t+42\r\n"));
    assert_eq!(Some(7), read_unsigned("\u{2003}007\u{a0}"));
}

#[test]
fn read_unsigned_rejects_what_is_no_numeral() {
    assert_eq!(None, read_unsigned(""));
    assert_eq!(None, read_unsigned("+"));
    assert_eq!(None, read_unsigned("-1"));
    assert_eq!(None, read_unsigned("1 2"));
    assert_eq!(None, read_unsigned("0x10"));
    assert_eq!(None, read_unsigned("99999999999999999999999999"));
}

#[test]
fn read_signed_covers_the_whole_range() {
    assert_eq!(Some(-1), read_signed("-1\n"));
    assert_eq!(Some(i64::MIN), read_signed("-9223372036854775808"));
    assert_eq!(Some(i64::MAX), read_signed("+9223372036854775807"));
    assert_eq!(None, read_signed("9223372036854775808"));
    assert_eq!(None, read_signed("-9223372036854775809"));
    assert_eq!(None, read_signed("-"));
    assert_eq!(None, read_signed("--1"));
}

#[test]
fn read_bool_accepts_only_the_two_literals() {
    assert_eq!(Some(true), read_bool("true"));
    assert_eq!(Some(false), read_bool(" false\n"));
    assert_eq!(None, read_bool("True"));
    assert_eq!(None, read_bool("1"));
    assert_eq!(None, read_bool("truefalse"));
}

#[test]
fn rendered_numbers_read_back() {
    assert_eq!("0", render_unsigned(0));
    assert_eq!("18446744073709551615", render_unsigned(u64::MAX));
    assert_eq!("-9223372036854775808", render_signed(i64::MIN));
    assert_eq!("120", render_signed(120));
    for n in [0u64, 9, 10, 99, 100, 4096, u32::MAX as u64] {
        assert_eq!(Some(n as usize), read_unsigned(&render_unsigned(n)));
    }
    for i in [i64::MIN, -10, -1, 0, 1, 10, i64::MAX] {
        assert_eq!(Some(i), read_signed(&render_signed(i)));
    }
}

#[test]
fn white_space_is_what_the_standard_library_calls_so() {
    for code in 0u32..0x11_0000 {
        if let Some(c) = char::from_u32(code) {
            assert_eq!(c.is_whitespace(), char_is_whitespace(c), "U+{:04X}", code);
        }
    }
}

#[test]
fn trimming_agrees_with_the_standard_library() {
    for text in ["", " ", "a", " a", "a ", " a b \n", "\u{3000}x\u{85}", "\t\n\r", "a\u{200b}"] {
        let chars = chars_of(text);
        assert_eq!(text.chars().collect::<Vec<char>>(), chars);
        let (start, end) = trim_bounds(&chars);
        let trimmed: String = chars[start..end].iter().collect();
        assert_eq!(text.trim(), trimmed);
    }
}

#[test]
fn readers_agree_with_the_standard_library() {
    let samples = [
        "", " ", "0", "-0", "+0", "00", "1", "+1", "-1", "++1", "+-1", "-+1", "1+", "1-", " 1 ",
        "1 1", "1_000", "1e3", "1.0", "0x1", "\u{661}", "4294967295", "4294967296",
        "18446744073709551615", "18446744073709551616", "9223372036854775807",
        "9223372036854775808", "-9223372036854775808", "-9223372036854775809",
        "000000000000000000000000000000000000007", "99999999999999999999999999999999",
        "true", "false", " true ", "TRUE", "tru", "truee", "t", "falsey", "yes", "\n12\n",
    ];
    for text in samples {
        assert_eq!(text.trim().parse::<usize>().ok(), read_unsigned(text), "{:?}", text);
        assert_eq!(text.trim().parse::<i64>().ok(), read_signed(text), "{:?}", text);
        assert_eq!(text.trim().parse::<bool>().ok(), read_bool(text), "{:?}", text);
    }
}

#[test]
fn text_of_another_shape_is_an_error_that_names_the_shape() {
    assert_eq!(Ok(8), decode_unsigned_text("8\n"));
    assert_eq!(
        Err(CProbeError::OtherError(
            "unexpected output from probe program: expected an unsigned integer".to_string()
        )),
        decode_unsigned_text("eight")
    );
    assert_eq!(Ok(-8), decode_signed_text("-8\n"));
    assert_eq!(
        Err(CProbeError::OtherError(
            "unexpected output from probe program: expected a signed integer".to_string()
        )),
        decode_signed_text("- 8")
    );
    assert_eq!(Ok(false), decode_bool_text("false\n"));
    assert_eq!(
        Err(CProbeError::OtherError(
            "unexpected output from probe program: expected true or false".to_string()
        )),
        decode_bool_text("0")
    );
}

#[test]
fn fixed_width_types_by_size_and_signedness() {
    let all = [
        RustInteger::I8,
        RustInteger::I16,
        RustInteger::I32,
        RustInteger::I64,
        RustInteger::U8,
        RustInteger::U16,
        RustInteger::U32,
        RustInteger::U64,
    ];
    let names = ["i8", "i16", "i32", "i64", "u8", "u16", "u32", "u64"];
    for (integer, name) in all.iter().zip(names) {
        assert_eq!(name, integer.name());
        assert_eq!(Some(*integer), equivalent_rust_integer(integer.size(), integer.is_signed()));
        assert_eq!(name.starts_with('i'), integer.is_signed());
        assert_eq!(name[1..].parse::<usize>().unwrap(), integer.size() * 8);
    }
    for size in [0usize, 3, 5, 6, 7, 9, 16, usize::MAX] {
        assert_eq!(None, equivalent_rust_integer(size, true));
        assert_eq!(None, equivalent_rust_integer(size, false));
    }
}
