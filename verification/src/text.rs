//! Lexical forms of probe results: whitespace trimming, decimal integers and
//! boolean literals.
//!
//! A probe program reports its answer as text. This module says, as functions
//! on sequences of characters, what each lexical form means, and provides the
//! executable renderers and readers that are proved to agree with them.

use vstd::prelude::*;

verus! {

/// The characters that carry the Unicode `White_Space` property.
pub open spec fn is_whitespace(c: char) -> bool {
    let u = c as u32;
    ||| 0x09 <= u <= 0x0D
    ||| u == 0x20
    ||| u == 0x85
    ||| u == 0xA0
    ||| u == 0x1680
    ||| 0x2000 <= u <= 0x200A
    ||| u == 0x2028
    ||| u == 0x2029
    ||| u == 0x202F
    ||| u == 0x205F
    ||| u == 0x3000
}

/// `s` without its leading white space.
pub open spec fn trim_start(s: Seq<char>) -> Seq<char>
    decreases s.len(),
{
    if s.len() > 0 && is_whitespace(s[0]) {
        trim_start(s.drop_first())
    } else {
        s
    }
}

/// `s` without its trailing white space.
pub open spec fn trim_end(s: Seq<char>) -> Seq<char>
    decreases s.len(),
{
    if s.len() > 0 && is_whitespace(s.last()) {
        trim_end(s.drop_last())
    } else {
        s
    }
}

/// `s` without its leading and trailing white space.
pub open spec fn trim(s: Seq<char>) -> Seq<char> {
    trim_end(trim_start(s))
}

/// Tells whether `c` is a white space character.
pub fn char_is_whitespace(c: char) -> (b: bool)
    ensures
        b == is_whitespace(c),
{
    let u: u32 = c as u32;
    (0x09 <= u && u <= 0x0D) || u == 0x20 || u == 0x85 || u == 0xA0 || u == 0x1680 || (0x2000 <= u
        && u <= 0x200A) || u == 0x2028 || u == 0x2029 || u == 0x202F || u == 0x205F || u == 0x3000
}

/// The characters of `text`, in order.
pub fn chars_of(text: &str) -> (chars: Vec<char>)
    ensures
        chars@ == text@,
{
    let mut chars: Vec<char> = Vec::new();
    for c in it: text.chars()
        invariant
            it.seq() == text@,
            chars@ == text@.take(it.index()),
    {
        chars.push(c);
    }
    chars
}

/// The bounds of the trimmed part of `chars`: `trim(chars@)` is the
/// subrange from the first to the second.
pub fn trim_bounds(chars: &Vec<char>) -> (bounds: (usize, usize))
    ensures
        bounds.0 <= bounds.1 <= chars.len(),
        trim(chars@) == chars@.subrange(bounds.0 as int, bounds.1 as int),
{
    let mut start: usize = 0;
    assert(chars@.skip(0) == chars@);
    while start < chars.len() && char_is_whitespace(chars[start])
        invariant
            start <= chars.len(),
            trim_start(chars@) == trim_start(chars@.skip(start as int)),
        decreases chars.len() - start,
    {
        assert(chars@.skip(start as int).drop_first() == chars@.skip(start as int + 1));
        start = start + 1;
    }
    assert(trim_start(chars@) == chars@.skip(start as int));
    let mut end: usize = chars.len();
    while end > start && char_is_whitespace(chars[end - 1])
        invariant
            start <= end <= chars.len(),
            trim(chars@) == trim_end(chars@.subrange(start as int, end as int)),
        decreases end,
    {
        assert(chars@.subrange(start as int, end as int).drop_last() == chars@.subrange(
            start as int,
            end as int - 1,
        ));
        end = end - 1;
    }
    (start, end)
}

/// Tells whether `c` is one of the decimal digits `0` to `9`.
pub open spec fn is_digit(c: char) -> bool {
    '0' <= c <= '9'
}

/// The number that the digit `c` stands for.
pub open spec fn digit_value(c: char) -> nat
    recommends
        is_digit(c),
{
    (c as u32 - '0' as u32) as nat
}

/// The digit that stands for `d`.
pub open spec fn digit_char(d: nat) -> char
    recommends
        d < 10,
{
    if d == 0 {
        '0'
    } else if d == 1 {
        '1'
    } else if d == 2 {
        '2'
    } else if d == 3 {
        '3'
    } else if d == 4 {
        '4'
    } else if d == 5 {
        '5'
    } else if d == 6 {
        '6'
    } else if d == 7 {
        '7'
    } else if d == 8 {
        '8'
    } else {
        '9'
    }
}

/// Tells whether every character of `s` is a decimal digit.
pub open spec fn all_digits(s: Seq<char>) -> bool {
    forall|i: int| 0 <= i < s.len() ==> is_digit(#[trigger] s[i])
}

/// The number that the digits `s` denote in base ten, most significant
/// digit first. The empty sequence denotes zero.
pub open spec fn decimal_value(s: Seq<char>) -> nat
    recommends
        all_digits(s),
    decreases s.len(),
{
    if s.len() == 0 {
        0
    } else {
        decimal_value(s.drop_last()) * 10 + digit_value(s.last())
    }
}

/// The shortest decimal numeral for `n`.
pub open spec fn decimal(n: nat) -> Seq<char>
    decreases n,
{
    if n < 10 {
        seq![digit_char(n)]
    } else {
        decimal(n / 10).push(digit_char(n % 10))
    }
}

/// The decimal numeral for `i`, with a leading minus sign when `i` is
/// negative.
pub open spec fn signed_decimal(i: int) -> Seq<char> {
    if i < 0 {
        seq!['-'] + decimal((-i) as nat)
    } else {
        decimal(i as nat)
    }
}

/// What `s` denotes as an unsigned decimal integer: an optional plus sign
/// followed by at least one digit, and nothing else.
pub open spec fn parse_unsigned(s: Seq<char>) -> Option<nat> {
    let digits = if s.len() > 0 && s[0] == '+' {
        s.drop_first()
    } else {
        s
    };
    if digits.len() > 0 && all_digits(digits) {
        Some(decimal_value(digits))
    } else {
        None
    }
}

/// What `s` denotes as a signed decimal integer: an optional plus or minus
/// sign followed by at least one digit, and nothing else.
pub open spec fn parse_signed(s: Seq<char>) -> Option<int> {
    if s.len() > 0 && s[0] == '-' {
        let digits = s.drop_first();
        if digits.len() > 0 && all_digits(digits) {
            Some(-(decimal_value(digits) as int))
        } else {
            None
        }
    } else {
        match parse_unsigned(s) {
            Some(n) => Some(n as int),
            None => None,
        }
    }
}

/// What `s` denotes as a boolean: exactly `true` or `false`.
pub open spec fn parse_bool(s: Seq<char>) -> Option<bool> {
    if s == seq!['t', 'r', 'u', 'e'] {
        Some(true)
    } else if s == seq!['f', 'a', 'l', 's', 'e'] {
        Some(false)
    } else {
        None
    }
}

/// The literal that a probe prints for the boolean `b`.
pub open spec fn bool_literal(b: bool) -> Seq<char> {
    if b {
        seq!['t', 'r', 'u', 'e']
    } else {
        seq!['f', 'a', 'l', 's', 'e']
    }
}

/// A numeral never denotes less than any of its prefixes.
pub proof fn lemma_decimal_value_prefix(s: Seq<char>, k: int)
    requires
        0 <= k <= s.len(),
    ensures
        decimal_value(s.take(k)) <= decimal_value(s),
    decreases s.len(),
{
    if k == s.len() {
        assert(s.take(k) == s);
    } else {
        lemma_decimal_value_prefix(s.drop_last(), k);
        assert(s.drop_last().take(k) == s.take(k));
    }
}

/// Reads the digits of `chars` between `start` and `end` as a number.
///
/// Returns `None` when the range is empty, holds a character that is no
/// digit, or denotes a number beyond `u64::MAX`.
fn read_digits(chars: &Vec<char>, start: usize, end: usize) -> (value: Option<u64>)
    requires
        start <= end <= chars.len(),
    ensures
        ({
            let digits = chars@.subrange(start as int, end as int);
            match value {
                Some(v) => digits.len() > 0 && all_digits(digits) && v == decimal_value(digits),
                None => !(digits.len() > 0 && all_digits(digits) && decimal_value(digits)
                    <= u64::MAX),
            }
        }),
{
    let ghost digits = chars@.subrange(start as int, end as int);
    if start == end {
        return None;
    }
    let mut acc: u64 = 0;
    let mut i: usize = start;
    assert(digits.take(0) == Seq::<char>::empty());
    while i < end
        invariant
            start <= i <= end <= chars.len(),
            digits == chars@.subrange(start as int, end as int),
            all_digits(digits.take(i - start)),
            acc == decimal_value(digits.take(i - start)),
        decreases end - i,
    {
        let c = chars[i];
        assert(c == digits[i - start]);
        if c < '0' || c > '9' {
            return None;
        }
        let d: u64 = (c as u32 - '0' as u32) as u64;
        let ghost next = digits.take(i - start + 1);
        assert(next.drop_last() == digits.take(i - start));
        assert(next.last() == c);
        assert(decimal_value(next) == acc * 10 + d);
        let shifted: u64 = match acc.checked_mul(10) {
            Some(v) => v,
            None => {
                proof {
                    lemma_decimal_value_prefix(digits, i - start + 1);
                }
                return None;
            },
        };
        acc = match shifted.checked_add(d) {
            Some(v) => v,
            None => {
                proof {
                    lemma_decimal_value_prefix(digits, i - start + 1);
                }
                return None;
            },
        };
        i = i + 1;
    }
    assert(digits.take(end - start) == digits);
    Some(acc)
}

/// What the text `s` denotes, white space around it set aside, as an
/// unsigned integer that fits the machine word.
pub open spec fn unsigned_of_text(s: Seq<char>) -> Option<usize> {
    match parse_unsigned(trim(s)) {
        Some(n) => if n <= usize::MAX {
            Some(n as usize)
        } else {
            None
        },
        None => None,
    }
}

/// What the text `s` denotes, white space around it set aside, as a signed
/// 64-bit integer.
pub open spec fn signed_of_text(s: Seq<char>) -> Option<i64> {
    match parse_signed(trim(s)) {
        Some(i) => if i64::MIN <= i <= i64::MAX {
            Some(i as i64)
        } else {
            None
        },
        None => None,
    }
}

/// What the text `s` denotes, white space around it set aside, as a boolean.
pub open spec fn bool_of_text(s: Seq<char>) -> Option<bool> {
    parse_bool(trim(s))
}

/// Reads `text` as an unsigned integer, ignoring white space around it.
pub fn read_unsigned(text: &str) -> (value: Option<usize>)
    ensures
        value == unsigned_of_text(text@),
{
    let chars = chars_of(text);
    let (start, end) = trim_bounds(&chars);
    let ghost trimmed = trim(text@);
    let first: usize = if start < end && chars[start] == '+' {
        start + 1
    } else {
        start
    };
    assert(chars@.subrange(first as int, end as int) == if trimmed.len() > 0 && trimmed[0] == '+' {
        trimmed.drop_first()
    } else {
        trimmed
    });
    match read_digits(&chars, first, end) {
        Some(v) => if v <= usize::MAX as u64 {
            Some(v as usize)
        } else {
            None
        },
        None => None,
    }
}

/// Reads `text` as a signed 64-bit integer, ignoring white space around it.
pub fn read_signed(text: &str) -> (value: Option<i64>)
    ensures
        value == signed_of_text(text@),
{
    let chars = chars_of(text);
    let (start, end) = trim_bounds(&chars);
    let ghost trimmed = trim(text@);
    if start < end && chars[start] == '-' {
        assert(chars@.subrange(start as int + 1, end as int) == trimmed.drop_first());
        match read_digits(&chars, start + 1, end) {
            Some(v) => if v <= i64::MAX as u64 {
                Some(-(v as i64))
            } else if v == 0x8000_0000_0000_0000u64 {
                Some(i64::MIN)
            } else {
                None
            },
            None => None,
        }
    } else {
        let first: usize = if start < end && chars[start] == '+' {
            start + 1
        } else {
            start
        };
        assert(chars@.subrange(first as int, end as int) == if trimmed.len() > 0 && trimmed[0]
            == '+' {
            trimmed.drop_first()
        } else {
            trimmed
        });
        match read_digits(&chars, first, end) {
            Some(v) => if v <= i64::MAX as u64 {
                Some(v as i64)
            } else {
                None
            },
            None => None,
        }
    }
}

/// Reads `text` as a boolean, ignoring white space around it.
pub fn read_bool(text: &str) -> (value: Option<bool>)
    ensures
        value == bool_of_text(text@),
{
    let chars = chars_of(text);
    let (start, end) = trim_bounds(&chars);
    let ghost trimmed = trim(text@);
    let len: usize = end - start;
    if len == 4 && chars[start] == 't' && chars[start + 1] == 'r' && chars[start + 2] == 'u'
        && chars[start + 3] == 'e' {
        assert(trimmed == seq!['t', 'r', 'u', 'e']);
        Some(true)
    } else if len == 5 && chars[start] == 'f' && chars[start + 1] == 'a' && chars[start + 2] == 'l'
        && chars[start + 3] == 's' && chars[start + 4] == 'e' {
        assert(trimmed == seq!['f', 'a', 'l', 's', 'e']);
        Some(false)
    } else {
        assert(trimmed != seq!['t', 'r', 'u', 'e']) by {
            if trimmed == seq!['t', 'r', 'u', 'e'] {
                assert(trimmed.len() == 4);
                assert(trimmed[0] == 't' && trimmed[1] == 'r' && trimmed[2] == 'u' && trimmed[3]
                    == 'e');
                assert(chars[start as int] == trimmed[0]);
                assert(chars[start + 1] == trimmed[1]);
                assert(chars[start + 2] == trimmed[2]);
                assert(chars[start + 3] == trimmed[3]);
            }
        }
        assert(trimmed != seq!['f', 'a', 'l', 's', 'e']) by {
            if trimmed == seq!['f', 'a', 'l', 's', 'e'] {
                assert(trimmed.len() == 5);
                assert(trimmed[0] == 'f' && trimmed[1] == 'a' && trimmed[2] == 'l' && trimmed[3]
                    == 's' && trimmed[4] == 'e');
                assert(chars[start as int] == trimmed[0]);
                assert(chars[start + 1] == trimmed[1]);
                assert(chars[start + 2] == trimmed[2]);
                assert(chars[start + 3] == trimmed[3]);
                assert(chars[start + 4] == trimmed[4]);
            }
        }
        None
    }
}

/// The one-character text of the digit `d`.
fn digit_text(d: u64) -> (text: &'static str)
    requires
        d < 10,
    ensures
        text@ == seq![digit_char(d as nat)],
{
    proof {
        reveal_strlit("0");
        reveal_strlit("1");
        reveal_strlit("2");
        reveal_strlit("3");
        reveal_strlit("4");
        reveal_strlit("5");
        reveal_strlit("6");
        reveal_strlit("7");
        reveal_strlit("8");
        reveal_strlit("9");
    }
    let text: &'static str = if d == 0 {
        "0"
    } else if d == 1 {
        "1"
    } else if d == 2 {
        "2"
    } else if d == 3 {
        "3"
    } else if d == 4 {
        "4"
    } else if d == 5 {
        "5"
    } else if d == 6 {
        "6"
    } else if d == 7 {
        "7"
    } else if d == 8 {
        "8"
    } else {
        "9"
    };
    assert(text@ =~= seq![digit_char(d as nat)]);
    text
}

/// Writes `n` as a decimal numeral.
pub fn render_unsigned(n: u64) -> (text: String)
    ensures
        text@ == decimal(n as nat),
    decreases n,
{
    if n < 10 {
        String::from_str(digit_text(n))
    } else {
        let mut text = render_unsigned(n / 10);
        text.append(digit_text(n % 10));
        assert(text@ == decimal((n / 10) as nat).push(digit_char((n % 10) as nat)));
        text
    }
}

/// Writes `i` as a decimal numeral, with a minus sign when it is negative.
pub fn render_signed(i: i64) -> (text: String)
    ensures
        text@ == signed_decimal(i as int),
{
    if i < 0 {
        proof {
            reveal_strlit("-");
        }
        let magnitude: u64 = if i == i64::MIN {
            0x8000_0000_0000_0000u64
        } else {
            (-i) as u64
        };
        let mut text = String::from_str("-");
        let digits = render_unsigned(magnitude);
        text.append(digits.as_str());
        assert(text@ == seq!['-'] + decimal((-i) as nat));
        text
    } else {
        render_unsigned(i as u64)
    }
}

/// Tells whether every character of `s` is white space.
pub open spec fn all_whitespace(s: Seq<char>) -> bool {
    forall|i: int| 0 <= i < s.len() ==> is_whitespace(#[trigger] s[i])
}

/// Trimming removes exactly the white space around a text that neither
/// begins nor ends with white space.
pub proof fn lemma_trim_padded(before: Seq<char>, core: Seq<char>, after: Seq<char>)
    requires
        all_whitespace(before),
        all_whitespace(after),
        core.len() > 0 ==> !is_whitespace(core.first()) && !is_whitespace(core.last()),
    ensures
        trim(before + core + after) == core,
{
    lemma_trim_start_padded(before, core + after);
    assert(before + core + after == before + (core + after));
    if core.len() == 0 {
        assert(core + after == after);
        lemma_trim_start_padded(after, Seq::empty());
        assert(after + Seq::<char>::empty() == after);
        assert(trim_start(after) == Seq::<char>::empty());
    } else {
        assert((core + after)[0] == core.first());
        lemma_trim_end_padded(core, after);
    }
}

proof fn lemma_trim_start_padded(before: Seq<char>, rest: Seq<char>)
    requires
        all_whitespace(before),
    ensures
        trim_start(before + rest) == trim_start(rest),
    decreases before.len(),
{
    if before.len() == 0 {
        assert(before + rest == rest);
    } else {
        assert((before + rest)[0] == before[0]);
        assert((before + rest).drop_first() == before.drop_first() + rest);
        lemma_trim_start_padded(before.drop_first(), rest);
    }
}

proof fn lemma_trim_end_padded(rest: Seq<char>, after: Seq<char>)
    requires
        all_whitespace(after),
    ensures
        trim_end(rest + after) == trim_end(rest),
    decreases after.len(),
{
    if after.len() == 0 {
        assert(rest + after == rest);
    } else {
        assert((rest + after).last() == after.last());
        assert((rest + after).drop_last() == rest + after.drop_last());
        lemma_trim_end_padded(rest, after.drop_last());
    }
}

/// A decimal numeral is made of digits only, is never empty, and denotes
/// the number it was written for.
pub proof fn lemma_decimal_denotes(n: nat)
    ensures
        decimal(n).len() > 0,
        all_digits(decimal(n)),
        decimal_value(decimal(n)) == n,
    decreases n,
{
    if n < 10 {
        assert(decimal(n).drop_last() == Seq::<char>::empty());
        assert(decimal_value(decimal(n).drop_last()) == 0);
    } else {
        lemma_decimal_denotes(n / 10);
        assert(decimal(n).drop_last() == decimal(n / 10));
        assert(decimal(n).last() == digit_char(n % 10));
    }
}

/// Reading a decimal numeral gives back the number that was written.
pub proof fn lemma_unsigned_round_trip(n: nat)
    ensures
        parse_unsigned(decimal(n)) == Some(n),
{
    lemma_decimal_denotes(n);
    assert(is_digit(decimal(n)[0]));
}

/// Reading a signed decimal numeral gives back the number that was written.
pub proof fn lemma_signed_round_trip(i: int)
    ensures
        parse_signed(signed_decimal(i)) == Some(i),
{
    if i < 0 {
        let digits = decimal((-i) as nat);
        lemma_decimal_denotes((-i) as nat);
        assert(signed_decimal(i).drop_first() == digits);
    } else {
        lemma_unsigned_round_trip(i as nat);
        lemma_decimal_denotes(i as nat);
        assert(is_digit(decimal(i as nat)[0]));
    }
}

/// Reading a boolean literal gives back the boolean that was written.
pub proof fn lemma_bool_round_trip(b: bool)
    ensures
        parse_bool(bool_literal(b)) == Some(b),
{
    assert(seq!['t', 'r', 'u', 'e'].len() != seq!['f', 'a', 'l', 's', 'e'].len());
}

/// An unsigned integer written in decimal, with any white space around it,
/// is read back unchanged.
pub proof fn lemma_unsigned_text_round_trip(n: usize, before: Seq<char>, after: Seq<char>)
    requires
        all_whitespace(before),
        all_whitespace(after),
    ensures
        unsigned_of_text(before + decimal(n as nat) + after) == Some(n),
{
    lemma_decimal_denotes(n as nat);
    lemma_unsigned_round_trip(n as nat);
    let core = decimal(n as nat);
    assert(is_digit(core.first()) && is_digit(core.last()));
    lemma_trim_padded(before, core, after);
}

/// A signed integer written in decimal, with any white space around it, is
/// read back unchanged.
pub proof fn lemma_signed_text_round_trip(i: i64, before: Seq<char>, after: Seq<char>)
    requires
        all_whitespace(before),
        all_whitespace(after),
    ensures
        signed_of_text(before + signed_decimal(i as int) + after) == Some(i),
{
    lemma_signed_round_trip(i as int);
    let core = signed_decimal(i as int);
    if i < 0 {
        lemma_decimal_denotes((-i) as nat);
        assert(core.first() == '-');
        assert(core.last() == decimal((-i) as nat).last());
        assert(is_digit(core.last()));
    } else {
        lemma_decimal_denotes(i as nat);
        assert(is_digit(core.first()) && is_digit(core.last()));
    }
    lemma_trim_padded(before, core, after);
}

/// A boolean literal, with any white space around it, is read back
/// unchanged.
pub proof fn lemma_bool_text_round_trip(b: bool, before: Seq<char>, after: Seq<char>)
    requires
        all_whitespace(before),
        all_whitespace(after),
    ensures
        bool_of_text(before + bool_literal(b) + after) == Some(b),
{
    lemma_bool_round_trip(b);
    lemma_trim_padded(before, bool_literal(b), after);
}

} // verus!
