//! Decimal rendering of whole numbers for messages shown to people, and the
//! few text operations of `str` that the rest of the crate leans on.

use vstd::prelude::*;

verus! {

/// The character for a decimal digit.
pub open spec fn digit_char(d: int) -> char {
    if d == 0 {
        '0'
    } else if d == 1 {
        '1'
    } else if d == 2 {
        '2'
    } else if d == 3 {
        '3'
    } else if d == 4 {
        '4'
    } else if d == 5 {
        '5'
    } else if d == 6 {
        '6'
    } else if d == 7 {
        '7'
    } else if d == 8 {
        '8'
    } else {
        '9'
    }
}

/// The decimal digits of a natural number, most significant first, with no
/// leading zeros (zero itself is "0").
pub open spec fn digits(n: nat) -> Seq<char>
    decreases n,
{
    if n < 10 {
        seq![digit_char(n as int)]
    } else {
        digits(n / 10).push(digit_char((n % 10) as int))
    }
}

/// A whole number as decimal text, with a leading minus when negative.
pub open spec fn decimal_text(n: int) -> Seq<char> {
    if n < 0 {
        seq!['-'] + digits((-n) as nat)
    } else {
        digits(n as nat)
    }
}

fn digit_str(d: u64) -> (text: &'static str)
    requires
        d < 10,
    ensures
        text@ == seq![digit_char(d as int)],
{
    proof {
        reveal_strlit("0");
        reveal_strlit("1");
        reveal_strlit("2");
        reveal_strlit("3");
        reveal_strlit("4");
        reveal_strlit("5");
        reveal_strlit("6");
        reveal_strlit("7");
        reveal_strlit("8");
        reveal_strlit("9");
    }
    if d == 0 {
        "0"
    } else if d == 1 {
        "1"
    } else if d == 2 {
        "2"
    } else if d == 3 {
        "3"
    } else if d == 4 {
        "4"
    } else if d == 5 {
        "5"
    } else if d == 6 {
        "6"
    } else if d == 7 {
        "7"
    } else if d == 8 {
        "8"
    } else {
        "9"
    }
}

fn push_digits(out: &mut String, n: u64)
    ensures
        final(out)@ == old(out)@ + digits(n as nat),
    decreases n,
{
    if n >= 10 {
        push_digits(out, n / 10);
    }
    out.append(digit_str(n % 10));
    proof {
        if n >= 10 {
            assert(old(out)@ + digits(n as nat) =~= old(out)@ + digits((n / 10) as nat) + seq![
                digit_char((n % 10) as int),
            ]);
        }
    }
}

/// `n` as decimal text.
pub fn decimal(n: i64) -> (text: String)
    ensures
        text@ == decimal_text(n as int),
{
    let mut text = String::new();
    if n < 0 {
        proof {
            reveal_strlit("-");
        }
        text.append("-");
        let magnitude: u64 = (-(n + 1)) as u64 + 1;
        push_digits(&mut text, magnitude);
    } else {
        push_digits(&mut text, n as u64);
    }
    text
}

/// A character with the Unicode `White_Space` property, the white space
/// that `str::trim` and `char::is_whitespace` go by.
pub open spec fn white_space(c: char) -> bool {
    let u = c as u32;
    ||| 0x09 <= u <= 0x0D
    ||| u == 0x20
    ||| u == 0x85
    ||| u == 0xA0
    ||| u == 0x1680
    ||| 0x2000 <= u <= 0x200A
    ||| u == 0x2028
    ||| u == 0x2029
    ||| u == 0x202F
    ||| u == 0x205F
    ||| u == 0x3000
}

/// A text without its leading white space.
pub open spec fn trimmed_start(text: Seq<char>) -> Seq<char>
    decreases text.len(),
{
    if text.len() > 0 && white_space(text[0]) {
        trimmed_start(text.drop_first())
    } else {
        text
    }
}

/// A text without its trailing white space.
pub open spec fn trimmed_end(text: Seq<char>) -> Seq<char>
    decreases text.len(),
{
    if text.len() > 0 && white_space(text.last()) {
        trimmed_end(text.drop_last())
    } else {
        text
    }
}

/// A text without its leading and trailing white space.
pub open spec fn trimmed(text: Seq<char>) -> Seq<char> {
    trimmed_end(trimmed_start(text))
}

/// Calls `str::trim`, which std documents as removing leading and trailing
/// white space as the Unicode `White_Space` property defines it.
#[verifier::external_body]
pub(crate) fn trim(text: &str) -> (inner: &str)
    ensures
        inner@ == trimmed(text@),
{
    text.trim()
}

/// Calls `str::trim_start`, which std documents as removing leading white
/// space as the Unicode `White_Space` property defines it.
#[verifier::external_body]
pub(crate) fn trim_start(text: &str) -> (rest: &str)
    ensures
        rest@ == trimmed_start(text@),
{
    text.trim_start()
}

/// An ASCII decimal digit.
pub open spec fn is_digit(c: char) -> bool {
    48 <= (c as u32) <= 57
}

/// The value of an ASCII decimal digit.
pub open spec fn digit_value(c: char) -> int {
    (c as u32) - 48
}

/// One or more ASCII decimal digits and nothing else.
pub open spec fn all_digits(text: Seq<char>) -> bool {
    &&& text.len() > 0
    &&& forall|i: int| 0 <= i < text.len() ==> is_digit(#[trigger] text[i])
}

/// The number a run of decimal digits stands for, most significant first.
pub open spec fn digits_value(text: Seq<char>) -> int
    decreases text.len(),
{
    if text.len() == 0 {
        0
    } else {
        10 * digits_value(text.drop_last()) + digit_value(text.last())
    }
}

/// The number a text stands for in the grammar std documents for
/// `from_str` on integers: an optional sign (`+`, or `-` where `signed`)
/// followed by one or more ASCII digits, nothing before or after. `None`
/// when the text is not of that form; the range is not checked here.
pub open spec fn decimal_value(text: Seq<char>, signed: bool) -> Option<int> {
    if text.len() > 0 && text[0] == '-' && signed {
        if all_digits(text.drop_first()) {
            Some(-digits_value(text.drop_first()))
        } else {
            None
        }
    } else if text.len() > 0 && text[0] == '+' {
        if all_digits(text.drop_first()) {
            Some(digits_value(text.drop_first()))
        } else {
            None
        }
    } else if all_digits(text) {
        Some(digits_value(text))
    } else {
        None
    }
}

/// The value `str::parse::<i64>` gives for a text, `None` when it is refused:
/// a decimal in the grammar above that fits in an `i64`.
pub open spec fn parsed_i64(text: Seq<char>) -> Option<i64> {
    match decimal_value(text, true) {
        Some(v) => if i64::MIN <= v <= i64::MAX {
            Some(v as i64)
        } else {
            None
        },
        None => None,
    }
}

/// The value `str::parse::<u16>` gives for a text, `None` when it is refused:
/// an unsigned decimal that fits in a `u16`.
pub open spec fn parsed_u16(text: Seq<char>) -> Option<u16> {
    match decimal_value(text, false) {
        Some(v) => if v <= u16::MAX {
            Some(v as u16)
        } else {
            None
        },
        None => None,
    }
}

/// The value `str::parse::<u64>` gives for a text, `None` when it is refused:
/// an unsigned decimal that fits in a `u64`.
pub open spec fn parsed_u64(text: Seq<char>) -> Option<u64> {
    match decimal_value(text, false) {
        Some(v) => if v <= u64::MAX {
            Some(v as u64)
        } else {
            None
        },
        None => None,
    }
}

proof fn lemma_digits_read_back(n: nat)
    ensures
        all_digits(digits(n)),
        digits_value(digits(n)) == n,
        digits(n)[0] != '-' && digits(n)[0] != '+',
    decreases n,
{
    let d = digits(n);
    let last = if n < 10 {
        n as int
    } else {
        (n % 10) as int
    };
    assert(digit_value(digit_char(last)) == last && is_digit(digit_char(last)));
    if n >= 10 {
        lemma_digits_read_back(n / 10);
        assert(d.drop_last() =~= digits(n / 10));
        assert(d[0] == digits(n / 10)[0]);
        assert(d.last() == digit_char(last));
        assert(digits_value(d) == 10 * digits_value(digits(n / 10)) + last);
        assert(n == 10 * (n / 10) + n % 10);
    } else {
        assert(d.drop_last() =~= Seq::<char>::empty());
        assert(digits_value(d.drop_last()) == 0);
    }
}

/// Decimal text reads back as the number it was written from.
pub proof fn lemma_decimal_text_reads_back(n: i64)
    ensures
        parsed_i64(decimal_text(n as int)) == Some(n),
{
    if n < 0 {
        lemma_digits_read_back((-n) as nat);
        assert((seq!['-'] + digits((-n) as nat)).drop_first() =~= digits((-n) as nat));
    } else {
        lemma_digits_read_back(n as nat);
    }
}

/// Calls `str::parse::<i64>`, keeping the value and dropping the error. std
/// documents the text it takes as an optional `+` or `-` sign followed by
/// only ASCII digits, and a value out of range as an error.
#[verifier::external_body]
pub(crate) fn parse_i64(text: &str) -> (value: Option<i64>)
    ensures
        value == parsed_i64(text@),
{
    text.parse::<i64>().ok()
}

/// Calls `str::parse::<u16>`, keeping the value and dropping the error. std
/// documents the text it takes as an optional `+` sign followed by only
/// ASCII digits, and a value out of range as an error.
#[verifier::external_body]
pub(crate) fn parse_u16(text: &str) -> (value: Option<u16>)
    ensures
        value == parsed_u16(text@),
{
    text.parse::<u16>().ok()
}

/// Calls `str::parse::<u64>`, keeping the value and dropping the error. std
/// documents the text it takes as an optional `+` sign followed by only
/// ASCII digits, and a value out of range as an error.
#[verifier::external_body]
pub(crate) fn parse_u64(text: &str) -> (value: Option<u64>)
    ensures
        value == parsed_u64(text@),
{
    text.parse::<u64>().ok()
}

} // verus!
