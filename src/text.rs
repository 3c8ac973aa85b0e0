use vstd::prelude::*;
use vstd::string::StringExecFns;

verus! {

/// Whether a character has Unicode's White_Space property: the ASCII tab,
/// line feed, vertical tab, form feed, carriage return and space, and the
/// wider spaces and separators listed below.
pub open spec fn white_space(c: char) -> bool {
    ||| '\u{9}' <= c <= '\u{d}'
    ||| c == ' '
    ||| c == '\u{85}'
    ||| c == '\u{a0}'
    ||| c == '\u{1680}'
    ||| '\u{2000}' <= c <= '\u{200a}'
    ||| c == '\u{2028}'
    ||| c == '\u{2029}'
    ||| c == '\u{202f}'
    ||| c == '\u{205f}'
    ||| c == '\u{3000}'
}

/// The text with its leading white space removed.
pub open spec fn trim_start_seq(s: Seq<char>) -> Seq<char>
    decreases s.len(),
{
    if s.len() > 0 && white_space(s[0]) {
        trim_start_seq(s.drop_first())
    } else {
        s
    }
}

/// The text with its trailing white space removed.
pub open spec fn trim_end_seq(s: Seq<char>) -> Seq<char>
    decreases s.len(),
{
    if s.len() > 0 && white_space(s.last()) {
        trim_end_seq(s.drop_last())
    } else {
        s
    }
}

/// The text with white space removed at both ends.
pub open spec fn trim_seq(s: Seq<char>) -> Seq<char> {
    trim_end_seq(trim_start_seq(s))
}

/// Relies on `str::trim`: removes the leading and trailing characters that
/// have the White_Space property, and nothing else.
#[verifier::external_body]
fn trim_str(s: &str) -> (r: &str)
    ensures
        r@ == trim_seq(s@),
{
    s.trim()
}

/// A line with white space removed at both ends, ready to be parsed.
pub fn trim_line(line: &str) -> (r: &str)
    ensures
        r@ == trim_seq(line@),
{
    trim_str(line)
}

pub open spec fn is_digit(c: char) -> bool {
    '0' <= c && c <= '9'
}

/// The number written by a run of decimal digits.
pub open spec fn digits_value(d: Seq<char>) -> nat
    decreases d.len(),
{
    if d.len() == 0 {
        0
    } else {
        digits_value(d.drop_last()) * 10 + (d.last() as nat - '0' as nat) as nat
    }
}

/// The digits of an unsigned decimal: the text without one leading `+`.
pub open spec fn unsigned_digits(s: Seq<char>) -> Seq<char> {
    if s.len() > 0 && s[0] == '+' {
        s.drop_first()
    } else {
        s
    }
}

/// The `u32` that a text denotes in decimal: an optional `+` and then one or
/// more digits, whose value fits in 32 bits.
pub open spec fn decimal_u32(s: Seq<char>) -> Option<u32> {
    let d = unsigned_digits(s);
    if all_digits(d) && digits_value(d) <= u32::MAX {
        Some(digits_value(d) as u32)
    } else {
        None
    }
}

/// The description that `ParseIntError` gives of why a text is no `u32`.
pub uninterp spec fn u32_error_text(s: Seq<char>) -> Seq<char>;

/// Relies on `<u32 as FromStr>::from_str`: decimal digits after an optional
/// `+`, within range, are accepted; the error is described by its `Display`.
#[verifier::external_body]
fn parse_u32(s: &str) -> (r: Result<u32, String>)
    ensures
        r is Ok <==> decimal_u32(s@) is Some,
        r is Ok ==> r->Ok_0 == decimal_u32(s@)->Some_0,
        r is Err ==> r->Err_0@ == u32_error_text(s@),
{
    s.parse::<u32>().map_err(|e| e.to_string())
}

/// Whether a text is one or more decimal digits.
pub open spec fn all_digits(d: Seq<char>) -> bool {
    d.len() > 0 && forall|i: int| 0 <= i < d.len() ==> is_digit(#[trigger] d[i])
}

/// The `i32` that a text denotes in decimal: an optional `+` or `-` and then
/// one or more digits, whose signed value fits in 32 bits.
pub open spec fn decimal_i32(s: Seq<char>) -> Option<i32> {
    if s.len() > 0 && s[0] == '-' {
        let d = s.drop_first();
        if all_digits(d) && digits_value(d) <= 0x8000_0000 {
            Some((0 - digits_value(d)) as i32)
        } else {
            None
        }
    } else {
        let d = unsigned_digits(s);
        if all_digits(d) && digits_value(d) <= i32::MAX {
            Some(digits_value(d) as i32)
        } else {
            None
        }
    }
}

/// The description that `ParseIntError` gives of why a text is no `i32`.
pub uninterp spec fn i32_error_text(s: Seq<char>) -> Seq<char>;

/// Relies on `<i32 as FromStr>::from_str`: decimal digits after an optional
/// sign, within range, are accepted; the error is described by its `Display`.
#[verifier::external_body]
fn parse_i32(s: &str) -> (r: Result<i32, String>)
    ensures
        r is Ok <==> decimal_i32(s@) is Some,
        r is Ok ==> r->Ok_0 == decimal_i32(s@)->Some_0,
        r is Err ==> r->Err_0@ == i32_error_text(s@),
{
    s.parse::<i32>().map_err(|e| e.to_string())
}

/// A type that a trimmed line of text converts into.
pub trait FromLine: Sized + View {
    /// The value a text denotes, if any.
    spec fn denoted(text: Seq<char>) -> Option<Self::V>;

    /// The description of why a text denotes no value.
    spec fn parse_error(text: Seq<char>) -> Seq<char>;

    fn from_line(text: &str) -> (r: Result<Self, String>)
        ensures
            r is Ok <==> Self::denoted(text@) is Some,
            r is Ok ==> r->Ok_0@ == Self::denoted(text@)->Some_0,
            r is Err ==> r->Err_0@ == Self::parse_error(text@),
    ;
}

/// Text converts to itself and never fails.
impl FromLine for String {
    open spec fn denoted(text: Seq<char>) -> Option<Seq<char>> {
        Some(text)
    }

    open spec fn parse_error(text: Seq<char>) -> Seq<char> {
        Seq::empty()
    }

    fn from_line(text: &str) -> (r: Result<String, String>) {
        Ok(String::from_str(text))
    }
}

/// Unsigned decimal integers.
impl FromLine for u32 {
    open spec fn denoted(text: Seq<char>) -> Option<u32> {
        decimal_u32(text)
    }

    open spec fn parse_error(text: Seq<char>) -> Seq<char> {
        u32_error_text(text)
    }

    fn from_line(text: &str) -> (r: Result<u32, String>) {
        parse_u32(text)
    }
}

/// Signed decimal integers.
impl FromLine for i32 {
    open spec fn denoted(text: Seq<char>) -> Option<i32> {
        decimal_i32(text)
    }

    open spec fn parse_error(text: Seq<char>) -> Seq<char> {
        i32_error_text(text)
    }

    fn from_line(text: &str) -> (r: Result<i32, String>) {
        parse_i32(text)
    }
}

} // verus!
