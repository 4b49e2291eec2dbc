use vstd::prelude::*;
use vstd::string::StringExecFns;

verus! {

/// The text of `bytes` read as UTF-8, each invalid sequence replaced by
/// U+FFFD: how a path that need not be UTF-8 is shown to a person.
pub uninterp spec fn lossy_text(bytes: Seq<u8>) -> Seq<char>;

/// `String::from_utf8_lossy`: the bytes as UTF-8 text, with every invalid
/// sequence replaced by U+FFFD. The decoding is std's; its result is named
/// `lossy_text` of the bytes and is not spelled out here.
#[verifier::external_body]
pub fn lossy(bytes: &[u8]) -> (text: String)
    ensures
        text@ == lossy_text(bytes@),
{
    String::from_utf8_lossy(bytes).into_owned()
}

/// The decimal digit character for `d` (`0` to `9`).
pub open spec fn digit_char(d: int) -> char {
    (48 + d) as char
}

/// The decimal digits of `n`, most significant first, without leading zeros
/// (`0` is the single digit `0`).
pub open spec fn decimal_digits(n: nat) -> Seq<char>
    decreases n,
{
    if n < 10 {
        seq![digit_char(n as int)]
    } else {
        decimal_digits(n / 10) + seq![digit_char((n % 10) as int)]
    }
}

/// The decimal text of `c`: a leading `-` for negative numbers, then the
/// digits of its magnitude.
pub open spec fn decimal_text(c: int) -> Seq<char> {
    if c < 0 {
        seq!['-'] + decimal_digits((-c) as nat)
    } else {
        decimal_digits(c as nat)
    }
}

/// The one-character text of the digit `d`.
fn digit_text(d: u64) -> (s: &'static str)
    requires
        d < 10,
    ensures
        s@ == seq![digit_char(d as int)],
{
    proof {
        reveal_strlit("0");
        reveal_strlit("1");
        reveal_strlit("2");
        reveal_strlit("3");
        reveal_strlit("4");
        reveal_strlit("5");
        reveal_strlit("6");
        reveal_strlit("7");
        reveal_strlit("8");
        reveal_strlit("9");
    }
    if d == 0 {
        "0"
    } else if d == 1 {
        "1"
    } else if d == 2 {
        "2"
    } else if d == 3 {
        "3"
    } else if d == 4 {
        "4"
    } else if d == 5 {
        "5"
    } else if d == 6 {
        "6"
    } else if d == 7 {
        "7"
    } else if d == 8 {
        "8"
    } else {
        "9"
    }
}

/// Append the decimal digits of `n` to `s`.
fn push_digits(s: &mut String, n: u64)
    ensures
        final(s)@ == old(s)@ + decimal_digits(n as nat),
    decreases n,
{
    if n >= 10 {
        push_digits(s, n / 10);
    }
    s.append(digit_text(n % 10));
    assert(s@ =~= old(s)@ + decimal_digits(n as nat));
}

/// The decimal text of `c`, as `{}` formats an integer.
pub fn decimal(c: i32) -> (text: String)
    ensures
        text@ == decimal_text(c as int),
{
    let mut text = String::new();
    if c < 0 {
        text.append("-");
        proof {
            reveal_strlit("-");
        }
        let magnitude: i64 = -(c as i64);
        push_digits(&mut text, magnitude as u64);
    } else {
        push_digits(&mut text, c as u64);
    }
    text
}

} // verus!
