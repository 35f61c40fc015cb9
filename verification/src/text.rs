//! Text of the values that appear in the messages about tasks.
use vstd::prelude::*;

verus! {

/// The uppercase character of one digit below sixteen.
pub open spec fn digit(d: nat) -> char {
    if d < 10 {
        (d + ('0' as u32)) as char
    } else {
        (d - 10 + ('A' as u32)) as char
    }
}

/// The decimal numeral of `n`, without leading zeros.
pub open spec fn decimal(n: nat) -> Seq<char>
    decreases n,
{
    if n < 10 {
        seq![digit(n)]
    } else {
        decimal(n / 10).push(digit(n % 10))
    }
}

/// The uppercase hexadecimal numeral of `n`, without leading zeros.
pub open spec fn hexadecimal(n: nat) -> Seq<char>
    decreases n,
{
    if n < 16 {
        seq![digit(n)]
    } else {
        hexadecimal(n / 16).push(digit(n % 16))
    }
}

/// How an optional small number is written for debugging: `None`, or `Some(3)`.
pub open spec fn option_text(value: Option<u8>) -> Seq<char> {
    match value {
        Some(n) => "Some("@ + decimal(n as nat) + ")"@,
        None => "None"@,
    }
}

/// The quoted and escaped form of a string, as `{:?}` writes it.
pub uninterp spec fn quoted(s: Seq<char>) -> Seq<char>;

/// Formats a string with `{:?}`, the `Debug` format of `str` in the standard library:
/// in double quotes, with the characters escaped that `char::escape_debug` escapes.
/// What comes out depends on the characters of `s` alone, and is called `quoted(s@)`.
#[verifier::external_body]
fn debug_str(s: &str) -> (text: String)
    ensures
        text@ == quoted(s@),
{
    format!("{:?}", s)
}

/// The one-character string of a digit below sixteen.
fn digit_str(d: u8) -> (s: &'static str)
    requires
        d < 16,
    ensures
        s@ == seq![digit(d as nat)],
{
    let s = if d == 0 {
        "0"
    } else if d == 1 {
        "1"
    } else if d == 2 {
        "2"
    } else if d == 3 {
        "3"
    } else if d == 4 {
        "4"
    } else if d == 5 {
        "5"
    } else if d == 6 {
        "6"
    } else if d == 7 {
        "7"
    } else if d == 8 {
        "8"
    } else if d == 9 {
        "9"
    } else if d == 10 {
        "A"
    } else if d == 11 {
        "B"
    } else if d == 12 {
        "C"
    } else if d == 13 {
        "D"
    } else if d == 14 {
        "E"
    } else {
        "F"
    };
    proof {
        reveal_strlit("0");
        reveal_strlit("1");
        reveal_strlit("2");
        reveal_strlit("3");
        reveal_strlit("4");
        reveal_strlit("5");
        reveal_strlit("6");
        reveal_strlit("7");
        reveal_strlit("8");
        reveal_strlit("9");
        reveal_strlit("A");
        reveal_strlit("B");
        reveal_strlit("C");
        reveal_strlit("D");
        reveal_strlit("E");
        reveal_strlit("F");
        assert(s@ =~= seq![digit(d as nat)]);
    }
    s
}

/// Appends the decimal numeral of `n`.
pub fn append_decimal(out: &mut String, n: u64)
    ensures
        final(out)@ == old(out)@ + decimal(n as nat),
    decreases n,
{
    if n < 10 {
        out.append(digit_str(n as u8));
    } else {
        append_decimal(out, n / 10);
        out.append(digit_str((n % 10) as u8));
        proof {
            assert(out@ =~= old(out)@ + decimal(n as nat));
        }
    }
}

/// Appends the uppercase hexadecimal numeral of `n`.
pub fn append_hexadecimal(out: &mut String, n: u8)
    ensures
        final(out)@ == old(out)@ + hexadecimal(n as nat),
    decreases n,
{
    if n < 16 {
        out.append(digit_str(n));
    } else {
        append_hexadecimal(out, n / 16);
        out.append(digit_str(n % 16));
        proof {
            assert(out@ =~= old(out)@ + hexadecimal(n as nat));
        }
    }
}

/// Appends the debugging form of an optional small number.
pub fn append_option(out: &mut String, value: Option<u8>)
    ensures
        final(out)@ == old(out)@ + option_text(value),
{
    match value {
        Some(n) => {
            out.append("Some(");
            append_decimal(out, n as u64);
            out.append(")");
            proof {
                assert(out@ =~= old(out)@ + option_text(value));
            }
        },
        None => {
            out.append("None");
        },
    }
}

/// Appends the quoted and escaped form of a string.
pub fn append_quoted(out: &mut String, s: &str)
    ensures
        final(out)@ == old(out)@ + quoted(s@),
{
    let text = debug_str(s);
    out.append(text.as_str());
}

} // verus!
