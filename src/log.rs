//! One-line JSON log records.
use vstd::prelude::*;
use crate::json::{json_string, json_string_of};

verus! {

/// The decimal digit for `d < 10`.
pub open spec fn digit_char(d: nat) -> char {
    seq!['0', '1', '2', '3', '4', '5', '6', '7', '8', '9'][d as int]
}

/// The decimal digits of `n`, most significant first, with no leading zero.
pub open spec fn digits_of(n: nat) -> Seq<char>
    decreases n,
{
    if n < 10 {
        seq![digit_char(n)]
    } else {
        digits_of(n / 10).push(digit_char(n % 10))
    }
}

/// The decimal text of an integer, with a leading `-` when it is negative.
pub open spec fn decimal_of(v: int) -> Seq<char> {
    if v < 0 {
        seq!['-'] + digits_of((-v) as nat)
    } else {
        digits_of(v as nat)
    }
}

/// The record `{"message":<quoted>,"value":<value>}`, where `quoted` is the
/// message already written as a JSON string.
pub open spec fn log_record(quoted: Seq<char>, value: int) -> Seq<char> {
    seq!['{', '"', 'm', 'e', 's', 's', 'a', 'g', 'e', '"', ':']
        + quoted
        + seq![',', '"', 'v', 'a', 'l', 'u', 'e', '"', ':']
        + decimal_of(value)
        + seq!['}']
}

/// The one-character text of the digit `d < 10`.
fn digit_text(d: u32) -> (r: &'static str)
    requires
        d < 10,
    ensures
        r@ == seq![digit_char(d as nat)],
{
    match d {
        0 => {
            proof {
                reveal_strlit("0");
                assert("0"@ =~= seq![digit_char(0)]);
            }
            "0"
        },
        1 => {
            proof {
                reveal_strlit("1");
                assert("1"@ =~= seq![digit_char(1)]);
            }
            "1"
        },
        2 => {
            proof {
                reveal_strlit("2");
                assert("2"@ =~= seq![digit_char(2)]);
            }
            "2"
        },
        3 => {
            proof {
                reveal_strlit("3");
                assert("3"@ =~= seq![digit_char(3)]);
            }
            "3"
        },
        4 => {
            proof {
                reveal_strlit("4");
                assert("4"@ =~= seq![digit_char(4)]);
            }
            "4"
        },
        5 => {
            proof {
                reveal_strlit("5");
                assert("5"@ =~= seq![digit_char(5)]);
            }
            "5"
        },
        6 => {
            proof {
                reveal_strlit("6");
                assert("6"@ =~= seq![digit_char(6)]);
            }
            "6"
        },
        7 => {
            proof {
                reveal_strlit("7");
                assert("7"@ =~= seq![digit_char(7)]);
            }
            "7"
        },
        8 => {
            proof {
                reveal_strlit("8");
                assert("8"@ =~= seq![digit_char(8)]);
            }
            "8"
        },
        _ => {
            proof {
                reveal_strlit("9");
                assert("9"@ =~= seq![digit_char(9)]);
            }
            "9"
        },
    }
}

/// The decimal digits of `n`.
fn digits_text(n: u32) -> (r: String)
    ensures
        r@ == digits_of(n as nat),
    decreases n,
{
    if n < 10 {
        String::from_str(digit_text(n))
    } else {
        let mut out = digits_text(n / 10);
        out.append(digit_text(n % 10));
        assert(out@ =~= digits_of((n / 10) as nat).push(digit_char((n % 10) as nat)));
        out
    }
}

/// The decimal text of `v`, with a leading `-` when it is negative.
pub fn decimal(v: i32) -> (r: String)
    ensures
        r@ == decimal_of(v as int),
{
    if v < 0 {
        let magnitude: u32 = (-(v as i64)) as u32;
        let digits = digits_text(magnitude);
        let out = String::from_str("-").concat(digits.as_str());
        proof {
            reveal_strlit("-");
            assert(out@ =~= seq!['-'] + digits_of((-v) as nat));
        }
        out
    } else {
        digits_text(v as u32)
    }
}

/// Frames a record from a message already written as a JSON string and a
/// value.
pub fn log_line(quoted: &str, value: i32) -> (r: String)
    ensures
        r@ == log_record(quoted@, value as int),
{
    let mut out = String::from_str("{\"message\":");
    out.append(quoted);
    out.append(",\"value\":");
    let number = decimal(value);
    out.append(number.as_str());
    out.append("}");
    proof {
        reveal_strlit("{\"message\":");
        reveal_strlit(",\"value\":");
        reveal_strlit("}");
        assert("{\"message\":"@ =~= seq!['{', '"', 'm', 'e', 's', 's', 'a', 'g', 'e', '"', ':']);
        assert(",\"value\":"@ =~= seq![',', '"', 'v', 'a', 'l', 'u', 'e', '"', ':']);
        assert("}"@ =~= seq!['}']);
    }
    out
}

/// The JSON record `{"message":..,"value":..}` that is logged for a message
/// and a value.
pub fn log_info(message: &str, value: i32) -> (r: String)
    ensures
        r@ == log_record(json_string_of(message@), value as int),
{
    let quoted = json_string(message);
    log_line(quoted.as_str(), value)
}

} // verus!
