//! Verified text formatting and parsing: decimal and hexadecimal
//! rendering of machine integers, and the process-id parser behind the
//! attach form.

use vstd::prelude::*;
use vstd::string::StringExecFns;

verus! {

/// The character for one decimal or hexadecimal digit value.
pub open spec fn spec_digit_char(d: int) -> char {
    if d == 0 {
        '0'
    } else if d == 1 {
        '1'
    } else if d == 2 {
        '2'
    } else if d == 3 {
        '3'
    } else if d == 4 {
        '4'
    } else if d == 5 {
        '5'
    } else if d == 6 {
        '6'
    } else if d == 7 {
        '7'
    } else if d == 8 {
        '8'
    } else if d == 9 {
        '9'
    } else if d == 10 {
        'A'
    } else if d == 11 {
        'B'
    } else if d == 12 {
        'C'
    } else if d == 13 {
        'D'
    } else if d == 14 {
        'E'
    } else {
        'F'
    }
}

/// The decimal rendering of a non-negative integer, no leading zeros.
pub open spec fn spec_dec_digits(n: int) -> Seq<char>
    decreases n when n >= 0
{
    if n < 10 {
        seq![spec_digit_char(n)]
    } else {
        spec_dec_digits(n / 10).push(spec_digit_char(n % 10))
    }
}

/// The hexadecimal rendering of `n` in exactly `width` digits, most
/// significant first, upper case.
pub open spec fn spec_hex_digits(n: int, width: int) -> Seq<char>
    decreases width when width >= 0
{
    if width <= 0 {
        Seq::empty()
    } else {
        spec_hex_digits(n / 16, width - 1).push(spec_digit_char(n % 16))
    }
}

fn digit_str(d: u64) -> (s: &'static str)
    requires
        d < 16,
    ensures
        s@ == seq![spec_digit_char(d as int)],
{
    match d {
        0 => {
            proof {
                reveal_strlit("0");
                assert("0"@ =~= seq![spec_digit_char(0)]);
            }
            "0"
        },
        1 => {
            proof {
                reveal_strlit("1");
                assert("1"@ =~= seq![spec_digit_char(1)]);
            }
            "1"
        },
        2 => {
            proof {
                reveal_strlit("2");
                assert("2"@ =~= seq![spec_digit_char(2)]);
            }
            "2"
        },
        3 => {
            proof {
                reveal_strlit("3");
                assert("3"@ =~= seq![spec_digit_char(3)]);
            }
            "3"
        },
        4 => {
            proof {
                reveal_strlit("4");
                assert("4"@ =~= seq![spec_digit_char(4)]);
            }
            "4"
        },
        5 => {
            proof {
                reveal_strlit("5");
                assert("5"@ =~= seq![spec_digit_char(5)]);
            }
            "5"
        },
        6 => {
            proof {
                reveal_strlit("6");
                assert("6"@ =~= seq![spec_digit_char(6)]);
            }
            "6"
        },
        7 => {
            proof {
                reveal_strlit("7");
                assert("7"@ =~= seq![spec_digit_char(7)]);
            }
            "7"
        },
        8 => {
            proof {
                reveal_strlit("8");
                assert("8"@ =~= seq![spec_digit_char(8)]);
            }
            "8"
        },
        9 => {
            proof {
                reveal_strlit("9");
                assert("9"@ =~= seq![spec_digit_char(9)]);
            }
            "9"
        },
        10 => {
            proof {
                reveal_strlit("A");
                assert("A"@ =~= seq![spec_digit_char(10)]);
            }
            "A"
        },
        11 => {
            proof {
                reveal_strlit("B");
                assert("B"@ =~= seq![spec_digit_char(11)]);
            }
            "B"
        },
        12 => {
            proof {
                reveal_strlit("C");
                assert("C"@ =~= seq![spec_digit_char(12)]);
            }
            "C"
        },
        13 => {
            proof {
                reveal_strlit("D");
                assert("D"@ =~= seq![spec_digit_char(13)]);
            }
            "D"
        },
        14 => {
            proof {
                reveal_strlit("E");
                assert("E"@ =~= seq![spec_digit_char(14)]);
            }
            "E"
        },
        _ => {
            proof {
                reveal_strlit("F");
                assert("F"@ =~= seq![spec_digit_char(15)]);
            }
            "F"
        },
    }
}

/// Render `n` in decimal.
pub fn u64_to_dec(n: u64) -> (s: String)
    ensures
        s@ == spec_dec_digits(n as int),
    decreases n,
{
    if n < 10 {
        String::from_str(digit_str(n))
    } else {
        let mut s = u64_to_dec(n / 10);
        s.append(digit_str(n % 10));
        s
    }
}

/// Render the low `width` hexadecimal digits of `n`, upper case.
pub fn u64_to_hex(n: u64, width: u8) -> (s: String)
    ensures
        s@ == spec_hex_digits(n as int, width as int),
    decreases width,
{
    if width == 0 {
        let s = String::new();
        assert(s@ =~= spec_hex_digits(n as int, 0));
        s
    } else {
        let mut s = u64_to_hex(n / 16, width - 1);
        s.append(digit_str(n % 16));
        s
    }
}

/// Append `n` rendered in decimal, padded with leading zeros to `width`
/// digits, to `out`. Used for fixed-width clock fields.
pub open spec fn spec_dec_padded(n: int, width: int) -> Seq<char>
    decreases width when width >= 0
{
    if width <= 0 {
        Seq::empty()
    } else {
        spec_dec_padded(n / 10, width - 1).push(spec_digit_char(n % 10))
    }
}

pub fn u64_to_dec_padded(n: u64, width: u8) -> (s: String)
    ensures
        s@ == spec_dec_padded(n as int, width as int),
    decreases width,
{
    if width == 0 {
        let s = String::new();
        assert(s@ =~= spec_dec_padded(n as int, 0));
        s
    } else {
        let mut s = u64_to_dec_padded(n / 10, width - 1);
        s.append(digit_str(n % 10));
        s
    }
}

/// The decimal rendering of a signed value: a minus sign, then digits.
pub open spec fn spec_signed_dec(n: int) -> Seq<char> {
    if n < 0 {
        seq!['-'] + spec_dec_digits(-n)
    } else {
        spec_dec_digits(n)
    }
}

/// Render a signed 32-bit value in decimal.
pub fn i32_to_dec(n: i32) -> (s: String)
    ensures
        s@ == spec_signed_dec(n as int),
{
    if n < 0 {
        let wide: i64 = n as i64;
        let mag: u64 = (-wide) as u64;
        let mut s = String::from_str("-");
        let digits = u64_to_dec(mag);
        s.append(digits.as_str());
        proof {
            reveal_strlit("-");
            assert("-"@ =~= seq!['-']);
        }
        assert(s@ =~= spec_signed_dec(n as int));
        s
    } else {
        u64_to_dec(n as u64)
    }
}

/// The `TRUE`/`FALSE` rendering of a system boolean result.
pub open spec fn spec_bool_result(value: i32) -> Seq<char> {
    if value == 0 {
        "FALSE"@
    } else {
        "TRUE"@
    }
}

pub fn bool_result(value: i32) -> (r: String)
    ensures
        r@ == spec_bool_result(value),
{
    if value == 0 {
        String::from_str("FALSE")
    } else {
        String::from_str("TRUE")
    }
}

/// The `HRESULT=0x%08X` rendering of a COM result code.
pub fn hresult_result(value: i32) -> (r: String)
    ensures
        r@ == "HRESULT=0x"@ + spec_hex_digits(value as u32 as int, 8),
{
    let mut s = String::from_str("HRESULT=0x");
    let hex = u64_to_hex(value as u32 as u64, 8);
    s.append(hex.as_str());
    s
}

/// A COM call succeeded when its result code is non-negative.
pub fn hresult_succeeded(value: i32) -> (r: bool)
    ensures
        r == (value >= 0),
{
    value >= 0
}

} // verus!
