//! Validation of the attach form's process-id field: trimming, decimal
//! parsing with overflow detection, and the zero-pid rule.

use vstd::prelude::*;
use vstd::string::StrSliceExecFns;
use crate::text::{spec_trim, trim_spaces};

verus! {

/// Why a process-id input is rejected.
#[derive(Clone, Copy, Debug, PartialEq, Eq, Structural)]
pub enum PidError {
    /// The field is empty after trimming.
    Empty,
    /// The field parses but a process id of zero cannot be attached to.
    Zero,
    /// The field is not a decimal number that fits 32 bits.
    NotANumber,
}

impl PidError {
    /// The message the attach form shows for this rejection.
    pub fn message(&self) -> (r: &'static str)
        ensures
            *self == PidError::Empty ==> r@ == "Enter a PID to enable attach."@,
            *self == PidError::Zero ==> r@ == "PID must be greater than 0."@,
            *self == PidError::NotANumber ==> r@ == "PID must be a valid number."@,
    {
        match self {
            PidError::Empty => "Enter a PID to enable attach.",
            PidError::Zero => "PID must be greater than 0.",
            PidError::NotANumber => "PID must be a valid number.",
        }
    }
}

pub open spec fn spec_is_digit(c: char) -> bool {
    48 <= c as u32 <= 57
}

pub open spec fn spec_digit_val(c: char) -> int {
    c as u32 - 48
}

pub open spec fn spec_all_digits(s: Seq<char>) -> bool {
    forall|i: int| 0 <= i < s.len() ==> spec_is_digit(#[trigger] s[i])
}

/// The number a digit string denotes.
pub open spec fn spec_dec_value(s: Seq<char>) -> int
    decreases s.len(),
{
    if s.len() == 0 {
        0
    } else {
        spec_dec_value(s.drop_last()) * 10 + spec_digit_val(s.last())
    }
}

/// The digits of the field: a single leading plus sign is accepted, as
/// the standard integer parser accepts it.
pub open spec fn spec_pid_digits(t: Seq<char>) -> Seq<char> {
    if t.len() > 0 && t[0] == '+' {
        t.drop_first()
    } else {
        t
    }
}

/// A trimmed, non-empty field that denotes a 32-bit number.
pub open spec fn spec_pid_parses(t: Seq<char>) -> bool {
    let b = spec_pid_digits(t);
    b.len() > 0 && spec_all_digits(b) && spec_dec_value(b) <= u32::MAX
}

proof fn lemma_dec_value_nonneg(s: Seq<char>)
    requires
        spec_all_digits(s),
    ensures
        spec_dec_value(s) >= 0,
    decreases s.len(),
{
    if s.len() > 0 {
        assert(spec_all_digits(s.drop_last()));
        lemma_dec_value_nonneg(s.drop_last());
    }
}

/// A digit string's value never falls as more digits follow.
proof fn lemma_dec_value_prefix(s: Seq<char>, k: int)
    requires
        spec_all_digits(s),
        0 <= k <= s.len(),
    ensures
        spec_dec_value(s.take(k)) <= spec_dec_value(s),
    decreases s.len() - k,
{
    if k < s.len() {
        assert(s.take(k + 1).drop_last() =~= s.take(k));
        assert(spec_all_digits(s.take(k + 1)));
        lemma_dec_value_nonneg(s.take(k));
        lemma_dec_value_prefix(s, k + 1);
    } else {
        assert(s.take(k) =~= s);
    }
}

/// Validate the attach form's process-id field: trim it, require a
/// non-empty decimal number that fits 32 bits, and reject zero.
pub fn validate_pid(pid_input: &str) -> (r: Result<u32, PidError>)
    ensures
        ({
            let t = spec_trim(pid_input@);
            let b = spec_pid_digits(t);
            &&& (t.len() == 0 ==> r == Err::<u32, PidError>(PidError::Empty))
            &&& (t.len() > 0 && !spec_pid_parses(t) ==> r == Err::<u32, PidError>(
                PidError::NotANumber,
            ))
            &&& (t.len() > 0 && spec_pid_parses(t) && spec_dec_value(b) == 0 ==> r == Err::<
                u32,
                PidError,
            >(PidError::Zero))
            &&& (t.len() > 0 && spec_pid_parses(t) && spec_dec_value(b) > 0 ==> r == Ok::<
                u32,
                PidError,
            >(spec_dec_value(b) as u32))
        }),
{
    let trimmed = trim_spaces(pid_input);
    let n = trimmed.unicode_len();
    if n == 0 {
        return Err(PidError::Empty);
    }
    let start: usize = if trimmed.get_char(0) as u32 == 43 {
        1
    } else {
        0
    };
    let ghost t = trimmed@;
    let ghost b = spec_pid_digits(t);
    proof {
        if start == 1 {
            assert(b =~= t.skip(1));
        } else {
            assert(b =~= t);
        }
    }
    if start == 1 && n == 1 {
        return Err(PidError::NotANumber);
    }
    let mut value: u64 = 0;
    let mut i: usize = start;
    while i < n
        invariant
            start <= i <= n == t.len(),
            t == trimmed@,
            t == spec_trim(pid_input@),
            t.len() > 0,
            b == spec_pid_digits(t),
            b == t.skip(start as int),
            n - start == b.len(),
            value <= u32::MAX,
            spec_all_digits(b.take(i - start)),
            value == spec_dec_value(b.take(i - start)),
        decreases n - i,
    {
        let c = trimmed.get_char(i);
        let u = c as u32;
        if u < 48 || u > 57 {
            proof {
                assert(b[i - start] == t[i as int]);
                assert(!spec_is_digit(b[i - start]));
            }
            return Err(PidError::NotANumber);
        }
        let d: u64 = (u - 48) as u64;
        let next: u64 = value * 10 + d;
        proof {
            assert(b.take(i - start + 1).drop_last() =~= b.take(i - start));
            assert(b.take(i - start + 1).last() == b[i - start]);
            assert(b[i - start] == t[i as int]);
        }
        if next > u32::MAX as u64 {
            proof {
                assert(spec_dec_value(b.take(i - start + 1)) == next);
                // the value only grows with the remaining digits, so the
                // whole field exceeds 32 bits whenever its digits are valid
                if spec_all_digits(b) {
                    lemma_dec_value_prefix(b, i - start + 1);
                    assert(spec_dec_value(b) > u32::MAX);
                }
            }
            return Err(PidError::NotANumber);
        }
        value = next;
        i += 1;
    }
    proof {
        assert(b.take(n - start) =~= b);
    }
    if value == 0 {
        Err(PidError::Zero)
    } else {
        Ok(value as u32)
    }
}

} // verus!
