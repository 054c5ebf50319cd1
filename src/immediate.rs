//! Decimal literals for the immediate operands.
use vstd::prelude::*;
use crate::isa::AsmError;
use crate::text::chars_of;

verus! {

/// Whether `c` is one of the ASCII decimal digits.
pub open spec fn is_digit(c: char) -> bool {
    '0' <= c && c <= '9'
}

/// A non-empty run of decimal digits.
pub open spec fn all_digits(s: Seq<char>) -> bool {
    s.len() > 0 && forall|i: int| 0 <= i < s.len() ==> is_digit(#[trigger] s[i])
}

/// The value of a run of decimal digits, most significant first.
pub open spec fn digits_value(s: Seq<char>) -> int
    decreases s.len(),
{
    if s.len() == 0 {
        0
    } else {
        digits_value(s.drop_last()) * 10 + (s.last() as int - '0' as int)
    }
}

/// The value that a signed decimal literal denotes: an optional `+` or `-`
/// followed by one or more digits, and nothing else.
pub open spec fn literal_value(s: Seq<char>) -> Option<int> {
    if s.len() > 0 && s[0] == '-' {
        if all_digits(s.drop_first()) { Some(-digits_value(s.drop_first())) } else { None }
    } else if s.len() > 0 && s[0] == '+' {
        if all_digits(s.drop_first()) { Some(digits_value(s.drop_first())) } else { None }
    } else if all_digits(s) {
        Some(digits_value(s))
    } else {
        None
    }
}

/// Reading an immediate: a literal whose value fits 16-bit two's complement.
pub open spec fn imm_result(s: Seq<char>) -> Result<i16, AsmError> {
    match literal_value(s) {
        Some(v) => if i16::MIN <= v && v <= i16::MAX {
            Ok(v as i16)
        } else {
            Err(AsmError::MalformedImmediate)
        },
        None => Err(AsmError::MalformedImmediate),
    }
}

/// Past this magnitude no literal fits; the running value is held there.
const MAGNITUDE_CAP: u32 = 32769;

/// The running value of the digits, held at the cap once it is reached.
spec fn capped(v: int) -> int {
    if v < MAGNITUDE_CAP { v } else { MAGNITUDE_CAP as int }
}

proof fn lemma_digits_nonneg(s: Seq<char>)
    requires
        forall|i: int| 0 <= i < s.len() ==> is_digit(#[trigger] s[i]),
    ensures
        digits_value(s) >= 0,
    decreases s.len(),
{
    if s.len() > 0 {
        lemma_digits_nonneg(s.drop_last());
    }
}

/// The immediate value written in the characters `t`.
pub fn imm_of(t: &[char]) -> (r: Result<i16, AsmError>)
    ensures
        r == imm_result(t@),
{
    let n = t.len();
    let mut start: usize = 0;
    let mut negative = false;
    if n > 0 && (t[0] == '-' || t[0] == '+') {
        negative = t[0] == '-';
        start = 1;
    }
    let ghost body = t@.subrange(start as int, n as int);
    proof {
        if start == 1 {
            assert(body =~= t@.drop_first());
        } else {
            assert(body =~= t@);
        }
    }
    if start == n {
        return Err(AsmError::MalformedImmediate);
    }
    let mut acc: u32 = 0;
    let mut i: usize = start;
    while i < n
        invariant
            start <= 1,
            start <= i <= n,
            n == t@.len(),
            body == t@.subrange(start as int, n as int),
            start == 0 ==> body == t@ && !(t@[0] == '-' || t@[0] == '+'),
            start == 1 ==> body == t@.drop_first() && (t@[0] == '-' || t@[0] == '+'),
            negative == (start == 1 && t@[0] == '-'),
            forall|j: int| start <= j < i ==> is_digit(#[trigger] t@[j]),
            acc == capped(digits_value(t@.subrange(start as int, i as int))),
        decreases n - i,
    {
        let c = t[i];
        if !('0' <= c && c <= '9') {
            proof {
                assert(body[i - start] == c);

            }
            return Err(AsmError::MalformedImmediate);
        }
        let d = (c as u32) - ('0' as u32);
        proof {
            let prev = t@.subrange(start as int, i as int);
            let next = t@.subrange(start as int, i + 1);
            assert(next.drop_last() =~= prev);
            assert forall|j: int| 0 <= j < prev.len() implies is_digit(#[trigger] prev[j]) by {
                assert(prev[j] == t@[start + j]);
            }
            lemma_digits_nonneg(prev);
            let v = digits_value(prev);
            if v >= MAGNITUDE_CAP {
                assert(v * 10 + d >= MAGNITUDE_CAP) by (nonlinear_arith)
                    requires v >= MAGNITUDE_CAP, d >= 0;
            }
        }
        if acc < MAGNITUDE_CAP {
            acc = acc * 10 + d;
            if acc > MAGNITUDE_CAP {
                acc = MAGNITUDE_CAP;
            }
        }
        i = i + 1;
    }
    proof {
        assert(t@.subrange(start as int, n as int) =~= body);
        assert forall|j: int| 0 <= j < body.len() implies is_digit(#[trigger] body[j]) by {
            assert(body[j] == t@[start + j]);
        }
    }
    if negative {
        if acc <= 32768 {
            Ok((0 - (acc as i32)) as i16)
        } else {
            Err(AsmError::MalformedImmediate)
        }
    } else {
        if acc <= 32767 {
            Ok(acc as i16)
        } else {
            Err(AsmError::MalformedImmediate)
        }
    }
}

/// The immediate value written in `imm`, in base ten with an optional sign.
pub fn get_imm_data(imm: &str) -> (r: Result<i16, AsmError>)
    ensures
        r == imm_result(imm@),
{
    let t = chars_of(imm);
    imm_of(t.as_slice())
}

} // verus!
