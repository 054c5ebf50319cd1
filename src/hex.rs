//! The printed form of a machine word.
use vstd::prelude::*;

verus! {

/// The upper-case hexadecimal digit for a value below sixteen.
pub open spec fn hex_digit(d: u16) -> char {
    seq!['0', '1', '2', '3', '4', '5', '6', '7', '8', '9', 'A', 'B', 'C', 'D', 'E', 'F'][d as int]
}

/// A word as four upper-case hexadecimal digits, most significant first,
/// with leading zeros.
pub open spec fn hex_word(w: u16) -> Seq<char> {
    seq![
        hex_digit(w / 4096),
        hex_digit((w / 256) % 16),
        hex_digit((w / 16) % 16),
        hex_digit(w % 16),
    ]
}

/// The digit for `d`.
fn digit_char(d: u16) -> (c: char)
    requires
        d < 16,
    ensures
        c == hex_digit(d),
{
    let digits = ['0', '1', '2', '3', '4', '5', '6', '7', '8', '9', 'A', 'B', 'C', 'D', 'E', 'F'];
    assert(digits@ == seq!['0', '1', '2', '3', '4', '5', '6', '7', '8', '9', 'A', 'B', 'C', 'D', 'E', 'F']);
    digits[d as usize]
}

/// The four hexadecimal digits of `w`.
pub fn hex_digits(w: u16) -> (r: Vec<char>)
    ensures
        r@ == hex_word(w),
{
    let mut r: Vec<char> = Vec::new();
    r.push(digit_char(w / 4096));
    r.push(digit_char((w / 256) % 16));
    r.push(digit_char((w / 16) % 16));
    r.push(digit_char(w % 16));
    assert(r@ =~= hex_word(w));
    r
}

} // verus!
