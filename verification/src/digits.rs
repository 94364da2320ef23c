//! The digit sequence: the four decimal digits a value is displayed as.

use vstd::prelude::*;

verus! {

/// The decimal digit shown at position `i` (0 is the most significant
/// of the four) when `v` is displayed: `v` is reduced modulo 10000
/// first, so the display clamps to the last four digits and keeps
/// leading zeros.
pub open spec fn digit_at(v: int, i: int) -> int {
    let t = v % 10000;
    if i == 0 {
        (t / 1000) % 10
    } else if i == 1 {
        (t / 100) % 10
    } else if i == 2 {
        (t / 10) % 10
    } else {
        t % 10
    }
}

/// The four digits displayed for `v`, most significant first.
pub open spec fn digit_seq(v: int) -> Seq<int> {
    seq![digit_at(v, 0), digit_at(v, 1), digit_at(v, 2), digit_at(v, 3)]
}

/// Truncation law: a value and that value modulo 10000 display as the
/// same digit sequence.
pub proof fn lemma_digit_seq_truncates(v: int)
    requires
        v >= 0,
    ensures
        digit_seq(v) == digit_seq(v % 10000),
{
    assert((v % 10000) % 10000 == v % 10000) by {
        vstd::arithmetic::div_mod::lemma_small_mod((v % 10000) as nat, 10000nat);
    };
    assert(digit_seq(v) =~= digit_seq(v % 10000));
}

/// The digit at position `i` of the four-digit display of `v`.
pub fn digit_of(v: u32, i: usize) -> (d: u8)
    requires
        i < 4,
    ensures
        d as int == digit_at(v as int, i as int),
        d < 10,
{
    let t: u32 = v % 10000;
    let d: u32 = if i == 0 {
        (t / 1000) % 10
    } else if i == 1 {
        (t / 100) % 10
    } else if i == 2 {
        (t / 10) % 10
    } else {
        t % 10
    };
    d as u8
}

/// The four digits displayed for `v`, most significant first.
pub fn digit_sequence(v: u32) -> (digits: Vec<u8>)
    ensures
        digits@.len() == 4,
        forall|i: int| 0 <= i < 4 ==> digits@[i] as int == digit_at(v as int, i),
{
    let mut digits: Vec<u8> = Vec::new();
    digits.push(digit_of(v, 0));
    digits.push(digit_of(v, 1));
    digits.push(digit_of(v, 2));
    digits.push(digit_of(v, 3));
    digits
}

} // verus!
