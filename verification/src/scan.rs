//! Byte-level scanning helpers shared by the address grammar, the
//! configuration loader and the access-log formatter: decimal and
//! hexadecimal digit runs, and decimal rendering of integers.

use vstd::prelude::*;

verus! {

/// A decimal digit byte, `b'0'` through `b'9'`.
pub open spec fn is_dec_digit(b: u8) -> bool {
    0x30 <= b <= 0x39
}

/// The numeric value of one decimal digit byte.
pub open spec fn dec_digit_val(b: u8) -> int {
    b - 0x30
}

/// A hexadecimal digit byte, upper or lower case.
pub open spec fn is_hex_digit(b: u8) -> bool {
    is_dec_digit(b) || (0x41 <= b <= 0x46) || (0x61 <= b <= 0x66)
}

/// The numeric value of the decimal digit bytes of `s`, most significant
/// first. Only meaningful when every byte of `s` is a decimal digit.
pub open spec fn dec_val(s: Seq<u8>) -> int
    decreases s.len(),
{
    if s.len() == 0 {
        0
    } else {
        dec_val(s.drop_last()) * 10 + dec_digit_val(s.last())
    }
}

/// `s` is non-empty and all of its bytes are decimal digits.
pub open spec fn is_dec_run(s: Seq<u8>) -> bool {
    s.len() >= 1 && forall|i: int| 0 <= i < s.len() ==> is_dec_digit(#[trigger] s[i])
}

/// Length of the longest run of decimal digit bytes of `s` beginning at
/// `from`.
pub open spec fn dec_run_len(s: Seq<u8>, from: int) -> int
    decreases s.len() - from when 0 <= from <= s.len()
{
    if from < s.len() && is_dec_digit(s[from]) {
        1 + dec_run_len(s, from + 1)
    } else {
        0
    }
}

/// Length of the longest run of hexadecimal digit bytes of `s` beginning at
/// `from`.
pub open spec fn hex_run_len(s: Seq<u8>, from: int) -> int
    decreases s.len() - from when 0 <= from <= s.len()
{
    if from < s.len() && is_hex_digit(s[from]) {
        1 + hex_run_len(s, from + 1)
    } else {
        0
    }
}

proof fn lemma_dec_run_len(s: Seq<u8>, from: int, end: int)
    requires
        0 <= from <= end <= s.len(),
        forall|i: int| from <= i < end ==> is_dec_digit(#[trigger] s[i]),
        end == s.len() || !is_dec_digit(s[end]),
    ensures
        dec_run_len(s, from) == end - from,
    decreases end - from,
{
    if from < end {
        lemma_dec_run_len(s, from + 1, end);
    }
}

proof fn lemma_hex_run_len(s: Seq<u8>, from: int, end: int)
    requires
        0 <= from <= end <= s.len(),
        forall|i: int| from <= i < end ==> is_hex_digit(#[trigger] s[i]),
        end == s.len() || !is_hex_digit(s[end]),
    ensures
        hex_run_len(s, from) == end - from,
    decreases end - from,
{
    if from < end {
        lemma_hex_run_len(s, from + 1, end);
    }
}

/// Every byte of the run counted by `dec_run_len` is a decimal digit.
pub proof fn lemma_dec_run_digits(s: Seq<u8>, from: int, i: int)
    requires
        0 <= from <= s.len(),
        from <= i < from + dec_run_len(s, from),
    ensures
        is_dec_digit(s[i]),
    decreases i - from,
{
    if i > from {
        lemma_dec_run_digits(s, from + 1, i);
    }
}

/// A decimal digit run stops at the end of `s` or just before a byte that is
/// not a decimal digit.
pub proof fn lemma_dec_run_stop(s: Seq<u8>, from: int)
    requires
        0 <= from <= s.len(),
    ensures
        0 <= dec_run_len(s, from),
        from + dec_run_len(s, from) <= s.len(),
        from + dec_run_len(s, from) == s.len() || !is_dec_digit(s[from + dec_run_len(s, from)]),
    decreases s.len() - from,
{
    if from < s.len() && is_dec_digit(s[from]) {
        lemma_dec_run_stop(s, from + 1);
    }
}

/// Length of the decimal digit run of `s` beginning at `from`.
pub fn dec_run(s: &Vec<u8>, from: usize) -> (r: usize)
    requires
        from <= s.len(),
    ensures
        r == dec_run_len(s@, from as int),
        from + r <= s.len(),
{
    let mut i: usize = from;
    while i < s.len() && 0x30 <= s[i] && s[i] <= 0x39
        invariant
            from <= i <= s.len(),
            forall|j: int| from <= j < i ==> is_dec_digit(#[trigger] s@[j]),
        decreases s.len() - i,
    {
        i = i + 1;
    }
    proof {
        lemma_dec_run_len(s@, from as int, i as int);
    }
    i - from
}

/// Length of the hexadecimal digit run of `s` beginning at `from`.
pub fn hex_run(s: &Vec<u8>, from: usize) -> (r: usize)
    requires
        from <= s.len(),
    ensures
        r == hex_run_len(s@, from as int),
        from + r <= s.len(),
{
    let mut i: usize = from;
    while i < s.len() && (0x30 <= s[i] && s[i] <= 0x39 || 0x41 <= s[i] && s[i] <= 0x46
        || 0x61 <= s[i] && s[i] <= 0x66)
        invariant
            from <= i <= s.len(),
            forall|j: int| from <= j < i ==> is_hex_digit(#[trigger] s@[j]),
        decreases s.len() - i,
    {
        i = i + 1;
    }
    proof {
        lemma_hex_run_len(s@, from as int, i as int);
    }
    i - from
}

/// The decimal digit bytes of a non-negative integer, most significant
/// first, with no leading zero (the number zero is the single byte `b'0'`).
pub open spec fn dec_bytes(n: int) -> Seq<u8>
    decreases n when n >= 0
{
    if n < 10 {
        seq![(0x30 + n) as u8]
    } else {
        dec_bytes(n / 10).push((0x30 + n % 10) as u8)
    }
}

/// Appends the decimal rendering of `n` to `out`.
pub fn push_dec(out: &mut Vec<u8>, n: u64)
    ensures
        final(out)@ == old(out)@ + dec_bytes(n as int),
    decreases n,
{
    if n < 10 {
        out.push(0x30 + n as u8);
        assert(final(out)@ =~= old(out)@ + dec_bytes(n as int));
    } else {
        push_dec(out, n / 10);
        out.push(0x30 + (n % 10) as u8);
        assert(final(out)@ =~= old(out)@ + dec_bytes(n as int));
    }
}

} // verus!
