//! The grammar of IP address literals, and a verified recogniser for it.
//!
//! The configuration loader accepts `--server-addr` only when the value is a
//! well-formed IPv4 or IPv6 literal. The grammar follows RFC 4291 and the
//! common dotted-decimal form: an IPv4 literal is four dot-separated decimal
//! octets of at most three digits each, value at most 255, with no leading
//! zeros; an IPv6 literal is up to eight colon-separated groups of one to
//! four hexadecimal digits, where `::` may stand for one or more zero groups
//! once, and the last two groups may be written as an embedded IPv4 literal.

use crate::scan::dec_run;
use crate::scan::dec_run_len;
use crate::scan::dec_val;
use crate::scan::hex_run;
use crate::scan::hex_run_len;
use crate::scan::is_dec_digit;
use crate::scan::lemma_dec_run_digits;
use vstd::prelude::*;

verus! {

/// The byte `b'.'`.
pub const DOT: u8 = 0x2e;

/// The byte `b':'`.
pub const COLON: u8 = 0x3a;

/// Position just after a decimal octet beginning at `from`: one to three
/// decimal digits, no leading zero, value at most 255.
pub open spec fn octet_end(s: Seq<u8>, from: int) -> Option<int> {
    let run = dec_run_len(s, from);
    if 1 <= run <= 3 && !(s[from] == 0x30 && run != 1) && dec_val(
        s.subrange(from, from + run),
    ) <= 255 {
        Some(from + run)
    } else {
        None
    }
}

/// Position just after `n` dot-separated decimal octets beginning at `from`.
pub open spec fn octets_end(s: Seq<u8>, from: int, n: nat) -> Option<int>
    decreases n,
{
    if n == 0 {
        None
    } else {
        match octet_end(s, from) {
            None => None,
            Some(e) => if n == 1 {
                Some(e)
            } else if e < s.len() && s[e] == DOT {
                octets_end(s, e + 1, (n - 1) as nat)
            } else {
                None
            },
        }
    }
}

/// Position just after an IPv4 literal beginning at `from`.
pub open spec fn ipv4_end(s: Seq<u8>, from: int) -> Option<int> {
    octets_end(s, from, 4)
}

/// `s` is exactly an IPv4 literal.
pub open spec fn is_ipv4_literal(s: Seq<u8>) -> bool {
    ipv4_end(s, 0) == Some(s.len() as int)
}

/// Position just after one IPv6 group beginning at `from`: one to four
/// hexadecimal digits.
pub open spec fn group_end(s: Seq<u8>, from: int) -> Option<int> {
    let run = hex_run_len(s, from);
    if 1 <= run <= 4 {
        Some(from + run)
    } else {
        None
    }
}

/// Reads colon-separated IPv6 groups beginning at `from`, at most `slots`
/// of them, greedily. A group is preceded by `:` unless it is the first.
/// An embedded IPv4 literal may stand where at least two slots remain; it
/// fills two slots and ends the run. Returns the number of slots filled,
/// the position just after the last group read, and whether the run ended
/// with an embedded IPv4 literal.
pub open spec fn groups_end(s: Seq<u8>, from: int, first: bool, slots: nat) -> (nat, int, bool)
    decreases slots,
{
    if slots == 0 {
        (0 as nat, from, false)
    } else if !first && !(from < s.len() && s[from] == COLON) {
        (0 as nat, from, false)
    } else {
        let gs = if first {
            from
        } else {
            from + 1
        };
        if slots >= 2 && ipv4_end(s, gs) is Some {
            (2 as nat, ipv4_end(s, gs)->Some_0, true)
        } else {
            match group_end(s, gs) {
                None => (0 as nat, from, false),
                Some(e) => {
                    let rest = groups_end(s, e, false, (slots - 1) as nat);
                    ((rest.0 + 1) as nat, rest.1, rest.2)
                },
            }
        }
    }
}

/// `s` is exactly an IPv6 literal: eight groups, or fewer groups around one
/// `::` standing for the missing ones. An embedded IPv4 literal may only
/// close the address.
pub open spec fn is_ipv6_literal(s: Seq<u8>) -> bool {
    let head = groups_end(s, 0, true, 8);
    if head.0 == 8 {
        head.1 == s.len()
    } else if head.2 {
        false
    } else if head.1 + 2 <= s.len() && s[head.1] == COLON && s[head.1 + 1] == COLON {
        let tail = groups_end(s, head.1 + 2, true, (7 - head.0) as nat);
        tail.1 == s.len()
    } else {
        false
    }
}

/// `s` is an IP address literal, IPv4 or IPv6.
pub open spec fn is_ip_literal(s: Seq<u8>) -> bool {
    is_ipv4_literal(s) || is_ipv6_literal(s)
}

fn octet_after(s: &Vec<u8>, from: usize) -> (r: Option<usize>)
    requires
        from <= s.len(),
    ensures
        match r {
            Some(e) => octet_end(s@, from as int) == Some(e as int) && from < e <= s.len(),
            None => octet_end(s@, from as int) is None,
        },
{
    let run = dec_run(s, from);
    if run == 0 || run > 3 {
        return None;
    }
    proof {
        lemma_dec_run_digits(s@, from as int, from as int);
        if run >= 2 {
            lemma_dec_run_digits(s@, from as int, from as int + 1);
        }
        if run >= 3 {
            lemma_dec_run_digits(s@, from as int, from as int + 2);
        }
    }
    if s[from] == 0x30 && run != 1 {
        return None;
    }
    proof {
        reveal_with_fuel(crate::scan::dec_val, 4);
    }
    let ghost sub = s@.subrange(from as int, from as int + run as int);
    let v: u16 = if run == 1 {
        (s[from] - 0x30) as u16
    } else if run == 2 {
        (s[from] - 0x30) as u16 * 10 + (s[from + 1] - 0x30) as u16
    } else {
        (s[from] - 0x30) as u16 * 100 + (s[from + 1] - 0x30) as u16 * 10 + (s[from + 2]
            - 0x30) as u16
    };
    proof {
        if run == 1 {
            assert(sub.drop_last() =~= Seq::<u8>::empty());
            assert(sub.last() == s@[from as int]);
        } else if run == 2 {
            assert(sub.drop_last() =~= s@.subrange(from as int, from as int + 1));
            assert(sub.drop_last().drop_last() =~= Seq::<u8>::empty());
            assert(sub.last() == s@[from as int + 1]);
            assert(sub.drop_last().last() == s@[from as int]);
        } else {
            assert(sub.drop_last() =~= s@.subrange(from as int, from as int + 2));
            assert(sub.drop_last().drop_last() =~= s@.subrange(from as int, from as int + 1));
            assert(sub.drop_last().drop_last().drop_last() =~= Seq::<u8>::empty());
            assert(sub.last() == s@[from as int + 2]);
            assert(sub.drop_last().last() == s@[from as int + 1]);
            assert(sub.drop_last().drop_last().last() == s@[from as int]);
        }
        assert(v == dec_val(sub));
    }
    if v > 255 {
        None
    } else {
        Some(from + run)
    }
}

fn octets_after(s: &Vec<u8>, from: usize, n: u8) -> (r: Option<usize>)
    requires
        from <= s.len(),
        1 <= n,
    ensures
        match r {
            Some(e) => octets_end(s@, from as int, n as nat) == Some(e as int) && from < e
                <= s.len(),
            None => octets_end(s@, from as int, n as nat) is None,
        },
    decreases n,
{
    match octet_after(s, from) {
        None => None,
        Some(e) => if n == 1 {
            Some(e)
        } else if e < s.len() && s[e] == DOT {
            octets_after(s, e + 1, n - 1)
        } else {
            None
        },
    }
}

fn ipv4_after(s: &Vec<u8>, from: usize) -> (r: Option<usize>)
    requires
        from <= s.len(),
    ensures
        match r {
            Some(e) => ipv4_end(s@, from as int) == Some(e as int) && from < e <= s.len(),
            None => ipv4_end(s@, from as int) is None,
        },
{
    octets_after(s, from, 4)
}

fn group_after(s: &Vec<u8>, from: usize) -> (r: Option<usize>)
    requires
        from <= s.len(),
    ensures
        match r {
            Some(e) => group_end(s@, from as int) == Some(e as int) && from < e <= s.len(),
            None => group_end(s@, from as int) is None,
        },
{
    let run = hex_run(s, from);
    if 1 <= run && run <= 4 {
        Some(from + run)
    } else {
        None
    }
}

fn groups_after(s: &Vec<u8>, from: usize, first: bool, slots: u8) -> (r: (u8, usize, bool))
    requires
        from <= s.len(),
        slots <= 8,
    ensures
        r.0 as nat == groups_end(s@, from as int, first, slots as nat).0,
        r.1 as int == groups_end(s@, from as int, first, slots as nat).1,
        r.2 == groups_end(s@, from as int, first, slots as nat).2,
        r.0 <= slots,
        from <= r.1 <= s.len(),
    decreases slots,
{
    if slots == 0 {
        (0, from, false)
    } else if !first && !(from < s.len() && s[from] == COLON) {
        (0, from, false)
    } else {
        let gs = if first {
            from
        } else {
            from + 1
        };
        if slots >= 2 {
            if let Some(e) = ipv4_after(s, gs) {
                return (2, e, true);
            }
        }
        match group_after(s, gs) {
            None => (0, from, false),
            Some(e) => {
                let rest = groups_after(s, e, false, slots - 1);
                (rest.0 + 1, rest.1, rest.2)
            },
        }
    }
}

/// Whether `s` is exactly an IPv4 literal.
pub fn parse_ipv4(s: &Vec<u8>) -> (r: bool)
    ensures
        r == is_ipv4_literal(s@),
{
    match ipv4_after(s, 0) {
        Some(e) => e == s.len(),
        None => false,
    }
}

/// Whether `s` is exactly an IPv6 literal.
pub fn parse_ipv6(s: &Vec<u8>) -> (r: bool)
    ensures
        r == is_ipv6_literal(s@),
{
    let head = groups_after(s, 0, true, 8);
    if head.0 == 8 {
        head.1 == s.len()
    } else if head.2 {
        false
    } else if head.1 < s.len() && head.1 + 1 < s.len() && s[head.1] == COLON && s[head.1 + 1]
        == COLON {
        let tail = groups_after(s, head.1 + 2, true, 7 - head.0);
        tail.1 == s.len()
    } else {
        false
    }
}

/// Whether `s` is an IP address literal, IPv4 or IPv6.
pub fn parse_ip_literal(s: &Vec<u8>) -> (r: bool)
    ensures
        r == is_ip_literal(s@),
{
    parse_ipv4(s) || parse_ipv6(s)
}

} // verus!
