//! Textual encodings used by the data-transfer forms of outputs: decimal
//! amounts and 0x-prefixed hexadecimal byte strings.

use vstd::prelude::*;
use vstd::string::StrSliceExecFns;

verus! {

/// A decimal digit.
pub open spec fn is_digit(c: char) -> bool {
    '0' <= c && c <= '9'
}

/// The value of a decimal digit.
pub open spec fn digit_val(c: char) -> int {
    c as int - '0' as int
}

/// A non-empty string of decimal digits.
pub open spec fn is_decimal(s: Seq<char>) -> bool {
    s.len() > 0 && forall|i: int| 0 <= i < s.len() ==> is_digit(#[trigger] s[i])
}

/// The number a digit string denotes.
pub open spec fn decimal_value(s: Seq<char>) -> int
    decreases s.len(),
{
    if s.len() == 0 {
        0
    } else {
        decimal_value(s.drop_last()) * 10 + digit_val(s.last())
    }
}

/// A longer digit prefix never denotes a smaller number.
proof fn lemma_decimal_prefix_monotone(s: Seq<char>, i: int, j: int)
    requires
        0 <= i <= j <= s.len(),
        forall|k: int| 0 <= k < s.len() ==> is_digit(#[trigger] s[k]),
    ensures
        0 <= decimal_value(s.take(i)) <= decimal_value(s.take(j)),
    decreases j - i,
{
    if i == j {
        lemma_decimal_nonneg(s.take(i), s);
    } else {
        lemma_decimal_prefix_monotone(s, i, j - 1);
        assert(s.take(j).drop_last() =~= s.take(j - 1));
        assert(s.take(j).last() == s[j - 1]);
    }
}

/// A digit string denotes a non-negative number.
proof fn lemma_decimal_nonneg(p: Seq<char>, s: Seq<char>)
    requires
        forall|k: int| 0 <= k < p.len() ==> is_digit(#[trigger] p[k]),
    ensures
        decimal_value(p) >= 0,
    decreases p.len(),
{
    if p.len() > 0 {
        lemma_decimal_nonneg(p.drop_last(), s);
    }
}

/// Reads a decimal number; `None` when the string is not a non-empty digit
/// string or the number does not fit.
pub fn parse_u64_decimal(s: &str) -> (r: Option<u64>)
    ensures
        r is Some <==> (is_decimal(s@) && decimal_value(s@) <= u64::MAX),
        r is Some ==> r->0 as int == decimal_value(s@),
{
    let n = s.unicode_len();
    if n == 0 {
        return None;
    }
    let mut value: u64 = 0;
    let mut i: usize = 0;
    proof {
        assert(s@.take(0) =~= Seq::<char>::empty());
    }
    while i < n
        invariant
            0 <= i <= n,
            n as nat == s@.len(),
            forall|k: int| 0 <= k < i ==> is_digit(#[trigger] s@[k]),
            value as int == decimal_value(s@.take(i as int)),
        decreases n - i,
    {
        let c = s.get_char(i);
        if !(('0' <= c) && (c <= '9')) {
            return None;
        }
        let d: u64 = (c as u32 - '0' as u32) as u64;
        let wide: u128 = (value as u128) * 10 + (d as u128);
        proof {
            assert(s@.take(i as int + 1).drop_last() =~= s@.take(i as int));
            assert(s@.take(i as int + 1).last() == s@[i as int]);
        }
        if wide > u64::MAX as u128 {
            proof {
                if is_decimal(s@) {
                    lemma_decimal_prefix_monotone(s@, i as int + 1, s@.len() as int);
                    assert(s@.take(s@.len() as int) =~= s@);
                }
            }
            return None;
        }
        value = wide as u64;
        i += 1;
    }
    proof {
        assert(s@.take(n as int) =~= s@);
    }
    Some(value)
}

/// A hexadecimal digit.
pub open spec fn is_hex_digit(c: char) -> bool {
    ('0' <= c && c <= '9') || ('a' <= c && c <= 'f') || ('A' <= c && c <= 'F')
}

/// The value of a hexadecimal digit.
pub open spec fn hex_val(c: char) -> int {
    if '0' <= c && c <= '9' {
        c as int - '0' as int
    } else if 'a' <= c && c <= 'f' {
        c as int - 'a' as int + 10
    } else {
        c as int - 'A' as int + 10
    }
}

/// A `0x`-prefixed string of hexadecimal digit pairs.
pub open spec fn is_prefixed_hex(s: Seq<char>) -> bool {
    &&& s.len() >= 2
    &&& s[0] == '0'
    &&& s[1] == 'x'
    &&& (s.len() - 2) % 2 == 0
    &&& forall|i: int| 2 <= i < s.len() ==> is_hex_digit(#[trigger] s[i])
}

/// The bytes a prefixed hexadecimal string denotes.
pub open spec fn hex_bytes(s: Seq<char>) -> Seq<u8> {
    Seq::new(((s.len() - 2) / 2) as nat, |i: int| (hex_val(s[2 + 2 * i]) * 16 + hex_val(s[2 + 2 * i + 1])) as u8)
}

/// The value of one hexadecimal digit character.
fn hex_digit_value(c: char) -> (r: Option<u8>)
    ensures
        r is Some <==> is_hex_digit(c),
        r is Some ==> r->0 as int == hex_val(c),
{
    if '0' <= c && c <= '9' {
        Some((c as u32 - '0' as u32) as u8)
    } else if 'a' <= c && c <= 'f' {
        Some((c as u32 - 'a' as u32 + 10) as u8)
    } else if 'A' <= c && c <= 'F' {
        Some((c as u32 - 'A' as u32 + 10) as u8)
    } else {
        None
    }
}

/// Reads a `0x`-prefixed hexadecimal byte string; `None` when the prefix is
/// missing, a digit is not hexadecimal, or the digits do not pair up.
pub fn hex_decode(s: &str) -> (r: Option<Vec<u8>>)
    ensures
        r is Some <==> is_prefixed_hex(s@),
        r is Some ==> r->0@ == hex_bytes(s@),
{
    let n = s.unicode_len();
    if n < 2 {
        return None;
    }
    if s.get_char(0) != '0' || s.get_char(1) != 'x' {
        return None;
    }
    if (n - 2) % 2 != 0 {
        return None;
    }
    let pairs = (n - 2) / 2;
    let mut out: Vec<u8> = Vec::new();
    let mut i: usize = 0;
    while i < pairs
        invariant
            0 <= i <= pairs,
            n as nat == s@.len(),
            n >= 2,
            (n - 2) % 2 == 0,
            pairs == (n - 2) / 2,
            out@.len() == i,
            forall|k: int|
                2 <= k < 2 + 2 * i ==> is_hex_digit(#[trigger] s@[k]),
            forall|k: int|
                0 <= k < i ==> out@[k] as int == hex_val(s@[2 + 2 * k]) * 16 + hex_val(
                    s@[2 + 2 * k + 1],
                ),
        decreases pairs - i,
    {
        let hi = match hex_digit_value(s.get_char(2 + 2 * i)) {
            Some(v) => v,
            None => {
                return None;
            },
        };
        let lo = match hex_digit_value(s.get_char(2 + 2 * i + 1)) {
            Some(v) => v,
            None => {
                return None;
            },
        };
        proof {
            assert(hi < 16 && lo < 16);
        }
        out.push(hi * 16 + lo);
        i += 1;
    }
    proof {
        assert(out@ =~= hex_bytes(s@));
    }
    Some(out)
}

} // verus!
