//! Decoding of the binary form of a Postgres `NUMERIC`: a header of four
//! big-endian 16-bit fields (digit count, weight, sign, display scale)
//! followed by base-10000 digit groups, rendered as decimal text.

use vstd::prelude::*;

use crate::cells::{all_digits, digits_value, is_digit};
use crate::text::{
    chars_of, decimal, decimal_len, digit_char, lemma_decimal_len, lemma_decimal_len_bound, pow10, push_char,
    push_decimal, push_padded, push_str, string_from, zero_pad, zeros,
};

verus! {

broadcast use vstd::string::group_string_axioms;

/// The big-endian 16-bit value at byte `i`.
pub open spec fn be16(raw: Seq<u8>, i: int) -> nat {
    (raw[i] as nat) * 256 + (raw[i + 1] as nat)
}

/// A 16-bit pattern read as a two's-complement signed value.
pub open spec fn signed16(v: nat) -> int {
    if v >= 32768 {
        v - 65536
    } else {
        v as int
    }
}

/// Base-10000 digit group `i`, or zero outside the `nd` groups present.
pub open spec fn group(raw: Seq<u8>, nd: nat, i: int) -> nat {
    if 0 <= i < nd {
        be16(raw, 8 + 2 * i)
    } else {
        0
    }
}

/// The integer part for groups `0..k`: the first group plain, the others
/// padded to four digits.
pub open spec fn int_groups(raw: Seq<u8>, nd: nat, k: nat) -> Seq<char>
    decreases k,
{
    if k == 0 {
        Seq::empty()
    } else {
        let i = k - 1;
        int_groups(raw, nd, (k - 1) as nat) + if i == 0 {
            decimal(group(raw, nd, i))
        } else {
            zero_pad(decimal(group(raw, nd, i)), 4)
        }
    }
}

/// The fraction digits of the groups after the weight, `k` groups of at
/// least four digits each.
pub open spec fn frac_groups(raw: Seq<u8>, nd: nat, weight: int, k: nat) -> Seq<char>
    decreases k,
{
    if k == 0 {
        Seq::empty()
    } else {
        frac_groups(raw, nd, weight, (k - 1) as nat) + zero_pad(
            decimal(group(raw, nd, weight + k)),
            4,
        )
    }
}

/// The decimal text of a binary `NUMERIC`: `None` when the header or the
/// announced digit groups are cut short; `NaN`, `Infinity` and `-Infinity`
/// for the special sign words; otherwise an optional `-`, the integer part
/// (`0` for a negative weight) and, for a positive display scale, a point
/// and exactly that many fraction digits.
pub open spec fn numeric_text_of(raw: Seq<u8>) -> Option<Seq<char>> {
    if raw.len() < 8 {
        None
    } else {
        let nd = be16(raw, 0);
        let weight = signed16(be16(raw, 2));
        let sign = be16(raw, 4);
        let dscale = be16(raw, 6);
        if sign == 0xC000 {
            Some("NaN"@)
        } else if sign == 0xD000 {
            Some("Infinity"@)
        } else if sign == 0xF000 {
            Some("-Infinity"@)
        } else if raw.len() < 8 + 2 * nd {
            None
        } else {
            let minus = if sign == 0x4000 {
                seq!['-']
            } else {
                Seq::empty()
            };
            let int_part = if weight < 0 {
                seq!['0']
            } else {
                int_groups(raw, nd, (weight + 1) as nat)
            };
            let frac_part = if dscale > 0 {
                seq!['.'] + frac_groups(raw, nd, weight, dscale).take(dscale as int)
            } else {
                Seq::empty()
            };
            Some(minus + int_part + frac_part)
        }
    }
}

/// The value of the base-10000 groups `0..k` read as one number, the first
/// group most significant.
pub open spec fn int_value(raw: Seq<u8>, nd: nat, k: nat) -> nat
    decreases k,
{
    if k == 0 {
        0
    } else {
        int_value(raw, nd, (k - 1) as nat) * 10000 + group(raw, nd, k - 1)
    }
}

proof fn lemma_digits_concat(a: Seq<char>, b: Seq<char>)
    requires
        all_digits(a),
        all_digits(b),
    ensures
        all_digits(a + b),
        digits_value(a + b) == digits_value(a) * pow10(b.len()) + digits_value(b),
    decreases b.len(),
{
    assert(all_digits(a + b)) by {
        assert forall|i: int| 0 <= i < (a + b).len() implies is_digit(#[trigger] (a + b)[i]) by {
            if i < a.len() {
                assert(is_digit(a[i]));
            } else {
                assert(is_digit(b[i - a.len()]));
            }
        }
    }
    if b.len() == 0 {
        assert(a + b =~= a);
        assert(pow10(0) == 1);
        assert(digits_value(b) == 0);
    } else {
        let c = a + b;
        assert(c.drop_last() =~= a + b.drop_last());
        assert(c.last() == b.last());
        assert(all_digits(b.drop_last())) by {
            assert forall|i: int| 0 <= i < b.drop_last().len() implies is_digit(
                #[trigger] b.drop_last()[i],
            ) by {
                assert(is_digit(b[i]));
            }
        }
        lemma_digits_concat(a, b.drop_last());
        let x = digits_value(a);
        let p = pow10((b.len() - 1) as nat);
        let y = digits_value(b.drop_last());
        assert(10 * (x * p + y) == x * (10 * p) + 10 * y) by (nonlinear_arith);
        assert(pow10(b.len()) == 10 * p);
        assert(digits_value(c) == 10 * digits_value(c.drop_last()) + ((c.last() as nat) - 48) as nat);
        assert(digits_value(b) == 10 * y + ((b.last() as nat) - 48) as nat);
        assert(digits_value(c) == 10 * (x * p + y) + ((b.last() as nat) - 48) as nat);
        assert(x * pow10(b.len()) == x * (10 * p));
    }
}

proof fn lemma_decimal_digits(n: nat)
    ensures
        all_digits(decimal(n)),
        digits_value(decimal(n)) == n,
    decreases n,
{
    let d = decimal(n);
    assert((digit_char(n) as nat) == n % 10 + 48);
    assert((digit_char(n % 10) as nat) == n % 10 + 48);
    if n < 10 {
        assert(d.drop_last() =~= Seq::<char>::empty());
        assert(digits_value(Seq::<char>::empty()) == 0);
        assert(d.last() == digit_char(n));
        assert(n % 10 == n);
        assert(is_digit(d[0]));
    } else {
        lemma_decimal_digits(n / 10);
        assert(d.drop_last() =~= decimal(n / 10));
        assert(d.last() == digit_char(n % 10));
        assert(digits_value(d) == 10 * (n / 10) + n % 10);
        assert forall|i: int| 0 <= i < d.len() implies is_digit(#[trigger] d[i]) by {
            if i < d.len() - 1 {
                assert(d[i] == decimal(n / 10)[i]);
            }
        }
    }
}

proof fn lemma_zeros_digits(k: nat)
    ensures
        all_digits(zeros(k)),
        digits_value(zeros(k)) == 0,
        zeros(k).len() == k,
    decreases k,
{
    if k > 0 {
        lemma_zeros_digits((k - 1) as nat);
        assert(zeros(k).drop_last() =~= zeros((k - 1) as nat));
    }
}

proof fn lemma_pad4_digits(g: nat)
    requires
        g < 10000,
    ensures
        all_digits(zero_pad(decimal(g), 4)),
        digits_value(zero_pad(decimal(g), 4)) == g,
        zero_pad(decimal(g), 4).len() == 4,
{
    lemma_decimal_digits(g);
    lemma_decimal_len(g);
    reveal_with_fuel(pow10, 5);
    lemma_decimal_len_bound(g, 4);
    let d = decimal(g);
    if d.len() < 4 {
        let z = zeros((4 - d.len()) as nat);
        lemma_zeros_digits((4 - d.len()) as nat);
        lemma_digits_concat(z, d);
    }
}

proof fn lemma_int_groups_value(raw: Seq<u8>, nd: nat, k: nat)
    requires
        k >= 1,
        forall|i: int| 0 <= i < nd ==> #[trigger] be16(raw, 8 + 2 * i) < 10000,
    ensures
        all_digits(int_groups(raw, nd, k)),
        int_groups(raw, nd, k).len() == decimal(group(raw, nd, 0)).len() + 4 * (k - 1),
        digits_value(int_groups(raw, nd, k)) == int_value(raw, nd, k),
    decreases k,
{
    let i = k - 1;
    if i == 0 {
        assert(k == 1);
        assert(int_groups(raw, nd, 0) =~= Seq::<char>::empty());
        assert(int_groups(raw, nd, 1) == int_groups(raw, nd, 0) + decimal(group(raw, nd, 0)));
        assert(int_groups(raw, nd, k) =~= decimal(group(raw, nd, 0)));
        lemma_decimal_digits(group(raw, nd, 0));
        assert(int_value(raw, nd, 0) == 0);
    } else {
        lemma_int_groups_value(raw, nd, (k - 1) as nat);
        let g = group(raw, nd, i);
        assert(g < 10000) by {
            if 0 <= i < nd {
                assert(be16(raw, 8 + 2 * i) < 10000);
            }
        }
        lemma_pad4_digits(g);
        reveal_with_fuel(pow10, 5);
        lemma_digits_concat(int_groups(raw, nd, (k - 1) as nat), zero_pad(decimal(g), 4));
    }
}

/// The integer part of a finite `NUMERIC` with a weight `w >= 0` stands
/// right after the optional `-`: it is made of decimal digits, it has the
/// digits of the first group plus exactly four for each of the `w` groups
/// after it (groups beyond those present count as `0000`), its value is
/// `sum(group_i * 10000^(w - i))`, and it is followed by the end of the text
/// or by the decimal point.
pub proof fn law_numeric_integer_part(raw: Seq<u8>)
    requires
        raw.len() >= 8,
        raw.len() >= 8 + 2 * be16(raw, 0),
        be16(raw, 4) == 0 || be16(raw, 4) == 0x4000,
        signed16(be16(raw, 2)) >= 0,
        forall|i: int| 0 <= i < be16(raw, 0) ==> #[trigger] be16(raw, 8 + 2 * i) < 10000,
    ensures
        ({
            let nd = be16(raw, 0);
            let w = signed16(be16(raw, 2));
            let m: int = if be16(raw, 4) == 0x4000 {
                1
            } else {
                0
            };
            let len = decimal(group(raw, nd, 0)).len() + 4 * w;
            match numeric_text_of(raw) {
                Some(t) => {
                    &&& m + len <= t.len()
                    &&& (t[0] == '-') == (be16(raw, 4) == 0x4000)
                    &&& all_digits(t.subrange(m, m + len))
                    &&& digits_value(t.subrange(m, m + len)) == int_value(raw, nd, (w + 1) as nat)
                    &&& (t.len() == m + len || t[m + len] == '.')
                    &&& (be16(raw, 6) == 0 ==> t.len() == m + len)
                },
                None => false,
            }
        }),
{
    let nd = be16(raw, 0);
    let w = signed16(be16(raw, 2));
    let sign = be16(raw, 4);
    let dscale = be16(raw, 6);
    let m: int = if sign == 0x4000 {
        1
    } else {
        0
    };
    let minus = if sign == 0x4000 {
        seq!['-']
    } else {
        Seq::<char>::empty()
    };
    let ip = int_groups(raw, nd, (w + 1) as nat);
    let fp = if dscale > 0 {
        seq!['.'] + frac_groups(raw, nd, w, dscale).take(dscale as int)
    } else {
        Seq::<char>::empty()
    };
    lemma_int_groups_value(raw, nd, (w + 1) as nat);
    lemma_decimal_digits(group(raw, nd, 0));
    let t = minus + ip + fp;
    assert(numeric_text_of(raw) == Some(t));
    assert(t.subrange(m, m + ip.len()) =~= ip);
    if sign != 0x4000 {
        assert(t[0] == ip[0]);
        assert(is_digit(ip[0]));
    }
    if dscale > 0 {
        assert(t[m + ip.len()] == fp[0]);
    } else {
        assert(t.len() == m + ip.len());
    }
}

proof fn lemma_pad4_len(n: nat)
    requires
        n < 65536,
    ensures
        4 <= zero_pad(decimal(n), 4).len() <= 5,
{
    lemma_decimal_len(n);
    reveal_with_fuel(pow10, 6);
    lemma_decimal_len_bound(n, 5);
}

proof fn lemma_frac_len(raw: Seq<u8>, nd: nat, weight: int, k: nat)
    ensures
        frac_groups(raw, nd, weight, k).len() >= 4 * k,
    decreases k,
{
    if k > 0 {
        lemma_frac_len(raw, nd, weight, (k - 1) as nat);
        lemma_decimal_len(group(raw, nd, weight + k));
    }
}

proof fn lemma_frac_prefix(raw: Seq<u8>, nd: nat, weight: int, n: nat, m: nat)
    requires
        n <= m,
    ensures
        frac_groups(raw, nd, weight, n).len() <= frac_groups(raw, nd, weight, m).len(),
        frac_groups(raw, nd, weight, m).take(frac_groups(raw, nd, weight, n).len() as int)
            == frac_groups(raw, nd, weight, n),
    decreases m - n,
{
    if n < m {
        lemma_frac_prefix(raw, nd, weight, n, (m - 1) as nat);
        let a = frac_groups(raw, nd, weight, n);
        let b = frac_groups(raw, nd, weight, (m - 1) as nat);
        let c = frac_groups(raw, nd, weight, m);
        assert(c.take(a.len() as int) =~= b.take(a.len() as int));
    } else {
        let a = frac_groups(raw, nd, weight, n);
        assert(a.take(a.len() as int) =~= a);
    }
}

/// The big-endian 16-bit value at byte `i`, if both bytes are there.
fn be16_at(raw: &[u8], i: usize) -> (r: Option<u16>)
    ensures
        (i + 2 <= raw@.len()) ==> r == Some(be16(raw@, i as int) as u16),
        (i + 2 <= raw@.len()) ==> be16(raw@, i as int) < 65536,
        !(i + 2 <= raw@.len()) ==> r is None,
{
    if i < raw.len() && raw.len() - i >= 2 {
        let hi = raw[i] as u16;
        let lo = raw[i + 1] as u16;
        Some(hi * 256 + lo)
    } else {
        None
    }
}

/// Renders a binary Postgres `NUMERIC` as decimal text; `None` when the
/// bytes are cut short.
pub fn numeric_text(raw: &[u8]) -> (r: Option<String>)
    ensures
        match r {
            Some(s) => numeric_text_of(raw@) == Some(s@),
            None => numeric_text_of(raw@) is None,
        },
{
    let nd16 = match be16_at(raw, 0) {
        Some(v) => v,
        None => return None,
    };
    let w16 = match be16_at(raw, 2) {
        Some(v) => v,
        None => return None,
    };
    let sign = match be16_at(raw, 4) {
        Some(v) => v,
        None => return None,
    };
    let dscale = match be16_at(raw, 6) {
        Some(v) => v,
        None => return None,
    };
    let ghost nd_n = be16(raw@, 0);
    let weight: i32 = if w16 >= 32768 {
        w16 as i32 - 65536
    } else {
        w16 as i32
    };
    if sign == 0xC000 {
        return Some(String::from_str("NaN"));
    }
    if sign == 0xD000 {
        return Some(String::from_str("Infinity"));
    }
    if sign == 0xF000 {
        return Some(String::from_str("-Infinity"));
    }
    let ndigits = nd16 as usize;
    let mut digits: Vec<u16> = Vec::new();
    let mut i: usize = 0;
    while i < ndigits
        invariant
            ndigits == nd_n,
            nd_n < 65536,
            i <= ndigits,
            digits@.len() == i,
            forall|k: int| 0 <= k < i ==> #[trigger] digits@[k] as nat == be16(raw@, 8 + 2 * k),
            8 + 2 * i <= raw@.len(),
            raw@.len() >= 8,
            nd_n == be16(raw@, 0),
            sign as nat == be16(raw@, 4),
            sign != 0xC000 && sign != 0xD000 && sign != 0xF000,
        decreases ndigits - i,
    {
        match be16_at(raw, 8 + i * 2) {
            Some(d) => {
                digits.push(d);
            },
            None => {
                assert(raw@.len() < 8 + 2 * nd_n);
                return None;
            },
        }
        i = i + 1;
    }
    let ghost nd = nd_n;
    let mut out = String::new();
    if sign == 0x4000 {
        push_char(&mut out, '-');
    }
    let ghost head = out@;
    if weight < 0 {
        push_char(&mut out, '0');
    } else {
        let mut k: i32 = 0;
        while k <= weight
            invariant
                0 <= k <= weight + 1,
                weight < 32768,
                digits@.len() == nd,
                forall|j: int| 0 <= j < nd ==> #[trigger] digits@[j] as nat == group(raw@, nd, j),
                out@ == head + int_groups(raw@, nd, k as nat),
            decreases weight + 1 - k,
        {
            let d: u16 = if (k as usize) < digits.len() {
                digits[k as usize]
            } else {
                0
            };
            assert(d as nat == group(raw@, nd, k as int));
            if k == 0 {
                push_decimal(&mut out, d as u64);
            } else {
                push_padded(&mut out, d as u64, 4);
            }
            k = k + 1;
        }
    }
    let ghost mid = out@;
    if dscale > 0 {
        let target = dscale as usize;
        let mut frac = String::new();
        let mut frac_len: usize = 0;
        let mut p: i32 = 1;
        while frac_len < target
            invariant
                target == dscale,
                0 < dscale < 65536,
                1 <= p,
                p - 1 <= target,
                -32768 <= weight < 32768,
                digits@.len() == nd,
                forall|j: int| 0 <= j < nd ==> #[trigger] digits@[j] as nat == group(raw@, nd, j),
                frac@ == frac_groups(raw@, nd, weight as int, (p - 1) as nat),
                frac_len == frac@.len(),
            decreases target + 5 - frac_len,
        {
            proof {
                lemma_frac_len(raw@, nd, weight as int, (p - 1) as nat);
            }
            let idx: i32 = weight + p;
            let d: u16 = if idx >= 0 && (idx as usize) < digits.len() {
                digits[idx as usize]
            } else {
                0
            };
            assert(d as nat == group(raw@, nd, idx as int));
            proof {
                lemma_pad4_len(d as nat);
            }
            let piece = decimal_len(d as u64);
            push_padded(&mut frac, d as u64, 4);
            frac_len = frac_len + if piece < 4 {
                4
            } else {
                piece
            };
            p = p + 1;
        }
        proof {
            lemma_frac_prefix(raw@, nd, weight as int, (p - 1) as nat, dscale as nat);
            let a = frac_groups(raw@, nd, weight as int, (p - 1) as nat);
            let b = frac_groups(raw@, nd, weight as int, dscale as nat);
            assert(a.take(dscale as int) =~= b.take(dscale as int));
        }
        let v = chars_of(frac.as_str());
        let cut = string_from(&v, 0, target);
        push_char(&mut out, '.');
        push_str(&mut out, cut.as_str());
    }
    Some(out)
}

} // verus!
