//! Decimal text of `i32` values: the `Display` form, and parsing with the
//! semantics of `str::parse::<i32>`.
use vstd::prelude::*;

use crate::text::push_char;

verus! {

/// The decimal digit character for `d` (`0 <= d < 10`).
pub open spec fn dec_digit_char(d: int) -> char {
    if d == 0 {
        '0'
    } else if d == 1 {
        '1'
    } else if d == 2 {
        '2'
    } else if d == 3 {
        '3'
    } else if d == 4 {
        '4'
    } else if d == 5 {
        '5'
    } else if d == 6 {
        '6'
    } else if d == 7 {
        '7'
    } else if d == 8 {
        '8'
    } else {
        '9'
    }
}

/// The decimal digits of `n`, without leading zeros.
pub open spec fn nat_text(n: nat) -> Seq<char>
    decreases n,
{
    if n < 10 {
        seq![dec_digit_char(n as int)]
    } else {
        nat_text(n / 10).push(dec_digit_char((n % 10) as int))
    }
}

/// The `Display` text of an `i32`: a `-` for negative values, then the
/// digits of the magnitude.
pub open spec fn i32_text(x: i32) -> Seq<char> {
    if x < 0 {
        seq!['-'] + nat_text((0 - x) as nat)
    } else {
        nat_text(x as nat)
    }
}

/// Whether `c` is a decimal digit.
pub open spec fn is_dec_digit(c: char) -> bool {
    '0' <= c <= '9'
}

/// The value of a decimal digit character.
pub open spec fn dec_digit_value(c: char) -> int {
    c as int - '0' as int
}

/// Whether all of `s` are decimal digits.
pub open spec fn all_dec(s: Seq<char>) -> bool {
    forall|i: int| 0 <= i < s.len() ==> is_dec_digit(#[trigger] s[i])
}

/// The number that the decimal digits `s` spell.
pub open spec fn dec_value(s: Seq<char>) -> int
    decreases s.len(),
{
    if s.len() == 0 {
        0
    } else {
        dec_value(s.drop_last()) * 10 + dec_digit_value(s.last())
    }
}

/// What `str::parse::<i32>` accepts: an optional `+` or `-`, then at least
/// one decimal digit, with the value in range.
pub open spec fn i32_parse(s: Seq<char>) -> Option<i32> {
    if s.len() == 0 {
        None
    } else if s[0] == '-' {
        let d = s.drop_first();
        if d.len() > 0 && all_dec(d) && dec_value(d) <= 0x8000_0000 {
            Some((0 - dec_value(d)) as i32)
        } else {
            None
        }
    } else {
        let d = if s[0] == '+' {
            s.drop_first()
        } else {
            s
        };
        if d.len() > 0 && all_dec(d) && dec_value(d) <= 0x7fff_ffff {
            Some(dec_value(d) as i32)
        } else {
            None
        }
    }
}

fn dec_digit(d: u32) -> (c: char)
    requires
        d < 10,
    ensures
        c == dec_digit_char(d as int),
{
    match d {
        0 => '0',
        1 => '1',
        2 => '2',
        3 => '3',
        4 => '4',
        5 => '5',
        6 => '6',
        7 => '7',
        8 => '8',
        _ => '9',
    }
}

fn push_nat(out: &mut String, n: u32)
    ensures
        final(out)@ == old(out)@ + nat_text(n as nat),
    decreases n,
{
    if n >= 10 {
        push_nat(out, n / 10);
    }
    push_char(out, dec_digit(n % 10));
    assert(old(out)@ + nat_text(n as nat) =~= (if n >= 10 {
        old(out)@ + nat_text((n / 10) as nat)
    } else {
        old(out)@
    }).push(dec_digit_char((n % 10) as int)));
}

/// Appends the `Display` text of `x` to `out`.
pub fn push_i32(out: &mut String, x: i32)
    ensures
        final(out)@ == old(out)@ + i32_text(x),
{
    if x < 0 {
        push_char(out, '-');
        let m = (0 - (x as i64)) as u32;
        push_nat(out, m);
        assert(old(out)@ + i32_text(x) =~= old(out)@.push('-') + nat_text(m as nat));
    } else {
        push_nat(out, x as u32);
    }
}

/// Reading one more digit multiplies by ten and adds it.
pub proof fn lemma_dec_value_take_step(s: Seq<char>, i: int)
    requires
        0 <= i < s.len(),
    ensures
        dec_value(s.take(i + 1)) == dec_value(s.take(i)) * 10 + dec_digit_value(s[i]),
{
    assert(s.take(i + 1).drop_last() =~= s.take(i));
}

/// Values of digit prefixes are never negative and never decrease.
pub proof fn lemma_dec_value_monotone(s: Seq<char>, i: int, j: int)
    requires
        0 <= i <= j <= s.len(),
        forall|k: int| 0 <= k < j ==> is_dec_digit(#[trigger] s[k]),
    ensures
        0 <= dec_value(s.take(i)) <= dec_value(s.take(j)),
    decreases j - i,
{
    if i < j {
        lemma_dec_value_monotone(s, i, j - 1);
        lemma_dec_value_take_step(s, j - 1);
        assert(is_dec_digit(s[j - 1]));
    } else {
        lemma_dec_value_nonneg(s.take(i));
    }
}

proof fn lemma_dec_value_nonneg(s: Seq<char>)
    requires
        all_dec(s),
    ensures
        dec_value(s) >= 0,
    decreases s.len(),
{
    if s.len() > 0 {
        assert(all_dec(s.drop_last())) by {
            assert forall|i: int| 0 <= i < s.len() - 1 implies is_dec_digit(
                #[trigger] s.drop_last()[i],
            ) by {
                assert(s.drop_last()[i] == s[i]);
            }
        }
        lemma_dec_value_nonneg(s.drop_last());
        assert(is_dec_digit(s[s.len() - 1]));
    }
}

/// Parses `v[lo..hi]` as `str::parse::<i32>` does.
pub fn parse_i32(v: &Vec<char>, lo: usize, hi: usize) -> (r: Option<i32>)
    requires
        lo <= hi <= v@.len(),
    ensures
        r == i32_parse(v@.subrange(lo as int, hi as int)),
{
    let ghost s = v@.subrange(lo as int, hi as int);
    if lo == hi {
        return None;
    }
    let neg = v[lo] == '-';
    let start = if v[lo] == '-' || v[lo] == '+' {
        lo + 1
    } else {
        lo
    };
    let ghost d = v@.subrange(start as int, hi as int);
    assert(d =~= (if s[0] == '-' || s[0] == '+' {
        s.drop_first()
    } else {
        s
    }));
    if start == hi {
        return None;
    }
    let limit: i64 = if neg {
        0x8000_0000
    } else {
        0x7fff_ffff
    };
    let mut acc: i64 = 0;
    let mut i: usize = start;
    while i < hi
        invariant
            lo <= start < hi <= v@.len(),
            start <= i <= hi,
            d == v@.subrange(start as int, hi as int),
            s == v@.subrange(lo as int, hi as int),
            s.len() > 0,
            neg == (s[0] == '-'),
            d == (if s[0] == '-' || s[0] == '+' {
                s.drop_first()
            } else {
                s
            }),
            acc == dec_value(d.take(i - start)),
            0 <= acc <= limit,
            limit == (if neg {
                0x8000_0000i64
            } else {
                0x7fff_ffffi64
            }),
            forall|j: int| 0 <= j < i - start ==> is_dec_digit(#[trigger] d[j]),
        decreases hi - i,
    {
        let c = v[i];
        assert(d[i - start] == c);
        if !('0' <= c && c <= '9') {
            assert(!all_dec(d));
            return None;
        }
        proof {
            lemma_dec_value_take_step(d, i - start);
        }
        let next = acc * 10 + (c as u32 - '0' as u32) as i64;
        if next > limit {
            proof {
                if all_dec(d) {
                    lemma_dec_value_monotone(d, i - start + 1, d.len() as int);
                    assert(d.take(d.len() as int) =~= d);
                }
            }
            return None;
        }
        acc = next;
        i = i + 1;
    }
    assert(d.take(d.len() as int) =~= d);
    assert(all_dec(d));
    if neg {
        Some((0 - acc) as i32)
    } else {
        Some(acc as i32)
    }
}

/// A digit character is a decimal digit of value `d`.
pub proof fn lemma_dec_digit_char(d: int)
    requires
        0 <= d < 10,
    ensures
        is_dec_digit(dec_digit_char(d)),
        dec_digit_value(dec_digit_char(d)) == d,
{
}

/// The digits of `n` are decimal digits spelling `n`.
pub proof fn lemma_nat_text(n: nat)
    ensures
        nat_text(n).len() > 0,
        all_dec(nat_text(n)),
        dec_value(nat_text(n)) == n,
    decreases n,
{
    lemma_dec_digit_char((n % 10) as int);
    if n < 10 {
        let t = nat_text(n);
        assert(t.drop_last() =~= Seq::<char>::empty());
        assert(t.last() == dec_digit_char(n as int));
        assert(dec_value(t) == dec_value(t.drop_last()) * 10 + dec_digit_value(t.last()));
    } else {
        lemma_nat_text(n / 10);
        let t = nat_text(n);
        let prev = nat_text(n / 10);
        assert(t.drop_last() =~= prev);
        assert(t.last() == dec_digit_char((n % 10) as int));
        assert(dec_value(t) == dec_value(t.drop_last()) * 10 + dec_digit_value(t.last()));
        assert forall|i: int| 0 <= i < t.len() implies is_dec_digit(#[trigger] t[i]) by {
            if i < t.len() - 1 {
                assert(t[i] == prev[i]);
            }
        }
    }
}

/// The text of an `i32` parses back to it, and holds no `:`.
pub proof fn lemma_i32_text_parses_back(x: i32)
    ensures
        i32_parse(i32_text(x)) == Some(x),
        i32_text(x).len() > 0,
        forall|i: int| 0 <= i < i32_text(x).len() ==> #[trigger] i32_text(x)[i] != ':',
{
    let t = i32_text(x);
    if x < 0 {
        let m = (0 - x) as nat;
        lemma_nat_text(m);
        assert(t.drop_first() =~= nat_text(m));
        assert forall|i: int| 0 <= i < t.len() implies #[trigger] t[i] != ':' by {
            if i > 0 {
                assert(t[i] == nat_text(m)[i - 1]);
                assert(is_dec_digit(nat_text(m)[i - 1]));
            }
        }
    } else {
        lemma_nat_text(x as nat);
        assert(is_dec_digit(t[0]));
        assert forall|i: int| 0 <= i < t.len() implies #[trigger] t[i] != ':' by {
            assert(is_dec_digit(t[i]));
        }
    }
}

} // verus!
