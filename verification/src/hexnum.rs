//! Hexadecimal digits: fixed-width lowercase formatting, and the values of
//! runs of digits in either case.
use vstd::prelude::*;

use crate::text::push_char;

verus! {

/// The lowercase hexadecimal digit for `d` (`0 <= d < 16`).
pub open spec fn hex_digit_char(d: int) -> char {
    if d == 0 {
        '0'
    } else if d == 1 {
        '1'
    } else if d == 2 {
        '2'
    } else if d == 3 {
        '3'
    } else if d == 4 {
        '4'
    } else if d == 5 {
        '5'
    } else if d == 6 {
        '6'
    } else if d == 7 {
        '7'
    } else if d == 8 {
        '8'
    } else if d == 9 {
        '9'
    } else if d == 10 {
        'a'
    } else if d == 11 {
        'b'
    } else if d == 12 {
        'c'
    } else if d == 13 {
        'd'
    } else if d == 14 {
        'e'
    } else {
        'f'
    }
}

/// The last `w` hexadecimal digits of `v`, most significant first, padded
/// with zeros: the `{:0w$x}` form of a value below `16^w`.
pub open spec fn hex_text(v: nat, w: nat) -> Seq<char>
    decreases w,
{
    if w == 0 {
        Seq::empty()
    } else {
        hex_text(v / 16, (w - 1) as nat).push(hex_digit_char((v % 16) as int))
    }
}

fn hex_digit(d: u32) -> (c: char)
    requires
        d < 16,
    ensures
        c == hex_digit_char(d as int),
{
    match d {
        0 => '0',
        1 => '1',
        2 => '2',
        3 => '3',
        4 => '4',
        5 => '5',
        6 => '6',
        7 => '7',
        8 => '8',
        9 => '9',
        10 => 'a',
        11 => 'b',
        12 => 'c',
        13 => 'd',
        14 => 'e',
        _ => 'f',
    }
}

/// Appends the last `w` hexadecimal digits of `v` to `out`.
pub fn push_hex(out: &mut String, v: u32, w: u32)
    ensures
        final(out)@ == old(out)@ + hex_text(v as nat, w as nat),
    decreases w,
{
    if w == 0 {
        assert(old(out)@ + hex_text(v as nat, 0) =~= old(out)@);
        return;
    }
    push_hex(out, v / 16, w - 1);
    push_char(out, hex_digit(v % 16));
    assert(hex_text(v as nat, w as nat) == hex_text((v / 16) as nat, (w - 1) as nat).push(
        hex_digit_char((v % 16) as int),
    ));
    assert(old(out)@ + hex_text(v as nat, w as nat) =~= old(out)@ + hex_text(
        (v / 16) as nat,
        (w - 1) as nat,
    ) + seq![hex_digit_char((v % 16) as int)]);
}

/// Whether byte `b` is a hexadecimal digit (either case).
pub open spec fn is_hex_byte(b: u8) -> bool {
    (0x30 <= b <= 0x39) || (0x61 <= b <= 0x66) || (0x41 <= b <= 0x46)
}

/// The value of a hexadecimal digit byte.
pub open spec fn hex_byte_value(b: u8) -> int {
    if 0x30 <= b <= 0x39 {
        b - 0x30
    } else if 0x61 <= b <= 0x66 {
        b - 0x61 + 10
    } else if 0x41 <= b <= 0x46 {
        b - 0x41 + 10
    } else {
        0
    }
}

/// Length of the longest prefix of `s` made of hexadecimal digits.
pub open spec fn hex_run(s: Seq<u8>) -> int
    decreases s.len(),
{
    if s.len() == 0 || !is_hex_byte(s[0]) {
        0
    } else {
        1 + hex_run(s.drop_first())
    }
}

/// The number that the hexadecimal digits `s` spell.
pub open spec fn hex_value(s: Seq<u8>) -> int
    decreases s.len(),
{
    if s.len() == 0 {
        0
    } else {
        hex_value(s.drop_last()) * 16 + hex_byte_value(s.last())
    }
}

/// `hex_run` is the index of the first byte that is not a hexadecimal
/// digit, or the length.
pub proof fn lemma_hex_run(s: Seq<u8>)
    ensures
        0 <= hex_run(s) <= s.len(),
        forall|j: int| 0 <= j < hex_run(s) ==> is_hex_byte(#[trigger] s[j]),
        hex_run(s) < s.len() ==> !is_hex_byte(s[hex_run(s)]),
    decreases s.len(),
{
    if s.len() > 0 && is_hex_byte(s[0]) {
        lemma_hex_run(s.drop_first());
        assert forall|j: int| 0 <= j < hex_run(s) implies is_hex_byte(#[trigger] s[j]) by {
            if j > 0 {
                assert(s[j] == s.drop_first()[j - 1]);
            }
        }
    }
}

/// Any `k` before which all bytes are digits, and at which a non-digit
/// stands or `s` ends, is the run length.
pub proof fn lemma_hex_run_is(s: Seq<u8>, k: int)
    requires
        0 <= k <= s.len(),
        forall|j: int| 0 <= j < k ==> is_hex_byte(#[trigger] s[j]),
        k == s.len() || !is_hex_byte(s[k]),
    ensures
        hex_run(s) == k,
{
    lemma_hex_run(s);
    let r = hex_run(s);
    if r < k {
        assert(is_hex_byte(s[r]));
    } else if r > k {
        assert(is_hex_byte(s[k]));
    }
}

/// Reading one more digit multiplies by sixteen and adds it.
pub proof fn lemma_hex_value_take_step(s: Seq<u8>, i: int)
    requires
        0 <= i < s.len(),
    ensures
        hex_value(s.take(i + 1)) == hex_value(s.take(i)) * 16 + hex_byte_value(s[i]),
{
    assert(s.take(i + 1).drop_last() =~= s.take(i));
}

fn hex_byte(b: u8) -> (r: Option<u32>)
    ensures
        r is Some <==> is_hex_byte(b),
        r matches Some(v) ==> v == hex_byte_value(b) && v < 16,
{
    if 0x30 <= b && b <= 0x39 {
        Some((b - 0x30) as u32)
    } else if 0x61 <= b && b <= 0x66 {
        Some((b - 0x61 + 10) as u32)
    } else if 0x41 <= b && b <= 0x46 {
        Some((b - 0x41 + 10) as u32)
    } else {
        None
    }
}

/// Whether `b[lo..hi]` is made of hexadecimal digits only.
pub fn all_hex(b: &[u8], lo: usize, hi: usize) -> (r: bool)
    requires
        lo <= hi <= b@.len(),
    ensures
        r == (hex_run(b@.subrange(lo as int, hi as int)) == hi - lo),
{
    let ghost t = b@.subrange(lo as int, hi as int);
    let mut i: usize = lo;
    while i < hi
        invariant
            lo <= i <= hi <= b@.len(),
            t == b@.subrange(lo as int, hi as int),
            forall|j: int| 0 <= j < i - lo ==> is_hex_byte(#[trigger] t[j]),
        decreases hi - i,
    {
        assert(t[i - lo] == b@[i as int]);
        if hex_byte(b[i]).is_none() {
            proof {
                lemma_hex_run_is(t, i - lo);
            }
            return false;
        }
        i = i + 1;
    }
    proof {
        lemma_hex_run_is(t, t.len() as int);
    }
    true
}

/// A run of digits as long as the sequence means every byte is a digit.
pub proof fn lemma_all_hex_bytes(b: Seq<u8>, lo: int, hi: int)
    requires
        0 <= lo <= hi <= b.len(),
        hex_run(b.subrange(lo, hi)) == hi - lo,
    ensures
        forall|j: int| lo <= j < hi ==> is_hex_byte(#[trigger] b[j]),
{
    let t = b.subrange(lo, hi);
    lemma_hex_run(t);
    assert forall|j: int| lo <= j < hi implies is_hex_byte(#[trigger] b[j]) by {
        assert(t[j - lo] == b[j]);
    }
}

/// `16^k` grows with `k`, up to `16^12`.
proof fn lemma_pow16_le(k: nat)
    requires
        k <= 12,
    ensures
        1 <= pow16(k) <= pow16(12),
        pow16(12) == 0x1_0000_0000_0000,
    decreases 12 - k,
{
    reveal_with_fuel(pow16, 13);
    if k < 12 {
        lemma_pow16_le(k + 1);
    }
}

/// The value of the hexadecimal digits `b[lo..hi]`, at most twelve of them.
pub fn hex_digits_value(b: &[u8], lo: usize, hi: usize) -> (v: u64)
    requires
        lo <= hi <= b@.len(),
        hi - lo <= 12,
        forall|j: int| lo <= j < hi ==> is_hex_byte(#[trigger] b@[j]),
    ensures
        v == hex_value(b@.subrange(lo as int, hi as int)),
        v < pow16((hi - lo) as nat),
{
    let ghost t = b@.subrange(lo as int, hi as int);
    let mut acc: u64 = 0;
    let mut i: usize = lo;
    proof {
        assert(t.take(0) =~= Seq::<u8>::empty());
    }
    while i < hi
        invariant
            lo <= i <= hi <= b@.len(),
            hi - lo <= 12,
            t == b@.subrange(lo as int, hi as int),
            forall|j: int| lo <= j < hi ==> is_hex_byte(#[trigger] b@[j]),
            acc == hex_value(t.take(i - lo)),
            acc < pow16((i - lo) as nat),
        decreases hi - i,
    {
        assert(t[i - lo] == b@[i as int]);
        let d = match hex_byte(b[i]) {
            Some(d) => d,
            None => {
                assert(is_hex_byte(b@[i as int]));
                0
            },
        };
        proof {
            lemma_hex_value_take_step(t, i - lo);
            lemma_pow16_le((i - lo + 1) as nat);
            assert(pow16((i - lo + 1) as nat) == 16 * pow16((i - lo) as nat));
        }
        acc = acc * 16 + d as u64;
        i = i + 1;
    }
    proof {
        assert(t.take(t.len() as int) =~= t);
    }
    acc
}

/// The bytes of an ASCII character sequence.
pub open spec fn ascii_bytes(t: Seq<char>) -> Seq<u8> {
    Seq::new(t.len(), |i: int| t[i] as u8)
}

/// `16^w`.
pub open spec fn pow16(w: nat) -> nat
    decreases w,
{
    if w == 0 {
        1
    } else {
        16 * pow16((w - 1) as nat)
    }
}

/// A digit character is an ASCII hexadecimal digit byte of value `d`.
pub proof fn lemma_hex_digit_char(d: int)
    requires
        0 <= d < 16,
    ensures
        '\0' <= hex_digit_char(d) <= '\x7f',
        is_hex_byte(hex_digit_char(d) as u8),
        hex_byte_value(hex_digit_char(d) as u8) == d,
{
}

/// `hex_text(v, w)` has `w` ASCII digits, and spells `v` when `v < 16^w`.
pub proof fn lemma_hex_text(v: nat, w: nat)
    ensures
        hex_text(v, w).len() == w,
        forall|i: int|
            0 <= i < w ==> '\0' <= #[trigger] hex_text(v, w)[i] <= '\x7f' && is_hex_byte(
                hex_text(v, w)[i] as u8,
            ),
        v < pow16(w) ==> hex_value(ascii_bytes(hex_text(v, w))) == v,
    decreases w,
{
    if w > 0 {
        let prev = hex_text(v / 16, (w - 1) as nat);
        let c = hex_digit_char((v % 16) as int);
        lemma_hex_text(v / 16, (w - 1) as nat);
        lemma_hex_digit_char((v % 16) as int);
        assert forall|i: int|
            0 <= i < w implies '\0' <= #[trigger] hex_text(v, w)[i] <= '\x7f' && is_hex_byte(
            hex_text(v, w)[i] as u8,
        ) by {
            if i < w - 1 {
                assert(hex_text(v, w)[i] == prev[i]);
            }
        }
        if v < pow16(w) {
            assert(v / 16 < pow16((w - 1) as nat));
            let bytes = ascii_bytes(hex_text(v, w));
            assert(bytes.drop_last() =~= ascii_bytes(prev));
            assert(bytes.last() == c as u8);
        }
    }
}

} // verus!
