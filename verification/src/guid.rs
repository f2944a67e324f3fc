//! `OcGuid`: the value type that identifies a `Standard_GUID`, with its
//! canonical `8-4-4-4-12` text form.
use vstd::prelude::*;
use vstd::string::StringSliceAdditionalSpecFns;

use crate::hexnum::{
    all_hex, ascii_bytes, hex_digits_value, hex_run, hex_text, hex_value, is_hex_byte,
    lemma_all_hex_bytes, lemma_hex_run, lemma_hex_run_is, lemma_hex_text, pow16, push_hex,
};
use crate::seqs::{
    lemma_first_index_is, lemma_split_leading, lemma_split_step, lemma_split_without_sep, nth_piece,
    split_on,
};
use vstd::utf8::{encode_utf8, is_ascii_chars, is_ascii_chars_encode_utf8};
use crate::text::push_char;

verus! {

/// Why the text of a GUID is not in the canonical `8-4-4-4-12` form.
/// The groups are checked in order, and the first that fails decides.
#[derive(Debug, Clone, Copy, PartialEq, Eq)]
pub enum GuidParseError {
    /// A group is empty, or missing (fewer than five groups).
    Empty,
    /// A group holds a character that is not a hexadecimal digit.
    InvalidDigit,
    /// A group of hexadecimal digits is not as long as its place asks
    /// (8, 4, 4, 4, then 12).
    WrongLength,
    /// The five groups are well formed, but more groups follow them.
    WrongGroupCount,
}

/// A GUID, held as the ten scalars of `Standard_GUID`'s constructor:
/// `a32b`-`a16b1`-`a16b2`-`a16b3`-`a8[0..6]`.
#[derive(Debug, Clone, Copy, PartialEq, Eq, Hash)]
pub struct OcGuid {
    a32b: u32,
    a16b1: u16,
    a16b2: u16,
    a16b3: u16,
    a8: [u8; 6],
}

/// The fields of a GUID, the six trailing bytes as a sequence.
pub struct GuidView {
    pub a32b: u32,
    pub a16b1: u16,
    pub a16b2: u16,
    pub a16b3: u16,
    pub a8: Seq<u8>,
}

impl View for OcGuid {
    type V = GuidView;

    closed spec fn view(&self) -> GuidView {
        GuidView {
            a32b: self.a32b,
            a16b1: self.a16b1,
            a16b2: self.a16b2,
            a16b3: self.a16b3,
            a8: self.a8@,
        }
    }
}

/// The canonical text of a GUID: lowercase hexadecimal, zero-padded,
/// grouped `8-4-4-4-12`.
pub open spec fn guid_text(g: GuidView) -> Seq<char> {
    hex_text(g.a32b as nat, 8) + seq!['-'] + hex_text(g.a16b1 as nat, 4) + seq!['-'] + hex_text(
        g.a16b2 as nat,
        4,
    ) + seq!['-'] + hex_text(g.a16b3 as nat, 4) + seq!['-'] + hex_text(g.a8[0] as nat, 2)
        + hex_text(g.a8[1] as nat, 2) + hex_text(g.a8[2] as nat, 2) + hex_text(g.a8[3] as nat, 2)
        + hex_text(g.a8[4] as nat, 2) + hex_text(g.a8[5] as nat, 2)
}

/// The byte `-`.
pub open spec fn dash() -> u8 {
    0x2d
}

/// What is wrong with `g` as a group of `width` hexadecimal digits, if
/// anything: emptiness first, then a character that is not a digit, then
/// the length.
pub open spec fn group_error(g: Seq<u8>, width: nat) -> Option<GuidParseError> {
    if g.len() == 0 {
        Some(GuidParseError::Empty)
    } else if hex_run(g) < g.len() {
        Some(GuidParseError::InvalidDigit)
    } else if g.len() != width {
        Some(GuidParseError::WrongLength)
    } else {
        None
    }
}

/// The six bytes that the twelve digits of the last group spell, two
/// digits each.
pub open spec fn tail_bytes(t: Seq<u8>) -> Seq<u8> {
    Seq::new(6, |i: int| hex_value(t.subrange(2 * i, 2 * i + 2)) as u8)
}

/// What the text (as UTF-8 bytes) of a GUID parses to.
///
/// The text must be the canonical form: five groups separated by `-`, of
/// 8, 4, 4, 4 and 12 hexadecimal digits (either case).  The groups are
/// checked in order, a missing group counting as empty, and the first
/// that fails gives the error; a text whose five groups pass but that has
/// more groups fails with [`GuidParseError::WrongGroupCount`].
pub open spec fn guid_parse(b: Seq<u8>) -> Result<GuidView, GuidParseError> {
    let parts = split_on(b, dash());
    let g0 = nth_piece(parts, 0);
    let g1 = nth_piece(parts, 1);
    let g2 = nth_piece(parts, 2);
    let g3 = nth_piece(parts, 3);
    let g4 = nth_piece(parts, 4);
    if group_error(g0, 8) is Some {
        Err(group_error(g0, 8)->0)
    } else if group_error(g1, 4) is Some {
        Err(group_error(g1, 4)->0)
    } else if group_error(g2, 4) is Some {
        Err(group_error(g2, 4)->0)
    } else if group_error(g3, 4) is Some {
        Err(group_error(g3, 4)->0)
    } else if group_error(g4, 12) is Some {
        Err(group_error(g4, 12)->0)
    } else if parts.len() > 5 {
        Err(GuidParseError::WrongGroupCount)
    } else {
        Ok(
            GuidView {
                a32b: hex_value(g0) as u32,
                a16b1: hex_value(g1) as u16,
                a16b2: hex_value(g2) as u16,
                a16b3: hex_value(g3) as u16,
                a8: tail_bytes(g4),
            },
        )
    }
}

/// Where a walk over the `-`-separated pieces of `b` stands before piece
/// `k`: `Some(pos)` when that piece starts at `pos`, `None` when `b` has at
/// most `k` pieces.
spec fn walk_at(b: Seq<u8>, k: int, at: Option<usize>) -> bool {
    match at {
        Some(pos) => pos <= b.len() && k <= split_on(b, dash()).len() && split_on(b, dash()).skip(k) == split_on(
            b.skip(pos as int),
            dash(),
        ),
        None => split_on(b, dash()).len() <= k,
    }
}

/// The byte range of piece `k`, and where piece `k + 1` starts.
fn next_piece(b: &[u8], at: Option<usize>, Ghost(k): Ghost<int>) -> (r: (usize, usize, Option<usize>))
    requires
        0 <= k,
        walk_at(b@, k, at),
    ensures
        r.0 <= r.1 <= b@.len(),
        b@.subrange(r.0 as int, r.1 as int) == nth_piece(split_on(b@, dash()), k),
        walk_at(b@, k + 1, r.2),
{
    let ghost parts = split_on(b@, dash());
    match at {
        None => {
            assert(b@.subrange(0, 0) =~= Seq::<u8>::empty());
            (0, 0, None)
        },
        Some(pos) => {
            let ghost suffix = b@.skip(pos as int);
            let mut d: usize = pos;
            while d < b.len() && b[d] != 0x2d
                invariant
                    pos <= d <= b@.len(),
                    forall|j: int| pos <= j < d ==> b@[j] != dash(),
                decreases b@.len() - d,
            {
                d = d + 1;
            }
            proof {
                assert forall|j: int| 0 <= j < d - pos implies suffix[j] != dash() by {
                    assert(suffix[j] == b@[pos + j]);
                }
                if d < b@.len() {
                    assert(suffix[d - pos] == b@[d as int]);
                }
                lemma_first_index_is(suffix, dash(), d - pos);
                lemma_split_step(suffix, dash());
                assert(parts.skip(k).len() >= 1);
                assert(parts[k] == parts.skip(k)[0]);
                assert(suffix.take(d - pos) =~= b@.subrange(pos as int, d as int));
            }
            if d < b.len() {
                proof {
                    assert(parts.skip(k + 1) =~= parts.skip(k).drop_first());
                    assert(suffix.skip(d - pos + 1) =~= b@.skip(d + 1));
                }
                (pos, d, Some(d + 1))
            } else {
                (pos, d, None)
            }
        },
    }
}

/// Checks that `b[lo..hi]` is a group of `width` hexadecimal digits.
fn check_group(b: &[u8], lo: usize, hi: usize, width: usize) -> (r: Result<(), GuidParseError>)
    requires
        lo <= hi <= b@.len(),
    ensures
        match r {
            Ok(()) => group_error(b@.subrange(lo as int, hi as int), width as nat) is None,
            Err(e) => group_error(b@.subrange(lo as int, hi as int), width as nat) == Some(e),
        },
        r is Ok ==> hi - lo == width && forall|j: int| lo <= j < hi ==> is_hex_byte(#[trigger] b@[j]),
{
    if lo == hi {
        return Err(GuidParseError::Empty);
    }
    if !all_hex(b, lo, hi) {
        proof {
            lemma_hex_run(b@.subrange(lo as int, hi as int));
        }
        return Err(GuidParseError::InvalidDigit);
    }
    if hi - lo != width {
        return Err(GuidParseError::WrongLength);
    }
    proof {
        lemma_all_hex_bytes(b@, lo as int, hi as int);
    }
    Ok(())
}

/// The six bytes of the last group `b[lo..hi]`, once it has passed its
/// check.
fn tail_of(b: &[u8], lo: usize, hi: usize) -> (a8: [u8; 6])
    requires
        lo <= hi <= b@.len(),
        hi - lo == 12,
        forall|j: int| lo <= j < hi ==> is_hex_byte(#[trigger] b@[j]),
    ensures
        a8@ == tail_bytes(b@.subrange(lo as int, hi as int)),
{
    let ghost t = b@.subrange(lo as int, hi as int);
    let mut a8: [u8; 6] = [0u8; 6];
    let mut i: usize = 0;
    while i < 6
        invariant
            0 <= i <= 6,
            lo + 12 == hi <= b@.len(),
            t == b@.subrange(lo as int, hi as int),
            forall|j: int| lo <= j < hi ==> is_hex_byte(#[trigger] b@[j]),
            forall|k: int| 0 <= k < i ==> a8@[k] == #[trigger] tail_bytes(t)[k],
        decreases 6 - i,
    {
        let v = hex_digits_value(b, lo + 2 * i, lo + 2 * i + 2);
        proof {
            assert(b@.subrange(lo + 2 * i, lo + 2 * i + 2) =~= t.subrange(2 * i, 2 * i + 2));
            reveal_with_fuel(crate::hexnum::pow16, 3);
        }
        a8[i] = v as u8;
        i = i + 1;
    }
    assert(a8@ =~= tail_bytes(t));
    a8
}

/// The six trailing byte groups of the text, from chunk `i` on.
pub open spec fn tail_text_from(a8: Seq<u8>, i: int) -> Seq<char>
    decreases 6 - i,
{
    if i >= 6 {
        Seq::empty()
    } else {
        hex_text(a8[i] as nat, 2) + tail_text_from(a8, i + 1)
    }
}

/// Bytes `2m` and `2m + 1` of `t`.
pub open spec fn two_at(t: Seq<u8>, m: int) -> Seq<u8> {
    t.subrange(2 * m, 2 * m + 2)
}

proof fn lemma_tail_text(a8: Seq<u8>, i: int)
    requires
        0 <= i <= 6,
        a8.len() == 6,
    ensures
        tail_text_from(a8, i).len() == 2 * (6 - i),
        forall|j: int|
            0 <= j < 2 * (6 - i) ==> '\0' <= #[trigger] tail_text_from(a8, i)[j] <= '\x7f'
                && (tail_text_from(a8, i)[j] as u8) < 0x80 && (tail_text_from(a8, i)[j] as u8)
                != dash() && is_hex_byte(tail_text_from(a8, i)[j] as u8),
        forall|m: int|
            0 <= m < 6 - i ==> #[trigger] two_at(ascii_bytes(tail_text_from(a8, i)), m)
                == ascii_bytes(hex_text(a8[i + m] as nat, 2)),
    decreases 6 - i,
{
    if i < 6 {
        lemma_tail_text(a8, i + 1);
        lemma_hex_text(a8[i] as nat, 2);
        let h = hex_text(a8[i] as nat, 2);
        let rest = tail_text_from(a8, i + 1);
        let all = tail_text_from(a8, i);
        assert(all == h + rest);
        assert forall|j: int|
            0 <= j < 2 * (6 - i) implies '\0' <= #[trigger] all[j] <= '\x7f' && (all[j] as u8) < 0x80 && (
            all[j] as u8) != dash() && is_hex_byte(all[j] as u8) by {
            if j < 2 {
                assert(all[j] == h[j]);
            } else {
                assert(all[j] == rest[j - 2]);
            }
        }
        assert forall|m: int| 0 <= m < 6 - i implies #[trigger] two_at(ascii_bytes(all), m)
            == ascii_bytes(hex_text(a8[i + m] as nat, 2)) by {
            if m == 0 {
                assert(two_at(ascii_bytes(all), 0) =~= ascii_bytes(h));
            } else {
                assert(two_at(ascii_bytes(all), m) =~= two_at(ascii_bytes(rest), m - 1));
            }
        }
    }
}

/// The `w` digits of a value below `16^w` pass as a group of width `w`,
/// and spell that value.
proof fn lemma_group_of_hex_text(v: nat, w: nat)
    requires
        w >= 1,
        v < pow16(w),
    ensures
        group_error(ascii_bytes(hex_text(v, w)), w) is None,
        hex_value(ascii_bytes(hex_text(v, w))) == v,
{
    lemma_hex_text(v, w);
    let src = ascii_bytes(hex_text(v, w));
    assert forall|j: int| 0 <= j < src.len() implies is_hex_byte(#[trigger] src[j]) by {
        assert(src[j] == hex_text(v, w)[j] as u8);
    }
    lemma_hex_run_is(src, src.len() as int);
}

/// The text of the six trailing bytes passes as the last group, and spells
/// those bytes.
proof fn lemma_tail_group(a8: Seq<u8>)
    requires
        a8.len() == 6,
    ensures
        group_error(ascii_bytes(tail_text_from(a8, 0)), 12) is None,
        tail_bytes(ascii_bytes(tail_text_from(a8, 0))) == a8,
{
    let tt = tail_text_from(a8, 0);
    let t = ascii_bytes(tt);
    lemma_tail_text(a8, 0);
    assert forall|j: int| 0 <= j < t.len() implies is_hex_byte(#[trigger] t[j]) by {
        assert(t[j] == tt[j] as u8);
    }
    lemma_hex_run_is(t, t.len() as int);
    reveal_with_fuel(crate::hexnum::pow16, 3);
    assert forall|i: int| 0 <= i < 6 implies #[trigger] tail_bytes(t)[i] == a8[i] by {
        assert(two_at(t, i) == ascii_bytes(hex_text(a8[0 + i] as nat, 2)));
        lemma_group_of_hex_text(a8[i] as nat, 2);
        assert(t.subrange(2 * i, 2 * i + 2) == two_at(t, i));
    }
    assert(tail_bytes(t) =~= a8);
}

/// Parsing the canonical text of a GUID gives that GUID back.
proof fn lemma_guid_text_parses_back(g: GuidView)
    requires
        g.a8.len() == 6,
    ensures
        guid_parse(encode_utf8(guid_text(g))) == Ok::<GuidView, GuidParseError>(g),
{
    let h0 = hex_text(g.a32b as nat, 8);
    let h1 = hex_text(g.a16b1 as nat, 4);
    let h2 = hex_text(g.a16b2 as nat, 4);
    let h3 = hex_text(g.a16b3 as nat, 4);
    let tt = tail_text_from(g.a8, 0);
    let d = seq!['-'];
    reveal_with_fuel(tail_text_from, 7);
    assert(tail_text_from(g.a8, 6) =~= Seq::<char>::empty());
    assert(tt =~= hex_text(g.a8[0] as nat, 2) + hex_text(g.a8[1] as nat, 2) + hex_text(
        g.a8[2] as nat,
        2,
    ) + hex_text(g.a8[3] as nat, 2) + hex_text(g.a8[4] as nat, 2) + hex_text(g.a8[5] as nat, 2));
    let text = guid_text(g);
    assert(text =~= h0 + d + h1 + d + h2 + d + h3 + d + tt);
    lemma_hex_text(g.a32b as nat, 8);
    lemma_hex_text(g.a16b1 as nat, 4);
    lemma_hex_text(g.a16b2 as nat, 4);
    lemma_hex_text(g.a16b3 as nat, 4);
    lemma_tail_text(g.a8, 0);
    assert(is_ascii_chars(text)) by {
        assert forall|i: int| 0 <= i < text.len() implies '\0' <= #[trigger] text[i] <= '\x7f' by {
            if i < 8 {
                assert(text[i] == h0[i]);
                assert(h0[i] <= '\x7f');
            } else if i == 8 {
                assert(text[i] == '-');
            } else if i < 13 {
                assert(text[i] == h1[i - 9]);
            } else if i == 13 {
                assert(text[i] == '-');
            } else if i < 18 {
                assert(text[i] == h2[i - 14]);
            } else if i == 18 {
                assert(text[i] == '-');
            } else if i < 23 {
                assert(text[i] == h3[i - 19]);
            } else if i == 23 {
                assert(text[i] == '-');
            } else {
                assert(text[i] == tt[i - 24]);
                assert(tt[i - 24] <= '\x7f');
            }
        }
    }
    is_ascii_chars_encode_utf8(text);
    let b = encode_utf8(text);
    assert(b =~= ascii_bytes(text));
    let a0 = ascii_bytes(h0);
    let a1 = ascii_bytes(h1);
    let a2 = ascii_bytes(h2);
    let a3 = ascii_bytes(h3);
    let at = ascii_bytes(tt);
    let dd = seq![dash()];
    assert(ascii_bytes(d) =~= dd);
    assert(b =~= a0 + dd + a1 + dd + a2 + dd + a3 + dd + at);
    assert forall|i: int| 0 <= i < a0.len() implies a0[i] != dash() by {
        assert(a0[i] == h0[i] as u8);
    }
    assert forall|i: int| 0 <= i < a1.len() implies a1[i] != dash() by {
        assert(a1[i] == h1[i] as u8);
    }
    assert forall|i: int| 0 <= i < a2.len() implies a2[i] != dash() by {
        assert(a2[i] == h2[i] as u8);
    }
    assert forall|i: int| 0 <= i < a3.len() implies a3[i] != dash() by {
        assert(a3[i] == h3[i] as u8);
    }
    assert forall|i: int| 0 <= i < at.len() implies at[i] != dash() by {
        assert(at[i] == tt[i] as u8);
    }
    let r3 = a3 + dd + at;
    let r2 = a2 + dd + r3;
    let r1 = a1 + dd + r2;
    assert(b =~= a0 + dd + r1);
    lemma_split_without_sep(at, dash());
    lemma_split_leading(a3, dash(), at);
    lemma_split_leading(a2, dash(), r3);
    lemma_split_leading(a1, dash(), r2);
    lemma_split_leading(a0, dash(), r1);
    let parts = split_on(b, dash());
    assert(parts =~= seq![a0, a1, a2, a3, at]);
    assert(nth_piece(parts, 0) == a0);
    assert(nth_piece(parts, 4) == at);
    reveal_with_fuel(crate::hexnum::pow16, 9);
    assert(0x1_0000_0000 == crate::hexnum::pow16(8));
    assert(0x1_0000 == crate::hexnum::pow16(4));
    assert(0x100 == crate::hexnum::pow16(2));
    lemma_group_of_hex_text(g.a32b as nat, 8);
    lemma_group_of_hex_text(g.a16b1 as nat, 4);
    lemma_group_of_hex_text(g.a16b2 as nat, 4);
    lemma_group_of_hex_text(g.a16b3 as nat, 4);
    lemma_tail_group(g.a8);
}

/// Law: the text that [`OcGuid::to_string`] produces parses back, with
/// [`OcGuid::parse`], to the same GUID.
pub proof fn guid_text_round_trip(g: OcGuid)
    ensures
        guid_parse(encode_utf8(guid_text(g@))) == Ok::<GuidView, GuidParseError>(g@),
{
    lemma_guid_text_parses_back(g@);
}

impl OcGuid {
    /// Builds a GUID from its raw fields, grouped as `Standard_GUID`'s
    /// ten-scalar constructor groups them.
    pub fn from_fields(a32b: u32, a16b1: u16, a16b2: u16, a16b3: u16, a8: [u8; 6]) -> (g: Self)
        ensures
            g@ == (GuidView { a32b, a16b1, a16b2, a16b3, a8: a8@ }),
    {
        OcGuid { a32b, a16b1, a16b2, a16b3, a8 }
    }

    /// The ten scalars, grouped as `Standard_GUID`'s constructor takes
    /// them: `(a32b, a16b1, a16b2, a16b3, a8)`.
    pub fn fields(&self) -> (f: (u32, u16, u16, u16, [u8; 6]))
        ensures
            f.0 == self@.a32b,
            f.1 == self@.a16b1,
            f.2 == self@.a16b2,
            f.3 == self@.a16b3,
            f.4@ == self@.a8,
    {
        (self.a32b, self.a16b1, self.a16b2, self.a16b3, self.a8)
    }

    /// The canonical `8-4-4-4-12` text, e.g.
    /// `12345678-1234-1234-1234-123456789abc`.
    pub fn to_string(&self) -> (s: String)
        ensures
            s@ == guid_text(self@),
    {
        let mut s = String::new();
        push_hex(&mut s, self.a32b, 8);
        push_char(&mut s, '-');
        push_hex(&mut s, self.a16b1 as u32, 4);
        push_char(&mut s, '-');
        push_hex(&mut s, self.a16b2 as u32, 4);
        push_char(&mut s, '-');
        push_hex(&mut s, self.a16b3 as u32, 4);
        push_char(&mut s, '-');
        push_hex(&mut s, self.a8[0] as u32, 2);
        push_hex(&mut s, self.a8[1] as u32, 2);
        push_hex(&mut s, self.a8[2] as u32, 2);
        push_hex(&mut s, self.a8[3] as u32, 2);
        push_hex(&mut s, self.a8[4] as u32, 2);
        push_hex(&mut s, self.a8[5] as u32, 2);
        assert(s@ =~= guid_text(self@));
        s
    }

    /// Parses the canonical `8-4-4-4-12` form, hexadecimal digits in either
    /// case; anything else is an error, decided as [`guid_parse`] says.
    pub fn parse(s: &str) -> (r: Result<OcGuid, GuidParseError>)
        ensures
            match r {
                Ok(g) => guid_parse(s.spec_bytes()) == Ok::<GuidView, GuidParseError>(g@),
                Err(e) => guid_parse(s.spec_bytes()) == Err::<GuidView, GuidParseError>(e),
            },
    {
        let b = s.as_bytes();
        let ghost parts = split_on(b@, dash());
        proof {
            assert(parts.skip(0) =~= parts);
            assert(b@.skip(0) =~= b@);
        }
        let (s0, e0, at1) = next_piece(b, Some(0), Ghost(0));
        let (s1, e1, at2) = next_piece(b, at1, Ghost(1));
        let (s2, e2, at3) = next_piece(b, at2, Ghost(2));
        let (s3, e3, at4) = next_piece(b, at3, Ghost(3));
        let (s4, e4, at5) = next_piece(b, at4, Ghost(4));
        check_group(b, s0, e0, 8)?;
        check_group(b, s1, e1, 4)?;
        check_group(b, s2, e2, 4)?;
        check_group(b, s3, e3, 4)?;
        check_group(b, s4, e4, 12)?;
        if at5.is_some() {
            proof {
                let pos = at5->0;
                lemma_split_step(b@.skip(pos as int), dash());
                assert(parts.skip(5).len() >= 1);
            }
            return Err(GuidParseError::WrongGroupCount);
        }
        proof {
            reveal_with_fuel(crate::hexnum::pow16, 9);
        }
        let a32b = hex_digits_value(b, s0, e0) as u32;
        let a16b1 = hex_digits_value(b, s1, e1) as u16;
        let a16b2 = hex_digits_value(b, s2, e2) as u16;
        let a16b3 = hex_digits_value(b, s3, e3) as u16;
        let a8 = tail_of(b, s4, e4);
        let g = OcGuid { a32b, a16b1, a16b2, a16b3, a8 };
        assert(g@ == (GuidView { a32b, a16b1, a16b2, a16b3, a8: a8@ }));
        Ok(g)
    }
}

impl std::str::FromStr for OcGuid {
    type Err = GuidParseError;

    /// Parses the canonical `8-4-4-4-12` form, as [`OcGuid::parse`] does.
    fn from_str(s: &str) -> (r: Result<Self, Self::Err>)
        ensures
            match r {
                Ok(g) => guid_parse(s.spec_bytes()) == Ok::<GuidView, GuidParseError>(g@),
                Err(e) => guid_parse(s.spec_bytes()) == Err::<GuidView, GuidParseError>(e),
            },
    {
        OcGuid::parse(s)
    }
}

} // verus!
