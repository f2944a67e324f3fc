//! `LabelPath`: a label's location in a document as child tags from the
//! root, with its colon-joined text form `1:2:3` (the form of a label's
//! entry string below the root).
use vstd::prelude::*;

use crate::decimal::{i32_parse, i32_text, lemma_i32_text_parses_back, parse_i32, push_i32};
use crate::seqs::{
    lemma_first_index_is, lemma_split_leading, lemma_split_step, lemma_split_without_sep, split_on,
};
use crate::text::{chars_of, debug_text, push_char, push_str, str_debug_text, string_of_range};

verus! {

/// A label's location as a sequence of child tags from the document root.
#[derive(Debug, Clone, PartialEq, Eq)]
pub struct LabelPath(pub Vec<i32>);

impl View for LabelPath {
    type V = Seq<i32>;

    open spec fn view(&self) -> Seq<i32> {
        self.0@
    }
}

/// Error returned when a segment of a label path is not a valid `i32`.
#[derive(Debug)]
pub struct LabelPathParseError {
    segment: String,
}

impl View for LabelPathParseError {
    type V = Seq<char>;

    closed spec fn view(&self) -> Seq<char> {
        self.segment@
    }
}

impl LabelPathParseError {
    /// The segment that did not parse.
    pub fn segment(&self) -> (s: &str)
        ensures
            s@ == self@,
    {
        self.segment.as_str()
    }

    /// The error's text: `label path: invalid tag segment ` and the
    /// segment as `Debug` writes it, quoted.
    pub fn to_string(&self) -> (s: String)
        ensures
            s@ == "label path: invalid tag segment "@ + str_debug_text(self@),
    {
        let mut s = String::new();
        push_str(&mut s, "label path: invalid tag segment ");
        let q = debug_text(self.segment.as_str());
        push_str(&mut s, q.as_str());
        s
    }
}

/// The text of a path: its tags in decimal, joined by `:`; empty for the
/// empty path.
pub open spec fn path_text(p: Seq<i32>) -> Seq<char>
    decreases p.len(),
{
    if p.len() == 0 {
        Seq::empty()
    } else if p.len() == 1 {
        i32_text(p[0])
    } else {
        path_text(p.drop_last()) + seq![':'] + i32_text(p.last())
    }
}

/// Prepends `tags` to a successful result; errors pass through.
pub open spec fn with_tags(tags: Seq<i32>, r: Result<Seq<i32>, Seq<char>>) -> Result<
    Seq<i32>,
    Seq<char>,
> {
    match r {
        Ok(rest) => Ok(tags + rest),
        Err(e) => Err(e),
    }
}

/// Each segment parsed as an `i32`, or the first segment that fails.
pub open spec fn parse_segments(parts: Seq<Seq<char>>) -> Result<Seq<i32>, Seq<char>>
    decreases parts.len(),
{
    if parts.len() == 0 {
        Ok(Seq::empty())
    } else {
        match i32_parse(parts[0]) {
            None => Err(parts[0]),
            Some(t) => with_tags(seq![t], parse_segments(parts.drop_first())),
        }
    }
}

/// What a text parses to: the empty text is the empty path; otherwise the
/// text is split at every `:` and each segment must be an `i32` as
/// `str::parse` reads it.  The error holds the first failing segment.
pub open spec fn label_path_parse(s: Seq<char>) -> Result<Seq<i32>, Seq<char>> {
    if s.len() == 0 {
        Ok(Seq::empty())
    } else {
        parse_segments(split_on(s, ':'))
    }
}

proof fn lemma_with_tags_assoc(a: Seq<i32>, b: Seq<i32>, r: Result<Seq<i32>, Seq<char>>)
    ensures
        with_tags(a, with_tags(b, r)) == with_tags(a + b, r),
{
    match r {
        Ok(x) => {
            assert(a + (b + x) =~= (a + b) + x);
        },
        Err(e) => {},
    }
}

/// The text of a path of two or more tags, read from the front.
proof fn lemma_path_text_front(p: Seq<i32>)
    requires
        p.len() >= 2,
    ensures
        path_text(p) == i32_text(p[0]) + seq![':'] + path_text(p.drop_first()),
    decreases p.len(),
{
    assert(path_text(p) == path_text(p.drop_last()) + seq![':'] + i32_text(p.last()));
    if p.len() == 2 {
        assert(p.drop_last() =~= seq![p[0]]);
        assert(p.drop_first() =~= seq![p[1]]);
        assert(path_text(p.drop_last()) == i32_text(p[0]));
        assert(path_text(p.drop_first()) == i32_text(p[1]));
    } else {
        lemma_path_text_front(p.drop_last());
        let mid = p.drop_first().drop_last();
        assert(p.drop_last().drop_first() =~= mid);
        assert(p.drop_last()[0] == p[0]);
        assert(p.drop_first().last() == p.last());
        assert(path_text(p.drop_first()) == path_text(mid) + seq![':'] + i32_text(p.last()));
        assert(path_text(p) =~= i32_text(p[0]) + seq![':'] + path_text(p.drop_first()));
    }
}

/// A non-empty path's text parses back to the path.
proof fn lemma_path_text_parses(p: Seq<i32>)
    requires
        p.len() >= 1,
    ensures
        parse_segments(split_on(path_text(p), ':')) == Ok::<Seq<i32>, Seq<char>>(p),
    decreases p.len(),
{
    let t0 = i32_text(p[0]);
    lemma_i32_text_parses_back(p[0]);
    if p.len() == 1 {
        assert(path_text(p) == t0);
        lemma_split_without_sep(t0, ':');
        let parts = seq![t0];
        assert(parts.drop_first() =~= Seq::<Seq<char>>::empty());
        assert(parse_segments(parts.drop_first()) == Ok::<Seq<i32>, Seq<char>>(Seq::empty()));
        assert(parse_segments(parts) == with_tags(seq![p[0]], parse_segments(parts.drop_first())));
        assert(seq![p[0]] + Seq::<i32>::empty() =~= p);
    } else {
        lemma_path_text_front(p);
        lemma_split_leading(t0, ':', path_text(p.drop_first()));
        lemma_path_text_parses(p.drop_first());
        let parts = split_on(path_text(p), ':');
        assert(parts[0] == t0);
        assert(parts.drop_first() =~= split_on(path_text(p.drop_first()), ':'));
        assert(parse_segments(parts) == with_tags(seq![p[0]], parse_segments(parts.drop_first())));
        assert(seq![p[0]] + p.drop_first() =~= p);
    }
}

/// Law: the text of a path parses back to the same path.
pub proof fn label_path_round_trip(p: Seq<i32>)
    ensures
        label_path_parse(path_text(p)) == Ok::<Seq<i32>, Seq<char>>(p),
{
    if p.len() == 0 {
        assert(p =~= Seq::<i32>::empty());
    } else {
        lemma_path_text_parses(p);
        lemma_i32_text_parses_back(p[0]);
        if p.len() == 1 {
            assert(path_text(p).len() > 0);
        } else {
            lemma_path_text_front(p);
            assert(path_text(p).len() > 0);
        }
    }
}

impl LabelPath {
    /// The colon-joined text, e.g. `1:2:3`.
    pub fn to_string(&self) -> (s: String)
        ensures
            s@ == path_text(self@),
    {
        let mut s = String::new();
        let mut i: usize = 0;
        while i < self.0.len()
            invariant
                0 <= i <= self@.len(),
                s@ == path_text(self@.take(i as int)),
            decreases self@.len() - i,
        {
            if i > 0 {
                push_char(&mut s, ':');
            }
            push_i32(&mut s, self.0[i]);
            proof {
                let p = self@.take(i + 1);
                assert(p.drop_last() =~= self@.take(i as int));
                if i == 0 {
                    assert(self@.take(0) =~= Seq::<i32>::empty());
                    assert(s@ =~= i32_text(p[0]));
                } else {
                    assert(s@ =~= path_text(p.drop_last()) + seq![':'] + i32_text(p.last()));
                }
            }
            i = i + 1;
        }
        assert(self@.take(self@.len() as int) =~= self@);
        s
    }

    /// Parses the colon-joined text; see [`label_path_parse`].
    pub fn parse(s: &str) -> (r: Result<LabelPath, LabelPathParseError>)
        ensures
            match r {
                Ok(p) => label_path_parse(s@) == Ok::<Seq<i32>, Seq<char>>(p@),
                Err(e) => label_path_parse(s@) == Err::<Seq<i32>, Seq<char>>(e@),
            },
    {
        let v = chars_of(s);
        let ghost w = s@;
        let n = v.len();
        if n == 0 {
            return Ok(LabelPath(Vec::new()));
        }
        let mut tags: Vec<i32> = Vec::new();
        let mut pos: usize = 0;
        assert(w.skip(0) =~= w);
        assert(tags@ =~= Seq::<i32>::empty());
        assert(with_tags(tags@, parse_segments(split_on(w.skip(0), ':'))) == parse_segments(
            split_on(w, ':'),
        )) by {
            match parse_segments(split_on(w, ':')) {
                Ok(x) => {
                    assert(Seq::<i32>::empty() + x =~= x);
                },
                Err(e) => {},
            }
        }
        loop
            invariant
                w == s@,
                v@ == w,
                n == w.len(),
                n > 0,
                pos <= n,
                parse_segments(split_on(w, ':')) == with_tags(
                    tags@,
                    parse_segments(split_on(w.skip(pos as int), ':')),
                ),
            decreases n - pos,
        {
            let ghost u = w.skip(pos as int);
            let mut d: usize = pos;
            while d < n && v[d] != ':'
                invariant
                    pos <= d <= n,
                    v@ == w,
                    n == w.len(),
                    forall|j: int| pos <= j < d ==> w[j] != ':',
                decreases n - d,
            {
                d = d + 1;
            }
            proof {
                assert forall|j: int| 0 <= j < d - pos implies u[j] != ':' by {
                    assert(u[j] == w[pos + j]);
                }
                if d < n {
                    assert(u[d - pos] == w[d as int]);
                }
                lemma_first_index_is(u, ':', d - pos);
                lemma_split_step(u, ':');
                assert(u.take(d - pos) =~= v@.subrange(pos as int, d as int));
            }
            let ghost parts = split_on(u, ':');
            match parse_i32(&v, pos, d) {
                None => {
                    let segment = string_of_range(&v, pos, d);
                    assert(parts[0] == segment@);
                    assert(i32_parse(parts[0]) is None);
                    assert(parse_segments(parts) == Err::<Seq<i32>, Seq<char>>(parts[0]));
                    assert(parse_segments(split_on(w.skip(pos as int), ':')) == Err::<Seq<i32>, Seq<char>>(parts[0]));
                    assert(parse_segments(split_on(w, ':')) == Err::<Seq<i32>, Seq<char>>(parts[0]));
                    assert(label_path_parse(w) == Err::<Seq<i32>, Seq<char>>(parts[0]));
                    let e = LabelPathParseError { segment };
                    assert(e@ == parts[0]);
                    return Err(e);
                },
                Some(t) => {
                    let ghost before = tags@;
                    proof {
                        assert(parts[0] == v@.subrange(pos as int, d as int));
                        assert(parse_segments(parts) == with_tags(
                            seq![t],
                            parse_segments(parts.drop_first()),
                        ));
                        lemma_with_tags_assoc(before, seq![t], parse_segments(parts.drop_first()));
                    }
                    tags.push(t);
                    assert(tags@ == before + seq![t]);
                    if d == n {
                        proof {
                            assert(parts.drop_first() =~= Seq::<Seq<char>>::empty());
                            assert(tags@ + Seq::<i32>::empty() =~= tags@);
                        }
                        return Ok(LabelPath(tags));
                    }
                    proof {
                        assert(u.skip(d - pos + 1) =~= w.skip(d + 1));
                        assert(parts.drop_first() == split_on(w.skip(d + 1), ':'));
                    }
                    pos = d + 1;
                },
            }
        }
    }
}

impl std::str::FromStr for LabelPath {
    type Err = LabelPathParseError;

    /// Parses the colon-joined text, as [`LabelPath::parse`] does.
    fn from_str(s: &str) -> (r: Result<Self, Self::Err>)
        ensures
            match r {
                Ok(p) => label_path_parse(s@) == Ok::<Seq<i32>, Seq<char>>(p@),
                Err(e) => label_path_parse(s@) == Err::<Seq<i32>, Seq<char>>(e@),
            },
    {
        LabelPath::parse(s)
    }
}

} // verus!
