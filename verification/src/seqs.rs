//! Splitting a sequence at a separator, as `str::split` does.
use vstd::prelude::*;

verus! {

/// Index of the first `x` in `s`, or `s.len()` when `s` holds no `x`.
pub open spec fn first_index<A>(s: Seq<A>, x: A) -> int
    decreases s.len(),
{
    if s.len() == 0 {
        0
    } else if s[0] == x {
        0
    } else {
        1 + first_index(s.drop_first(), x)
    }
}

/// `first_index` is the position of the first `x`, or the length.
pub proof fn lemma_first_index<A>(s: Seq<A>, x: A)
    ensures
        0 <= first_index(s, x) <= s.len(),
        forall|j: int| 0 <= j < first_index(s, x) ==> s[j] != x,
        first_index(s, x) < s.len() ==> s[first_index(s, x)] == x,
    decreases s.len(),
{
    if s.len() > 0 && s[0] != x {
        lemma_first_index(s.drop_first(), x);
        assert forall|j: int| 0 <= j < first_index(s, x) implies s[j] != x by {
            if j > 0 {
                assert(s[j] == s.drop_first()[j - 1]);
            }
        }
    }
}

/// Any `k` before which no `x` occurs, and at which `x` occurs or `s` ends,
/// is the first index of `x`.
pub proof fn lemma_first_index_is<A>(s: Seq<A>, x: A, k: int)
    requires
        0 <= k <= s.len(),
        forall|j: int| 0 <= j < k ==> s[j] != x,
        k == s.len() || s[k] == x,
    ensures
        first_index(s, x) == k,
{
    lemma_first_index(s, x);
    let f = first_index(s, x);
    if f < k {
        assert(s[f] == x);
    } else if f > k {
        assert(s[k] != x);
    }
}

/// The pieces of `s` between occurrences of `sep`, as `str::split` yields
/// them: there is always at least one piece, and pieces may be empty.
pub open spec fn split_on<A>(s: Seq<A>, sep: A) -> Seq<Seq<A>>
    decreases s.len(),
{
    let d = first_index(s, sep);
    if d >= s.len() {
        seq![s]
    } else {
        proof {
            lemma_first_index(s, sep);
        }
        seq![s.take(d)] + split_on(s.skip(d + 1), sep)
    }
}

/// The `k`-th piece, or the empty sequence where there are fewer pieces.
pub open spec fn nth_piece<A>(pieces: Seq<Seq<A>>, k: int) -> Seq<A> {
    if 0 <= k < pieces.len() {
        pieces[k]
    } else {
        Seq::empty()
    }
}

/// The first piece of `s` ends at the first separator; the rest are the
/// pieces of what follows it.
pub proof fn lemma_split_step<A>(s: Seq<A>, sep: A)
    ensures
        split_on(s, sep).len() >= 1,
        split_on(s, sep)[0] == s.take(first_index(s, sep)),
        first_index(s, sep) == s.len() ==> split_on(s, sep).len() == 1,
        first_index(s, sep) < s.len() ==> split_on(s, sep).drop_first() == split_on(
            s.skip(first_index(s, sep) + 1),
            sep,
        ),
{
    lemma_first_index(s, sep);
    let d = first_index(s, sep);
    if d >= s.len() {
        assert(s.take(d) =~= s);
    } else {
        let rest = split_on(s.skip(d + 1), sep);
        assert((seq![s.take(d)] + rest).drop_first() =~= rest);
    }
}

/// A sequence without the separator is a single piece.
pub proof fn lemma_split_without_sep<A>(x: Seq<A>, sep: A)
    requires
        forall|i: int| 0 <= i < x.len() ==> x[i] != sep,
    ensures
        split_on(x, sep) == seq![x],
{
    lemma_first_index_is(x, sep, x.len() as int);
    lemma_split_step(x, sep);
    assert(x.take(x.len() as int) =~= x);
    assert(split_on(x, sep) =~= seq![x]);
}

/// A separator-free `x` followed by the separator is split off as the
/// first piece.
pub proof fn lemma_split_leading<A>(x: Seq<A>, sep: A, y: Seq<A>)
    requires
        forall|i: int| 0 <= i < x.len() ==> x[i] != sep,
    ensures
        split_on(x + seq![sep] + y, sep) == seq![x] + split_on(y, sep),
{
    let s = x + seq![sep] + y;
    assert forall|j: int| 0 <= j < x.len() implies s[j] != sep by {
        assert(s[j] == x[j]);
    }
    assert(s[x.len() as int] == sep);
    lemma_first_index_is(s, sep, x.len() as int);
    lemma_split_step(s, sep);
    assert(s.take(x.len() as int) =~= x);
    assert(s.skip(x.len() as int + 1) =~= y);
    let parts = split_on(s, sep);
    assert(parts =~= seq![x] + split_on(y, sep)) by {
        assert(parts.drop_first() == split_on(y, sep));
        assert forall|k: int| 0 <= k < parts.len() implies parts[k] == (seq![x] + split_on(
            y,
            sep,
        ))[k] by {
            if k > 0 {
                assert(parts[k] == parts.drop_first()[k - 1]);
            }
        }
    }
}

} // verus!
