//! Stable ordering of items by a rank, compared lexicographically.

use vstd::prelude::*;

verus! {

/// `a` comes no later than `b` in lexicographic order.
pub open spec fn lex_le(a: Seq<int>, b: Seq<int>) -> bool
    decreases a.len(),
{
    if a.len() == 0 {
        true
    } else if b.len() == 0 {
        false
    } else if a[0] != b[0] {
        a[0] < b[0]
    } else {
        lex_le(a.drop_first(), b.drop_first())
    }
}

/// An item with a rank that decides where it stands among others.
pub trait Ranked: Sized {
    /// The rank of the item.
    spec fn rank(&self) -> Seq<int>;

    /// Whether `self` may stand before `other`.
    fn not_after(&self, other: &Self) -> (b: bool)
        ensures
            b == lex_le(self.rank(), other.rank()),
    ;
}

/// The rank function of a ranked type.
pub open spec fn rank_of<T: Ranked>() -> spec_fn(T) -> Seq<int> {
    |x: T| x.rank()
}

/// Each item of `s` ranks no later than the items behind it.
pub open spec fn is_ordered<T>(s: Seq<T>, rank: spec_fn(T) -> Seq<int>) -> bool {
    forall|i: int, j: int| 0 <= i < j < s.len() ==> lex_le(rank(#[trigger] s[i]), rank(#[trigger] s[j]))
}

/// `x` placed into `s` behind every leading item that ranks strictly
/// earlier, and so ahead of the items of equal rank.
pub open spec fn placed<T>(x: T, s: Seq<T>, rank: spec_fn(T) -> Seq<int>) -> Seq<T>
    decreases s.len(),
{
    if s.len() == 0 || lex_le(rank(x), rank(s[0])) {
        seq![x] + s
    } else {
        seq![s[0]] + placed(x, s.drop_first(), rank)
    }
}

/// `s` in rank order, items of equal rank in the order they had in `s`.
pub open spec fn ranked<T>(s: Seq<T>, rank: spec_fn(T) -> Seq<int>) -> Seq<T>
    decreases s.len(),
{
    if s.len() == 0 {
        s
    } else {
        placed(s[0], ranked(s.drop_first(), rank), rank)
    }
}

/// Lexicographic order is total.
pub proof fn lex_le_total(a: Seq<int>, b: Seq<int>)
    ensures
        lex_le(a, b) || lex_le(b, a),
    decreases a.len(),
{
    if a.len() > 0 && b.len() > 0 && a[0] == b[0] {
        lex_le_total(a.drop_first(), b.drop_first());
    }
}

/// Lexicographic order is transitive.
pub proof fn lex_le_trans(a: Seq<int>, b: Seq<int>, c: Seq<int>)
    requires
        lex_le(a, b),
        lex_le(b, c),
    ensures
        lex_le(a, c),
    decreases a.len(),
{
    if a.len() > 0 && b.len() > 0 && c.len() > 0 && a[0] == b[0] && b[0] == c[0] {
        lex_le_trans(a.drop_first(), b.drop_first(), c.drop_first());
    }
}

/// A sequence holds its first item and what the rest holds.
pub proof fn items_of_nonempty<T>(s: Seq<T>)
    requires
        s.len() > 0,
    ensures
        s.to_multiset() == s.drop_first().to_multiset().insert(s[0]),
{
    broadcast use vstd::multiset::group_multiset_axioms;

    s.to_multiset_ensures();
    assert(s.remove(0) =~= s.drop_first());
    assert(s.contains(s[0]));
    assert(s.to_multiset() =~= s.drop_first().to_multiset().insert(s[0]));
}

/// Placing an item keeps every item and adds the new one.
pub proof fn placed_keeps_items<T>(x: T, s: Seq<T>, rank: spec_fn(T) -> Seq<int>)
    ensures
        placed(x, s, rank).len() == s.len() + 1,
        placed(x, s, rank).to_multiset() == s.to_multiset().insert(x),
    decreases s.len(),
{
    broadcast use vstd::multiset::group_multiset_axioms;

    let out = placed(x, s, rank);
    if s.len() == 0 || lex_le(rank(x), rank(s[0])) {
        assert(out.drop_first() =~= s);
        items_of_nonempty(out);
    } else {
        let rest = s.drop_first();
        let tail = placed(x, rest, rank);
        placed_keeps_items(x, rest, rank);
        assert(out.drop_first() =~= tail);
        items_of_nonempty(out);
        items_of_nonempty(s);
        assert(out.to_multiset() =~= s.to_multiset().insert(x));
    }
}

/// Placing an item into an ordered sequence leaves it ordered.
pub proof fn placed_keeps_order<T>(x: T, s: Seq<T>, rank: spec_fn(T) -> Seq<int>)
    requires
        is_ordered(s, rank),
    ensures
        is_ordered(placed(x, s, rank), rank),
        forall|k: int| 0 <= k < placed(x, s, rank).len() ==> (placed(x, s, rank)[k] == x || exists|m: int|
            0 <= m < s.len() && s[m] == #[trigger] placed(x, s, rank)[k]),
    decreases s.len(),
{
    let out = placed(x, s, rank);
    if s.len() == 0 {
    } else if lex_le(rank(x), rank(s[0])) {
        assert forall|i: int, j: int| 0 <= i < j < out.len() implies lex_le(
            rank(#[trigger] out[i]),
            rank(#[trigger] out[j]),
        ) by {
            if i == 0 {
                assert(out[j] == s[j - 1]);
                if j > 1 {
                    lex_le_trans(rank(x), rank(s[0]), rank(s[j - 1]));
                }
            } else {
                assert(out[i] == s[i - 1] && out[j] == s[j - 1]);
            }
        }
        assert forall|k: int| 0 <= k < out.len() implies (out[k] == x || exists|m: int|
            0 <= m < s.len() && s[m] == #[trigger] out[k]) by {
            if k > 0 {
                assert(s[k - 1] == out[k]);
            }
        }
    } else {
        let rest = s.drop_first();
        assert forall|i: int, j: int| 0 <= i < j < rest.len() implies lex_le(
            rank(#[trigger] rest[i]),
            rank(#[trigger] rest[j]),
        ) by {
            assert(rest[i] == s[i + 1] && rest[j] == s[j + 1]);
        }
        placed_keeps_order(x, rest, rank);
        let tail = placed(x, rest, rank);
        lex_le_total(rank(x), rank(s[0]));
        assert forall|i: int, j: int| 0 <= i < j < out.len() implies lex_le(
            rank(#[trigger] out[i]),
            rank(#[trigger] out[j]),
        ) by {
            assert(out[j] == tail[j - 1]);
            if i == 0 {
                if tail[j - 1] == x {
                } else {
                    let m = choose|m: int| 0 <= m < rest.len() && rest[m] == tail[j - 1];
                    assert(rest[m] == s[m + 1]);
                }
            } else {
                assert(out[i] == tail[i - 1]);
            }
        }
        assert forall|k: int| 0 <= k < out.len() implies (out[k] == x || exists|m: int|
            0 <= m < s.len() && s[m] == #[trigger] out[k]) by {
            if k == 0 {
                assert(s[0] == out[0]);
            } else {
                assert(out[k] == tail[k - 1]);
                if tail[k - 1] != x {
                    let m = choose|m: int| 0 <= m < rest.len() && rest[m] == tail[k - 1];
                    assert(s[m + 1] == out[k]);
                }
            }
        }
    }
}

/// What `ranked` returns is in order and holds the same items as its
/// argument, each as often.
pub proof fn ranked_is_ordered_permutation<T>(s: Seq<T>, rank: spec_fn(T) -> Seq<int>)
    ensures
        is_ordered(ranked(s, rank), rank),
        ranked(s, rank).len() == s.len(),
        ranked(s, rank).to_multiset() == s.to_multiset(),
    decreases s.len(),
{
    if s.len() > 0 {
        let rest = s.drop_first();
        ranked_is_ordered_permutation(rest, rank);
        placed_keeps_order(s[0], ranked(rest, rank), rank);
        placed_keeps_items(s[0], ranked(rest, rank), rank);
        items_of_nonempty(s);
    }
}

/// A sequence that is in order already is left as it is: items of equal
/// rank are never exchanged.
pub proof fn ranked_keeps_ordered<T>(s: Seq<T>, rank: spec_fn(T) -> Seq<int>)
    requires
        is_ordered(s, rank),
    ensures
        ranked(s, rank) == s,
    decreases s.len(),
{
    if s.len() > 0 {
        let rest = s.drop_first();
        assert forall|i: int, j: int| 0 <= i < j < rest.len() implies lex_le(
            rank(#[trigger] rest[i]),
            rank(#[trigger] rest[j]),
        ) by {
            assert(rest[i] == s[i + 1] && rest[j] == s[j + 1]);
        }
        ranked_keeps_ordered(rest, rank);
        if rest.len() > 0 {
            assert(rest[0] == s[1]);
        }
        assert(seq![s[0]] + rest =~= s);
    }
}

/// Puts `items` in rank order, keeping the order of items of equal rank.
pub fn sort_by_rank<T: Ranked>(items: Vec<T>) -> (out: Vec<T>)
    ensures
        out@ == ranked(items@, rank_of::<T>()),
{
    let ghost all = items@;
    let ghost rank = rank_of::<T>();
    let mut rest = items;
    let mut out: Vec<T> = Vec::new();
    while rest.len() > 0
        invariant
            rest@.len() <= all.len(),
            rest@ == all.subrange(0, rest@.len() as int),
            out@ == ranked(all.subrange(rest@.len() as int, all.len() as int), rank),
            rank == rank_of::<T>(),
        decreases rest@.len(),
    {
        let ghost before = all.subrange(rest@.len() as int, all.len() as int);
        let x = rest.pop().unwrap();
        let ghost now = all.subrange(rest@.len() as int, all.len() as int);
        assert(now[0] == x);
        assert(now.drop_first() =~= before);
        let mut p: usize = 0;
        assert(out@.subrange(0, 0) + placed(x, out@.subrange(0, out@.len() as int), rank) =~= placed(
            x,
            out@,
            rank,
        )) by {
            assert(out@.subrange(0, out@.len() as int) =~= out@);
        }
        while p < out.len() && !x.not_after(&out[p])
            invariant
                p <= out@.len(),
                rank == rank_of::<T>(),
                placed(x, out@, rank) == out@.subrange(0, p as int) + placed(
                    x,
                    out@.subrange(p as int, out@.len() as int),
                    rank,
                ),
            decreases out@.len() - p,
        {
            proof {
                let here = out@.subrange(p as int, out@.len() as int);
                let next = out@.subrange(p + 1, out@.len() as int);
                assert(here.drop_first() =~= next);
                assert(out@.subrange(0, p as int) + (seq![here[0]] + placed(x, next, rank))
                    =~= out@.subrange(0, p + 1) + placed(x, next, rank));
            }
            p = p + 1;
        }
        proof {
            let here = out@.subrange(p as int, out@.len() as int);
            assert(placed(x, here, rank) == seq![x] + here);
            assert(out@.subrange(0, p as int) + (seq![x] + here) =~= out@.insert(p as int, x));
        }
        out.insert(p, x);
        assert(rest@ =~= all.subrange(0, rest@.len() as int));
    }
    assert(all.subrange(0, all.len() as int) =~= all);
    out
}

/// How two ranks of two numbers each compare.
pub proof fn lex_le_pair(a: int, b: int, c: int, d: int)
    ensures
        lex_le(seq![a, b], seq![c, d]) == (a < c || (a == c && b <= d)),
{
    reveal_with_fuel(lex_le, 3);
    assert(seq![a, b].drop_first() =~= seq![b]);
    assert(seq![c, d].drop_first() =~= seq![d]);
    assert(seq![b].drop_first() =~= Seq::<int>::empty());
    assert(seq![d].drop_first() =~= Seq::<int>::empty());
}

/// The code points of a text, as a rank.
pub open spec fn codes(s: Seq<char>) -> Seq<int> {
    Seq::new(s.len(), |i: int| s[i] as u32 as int)
}

/// Whether the text `a` comes no later than the text `b`, character by
/// character in code point order.
pub fn chars_not_after(a: &Vec<char>, b: &Vec<char>) -> (r: bool)
    ensures
        r == lex_le(codes(a@), codes(b@)),
{
    let ghost x = codes(a@);
    let ghost y = codes(b@);
    let mut i: usize = 0;
    assert(x.skip(0) =~= x && y.skip(0) =~= y);
    while i < a.len() && i < b.len()
        invariant
            i <= a@.len(),
            i <= b@.len(),
            x == codes(a@),
            y == codes(b@),
            lex_le(x, y) == lex_le(x.skip(i as int), y.skip(i as int)),
        decreases a@.len() - i,
    {
        let p: u32 = a[i] as u32;
        let q: u32 = b[i] as u32;
        proof {
            assert(x.skip(i as int)[0] == p as int);
            assert(y.skip(i as int)[0] == q as int);
            assert(x.skip(i as int).drop_first() =~= x.skip(i + 1));
            assert(y.skip(i as int).drop_first() =~= y.skip(i + 1));
        }
        if p != q {
            return p < q;
        }
        i = i + 1;
    }
    i == a.len()
}

/// Ranking commutes with a change of form that keeps the ranks: the forms
/// of the ranked items are the ranked forms.
pub proof fn ranked_maps<T, U>(
    s: Seq<T>,
    form: spec_fn(T) -> U,
    rank: spec_fn(T) -> Seq<int>,
    form_rank: spec_fn(U) -> Seq<int>,
)
    requires
        forall|x: T| #[trigger] rank(x) == form_rank(form(x)),
    ensures
        ranked(s, rank).map_values(form) == ranked(s.map_values(form), form_rank),
    decreases s.len(),
{
    if s.len() == 0 {
        assert(s.map_values(form) =~= Seq::<U>::empty());
        assert(ranked(s, rank).map_values(form) =~= Seq::<U>::empty());
    } else {
        let rest = s.drop_first();
        ranked_maps(rest, form, rank, form_rank);
        placed_maps(s[0], ranked(rest, rank), form, rank, form_rank);
        assert(s.map_values(form).drop_first() =~= rest.map_values(form));
    }
}

/// Placing commutes with a change of form that keeps the ranks.
pub proof fn placed_maps<T, U>(
    x: T,
    s: Seq<T>,
    form: spec_fn(T) -> U,
    rank: spec_fn(T) -> Seq<int>,
    form_rank: spec_fn(U) -> Seq<int>,
)
    requires
        forall|x: T| #[trigger] rank(x) == form_rank(form(x)),
    ensures
        placed(x, s, rank).map_values(form) == placed(form(x), s.map_values(form), form_rank),
    decreases s.len(),
{
    let t = s.map_values(form);
    if s.len() == 0 || lex_le(rank(x), rank(s[0])) {
        assert((seq![x] + s).map_values(form) =~= seq![form(x)] + t);
    } else {
        placed_maps(x, s.drop_first(), form, rank, form_rank);
        assert(t.drop_first() =~= s.drop_first().map_values(form));
        assert((seq![s[0]] + placed(x, s.drop_first(), rank)).map_values(form) =~= seq![t[0]]
            + placed(form(x), t.drop_first(), form_rank));
    }
}

} // verus!
