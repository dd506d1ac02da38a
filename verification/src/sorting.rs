//! Stable sorting by an integer key (a point in time, a number).

use vstd::prelude::*;

verus! {

broadcast use {vstd::seq_lib::group_seq_properties, vstd::seq_lib::group_to_multiset_ensures, vstd::multiset::group_multiset_axioms};

/// Values that are ordered by an integer key.
pub trait Keyed: Sized {
    /// The key by which values are ordered.
    spec fn sort_key(&self) -> int;

    /// Computes the key.
    fn key(&self) -> (r: i64)
        ensures
            r == self.sort_key(),
    ;
}

/// The predicate "has key `k`".
pub open spec fn key_is<T: Keyed>(k: int) -> spec_fn(T) -> bool {
    |x: T| x.sort_key() == k
}

/// Keys never decrease along `s`.
pub open spec fn sorted_by_key<T: Keyed>(s: Seq<T>) -> bool {
    forall|i: int, j: int| 0 <= i < j < s.len() ==> s[i].sort_key() <= s[j].sort_key()
}

/// `out` is `inp` sorted by key, where values with equal keys keep their
/// relative order.
pub open spec fn is_stable_sort_of<T: Keyed>(out: Seq<T>, inp: Seq<T>) -> bool {
    &&& sorted_by_key(out)
    &&& out.to_multiset() == inp.to_multiset()
    &&& forall|k: int| #[trigger] out.filter(key_is::<T>(k)) == inp.filter(key_is::<T>(k))
}

proof fn lemma_filter_all_false<T: Keyed>(s: Seq<T>, k: int)
    requires
        forall|i: int| 0 <= i < s.len() ==> s[i].sort_key() != k,
    ensures
        s.filter(key_is::<T>(k)) == Seq::<T>::empty(),
    decreases s.len(),
{
    reveal(Seq::filter);
    if s.len() > 0 {
        lemma_filter_all_false(s.drop_last(), k);
    }
}

proof fn lemma_filter_singleton<T: Keyed>(e: T, k: int)
    ensures
        seq![e].filter(key_is::<T>(k)) == (if e.sort_key() == k {
            seq![e]
        } else {
            Seq::<T>::empty()
        }),
{
    reveal_with_fuel(Seq::filter, 2);
    assert(seq![e].drop_last() =~= Seq::<T>::empty());
}

/// Inserting `e` right after every value whose key is at most `e`'s key keeps
/// the sequence a stable sort of its input with `e` appended.
proof fn lemma_insert_keeps_stable<T: Keyed>(r: Seq<T>, inp: Seq<T>, e: T, p: int)
    requires
        is_stable_sort_of(r, inp),
        0 <= p <= r.len(),
        forall|i: int| 0 <= i < p ==> r[i].sort_key() <= e.sort_key(),
        forall|i: int| p <= i < r.len() ==> r[i].sort_key() > e.sort_key(),
    ensures
        is_stable_sort_of(r.insert(p, e), inp.push(e)),
{
    let out = r.insert(p, e);
    let a = r.take(p);
    let b = r.skip(p);
    assert(r =~= a + b);
    assert(out =~= a + seq![e] + b);
    assert(inp.push(e) =~= inp + seq![e]);
    assert(sorted_by_key(out)) by {
        assert forall|i: int, j: int| 0 <= i < j < out.len() implies out[i].sort_key()
            <= out[j].sort_key() by {
            if i < p && j < p {
            } else if i < p && j == p {
            } else if i < p {
                assert(out[j] == r[j - 1]);
            } else if i == p {
                assert(out[j] == r[j - 1]);
            } else {
                assert(out[i] == r[i - 1]);
                assert(out[j] == r[j - 1]);
            }
        }
    }
    assert(out.to_multiset() == inp.push(e).to_multiset()) by {
        assert(out.remove(p) =~= r);
        assert(out[p] == e);
        assert(out.remove(p).to_multiset() =~= out.to_multiset().remove(e));
        assert(out.to_multiset().count(e) > 0);
        assert(out.to_multiset() =~= r.to_multiset().insert(e));
    }
    assert forall|k: int| #[trigger] out.filter(key_is::<T>(k)) == inp.push(e).filter(
        key_is::<T>(k),
    ) by {
        vstd::seq::Seq::filter_distributes_over_add(a + seq![e], b, key_is::<T>(k));
        vstd::seq::Seq::filter_distributes_over_add(a, seq![e], key_is::<T>(k));
        vstd::seq::Seq::filter_distributes_over_add(a, b, key_is::<T>(k));
        vstd::seq::Seq::filter_distributes_over_add(inp, seq![e], key_is::<T>(k));
        lemma_filter_singleton(e, k);
        assert(r.filter(key_is::<T>(k)) == inp.filter(key_is::<T>(k)));
        if k == e.sort_key() {
            lemma_filter_all_false(b, k);
            assert(b.filter(key_is::<T>(k)) + Seq::<T>::empty() =~= b.filter(key_is::<T>(k)));
            assert(a.filter(key_is::<T>(k)) + Seq::<T>::empty() =~= a.filter(key_is::<T>(k)));
        } else {
            assert(a.filter(key_is::<T>(k)) + Seq::<T>::empty() =~= a.filter(key_is::<T>(k)));
            assert(inp.filter(key_is::<T>(k)) + Seq::<T>::empty() =~= inp.filter(
                key_is::<T>(k),
            ));
        }
    }
}

/// Sorts `v` by key; values with equal keys keep their relative order.
pub fn stable_sort_by_key<T: Keyed>(v: Vec<T>) -> (r: Vec<T>)
    ensures
        is_stable_sort_of(r@, v@),
{
    let ghost orig = v@;
    let mut rest = v;
    let mut out: Vec<T> = Vec::new();
    proof {
        assert(orig.take(0) =~= Seq::<T>::empty());
        assert forall|k: int| #[trigger] out@.filter(key_is::<T>(k)) == orig.take(0).filter(
            key_is::<T>(k),
        ) by {
            assert(out@ =~= orig.take(0));
        }
    }
    while rest.len() > 0
        invariant
            0 <= orig.len() - rest@.len() <= orig.len(),
            rest@ == orig.skip(orig.len() - rest@.len()),
            is_stable_sort_of(out@, orig.take(orig.len() - rest@.len())),
        decreases rest@.len(),
    {
        let ghost done = orig.len() - rest@.len();
        let e = rest.remove(0);
        proof {
            assert(e == orig[done]);
            assert(rest@ =~= orig.skip(done + 1));
            assert(orig.take(done + 1) =~= orig.take(done).push(e));
        }
        let ke = e.key();
        let mut p: usize = out.len();
        while p > 0
            invariant
                p <= out.len(),
                ke == e.sort_key(),
                sorted_by_key(out@),
                forall|i: int| p <= i < out.len() ==> out@[i].sort_key() > e.sort_key(),
            ensures
                p == 0 || out@[p - 1].sort_key() <= e.sort_key(),
            decreases p,
        {
            if out[p - 1].key() <= ke {
                break;
            }
            p = p - 1;
        }
        proof {
            if p > 0 {
                assert(out@[p - 1].sort_key() <= e.sort_key());
            }
            lemma_insert_keeps_stable(out@, orig.take(done), e, p as int);
        }
        out.insert(p, e);
    }
    proof {
        assert(orig.take(orig.len() as int) =~= orig);
    }
    out
}

proof fn lemma_filter_push<T: Keyed>(s: Seq<T>, x: T, k: int)
    ensures
        s.push(x).filter(key_is::<T>(k)) == if x.sort_key() == k {
            s.filter(key_is::<T>(k)).push(x)
        } else {
            s.filter(key_is::<T>(k))
        },
{
    reveal(Seq::filter);
    assert(s.push(x).drop_last() =~= s);
}

/// Sequences sorted by key that hold, key by key, the same values in the same
/// order are the same sequence.
proof fn lemma_sorted_same_filters_equal<T: Keyed>(a: Seq<T>, b: Seq<T>)
    requires
        sorted_by_key(a),
        sorted_by_key(b),
        forall|k: int| #[trigger] a.filter(key_is::<T>(k)) == b.filter(key_is::<T>(k)),
    ensures
        a == b,
    decreases a.len() + b.len(),
{
    if a.len() == 0 && b.len() == 0 {
        assert(a =~= b);
    } else if a.len() == 0 {
        let k = b.last().sort_key();
        lemma_filter_push(b.drop_last(), b.last(), k);
        assert(b.drop_last().push(b.last()) =~= b);
        lemma_filter_all_false(a, k);
        assert(a.filter(key_is::<T>(k)) == b.filter(key_is::<T>(k)));
        assert(false);
    } else if b.len() == 0 {
        let k = a.last().sort_key();
        lemma_filter_push(a.drop_last(), a.last(), k);
        assert(a.drop_last().push(a.last()) =~= a);
        lemma_filter_all_false(b, k);
        assert(a.filter(key_is::<T>(k)) == b.filter(key_is::<T>(k)));
        assert(false);
    } else {
        let x = a.last();
        let y = b.last();
        let ia = a.drop_last();
        let ib = b.drop_last();
        assert(ia.push(x) =~= a);
        assert(ib.push(y) =~= b);
        let kx = x.sort_key();
        let ky = y.sort_key();
        // The last keys agree: each sequence holds a value with the other's last key.
        assert(kx == ky) by {
            lemma_filter_push(ia, x, kx);
            lemma_filter_push(ib, y, ky);
            assert(a.filter(key_is::<T>(kx)) == b.filter(key_is::<T>(kx)));
            assert(a.filter(key_is::<T>(ky)) == b.filter(key_is::<T>(ky)));
            let fb = b.filter(key_is::<T>(kx));
            assert(fb.len() > 0);
            assert(key_is::<T>(kx)(fb[0]));
            assert(fb.contains(fb[0]));
            b.lemma_filter_contains_rev(key_is::<T>(kx), fb[0]);
            assert(b.contains(fb[0]));
            let fa = a.filter(key_is::<T>(ky));
            assert(fa.len() > 0);
            assert(key_is::<T>(ky)(fa[0]));
            assert(fa.contains(fa[0]));
            a.lemma_filter_contains_rev(key_is::<T>(ky), fa[0]);
            assert(a.contains(fa[0]));
            let jb = choose|j: int| 0 <= j < b.len() && b[j] == fb[0];
            let ja = choose|j: int| 0 <= j < a.len() && a[j] == fa[0];
            assert(b[jb].sort_key() <= b[b.len() - 1].sort_key());
            assert(a[ja].sort_key() <= a[a.len() - 1].sort_key());
        }
        assert(x == y) by {
            lemma_filter_push(ia, x, kx);
            lemma_filter_push(ib, y, kx);
            let fa = ia.filter(key_is::<T>(kx)).push(x);
            let fb = ib.filter(key_is::<T>(kx)).push(y);
            assert(a.filter(key_is::<T>(kx)) == fa);
            assert(b.filter(key_is::<T>(kx)) == fb);
            assert(fa == fb);
            assert(fa[fa.len() - 1] == x);
            assert(fb[fb.len() - 1] == y);
        }
        assert forall|k: int| #[trigger] ia.filter(key_is::<T>(k)) == ib.filter(key_is::<T>(k)) by {
            lemma_filter_push(ia, x, k);
            lemma_filter_push(ib, y, k);
            assert(a.filter(key_is::<T>(k)) == b.filter(key_is::<T>(k)));
            if k == kx {
                assert(ia.filter(key_is::<T>(k)) =~= a.filter(key_is::<T>(k)).drop_last());
                assert(ib.filter(key_is::<T>(k)) =~= b.filter(key_is::<T>(k)).drop_last());
            }
        }
        lemma_sorted_same_filters_equal(ia, ib);
    }
}

/// A stable sort has one outcome: two stable sorts of the same input are equal.
pub proof fn lemma_stable_sort_unique<T: Keyed>(out1: Seq<T>, out2: Seq<T>, inp: Seq<T>)
    requires
        is_stable_sort_of(out1, inp),
        is_stable_sort_of(out2, inp),
    ensures
        out1 == out2,
{
    assert forall|k: int| #[trigger] out1.filter(key_is::<T>(k)) == out2.filter(key_is::<T>(k)) by {
        assert(out1.filter(key_is::<T>(k)) == inp.filter(key_is::<T>(k)));
        assert(out2.filter(key_is::<T>(k)) == inp.filter(key_is::<T>(k)));
    }
    lemma_sorted_same_filters_equal(out1, out2);
}

/// Sorting what is already sorted by key leaves it unchanged.
pub proof fn lemma_stable_sort_of_sorted<T: Keyed>(out: Seq<T>, inp: Seq<T>)
    requires
        sorted_by_key(inp),
        is_stable_sort_of(out, inp),
    ensures
        out == inp,
{
    assert forall|k: int| #[trigger] out.filter(key_is::<T>(k)) == inp.filter(key_is::<T>(k)) by {}
    lemma_sorted_same_filters_equal(out, inp);
}

impl Keyed for i64 {
    open spec fn sort_key(&self) -> int {
        *self as int
    }

    fn key(&self) -> (r: i64) {
        *self
    }
}

} // verus!
