//! Stable ordering of records by a key: what it means, that it has exactly
//! one result, and the insertion step the sorts of the library are built on.
use vstd::prelude::*;

verus! {

/// `lt` is a strict total order.
pub open spec fn strict_total<K>(lt: spec_fn(K, K) -> bool) -> bool {
    &&& forall|a: K| !#[trigger] lt(a, a)
    &&& forall|a: K, b: K, c: K| #[trigger] lt(a, b) && #[trigger] lt(b, c) ==> lt(a, c)
    &&& forall|a: K, b: K| a != b ==> #[trigger] lt(a, b) || #[trigger] lt(b, a)
}

/// The records whose key is `k`.
pub open spec fn has_key<V, K>(key: spec_fn(V) -> K, k: K) -> spec_fn(V) -> bool {
    |x: V| key(x) == k
}

/// No record of `s` has a smaller key than one before it.
pub open spec fn ordered_by<V, K>(s: Seq<V>, key: spec_fn(V) -> K, lt: spec_fn(K, K) -> bool) -> bool {
    forall|i: int, j: int| 0 <= i < j < s.len() ==> !lt(key(#[trigger] s[j]), key(#[trigger] s[i]))
}

/// `r` is `s` sorted stably by key: ordered by key, and the records of each
/// key come in the order that `s` has them.
pub open spec fn stably_sorted<V, K>(
    r: Seq<V>,
    s: Seq<V>,
    key: spec_fn(V) -> K,
    lt: spec_fn(K, K) -> bool,
) -> bool {
    &&& ordered_by(r, key, lt)
    &&& forall|k: K| #[trigger] r.filter(has_key(key, k)) == s.filter(has_key(key, k))
}

/// `s` sorted stably by key.
pub open spec fn sorted_stably<V, K>(s: Seq<V>, key: spec_fn(V) -> K, lt: spec_fn(K, K) -> bool) -> Seq<V> {
    choose|r: Seq<V>| stably_sorted(r, s, key, lt)
}

proof fn lemma_filter_empty<V>(s: Seq<V>, p: spec_fn(V) -> bool)
    requires
        forall|i: int| 0 <= i < s.len() ==> !p(#[trigger] s[i]),
    ensures
        s.filter(p) == Seq::<V>::empty(),
{
    s.lemma_filter_len(p);
    if s.filter(p).len() > 0 {
        s.lemma_filter_pred(p, 0);
        let e = s.filter(p)[0];
        assert(s.filter(p).contains(e));
        s.lemma_filter_contains_rev(p, e);
    }
    assert(s.filter(p) =~= Seq::<V>::empty());
}

proof fn lemma_filter_last<V>(s: Seq<V>, p: spec_fn(V) -> bool)
    requires
        s.len() > 0,
    ensures
        s.filter(p) == if p(s.last()) {
            s.drop_last().filter(p).push(s.last())
        } else {
            s.drop_last().filter(p)
        },
{
    assert(s =~= s.drop_last().push(s.last()));
    s.drop_last().lemma_filter_push(s.last(), p);
}

/// A record of key `k` that sorts last in `s` shows `s` has a record of key `k`.
proof fn lemma_filter_nonempty_has<V, K>(s: Seq<V>, key: spec_fn(V) -> K, k: K) -> (j: int)
    requires
        s.filter(has_key(key, k)).len() > 0,
    ensures
        0 <= j < s.len(),
        key(s[j]) == k,
{
    let p = has_key(key, k);
    s.lemma_filter_pred(p, 0);
    let e = s.filter(p)[0];
    assert(s.filter(p).contains(e));
    s.lemma_filter_contains_rev(p, e);
    choose|j: int| 0 <= j < s.len() && s[j] == e
}

/// Two sequences ordered by a strict total order on keys, with the same
/// records of each key in the same order, are equal.
proof fn lemma_same_keys_equal<V, K>(x: Seq<V>, y: Seq<V>, key: spec_fn(V) -> K, lt: spec_fn(K, K) -> bool)
    requires
        strict_total(lt),
        ordered_by(x, key, lt),
        ordered_by(y, key, lt),
        forall|k: K| #[trigger] x.filter(has_key(key, k)) == y.filter(has_key(key, k)),
    ensures
        x == y,
    decreases x.len() + y.len(),
{
    if x.len() == 0 || y.len() == 0 {
        if y.len() > 0 {
            let k = key(y.last());
            lemma_filter_last(y, has_key(key, k));
            assert(x.filter(has_key(key, k)) == y.filter(has_key(key, k)));
            x.lemma_filter_len(has_key(key, k));
        }
        if x.len() > 0 {
            let k = key(x.last());
            lemma_filter_last(x, has_key(key, k));
            assert(x.filter(has_key(key, k)) == y.filter(has_key(key, k)));
            y.lemma_filter_len(has_key(key, k));
        }
        assert(x =~= y);
    } else {
        let a = x.last();
        let b = y.last();
        let ka = key(a);
        let kb = key(b);
        if ka != kb {
            lemma_filter_last(x, has_key(key, ka));
            lemma_filter_last(y, has_key(key, kb));
            assert(x.filter(has_key(key, kb)) == y.filter(has_key(key, kb)));
            assert(x.filter(has_key(key, ka)) == y.filter(has_key(key, ka)));
            if lt(ka, kb) {
                let j = lemma_filter_nonempty_has(x, key, kb);
                assert(j != x.len() - 1);
                assert(!lt(key(x[x.len() - 1]), key(x[j])));
            } else {
                assert(lt(kb, ka));
                let j = lemma_filter_nonempty_has(y, key, ka);
                assert(j != y.len() - 1);
                assert(!lt(key(y[y.len() - 1]), key(y[j])));
            }
        }
        let x1 = x.drop_last();
        let y1 = y.drop_last();
        assert forall|k: K| #[trigger] x1.filter(has_key(key, k)) == y1.filter(has_key(key, k)) by {
            lemma_filter_last(x, has_key(key, k));
            lemma_filter_last(y, has_key(key, k));
            assert(x.filter(has_key(key, k)) == y.filter(has_key(key, k)));
            if k == ka {
                let fx = x1.filter(has_key(key, k));
                let fy = y1.filter(has_key(key, k));
                assert(fx.push(a) == fy.push(b));
                assert(fx =~= fx.push(a).drop_last());
                assert(fy =~= fy.push(b).drop_last());
            }
        }
        assert(ordered_by(x1, key, lt)) by {
            assert forall|i: int, j: int| 0 <= i < j < x1.len() implies !lt(
                key(#[trigger] x1[j]),
                key(#[trigger] x1[i]),
            ) by {
                assert(x1[i] == x[i] && x1[j] == x[j]);
            }
        }
        assert(ordered_by(y1, key, lt)) by {
            assert forall|i: int, j: int| 0 <= i < j < y1.len() implies !lt(
                key(#[trigger] y1[j]),
                key(#[trigger] y1[i]),
            ) by {
                assert(y1[i] == y[i] && y1[j] == y[j]);
            }
        }
        lemma_same_keys_equal(x1, y1, key, lt);
        let ka_filter = has_key(key, ka);
        lemma_filter_last(x, ka_filter);
        lemma_filter_last(y, ka_filter);
        assert(x.filter(ka_filter) == y.filter(ka_filter));
        assert(x1.filter(ka_filter).push(a).last() == y1.filter(ka_filter).push(b).last());
        assert(x =~= x1.push(a));
        assert(y =~= y1.push(b));
    }
}

/// A stable sort by a strict total order on keys has exactly one result.
pub proof fn lemma_stable_sort_unique<V, K>(
    x: Seq<V>,
    y: Seq<V>,
    s: Seq<V>,
    key: spec_fn(V) -> K,
    lt: spec_fn(K, K) -> bool,
)
    requires
        strict_total(lt),
        stably_sorted(x, s, key, lt),
        stably_sorted(y, s, key, lt),
    ensures
        x == y,
{
    assert forall|k: K| #[trigger] x.filter(has_key(key, k)) == y.filter(has_key(key, k)) by {
        assert(x.filter(has_key(key, k)) == s.filter(has_key(key, k)));
        assert(y.filter(has_key(key, k)) == s.filter(has_key(key, k)));
    }
    lemma_same_keys_equal(x, y, key, lt);
}

/// A stable sort of `s` is `sorted_stably(s, ..)`.
pub proof fn lemma_sorted_stably_is<V, K>(r: Seq<V>, s: Seq<V>, key: spec_fn(V) -> K, lt: spec_fn(K, K) -> bool)
    requires
        strict_total(lt),
        stably_sorted(r, s, key, lt),
    ensures
        r == sorted_stably(s, key, lt),
{
    let c = sorted_stably(s, key, lt);
    assert(stably_sorted(c, s, key, lt));
    lemma_stable_sort_unique(r, c, s, key, lt);
}

/// Inserting `x` before the first record with a larger key keeps a sequence
/// ordered, and adds `x` last among the records of its key.
pub proof fn lemma_insert_by_key<V, K>(out: Seq<V>, pos: int, x: V, key: spec_fn(V) -> K, lt: spec_fn(K, K) -> bool)
    requires
        strict_total(lt),
        ordered_by(out, key, lt),
        0 <= pos <= out.len(),
        forall|j: int| 0 <= j < pos ==> !lt(key(x), key(#[trigger] out[j])),
        pos < out.len() ==> lt(key(x), key(out[pos])),
    ensures
        ordered_by(out.insert(pos, x), key, lt),
        forall|k: K| #[trigger]
            out.insert(pos, x).filter(has_key(key, k)) == if key(x) == k {
                out.filter(has_key(key, k)).push(x)
            } else {
                out.filter(has_key(key, k))
            },
{
    let t = out.insert(pos, x);
    let kx = key(x);
    assert forall|j: int| pos <= j < out.len() implies lt(kx, key(#[trigger] out[j])) by {
        if j > pos {
            assert(!lt(key(out[j]), key(out[pos])));
            if key(out[j]) != key(out[pos]) {
                assert(lt(key(out[pos]), key(out[j])));
                assert(lt(kx, key(out[pos])) && lt(key(out[pos]), key(out[j])));
            }
        }
    }
    assert forall|i: int, j: int| 0 <= i < j < t.len() implies !lt(key(#[trigger] t[j]), key(#[trigger] t[i])) by {
        if j < pos {
            assert(t[i] == out[i] && t[j] == out[j]);
        } else if j == pos {
            assert(t[i] == out[i] && t[j] == x);
        } else if i == pos {
            assert(t[j] == out[j - 1] && t[i] == x);
            assert(lt(kx, key(out[j - 1])));
            assert(!lt(kx, kx));
            if lt(key(out[j - 1]), kx) {
                assert(lt(kx, key(out[j - 1])) && lt(key(out[j - 1]), kx));
            }
        } else if i < pos {
            assert(t[i] == out[i] && t[j] == out[j - 1]);
        } else {
            assert(t[i] == out[i - 1] && t[j] == out[j - 1]);
        }
    }
    let head = out.take(pos);
    let tail = out.skip(pos);
    assert(t =~= head + seq![x] + tail);
    assert(out =~= head + tail);
    assert forall|k: K| #[trigger]
        t.filter(has_key(key, k)) == if kx == k {
            out.filter(has_key(key, k)).push(x)
        } else {
            out.filter(has_key(key, k))
        } by {
        let p = has_key(key, k);
        Seq::filter_distributes_over_add(head + seq![x], tail, p);
        Seq::filter_distributes_over_add(head, seq![x], p);
        Seq::filter_distributes_over_add(head, tail, p);
        Seq::<V>::empty().lemma_filter_push(x, p);
        lemma_filter_empty(Seq::<V>::empty(), p);
        assert(seq![x] =~= Seq::<V>::empty().push(x));
        if kx == k {
            assert forall|i: int| 0 <= i < tail.len() implies !p(#[trigger] tail[i]) by {
                assert(tail[i] == out[pos + i]);
                assert(lt(kx, key(out[pos + i])));
            }
            lemma_filter_empty(tail, p);
            assert(head.filter(p) + seq![x] + Seq::<V>::empty() =~= (head.filter(p) + Seq::<V>::empty()).push(x));
        } else {
            assert(head.filter(p) + Seq::<V>::empty() + tail.filter(p) =~= head.filter(p) + tail.filter(p));
        }
    }
}

} // verus!
