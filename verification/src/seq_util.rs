use vstd::prelude::*;

verus! {

broadcast use vstd::seq_lib::group_seq_properties;

/// The indices `0, 1, ..., n - 1` in increasing order.
pub open spec fn all_indices(n: nat) -> Seq<usize> {
    Seq::new(n, |i: int| i as usize)
}

/// The plain values of a sequence of items.
pub open spec fn views<T: View>(s: Seq<T>) -> Seq<T::V> {
    s.map_values(|x: T| x@)
}

/// The plain values of a prefix one item longer.
pub proof fn lemma_views_take_next<T: View>(s: Seq<T>, i: int)
    requires
        0 <= i < s.len(),
    ensures
        views(s.take(i + 1)) == views(s.take(i)).push(s[i]@),
{
    assert(views(s.take(i + 1)) =~= views(s.take(i)).push(s[i]@));
}

/// The concatenation of `f(x)` over the elements `x` of `s`, in order.
pub open spec fn concat_map<A, B>(s: Seq<A>, f: spec_fn(A) -> Seq<B>) -> Seq<B>
    decreases s.len(),
{
    if s.len() == 0 {
        Seq::empty()
    } else {
        concat_map(s.drop_last(), f) + f(s.last())
    }
}

/// `concat_map` over a prefix one element longer.
pub proof fn lemma_concat_map_take<A, B>(s: Seq<A>, f: spec_fn(A) -> Seq<B>, k: int)
    requires
        0 <= k < s.len(),
    ensures
        concat_map(s.take(k + 1), f) == concat_map(s.take(k), f) + f(s[k]),
{
    assert(s.take(k + 1).drop_last() =~= s.take(k));
}

/// `concat_map` over a whole sequence through its full prefix.
pub proof fn lemma_concat_map_take_all<A, B>(s: Seq<A>, f: spec_fn(A) -> Seq<B>)
    ensures
        concat_map(s.take(s.len() as int), f) == concat_map(s, f),
{
    assert(s.take(s.len() as int) =~= s);
}

/// `concat_map` gives the same result for functions that agree on the elements.
pub proof fn lemma_concat_map_congruent<A, B>(s: Seq<A>, f: spec_fn(A) -> Seq<B>, g: spec_fn(A) -> Seq<B>)
    requires
        forall|i: int| 0 <= i < s.len() ==> f(#[trigger] s[i]) == g(s[i]),
    ensures
        concat_map(s, f) == concat_map(s, g),
    decreases s.len(),
{
    if s.len() > 0 {
        assert forall|i: int| 0 <= i < s.drop_last().len() implies f(#[trigger] s.drop_last()[i]) == g(s.drop_last()[i]) by {
            assert(s.drop_last()[i] == s[i]);
        }
        lemma_concat_map_congruent(s.drop_last(), f, g);
        assert(f(s.last()) == g(s[s.len() - 1]));
    }
}

/// `concat_map` over a filtered sequence is `concat_map` over the whole
/// sequence with the dropped elements contributing nothing.
pub proof fn lemma_concat_map_filter<A, B>(s: Seq<A>, p: spec_fn(A) -> bool, f: spec_fn(A) -> Seq<B>, g: spec_fn(A) -> Seq<B>)
    requires
        forall|x: A| #[trigger] g(x) == if p(x) { f(x) } else { Seq::<B>::empty() },
    ensures
        concat_map(s.filter(p), f) == concat_map(s, g),
    decreases s.len(),
{
    reveal(Seq::filter);
    if s.len() > 0 {
        lemma_concat_map_filter(s.drop_last(), p, f, g);
        if p(s.last()) {
            assert(s.filter(p).drop_last() =~= s.drop_last().filter(p));
        } else {
            assert(concat_map(s, g) =~= concat_map(s.drop_last(), g));
        }
    }
}

/// Dropping elements that contribute nothing leaves `concat_map` unchanged.
pub proof fn lemma_concat_map_filter_unused<A, B>(s: Seq<A>, p: spec_fn(A) -> bool, f: spec_fn(A) -> Seq<B>)
    requires
        forall|x: A| !p(x) ==> #[trigger] f(x) == Seq::<B>::empty(),
    ensures
        concat_map(s.filter(p), f) == concat_map(s, f),
{
    assert forall|x: A| #[trigger] f(x) == if p(x) { f(x) } else { Seq::<B>::empty() } by {}
    lemma_concat_map_filter(s, p, f, f);
}

/// Every element of `concat_map(s, f)` passes `q` when every element of each
/// `f(x)`, for `x` in `s`, does.
pub proof fn lemma_concat_map_all<A, B>(s: Seq<A>, f: spec_fn(A) -> Seq<B>, q: spec_fn(B) -> bool)
    requires
        forall|i: int, j: int| 0 <= i < s.len() && 0 <= j < f(s[i]).len() ==> q(#[trigger] f(#[trigger] s[i])[j]),
    ensures
        forall|j: int| 0 <= j < concat_map(s, f).len() ==> q(#[trigger] concat_map(s, f)[j]),
    decreases s.len(),
{
    if s.len() > 0 {
        assert forall|i: int, j: int| 0 <= i < s.drop_last().len() && 0 <= j < f(s.drop_last()[i]).len()
            implies q(#[trigger] f(#[trigger] s.drop_last()[i])[j]) by {
            assert(s.drop_last()[i] == s[i]);
        }
        lemma_concat_map_all(s.drop_last(), f, q);
        let a = concat_map(s.drop_last(), f);
        let b = f(s.last());
        assert forall|j: int| 0 <= j < concat_map(s, f).len() implies q(#[trigger] concat_map(s, f)[j]) by {
            if j < a.len() {
                assert(concat_map(s, f)[j] == a[j]);
            } else {
                assert(concat_map(s, f)[j] == b[j - a.len()]);
                assert(f(s[s.len() - 1])[j - a.len()] == b[j - a.len()]);
            }
        }
    }
}

/// Every element of a filtered sequence passes `q` when every element of the
/// sequence does.
pub proof fn lemma_filter_keeps<A>(s: Seq<A>, p: spec_fn(A) -> bool, q: spec_fn(A) -> bool)
    requires
        forall|i: int| 0 <= i < s.len() ==> q(#[trigger] s[i]),
    ensures
        forall|i: int| 0 <= i < s.filter(p).len() ==> q(#[trigger] s.filter(p)[i]),
    decreases s.len(),
{
    reveal(Seq::filter);
    if s.len() > 0 {
        assert forall|i: int| 0 <= i < s.drop_last().len() implies q(#[trigger] s.drop_last()[i]) by {
            assert(s.drop_last()[i] == s[i]);
        }
        lemma_filter_keeps(s.drop_last(), p, q);
        let a = s.drop_last().filter(p);
        assert(q(s[s.len() - 1]));
        if p(s.last()) {
            assert(s.filter(p) == a.push(s.last()));
            assert forall|i: int| 0 <= i < s.filter(p).len() implies q(#[trigger] s.filter(p)[i]) by {
                if i < a.len() {
                    assert(s.filter(p)[i] == a[i]);
                }
            }
        } else {
            assert(s.filter(p) == a);
        }
    }
}

/// Filtering with a predicate that holds everywhere keeps everything.
pub proof fn lemma_filter_all<A>(s: Seq<A>, p: spec_fn(A) -> bool)
    requires
        forall|x: A| #[trigger] p(x),
    ensures
        s.filter(p) == s,
    decreases s.len(),
{
    reveal(Seq::filter);
    if s.len() > 0 {
        lemma_filter_all(s.drop_last(), p);
        assert(s.drop_last().push(s.last()) =~= s);
    }
}

/// Filtering a sequence none of whose elements passes gives nothing.
pub proof fn lemma_filter_none<A>(s: Seq<A>, p: spec_fn(A) -> bool)
    requires
        forall|i: int| 0 <= i < s.len() ==> !p(#[trigger] s[i]),
    ensures
        s.filter(p) == Seq::<A>::empty(),
    decreases s.len(),
{
    reveal(Seq::filter);
    if s.len() > 0 {
        assert forall|i: int| 0 <= i < s.drop_last().len() implies !p(#[trigger] s.drop_last()[i]) by {
            assert(s.drop_last()[i] == s[i]);
        }
        lemma_filter_none(s.drop_last(), p);
        assert(!p(s[s.len() - 1]));
    }
}

/// The items of `v` in reverse order.
pub(crate) fn reversed<T>(v: Vec<T>) -> (r: Vec<T>)
    ensures
        r@ == v@.reverse(),
{
    let mut v = v;
    let ghost orig = v@;
    let mut r: Vec<T> = Vec::new();
    while v.len() > 0
        invariant
            v@ == orig.take(v@.len() as int),
            v@.len() <= orig.len(),
            r@ == orig.skip(v@.len() as int).reverse(),
        decreases v@.len(),
    {
        let ghost n = v@.len();
        let x = v.pop().unwrap();
        r.push(x);
        assert(r@ =~= orig.skip(n - 1).reverse());
        assert(v@ =~= orig.take(n - 1));
    }
    assert(orig.skip(0) =~= orig);
    r
}

/// Keeps the items whose plain value passes `p`, in order; `keep[i]` tells
/// whether `v[i]` passes.
pub(crate) fn retain_by<T: View>(v: Vec<T>, keep: &Vec<bool>, Ghost(p): Ghost<spec_fn(T::V) -> bool>) -> (r: Vec<T>)
    requires
        keep@.len() == v@.len(),
        forall|i: int| 0 <= i < v@.len() ==> keep@[i] == p(#[trigger] v@[i]@),
    ensures
        views(r@) == views(v@).filter(p),
{
    let ghost orig = v@;
    let n = v.len();
    let mut rest = reversed(v);
    let mut r: Vec<T> = Vec::new();
    let mut i: usize = 0;
    assert(orig.skip(0) =~= orig);
    assert(views(orig.take(0)).filter(p) =~= Seq::<T::V>::empty()) by {
        reveal(Seq::filter);
    }
    while i < n
        invariant
            n == orig.len(),
            i <= n,
            keep@.len() == n,
            forall|j: int| 0 <= j < n ==> keep@[j] == p(#[trigger] orig[j]@),
            rest@ == orig.skip(i as int).reverse(),
            views(r@) == views(orig.take(i as int)).filter(p),
        decreases n - i,
    {
        let x = rest.pop().unwrap();
        assert(x == orig[i as int]);
        assert(rest@ =~= orig.skip(i + 1).reverse());
        assert(views(orig.take(i + 1)) =~= views(orig.take(i as int)).push(orig[i as int]@));
        proof {
            views(orig.take(i as int)).lemma_filter_push(orig[i as int]@, p);
        }
        if keep[i] {
            r.push(x);
        }
        assert(views(r@) =~= views(orig.take(i + 1)).filter(p));
        i = i + 1;
    }
    assert(orig.take(n as int) =~= orig);
    r
}

/// The keys of a sequence never decrease.
pub open spec fn sorted_by_key<A>(s: Seq<A>, key: spec_fn(A) -> int) -> bool {
    forall|i: int, j: int| 0 <= i <= j < s.len() ==> key(#[trigger] s[i]) <= key(#[trigger] s[j])
}

/// The item's key is `k`.
pub open spec fn key_is<A>(key: spec_fn(A) -> int, k: int) -> spec_fn(A) -> bool {
    |x: A| key(x) == k
}

/// The elements of `s` whose key is `k`, in order.
pub open spec fn with_key<A>(s: Seq<A>, key: spec_fn(A) -> int, k: int) -> Seq<A> {
    s.filter(key_is(key, k))
}

/// `r` is the stable sort of `s` by `key`: its keys never decrease, and for
/// every key the elements with that key are those of `s`, in the order of `s`.
pub open spec fn is_stable_sort_of<A>(r: Seq<A>, s: Seq<A>, key: spec_fn(A) -> int) -> bool {
    &&& sorted_by_key(r, key)
    &&& forall|k: int| #[trigger] with_key(r, key, k) == with_key(s, key, k)
}

proof fn lemma_insert_keeps_stable<A>(r: Seq<A>, x: A, p: int, key: spec_fn(A) -> int)
    requires
        sorted_by_key(r, key),
        0 <= p <= r.len(),
        forall|j: int| 0 <= j < p ==> key(#[trigger] r[j]) <= key(x),
        forall|j: int| p <= j < r.len() ==> key(#[trigger] r[j]) > key(x),
    ensures
        sorted_by_key(r.insert(p, x), key),
        forall|k: int| #[trigger] with_key(r.insert(p, x), key, k) == if k == key(x) {
            with_key(r, key, k).push(x)
        } else {
            with_key(r, key, k)
        },
{
    let r2 = r.insert(p, x);
    assert forall|i: int, j: int| 0 <= i <= j < r2.len() implies key(#[trigger] r2[i]) <= key(#[trigger] r2[j]) by {
        if i < p && j < p {
        } else if i < p && j == p {
        } else if i < p {
            assert(r2[j] == r[j - 1]);
        } else if i == p && j == p {
        } else if i == p {
            assert(r2[j] == r[j - 1]);
        } else {
            assert(r2[i] == r[i - 1]);
            assert(r2[j] == r[j - 1]);
        }
    }
    assert forall|k: int| #[trigger] with_key(r2, key, k) == if k == key(x) {
        with_key(r, key, k).push(x)
    } else {
        with_key(r, key, k)
    } by {
        let pr = key_is(key, k);
        let a = r.take(p);
        let b = r.skip(p);
        assert(r2 =~= a + seq![x] + b);
        assert(r =~= a + b);
        Seq::filter_distributes_over_add(a + seq![x], b, pr);
        Seq::filter_distributes_over_add(a, seq![x], pr);
        Seq::filter_distributes_over_add(a, b, pr);
        reveal_with_fuel(Seq::filter, 2);
        assert(seq![x].drop_last() =~= Seq::<A>::empty());
        if k == key(x) {
            assert forall|j: int| 0 <= j < b.len() implies !pr(#[trigger] b[j]) by {
                assert(b[j] == r[p + j]);
            }
            lemma_filter_none(b, pr);
            assert(with_key(r2, key, k) =~= with_key(r, key, k).push(x));
        } else {
            assert(seq![x].filter(pr) =~= Seq::<A>::empty());
            assert(with_key(r2, key, k) =~= with_key(r, key, k));
        }
    }
}

/// Filtering keeps every copy of a value that passes and none of one that
/// does not.
pub proof fn lemma_filter_count<A>(s: Seq<A>, p: spec_fn(A) -> bool, x: A)
    ensures
        s.filter(p).to_multiset().count(x) == if p(x) {
            s.to_multiset().count(x)
        } else {
            0
        },
    decreases s.len(),
{
    broadcast use vstd::seq_lib::group_to_multiset_ensures;

    reveal(Seq::filter);
    if s.len() == 0 {
        assert(s.filter(p) =~= Seq::<A>::empty());
    } else {
        lemma_filter_count(s.drop_last(), p, x);
        assert(s =~= s.drop_last().push(s.last()));
        s.drop_last().lemma_filter_push(s.last(), p);
    }
}

/// A stable sort neither drops nor adds items: it holds every value as many
/// times as the sequence it sorts.
pub proof fn lemma_stable_sort_permutes<A>(r: Seq<A>, s: Seq<A>, key: spec_fn(A) -> int)
    requires
        is_stable_sort_of(r, s, key),
    ensures
        r.to_multiset() == s.to_multiset(),
{
    assert forall|x: A| r.to_multiset().count(x) == s.to_multiset().count(x) by {
        let k = key(x);
        let pr = key_is(key, k);
        assert(with_key(r, key, k) == with_key(s, key, k));
        assert(pr(x));
        lemma_filter_count(r, pr, x);
        lemma_filter_count(s, pr, x);
    }
    assert(r.to_multiset() =~= s.to_multiset());
}

/// Every item of a stable sort of `s` is an item of `s`.
pub proof fn lemma_stable_sort_elements<A>(r: Seq<A>, s: Seq<A>, key: spec_fn(A) -> int)
    requires
        is_stable_sort_of(r, s, key),
    ensures
        r.len() == s.len(),
        forall|j: int| 0 <= j < r.len() ==> s.contains(#[trigger] r[j]),
        forall|x: A| #[trigger] r.contains(x) <==> s.contains(x),
{
    broadcast use vstd::seq_lib::group_to_multiset_ensures;

    lemma_stable_sort_permutes(r, s, key);
    assert(r.to_multiset().len() == s.to_multiset().len());
    assert forall|j: int| 0 <= j < r.len() implies s.contains(#[trigger] r[j]) by {
        assert(r.contains(r[j]));
        assert(r.to_multiset().count(r[j]) > 0);
    }
    assert forall|x: A| #[trigger] r.contains(x) <==> s.contains(x) by {
        assert(r.contains(x) <==> r.to_multiset().count(x) > 0);
        assert(s.contains(x) <==> s.to_multiset().count(x) > 0);
    }
}

/// No element of a sorted sequence has a key above that of its last element.
proof fn lemma_with_key_len<A>(r: Seq<A>, key: spec_fn(A) -> int, k: int)
    requires
        sorted_by_key(r, key),
        r.len() > 0,
        k > key(r.last()),
    ensures
        with_key(r, key, k).len() == 0,
{
    broadcast use vstd::seq_lib::group_filter_ensures;

    if with_key(r, key, k).len() > 0 {
        let x = with_key(r, key, k)[0];
        assert(key_is(key, k)(x));
        assert(with_key(r, key, k).contains(x));
        r.lemma_filter_contains_rev(key_is(key, k), x);
        let i = choose|i: int| 0 <= i < r.len() && r[i] == x;
        assert(key(r[i]) <= key(r[r.len() - 1]));
    }
}

/// A sequence has exactly one stable sort by a key: two sorted sequences with
/// the same elements of each key, in the same order, are equal.
pub proof fn lemma_stable_sort_unique<A>(r1: Seq<A>, r2: Seq<A>, s: Seq<A>, key: spec_fn(A) -> int)
    requires
        is_stable_sort_of(r1, s, key),
        is_stable_sort_of(r2, s, key),
    ensures
        r1 == r2,
{
    lemma_stable_sort_elements(r1, s, key);
    lemma_stable_sort_elements(r2, s, key);
    lemma_sorted_unique(r1, r2, key);
}

/// Two sequences sorted by `key` with the same elements of each key, in the
/// same order, are equal.
proof fn lemma_sorted_unique<A>(r1: Seq<A>, r2: Seq<A>, key: spec_fn(A) -> int)
    requires
        sorted_by_key(r1, key),
        sorted_by_key(r2, key),
        forall|k: int| #[trigger] with_key(r1, key, k) == with_key(r2, key, k),
    ensures
        r1 == r2,
    decreases r1.len() + r2.len(),
{
    reveal(Seq::filter);
    if r1.len() == 0 || r2.len() == 0 {
        if r1.len() > 0 {
            let k = key(r1.last());
            assert(with_key(r1, key, k) == with_key(r1.drop_last(), key, k).push(r1.last()));
            assert(with_key(r2, key, k).len() == 0);
        } else if r2.len() > 0 {
            let k = key(r2.last());
            assert(with_key(r2, key, k) == with_key(r2.drop_last(), key, k).push(r2.last()));
            assert(with_key(r1, key, k).len() == 0);
        } else {
            assert(r1 =~= r2);
        }
    } else {
        let x1 = r1.last();
        let x2 = r2.last();
        let k1 = key(x1);
        let k2 = key(x2);
        assert(with_key(r1, key, k1) == with_key(r1.drop_last(), key, k1).push(x1));
        assert(with_key(r2, key, k2) == with_key(r2.drop_last(), key, k2).push(x2));
        if k1 < k2 {
            lemma_with_key_len(r1, key, k2);
            assert(with_key(r1, key, k2) == with_key(r2, key, k2));
        } else if k2 < k1 {
            lemma_with_key_len(r2, key, k1);
            assert(with_key(r1, key, k1) == with_key(r2, key, k1));
        }
        assert(k1 == k2);
        assert(with_key(r1, key, k1) == with_key(r2, key, k1));
        assert(x1 == with_key(r1, key, k1).last());
        assert(x1 == x2);
        let d1 = r1.drop_last();
        let d2 = r2.drop_last();
        assert forall|i: int, j: int| 0 <= i <= j < d1.len() implies key(#[trigger] d1[i]) <= key(#[trigger] d1[j]) by {
            assert(d1[i] == r1[i] && d1[j] == r1[j]);
        }
        assert forall|i: int, j: int| 0 <= i <= j < d2.len() implies key(#[trigger] d2[i]) <= key(#[trigger] d2[j]) by {
            assert(d2[i] == r2[i] && d2[j] == r2[j]);
        }
        assert forall|k: int| #[trigger] with_key(d1, key, k) == with_key(d2, key, k) by {
            assert(r1 == d1.push(x1));
            assert(r2 == d2.push(x2));
            assert(with_key(r1, key, k) == with_key(r2, key, k));
            if k == k1 {
                assert(with_key(d1, key, k) == with_key(r1, key, k).drop_last());
                assert(with_key(d2, key, k) == with_key(r2, key, k).drop_last());
            } else {
                assert(with_key(r1, key, k) == with_key(d1, key, k));
                assert(with_key(r2, key, k) == with_key(d2, key, k));
            }
        }
        lemma_sorted_unique(d1, d2, key);
        assert(r1 =~= d1.push(x1));
        assert(r2 =~= d2.push(x2));
    }
}

/// An item of `f(s[i])` is an item of `concat_map(s, f)`.
pub proof fn lemma_concat_map_contains<A, B>(s: Seq<A>, f: spec_fn(A) -> Seq<B>, i: int, y: B)
    requires
        0 <= i < s.len(),
        f(s[i]).contains(y),
    ensures
        concat_map(s, f).contains(y),
    decreases s.len(),
{
    let a = concat_map(s.drop_last(), f);
    let b = f(s.last());
    assert(concat_map(s, f) == a + b);
    if i < s.len() - 1 {
        assert(s.drop_last()[i] == s[i]);
        lemma_concat_map_contains(s.drop_last(), f, i, y);
        let k = choose|k: int| 0 <= k < a.len() && a[k] == y;
        assert((a + b)[k] == y);
    } else {
        let k = choose|k: int| 0 <= k < b.len() && b[k] == y;
        assert((a + b)[a.len() + k] == y);
    }
}

/// Sorts the items by key, keeping items with equal keys in their order;
/// `keys[i]` is the key of `v[i]`.
pub(crate) fn stable_sort_by_key<T: View>(v: Vec<T>, keys: &Vec<i64>, Ghost(key): Ghost<spec_fn(T::V) -> int>) -> (r: Vec<T>)
    requires
        keys@.len() == v@.len(),
        forall|i: int| 0 <= i < v@.len() ==> keys@[i] == key(#[trigger] v@[i]@),
    ensures
        is_stable_sort_of(views(r@), views(v@), key),
{
    let ghost orig = v@;
    let n = v.len();
    let mut rest = reversed(v);
    let mut out: Vec<T> = Vec::new();
    let mut out_keys: Vec<i64> = Vec::new();
    let mut i: usize = 0;
    assert(orig.skip(0) =~= orig);
    assert forall|k: int| #[trigger] with_key(views(out@), key, k) == with_key(views(orig.take(0)), key, k) by {
        assert(views(out@) =~= views(orig.take(0)));
    }
    while i < n
        invariant
            n == orig.len(),
            i <= n,
            keys@.len() == n,
            forall|j: int| 0 <= j < n ==> keys@[j] == key(#[trigger] orig[j]@),
            rest@ == orig.skip(i as int).reverse(),
            out_keys@.len() == out@.len(),
            forall|j: int| 0 <= j < out@.len() ==> out_keys@[j] == key(#[trigger] out@[j]@),
            is_stable_sort_of(views(out@), views(orig.take(i as int)), key),
        decreases n - i,
    {
        let x = rest.pop().unwrap();
        assert(x == orig[i as int]);
        assert(rest@ =~= orig.skip(i + 1).reverse());
        let k = keys[i];
        let mut p: usize = 0;
        while p < out_keys.len() && out_keys[p] <= k
            invariant
                p <= out_keys@.len(),
                forall|j: int| 0 <= j < p ==> out_keys@[j] <= k,
            decreases out_keys@.len() - p,
        {
            p = p + 1;
        }
        let ghost vo = views(out@);
        let ghost old_out = out@;
        let ghost old_keys = out_keys@;
        proof {
            assert forall|j: int| 0 <= j < p implies key(#[trigger] vo[j]) <= key(x@) by {
                assert(out_keys@[j] == key(out@[j]@));
            }
            assert forall|j: int| p <= j < vo.len() implies key(#[trigger] vo[j]) > key(x@) by {
                assert(out_keys@[p as int] == key(out@[p as int]@));
                assert(vo[p as int] == out@[p as int]@);
            }
            lemma_insert_keeps_stable(vo, x@, p as int, key);
            assert(views(orig.take(i + 1)) =~= views(orig.take(i as int)).push(orig[i as int]@));
        }
        out.insert(p, x);
        out_keys.insert(p, k);
        proof {
            assert(views(out@) =~= vo.insert(p as int, x@));
            assert forall|k2: int| #[trigger] with_key(views(out@), key, k2) == with_key(views(orig.take(i + 1)), key, k2) by {
                views(orig.take(i as int)).lemma_filter_push(orig[i as int]@, key_is(key, k2));
            }
            assert forall|j: int| 0 <= j < out@.len() implies out_keys@[j] == key(#[trigger] out@[j]@) by {
                if j < p {
                    assert(out@[j] == old_out[j]);
                    assert(out_keys@[j] == old_keys[j]);
                } else if j == p {
                } else {
                    assert(out@[j] == old_out[j - 1]);
                    assert(out_keys@[j] == old_keys[j - 1]);
                }
            }
        }
        i = i + 1;
    }
    assert(orig.take(n as int) =~= orig);
    out
}

/// Every index below `n` is below `n`.
pub proof fn lemma_all_indices_below(n: nat)
    requires
        n <= usize::MAX,
    ensures
        forall|j: int| 0 <= j < all_indices(n).len() ==> (#[trigger] all_indices(n)[j]) < n,
{
}

/// The indices `0..n` in order.
pub(crate) fn index_range(n: usize) -> (r: Vec<usize>)
    ensures
        r@ == all_indices(n as nat),
{
    let mut r: Vec<usize> = Vec::new();
    let mut i: usize = 0;
    while i < n
        invariant
            i <= n,
            r@ == all_indices(i as nat),
        decreases n - i,
    {
        r.push(i);
        i = i + 1;
        assert(r@ =~= all_indices(i as nat));
    }
    r
}

} // verus!
