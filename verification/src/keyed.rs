//! Sequences of keyed entries, looked up by the first entry with a key, and
//! the merge of one such sequence into another.

use vstd::prelude::*;

verus! {

/// Some entry of `s` has the key `k`.
pub open spec fn has_key<K, V>(s: Seq<(K, V)>, k: K) -> bool {
    exists|i: int| 0 <= i < s.len() && (#[trigger] s[i]).0 == k
}

/// `i` is the position of the first entry of `s` with the key `k`.
pub open spec fn is_first<K, V>(s: Seq<(K, V)>, k: K, i: int) -> bool {
    &&& 0 <= i < s.len()
    &&& s[i].0 == k
    &&& forall|j: int| 0 <= j < i ==> (#[trigger] s[j]).0 != k
}

/// The position of the first entry of `s` with the key `k`, where there is one.
pub open spec fn first_index<K, V>(s: Seq<(K, V)>, k: K) -> int {
    choose|i: int| is_first(s, k, i)
}

/// The value under the key `k`: that of the first entry with this key.
pub open spec fn lookup<K, V>(s: Seq<(K, V)>, k: K) -> Option<V> {
    if has_key(s, k) {
        Some(s[first_index(s, k)].1)
    } else {
        None
    }
}

/// No two entries of `s` have the same key.
pub open spec fn unique_keys<K, V>(s: Seq<(K, V)>) -> bool {
    forall|i: int, j: int| 0 <= i < j < s.len() ==> (#[trigger] s[i]).0 != (#[trigger] s[j]).0
}

/// Merges the entry `(k, v)` into `acc`: combined by `f` with the first entry
/// under `k`, or put at the end where `acc` has no such entry.
pub open spec fn merge_one<K, V, E>(
    acc: Seq<(K, V)>,
    k: K,
    v: V,
    f: spec_fn(V, V) -> Result<V, E>,
) -> Result<Seq<(K, V)>, E> {
    if has_key(acc, k) {
        let i = first_index(acc, k);
        match f(acc[i].1, v) {
            Ok(merged) => Ok(acc.update(i, (k, merged))),
            Err(e) => Err(e),
        }
    } else {
        Ok(acc.push((k, v)))
    }
}

/// Merges the entries of `second` into `first`, one after the other, and
/// fails with the first failure of `f`.
pub open spec fn merge_all<K, V, E>(
    first: Seq<(K, V)>,
    second: Seq<(K, V)>,
    f: spec_fn(V, V) -> Result<V, E>,
) -> Result<Seq<(K, V)>, E>
    decreases second.len(),
{
    if second.len() == 0 {
        Ok(first)
    } else {
        match merge_all(first, second.drop_last(), f) {
            Ok(acc) => merge_one(acc, second.last().0, second.last().1, f),
            Err(e) => Err(e),
        }
    }
}

/// Whether the merge of entry `n` of `second`, after the entries before it,
/// combines two values that `within` admits.
pub open spec fn step_within<K, V, E>(
    first: Seq<(K, V)>,
    second: Seq<(K, V)>,
    f: spec_fn(V, V) -> Result<V, E>,
    within: spec_fn(V, V) -> bool,
    n: int,
) -> bool {
    match merge_all(first, second.take(n), f) {
        Ok(acc) => has_key(acc, second[n].0) ==> within(
            acc[first_index(acc, second[n].0)].1,
            second[n].1,
        ),
        Err(_) => true,
    }
}

/// Every pair of values that the merge of `second` into `first` combines,
/// up to its end or its first failure, is one that `within` admits.
pub open spec fn merge_within<K, V, E>(
    first: Seq<(K, V)>,
    second: Seq<(K, V)>,
    f: spec_fn(V, V) -> Result<V, E>,
    within: spec_fn(V, V) -> bool,
) -> bool {
    forall|n: int| 0 <= n < second.len() ==> #[trigger] step_within(first, second, f, within, n)
}

/// The first entry with a key is the only position that `is_first` holds of.
pub proof fn lemma_first_index<K, V>(s: Seq<(K, V)>, k: K, i: int)
    requires
        is_first(s, k, i),
    ensures
        has_key(s, k),
        first_index(s, k) == i,
        lookup(s, k) == Some(s[i].1),
{
    let j = first_index(s, k);
    assert(is_first(s, k, j));
    if j < i {
        assert(s[j].0 != k);
    } else if i < j {
        assert(s[i].0 != k);
    }
}

/// A key that some entry has is the key of a first entry.
pub proof fn lemma_has_key_first<K, V>(s: Seq<(K, V)>, k: K)
    requires
        has_key(s, k),
    ensures
        is_first(s, k, first_index(s, k)),
{
    let w = choose|i: int| 0 <= i < s.len() && (#[trigger] s[i]).0 == k;
    lemma_least_match(s, k, w);
}

proof fn lemma_least_match<K, V>(s: Seq<(K, V)>, k: K, w: int)
    requires
        0 <= w < s.len(),
        s[w].0 == k,
    ensures
        exists|i: int| is_first(s, k, i),
    decreases w,
{
    if forall|j: int| 0 <= j < w ==> (#[trigger] s[j]).0 != k {
        assert(is_first(s, k, w));
    } else {
        let j = choose|j: int| 0 <= j < w && (#[trigger] s[j]).0 == k;
        lemma_least_match(s, k, j);
    }
}

/// Merging the first `n + 1` entries is merging the first `n`, then entry `n`.
pub proof fn lemma_merge_all_step<K, V, E>(
    first: Seq<(K, V)>,
    second: Seq<(K, V)>,
    f: spec_fn(V, V) -> Result<V, E>,
    n: int,
)
    requires
        0 <= n < second.len(),
    ensures
        merge_all(first, second.take(n + 1), f) == match merge_all(first, second.take(n), f) {
            Ok(acc) => merge_one(acc, second[n].0, second[n].1, f),
            Err(e) => Err(e),
        },
{
    let p = second.take(n + 1);
    assert(p.drop_last() =~= second.take(n));
    assert(p.last() == second[n]);
}

/// A failure on the way is the failure of the whole merge.
pub proof fn lemma_merge_all_fails<K, V, E>(
    first: Seq<(K, V)>,
    second: Seq<(K, V)>,
    f: spec_fn(V, V) -> Result<V, E>,
    n: int,
)
    requires
        0 <= n <= second.len(),
        merge_all(first, second.take(n), f) is Err,
    ensures
        merge_all(first, second, f) == merge_all(first, second.take(n), f),
    decreases second.len() - n,
{
    if n == second.len() {
        assert(second.take(n) =~= second);
    } else {
        lemma_merge_all_step(first, second, f, n);
        lemma_merge_all_fails(first, second, f, n + 1);
    }
}


/// What merging one entry does: the keys that were there stay where they
/// are, the key of the entry is there afterwards, and no other key is new.
pub proof fn lemma_merge_one_keys<K, V, E>(
    acc: Seq<(K, V)>,
    k: K,
    v: V,
    f: spec_fn(V, V) -> Result<V, E>,
)
    requires
        merge_one(acc, k, v, f) is Ok,
    ensures
        ({
            let r = merge_one(acc, k, v, f)->Ok_0;
            &&& acc.len() <= r.len() <= acc.len() + 1
            &&& forall|j: int| 0 <= j < acc.len() ==> (#[trigger] r[j]).0 == acc[j].0
            &&& forall|j: int| acc.len() <= j < r.len() ==> (#[trigger] r[j]).0 == k
            &&& has_key(r, k)
            &&& !has_key(acc, k) ==> r == acc.push((k, v))
            &&& has_key(acc, k) ==> r.len() == acc.len()
            &&& unique_keys(acc) ==> unique_keys(r)
        }),
{
    let r = merge_one(acc, k, v, f)->Ok_0;
    if has_key(acc, k) {
        lemma_has_key_first(acc, k);
        let i = first_index(acc, k);
        assert(r[i].0 == k);
    } else {
        assert(r[acc.len() as int].0 == k);
        if unique_keys(acc) {
            assert forall|i: int, j: int| 0 <= i < j < r.len() implies (#[trigger] r[i]).0 != (
            #[trigger] r[j]).0 by {
                if j == acc.len() {
                    assert(acc[i].0 != k);
                } else {
                    assert(acc[i].0 != acc[j].0);
                }
            }
        }
    }
    if has_key(acc, k) && unique_keys(acc) {
        assert forall|i: int, j: int| 0 <= i < j < r.len() implies (#[trigger] r[i]).0 != (
        #[trigger] r[j]).0 by {
            assert(acc[i].0 != acc[j].0);
        }
    }
}

/// Merging an entry leaves the value under every other key as it was.
pub proof fn lemma_merge_one_other<K, V, E>(
    acc: Seq<(K, V)>,
    k: K,
    v: V,
    f: spec_fn(V, V) -> Result<V, E>,
    x: K,
)
    requires
        merge_one(acc, k, v, f) is Ok,
        x != k,
    ensures
        has_key(merge_one(acc, k, v, f)->Ok_0, x) == has_key(acc, x),
        lookup(merge_one(acc, k, v, f)->Ok_0, x) == lookup(acc, x),
{
    let r = merge_one(acc, k, v, f)->Ok_0;
    lemma_merge_one_keys(acc, k, v, f);
    if has_key(acc, x) {
        lemma_has_key_first(acc, x);
        let i = first_index(acc, x);
        assert(r[i].0 == x);
        assert forall|j: int| 0 <= j < i implies (#[trigger] r[j]).0 != x by {
            assert(acc[j].0 != x);
        }
        lemma_first_index(r, x, i);
        if has_key(acc, k) {
            lemma_has_key_first(acc, k);
        }
        assert(r[i] == acc[i]);
    } else {
        if has_key(r, x) {
            let j = choose|j: int| 0 <= j < r.len() && (#[trigger] r[j]).0 == x;
            if j < acc.len() {
                assert(acc[j].0 == x);
            }
        }
    }
}

/// Merging an entry puts under its key the entry's value, combined by `f`
/// with the value that was there, if there was one.
pub proof fn lemma_merge_one_same<K, V, E>(
    acc: Seq<(K, V)>,
    k: K,
    v: V,
    f: spec_fn(V, V) -> Result<V, E>,
)
    requires
        merge_one(acc, k, v, f) is Ok,
    ensures
        lookup(merge_one(acc, k, v, f)->Ok_0, k) == match lookup(acc, k) {
            Some(before) => Some(f(before, v)->Ok_0),
            None => Some(v),
        },
        lookup(acc, k) matches Some(before) ==> f(before, v) is Ok,
{
    let r = merge_one(acc, k, v, f)->Ok_0;
    lemma_merge_one_keys(acc, k, v, f);
    if has_key(acc, k) {
        lemma_has_key_first(acc, k);
        let i = first_index(acc, k);
        assert(r[i].0 == k);
        assert forall|j: int| 0 <= j < i implies (#[trigger] r[j]).0 != k by {
            assert(acc[j].0 != k);
        }
        lemma_first_index(r, k, i);
    } else {
        let i = acc.len() as int;
        assert(r[i].0 == k);
        assert forall|j: int| 0 <= j < i implies (#[trigger] r[j]).0 != k by {
            assert(acc[j].0 != k);
        }
        lemma_first_index(r, k, i);
    }
}

/// The keys of a merge are those of its two sides: the keys of `first` stay
/// where they are, and what follows them are keys of `second`.
pub proof fn lemma_merge_all_keys<K, V, E>(
    first: Seq<(K, V)>,
    second: Seq<(K, V)>,
    f: spec_fn(V, V) -> Result<V, E>,
)
    requires
        merge_all(first, second, f) is Ok,
    ensures
        ({
            let r = merge_all(first, second, f)->Ok_0;
            &&& first.len() <= r.len() <= first.len() + second.len()
            &&& forall|j: int| 0 <= j < first.len() ==> (#[trigger] r[j]).0 == first[j].0
            &&& forall|j: int| first.len() <= j < r.len() ==> has_key(second, (#[trigger] r[j]).0)
            &&& forall|x: K| #[trigger] has_key(r, x) <==> has_key(first, x) || has_key(second, x)
            &&& unique_keys(first) ==> unique_keys(r)
        }),
    decreases second.len(),
{
    let r = merge_all(first, second, f)->Ok_0;
    if second.len() == 0 {
        assert forall|x: K| #[trigger] has_key(r, x) <==> has_key(first, x) || has_key(
            second,
            x,
        ) by {}
    } else {
        let rest = second.drop_last();
        let k = second.last().0;
        let v = second.last().1;
        let acc = merge_all(first, rest, f)->Ok_0;
        lemma_merge_all_keys(first, rest, f);
        lemma_merge_one_keys(acc, k, v, f);
        assert(second[second.len() - 1].0 == k);
        assert forall|j: int| first.len() <= j < r.len() implies has_key(
            second,
            (#[trigger] r[j]).0,
        ) by {
            if j < acc.len() {
                assert(r[j].0 == acc[j].0);
                assert(has_key(rest, acc[j].0));
                let w = choose|w: int| 0 <= w < rest.len() && (#[trigger] rest[w]).0 == acc[j].0;
                assert(second[w].0 == acc[j].0);
            }
        }
        assert forall|x: K| #[trigger] has_key(r, x) <==> has_key(first, x) || has_key(
            second,
            x,
        ) by {
            if x != k {
                lemma_merge_one_other(acc, k, v, f, x);
                assert(has_key(acc, x) <==> has_key(first, x) || has_key(rest, x));
                if has_key(rest, x) {
                    let w = choose|w: int| 0 <= w < rest.len() && (#[trigger] rest[w]).0 == x;
                    assert(second[w].0 == x);
                }
                if has_key(second, x) {
                    let w = choose|w: int| 0 <= w < second.len() && (#[trigger] second[w]).0 == x;
                    assert(rest[w].0 == x);
                }
            }
        }
    }
}

/// A key that `second` does not have keeps, through the merge, the value it
/// has in `first`.
pub proof fn lemma_merge_all_untouched<K, V, E>(
    first: Seq<(K, V)>,
    second: Seq<(K, V)>,
    f: spec_fn(V, V) -> Result<V, E>,
    x: K,
)
    requires
        merge_all(first, second, f) is Ok,
        !has_key(second, x),
    ensures
        lookup(merge_all(first, second, f)->Ok_0, x) == lookup(first, x),
    decreases second.len(),
{
    if second.len() > 0 {
        let rest = second.drop_last();
        let acc = merge_all(first, rest, f)->Ok_0;
        assert(second[second.len() - 1].0 != x);
        if has_key(rest, x) {
            let w = choose|w: int| 0 <= w < rest.len() && (#[trigger] rest[w]).0 == x;
            assert(second[w].0 == x);
        }
        lemma_merge_all_untouched(first, rest, f, x);
        lemma_merge_one_other(acc, second.last().0, second.last().1, f, x);
    }
}

/// A key that `first` does not have, and that `second` has in entry `n` and
/// nowhere else, has after the merge the value of that entry.
pub proof fn lemma_merge_all_added<K, V, E>(
    first: Seq<(K, V)>,
    second: Seq<(K, V)>,
    f: spec_fn(V, V) -> Result<V, E>,
    n: int,
)
    requires
        merge_all(first, second, f) is Ok,
        0 <= n < second.len(),
        !has_key(first, second[n].0),
        forall|j: int| 0 <= j < second.len() && j != n ==> (#[trigger] second[j]).0 != second[n].0,
    ensures
        lookup(merge_all(first, second, f)->Ok_0, second[n].0) == Some(second[n].1),
    decreases second.len(),
{
    let x = second[n].0;
    let rest = second.drop_last();
    let acc = merge_all(first, rest, f)->Ok_0;
    let k = second.last().0;
    let v = second.last().1;
    if n == second.len() - 1 {
        assert(!has_key(rest, x)) by {
            if has_key(rest, x) {
                let w = choose|w: int| 0 <= w < rest.len() && (#[trigger] rest[w]).0 == x;
                assert(second[w].0 == x);
            }
        }
        lemma_merge_all_keys(first, rest, f);
        assert(!has_key(acc, x));
        lemma_merge_one_same(acc, k, v, f);
    } else {
        assert(rest[n] == second[n]);
        assert forall|j: int| 0 <= j < rest.len() && j != n implies (#[trigger] rest[j]).0
            != rest[n].0 by {
            assert(second[j].0 != second[n].0);
        }
        lemma_merge_all_added(first, rest, f, n);
        assert(second[second.len() - 1].0 != x);
        lemma_merge_one_other(acc, k, v, f, x);
    }
}

/// What holds of every value on both sides, and of what `f` makes of two
/// such values, holds of every value of the merge.
pub proof fn lemma_merge_all_values<K, V, E>(
    first: Seq<(K, V)>,
    second: Seq<(K, V)>,
    f: spec_fn(V, V) -> Result<V, E>,
    p: spec_fn(V) -> bool,
)
    requires
        merge_all(first, second, f) is Ok,
        forall|i: int| 0 <= i < first.len() ==> p((#[trigger] first[i]).1),
        forall|i: int| 0 <= i < second.len() ==> p((#[trigger] second[i]).1),
        forall|a: V, b: V| p(a) && p(b) && (#[trigger] f(a, b)) is Ok ==> p(f(a, b)->Ok_0),
    ensures
        forall|i: int|
            0 <= i < merge_all(first, second, f)->Ok_0.len() ==> p(
                (#[trigger] merge_all(first, second, f)->Ok_0[i]).1,
            ),
    decreases second.len(),
{
    let r = merge_all(first, second, f)->Ok_0;
    if second.len() > 0 {
        let rest = second.drop_last();
        let acc = merge_all(first, rest, f)->Ok_0;
        let k = second.last().0;
        let v = second.last().1;
        assert forall|i: int| 0 <= i < rest.len() implies p((#[trigger] rest[i]).1) by {
            assert(p(second[i].1));
        }
        lemma_merge_all_values(first, rest, f, p);
        assert(p(second[second.len() - 1].1));
        assert forall|i: int| 0 <= i < r.len() implies p((#[trigger] r[i]).1) by {
            if has_key(acc, k) {
                lemma_has_key_first(acc, k);
                let at = first_index(acc, k);
                if i == at {
                    assert(p(acc[at].1));
                    assert(f(acc[at].1, v) is Ok);
                } else {
                    assert(p(acc[i].1));
                }
            } else {
                if i < acc.len() {
                    assert(p(acc[i].1));
                }
            }
        }
    }
}


/// Merging an entry leaves the first entry under every other key in its
/// place, and as it was.
pub proof fn lemma_merge_one_keeps_place<K, V, E>(
    acc: Seq<(K, V)>,
    k: K,
    v: V,
    f: spec_fn(V, V) -> Result<V, E>,
    x: K,
)
    requires
        merge_one(acc, k, v, f) is Ok,
        x != k,
        has_key(acc, x),
    ensures
        ({
            let r = merge_one(acc, k, v, f)->Ok_0;
            let i = first_index(acc, x);
            &&& is_first(acc, x, i)
            &&& has_key(r, x)
            &&& first_index(r, x) == i
            &&& r[i] == acc[i]
        }),
{
    let r = merge_one(acc, k, v, f)->Ok_0;
    lemma_merge_one_keys(acc, k, v, f);
    lemma_has_key_first(acc, x);
    let i = first_index(acc, x);
    assert(r[i].0 == x);
    assert forall|j: int| 0 <= j < i implies (#[trigger] r[j]).0 != x by {
        assert(acc[j].0 != x);
    }
    lemma_first_index(r, x, i);
    if has_key(acc, k) {
        lemma_has_key_first(acc, k);
    }
}

/// Two entries with different keys, the first of them under a key that is
/// there already, can be merged in either order.
pub proof fn lemma_merge_one_commutes<K, V, E>(
    acc: Seq<(K, V)>,
    k: K,
    v: V,
    other: K,
    w: V,
    f: spec_fn(V, V) -> Result<V, E>,
)
    requires
        k != other,
        has_key(acc, k),
        merge_one(acc, k, v, f) is Ok,
        merge_one(acc, other, w, f) is Ok,
    ensures
        merge_one(merge_one(acc, k, v, f)->Ok_0, other, w, f) is Ok,
        merge_one(merge_one(acc, other, w, f)->Ok_0, k, v, f) is Ok,
        merge_one(merge_one(acc, k, v, f)->Ok_0, other, w, f) == merge_one(
            merge_one(acc, other, w, f)->Ok_0,
            k,
            v,
            f,
        ),
{
    let m1 = merge_one(acc, k, v, f)->Ok_0;
    let m2 = merge_one(acc, other, w, f)->Ok_0;
    lemma_has_key_first(acc, k);
    let j = first_index(acc, k);
    lemma_merge_one_keys(acc, k, v, f);
    lemma_merge_one_keys(acc, other, w, f);
    lemma_merge_one_keeps_place(acc, other, w, f, k);
    if has_key(acc, other) {
        lemma_has_key_first(acc, other);
        let jo = first_index(acc, other);
        lemma_merge_one_keeps_place(acc, k, v, f, other);
        assert(m1.update(jo, (other, f(acc[jo].1, w)->Ok_0)) =~= m2.update(
            j,
            (k, f(acc[j].1, v)->Ok_0),
        ));
    } else {
        lemma_merge_one_other(acc, k, v, f, other);
        assert(m1.push((other, w)) =~= m2.update(j, (k, f(acc[j].1, v)->Ok_0)));
    }
}


/// A merge that fails after `n` entries, and combined only admitted values
/// up to there, combined only admitted values.
pub proof fn lemma_merge_within_after_failure<K, V, E>(
    first: Seq<(K, V)>,
    second: Seq<(K, V)>,
    f: spec_fn(V, V) -> Result<V, E>,
    within: spec_fn(V, V) -> bool,
    n: int,
)
    requires
        0 <= n <= second.len(),
        merge_all(first, second.take(n), f) is Err,
        forall|j: int| 0 <= j < n ==> #[trigger] step_within(first, second, f, within, j),
    ensures
        merge_within(first, second, f, within),
{
    assert forall|j: int| 0 <= j < second.len() implies #[trigger] step_within(
        first,
        second,
        f,
        within,
        j,
    ) by {
        if j >= n {
            let prefix = second.take(j);
            assert(prefix.take(n) =~= second.take(n));
            lemma_merge_all_fails(first, prefix, f, n);
        }
    }
}


/// A merge fails only as `f` fails: where `e` is the one failure of `f`, it
/// is the one failure of the merge.
pub proof fn lemma_merge_all_failure<K, V, E>(
    first: Seq<(K, V)>,
    second: Seq<(K, V)>,
    f: spec_fn(V, V) -> Result<V, E>,
    e: E,
)
    requires
        forall|a: V, b: V| (#[trigger] f(a, b)) is Err ==> f(a, b) == Err::<V, E>(e),
        merge_all(first, second, f) is Err,
    ensures
        merge_all(first, second, f) == Err::<Seq<(K, V)>, E>(e),
    decreases second.len(),
{
    if second.len() > 0 {
        let rest = second.drop_last();
        if merge_all(first, rest, f) is Err {
            lemma_merge_all_failure(first, rest, f, e);
        } else {
            let acc = merge_all(first, rest, f)->Ok_0;
            let k = second.last().0;
            assert(has_key(acc, k));
            assert(f(acc[first_index(acc, k)].1, second.last().1) is Err);
        }
    }
}

} // verus!
