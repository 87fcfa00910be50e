//! Stable sorting by a key of two numbers and a text, as the client orders albums, songs and
//! playlists.
use vstd::prelude::*;
use crate::text::seq_lt;

verus! {

/// A sort key: compared by `primary`, then `secondary`, then `text` in lexicographic order.
pub struct SortKey {
    pub primary: u64,
    pub secondary: u64,
    pub text: Vec<char>,
}

/// A key as values.
pub open spec fn kv(k: SortKey) -> (u64, u64, Seq<char>) {
    (k.primary, k.secondary, k.text@)
}

/// Strict order on keys: by the first number, then the second, then the text.
pub open spec fn key_lt(x: (u64, u64, Seq<char>), y: (u64, u64, Seq<char>)) -> bool {
    x.0 < y.0 || (x.0 == y.0 && (x.1 < y.1 || (x.1 == y.1 && seq_lt(x.2, y.2))))
}

/// Every element's key is at most the keys of the elements after it.
pub open spec fn sorted_by<T>(s: Seq<T>, key: spec_fn(T) -> (u64, u64, Seq<char>)) -> bool {
    forall|i: int, j: int| 0 <= i < j < s.len() ==> !key_lt(#[trigger] key(s[j]), #[trigger] key(s[i]))
}

/// The elements whose key is `k`, in their order.
pub open spec fn with_key<T>(s: Seq<T>, key: spec_fn(T) -> (u64, u64, Seq<char>), k: (u64, u64, Seq<char>)) -> Seq<T>
    decreases s.len(),
{
    if s.len() == 0 {
        Seq::empty()
    } else if key(s.last()) == k {
        with_key(s.drop_last(), key, k).push(s.last())
    } else {
        with_key(s.drop_last(), key, k)
    }
}

/// `r` is `s` sorted stably by `key`: `r` is in key order, and the elements of each key come
/// in `r` exactly as they come in `s`.
pub open spec fn is_stable_sort<T>(r: Seq<T>, s: Seq<T>, key: spec_fn(T) -> (u64, u64, Seq<char>)) -> bool {
    &&& sorted_by(r, key)
    &&& forall|k: (u64, u64, Seq<char>)| #[trigger] with_key(r, key, k) == with_key(s, key, k)
}

/// The key of a keyed element.
pub open spec fn pair_key<T>() -> spec_fn((SortKey, T)) -> (u64, u64, Seq<char>) {
    |p: (SortKey, T)| kv(p.0)
}

/// The elements without their keys.
pub open spec fn unkeyed<T>(s: Seq<(SortKey, T)>) -> Seq<T> {
    s.map_values(|p: (SortKey, T)| p.1)
}

/// Every key of `s` is the key `key` gives its element.
pub open spec fn keys_agree<T>(s: Seq<(SortKey, T)>, key: spec_fn(T) -> (u64, u64, Seq<char>)) -> bool {
    forall|i: int| 0 <= i < s.len() ==> kv(#[trigger] s[i].0) == key(s[i].1)
}

proof fn lemma_with_key_unkeyed<T>(s: Seq<(SortKey, T)>, key: spec_fn(T) -> (u64, u64, Seq<char>), k: (u64, u64, Seq<char>))
    requires
        keys_agree(s, key),
    ensures
        with_key(unkeyed(s), key, k) == unkeyed(with_key(s, pair_key(), k)),
    decreases s.len(),
{
    if s.len() > 0 {
        assert(unkeyed(s).drop_last() =~= unkeyed(s.drop_last()));
        lemma_with_key_unkeyed(s.drop_last(), key, k);
        assert(kv(s[s.len() - 1].0) == key(s[s.len() - 1].1));
        if kv(s.last().0) == k {
            assert(unkeyed(with_key(s.drop_last(), pair_key(), k).push(s.last()))
                =~= unkeyed(with_key(s.drop_last(), pair_key(), k)).push(s.last().1));
        }
    } else {
        assert(unkeyed(s) =~= Seq::<T>::empty());
        assert(unkeyed(Seq::<(SortKey, T)>::empty()) =~= Seq::<T>::empty());
    }
}

/// Sorting keyed elements sorts the elements by the same key.
pub proof fn lemma_unkeyed_sort<T>(r: Seq<(SortKey, T)>, s: Seq<(SortKey, T)>, key: spec_fn(T) -> (u64, u64, Seq<char>))
    requires
        is_stable_sort(r, s, pair_key()),
        keys_agree(s, key),
        forall|i: int| 0 <= i < r.len() ==> s.contains(#[trigger] r[i]),
    ensures
        is_stable_sort(unkeyed(r), unkeyed(s), key),
{
    assert forall|i: int| 0 <= i < r.len() implies kv(#[trigger] r[i].0) == key(r[i].1) by {
        let j = choose|j: int| 0 <= j < s.len() && s[j] == r[i];
        assert(kv(s[j].0) == key(s[j].1));
    }
    assert forall|i: int, j: int| 0 <= i < j < unkeyed(r).len()
        implies !key_lt(#[trigger] key(unkeyed(r)[j]), #[trigger] key(unkeyed(r)[i])) by {
        assert(kv(r[i].0) == key(r[i].1));
        assert(kv(r[j].0) == key(r[j].1));
        assert(!key_lt((pair_key::<T>())(r[j]), (pair_key::<T>())(r[i])));
    }
    assert forall|k: (u64, u64, Seq<char>)| #[trigger] with_key(unkeyed(r), key, k) == with_key(unkeyed(s), key, k) by {
        lemma_with_key_unkeyed(r, key, k);
        lemma_with_key_unkeyed(s, key, k);
        assert(with_key(r, pair_key(), k) == with_key(s, pair_key(), k));
    }
}

/// `seq_lt` is a strict total order.
pub proof fn lemma_seq_lt_order(a: Seq<char>, b: Seq<char>, c: Seq<char>)
    ensures
        !seq_lt(a, a),
        seq_lt(a, b) ==> !seq_lt(b, a),
        seq_lt(a, b) && seq_lt(b, c) ==> seq_lt(a, c),
        a != b ==> seq_lt(a, b) || seq_lt(b, a),
    decreases a.len(),
{
    if a.len() > 0 && b.len() > 0 && c.len() > 0 {
        lemma_seq_lt_order(a.drop_first(), b.drop_first(), c.drop_first());
    } else if a.len() > 0 && b.len() > 0 {
        lemma_seq_lt_order(a.drop_first(), b.drop_first(), b.drop_first());
    } else if a.len() > 0 {
        lemma_seq_lt_order(a.drop_first(), a.drop_first(), a.drop_first());
    }
    if a != b && a.len() > 0 && b.len() > 0 && a[0] == b[0] {
        assert(a.drop_first() != b.drop_first()) by {
            if a.drop_first() == b.drop_first() {
                assert(a =~= seq![a[0]] + a.drop_first());
                assert(b =~= seq![b[0]] + b.drop_first());
            }
        }
    }
    if a.len() == 0 && b.len() == 0 {
        assert(a =~= b);
    }

}

/// `key_lt` is a strict total order.
pub proof fn lemma_key_order(x: (u64, u64, Seq<char>), y: (u64, u64, Seq<char>), z: (u64, u64, Seq<char>))
    ensures
        !key_lt(x, x),
        key_lt(x, y) ==> !key_lt(y, x),
        key_lt(x, y) && key_lt(y, z) ==> key_lt(x, z),
        x != y ==> key_lt(x, y) || key_lt(y, x),
{
    lemma_seq_lt_order(x.2, y.2, z.2);
    lemma_seq_lt_order(y.2, x.2, z.2);
}

proof fn lemma_with_key_concat<T>(a: Seq<T>, b: Seq<T>, key: spec_fn(T) -> (u64, u64, Seq<char>), k: (u64, u64, Seq<char>))
    ensures
        with_key(a + b, key, k) == with_key(a, key, k) + with_key(b, key, k),
    decreases b.len(),
{
    if b.len() == 0 {
        assert(a + b =~= a);
        assert(with_key(a, key, k) + with_key(b, key, k) =~= with_key(a, key, k));
    } else {
        assert((a + b).drop_last() =~= a + b.drop_last());
        lemma_with_key_concat(a, b.drop_last(), key, k);
        if key(b.last()) == k {
            assert(with_key(a, key, k) + with_key(b, key, k) =~= (with_key(a, key, k) + with_key(b.drop_last(), key, k)).push(b.last()));
        }
    }
}

proof fn lemma_with_key_none<T>(s: Seq<T>, key: spec_fn(T) -> (u64, u64, Seq<char>), k: (u64, u64, Seq<char>))
    requires
        forall|i: int| 0 <= i < s.len() ==> key(#[trigger] s[i]) != k,
    ensures
        with_key(s, key, k) == Seq::<T>::empty(),
    decreases s.len(),
{
    if s.len() > 0 {
        lemma_with_key_none(s.drop_last(), key, k);
    }
}

/// Whether `a` comes strictly before `b` in lexicographic order.
pub fn chars_less(a: &Vec<char>, b: &Vec<char>) -> (r: bool)
    ensures
        r == seq_lt(a@, b@),
{
    let mut i: usize = 0;
    assert(a@.skip(0) =~= a@);
    assert(b@.skip(0) =~= b@);
    while i < a.len() && i < b.len() && a[i] == b[i]
        invariant
            i <= a@.len(),
            i <= b@.len(),
            seq_lt(a@, b@) == seq_lt(a@.skip(i as int), b@.skip(i as int)),
        decreases a@.len() - i,
    {
        assert(a@.skip(i as int).drop_first() =~= a@.skip(i + 1));
        assert(b@.skip(i as int).drop_first() =~= b@.skip(i + 1));
        i = i + 1;
    }
    if i == a.len() {
        i < b.len()
    } else if i == b.len() {
        false
    } else {
        a[i] < b[i]
    }
}

/// Whether key `x` comes strictly before key `y`.
pub fn key_less(x: &SortKey, y: &SortKey) -> (r: bool)
    ensures
        r == key_lt(kv(*x), kv(*y)),
{
    if x.primary != y.primary {
        x.primary < y.primary
    } else if x.secondary != y.secondary {
        x.secondary < y.secondary
    } else {
        chars_less(&x.text, &y.text)
    }
}

/// Sorts by key, keeping elements with equal keys in their order.
pub fn stable_sort<T>(v: Vec<(SortKey, T)>) -> (r: Vec<(SortKey, T)>)
    ensures
        is_stable_sort(r@, v@, pair_key()),
        forall|i: int| 0 <= i < r@.len() ==> v@.contains(#[trigger] r@[i]),
{
    let ghost input = v@;
    let mut rest = v;
    let mut result: Vec<(SortKey, T)> = Vec::new();
    let ghost mut done: int = 0;
    assert(input.skip(0) =~= input);
    while rest.len() > 0
        invariant
            0 <= done <= input.len(),
            rest@ == input.skip(done),
            sorted_by(result@, pair_key()),
            forall|k: (u64, u64, Seq<char>)| #[trigger] with_key(result@, pair_key(), k) == with_key(input.take(done), pair_key(), k),
            forall|i: int| 0 <= i < result@.len() ==> input.contains(#[trigger] result@[i]),
        decreases rest@.len(),
    {
        let ghost old_rest = rest@;
        let x = rest.remove(0);
        proof {
            assert(rest@ =~= input.skip(done + 1));
            assert(x == input[done]);
        }
        let mut p: usize = 0;
        while p < result.len() && !key_less(&x.0, &result[p].0)
            invariant
                p <= result@.len(),
                forall|q: int| 0 <= q < p ==> !key_lt(kv(x.0), #[trigger] kv(result@[q].0)),
            decreases result@.len() - p,
        {
            p = p + 1;
        }
        let ghost old = result@;
        proof {
            // Everything from `p` on comes strictly after `x`.
            assert forall|q: int| p <= q < old.len() implies key_lt(kv(x.0), #[trigger] kv(old[q].0)) by {
                lemma_key_order(kv(x.0), kv(old[p as int].0), kv(old[q].0));
                lemma_key_order(kv(old[p as int].0), kv(old[q].0), kv(old[q].0));
                if q > p {
                    assert(!key_lt((pair_key::<T>())(old[q]), (pair_key::<T>())(old[p as int])));
                }
            }
        }
        result.insert(p, x);
        proof {
            let new = result@;
            assert(new =~= old.take(p as int) + seq![x] + old.skip(p as int));
            assert forall|i: int| 0 <= i < new.len() implies input.contains(#[trigger] new[i]) by {
                if i < p {
                    assert(new[i] == old[i]);
                } else if i == p {
                    assert(new[i] == input[done]);
                    assert(input.contains(input[done]));
                } else {
                    assert(new[i] == old[i - 1]);
                }
            }
            assert forall|i: int, j: int| 0 <= i < j < new.len()
                implies !key_lt(#[trigger] (pair_key::<T>())(new[j]), #[trigger] (pair_key::<T>())(new[i])) by {
                if j < p {
                    assert(new[i] == old[i] && new[j] == old[j]);
                } else if j == p {
                    assert(new[i] == old[i]);
                    lemma_key_order(kv(x.0), kv(old[i].0), kv(old[i].0));
                } else if i < p {
                    assert(new[i] == old[i] && new[j] == old[j - 1]);
                } else if i == p {
                    assert(new[j] == old[j - 1]);
                    lemma_key_order(kv(x.0), kv(old[j - 1].0), kv(old[j - 1].0));
                } else {
                    assert(new[i] == old[i - 1] && new[j] == old[j - 1]);
                }
            }
            assert(input.take(done + 1) =~= input.take(done).push(x));
            assert(old =~= old.take(p as int) + old.skip(p as int));
            assert forall|k: (u64, u64, Seq<char>)| #[trigger] with_key(new, pair_key(), k) == with_key(input.take(done + 1), pair_key(), k) by {
                lemma_with_key_concat(old.take(p as int) + seq![x], old.skip(p as int), pair_key(), k);
                lemma_with_key_concat(old.take(p as int), seq![x], pair_key(), k);
                lemma_with_key_concat(old.take(p as int), old.skip(p as int), pair_key(), k);
                assert(seq![x].drop_last() =~= Seq::<(SortKey, T)>::empty());
                assert(seq![x].last() == x);
                if kv(x.0) == k {
                    assert forall|i: int| 0 <= i < old.skip(p as int).len() implies (pair_key::<T>())(#[trigger] old.skip(p as int)[i]) != k by {
                        assert(old.skip(p as int)[i] == old[p + i]);
                        lemma_key_order(kv(x.0), kv(x.0), kv(x.0));
                    }
                    lemma_with_key_none(old.skip(p as int), pair_key(), k);
                    assert(with_key(old.skip(p as int), pair_key(), k) =~= Seq::<(SortKey, T)>::empty());
                    assert(input.take(done + 1).drop_last() =~= input.take(done));
                    assert(input.take(done + 1).last() == x);
                    assert(with_key(input.take(done + 1), pair_key(), k) =~= with_key(input.take(done), pair_key(), k).push(x));
                    assert(with_key(old.take(p as int), pair_key(), k) + with_key(old.skip(p as int), pair_key(), k) =~= with_key(old.take(p as int), pair_key(), k));
                    assert(with_key(seq![x].drop_last(), pair_key(), k) =~= Seq::<(SortKey, T)>::empty());
                    assert(with_key(seq![x], pair_key(), k) =~= seq![x]);
                    assert(with_key(old, pair_key(), k) == with_key(input.take(done), pair_key(), k));
                    assert(with_key(old.take(p as int), pair_key(), k) + seq![x] + with_key(old.skip(p as int), pair_key(), k) =~= with_key(old, pair_key(), k).push(x));
                } else {
                    assert(with_key(seq![x].drop_last(), pair_key(), k) =~= Seq::<(SortKey, T)>::empty());
                    assert(with_key(seq![x], pair_key(), k) =~= Seq::<(SortKey, T)>::empty());
                    assert(input.take(done + 1).drop_last() =~= input.take(done));
                    assert(input.take(done + 1).last() == x);
                    assert(with_key(old.take(p as int), pair_key(), k) + Seq::<(SortKey, T)>::empty() =~= with_key(old.take(p as int), pair_key(), k));
                    assert(with_key(old, pair_key(), k) == with_key(input.take(done), pair_key(), k));
                }
            }
            done = done + 1;
        }
    }
    proof {
        assert(input.take(done) =~= input);
        assert(input == v@);
    }
    result
}

/// Every element is at least the ones after it.
pub open spec fn sorted_descending(s: Seq<u32>) -> bool {
    forall|i: int, j: int| 0 <= i < j < s.len() ==> s[i] >= s[j]
}

/// Sorts numbers from largest to smallest.
pub fn sort_descending(v: Vec<u32>) -> (r: Vec<u32>)
    ensures
        sorted_descending(r@),
        r@.to_multiset() == v@.to_multiset(),
{
    broadcast use vstd::seq_lib::group_to_multiset_ensures;
    let ghost input = v@;
    let mut rest = v;
    let mut result: Vec<u32> = Vec::new();
    let ghost mut done: int = 0;
    assert(input.skip(0) =~= input);
    while rest.len() > 0
        invariant
            0 <= done <= input.len(),
            rest@ == input.skip(done),
            sorted_descending(result@),
            result@.to_multiset() == input.take(done).to_multiset(),
        decreases rest@.len(),
    {
        let x = rest.remove(0);
        proof {
            assert(rest@ =~= input.skip(done + 1));
            assert(x == input[done]);
        }
        let mut p: usize = 0;
        while p < result.len() && result[p] >= x
            invariant
                p <= result@.len(),
                forall|q: int| 0 <= q < p ==> #[trigger] result@[q] >= x,
            decreases result@.len() - p,
        {
            p = p + 1;
        }
        let ghost old = result@;
        result.insert(p, x);
        proof {
            assert(result@ =~= old.insert(p as int, x));
            broadcast use vstd::multiset::group_multiset_axioms;
            let new = result@;
            assert(new.remove(p as int) =~= old);
            new.to_multiset_ensures();
            assert(new[p as int] == x);
            assert(old.to_multiset() == new.to_multiset().remove(x));
            assert(new.contains(x));
            assert(new.to_multiset().count(x) > 0);
            assert(new.to_multiset() =~= old.to_multiset().insert(x));
            input.take(done).to_multiset_ensures();
            assert(input.take(done).push(x).to_multiset() =~= input.take(done).to_multiset().insert(x));
            assert(input.take(done + 1) =~= input.take(done).push(x));
            done = done + 1;
        }
    }
    proof {
        assert(input.take(done) =~= input);
    }
    result
}

} // verus!
