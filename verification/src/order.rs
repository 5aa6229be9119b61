//! Stable ordering of items, as a list of positions: by an integer key, or
//! directories first and then by name.

use vstd::prelude::*;

verus! {

/// Item `i` comes before item `j`: its key comes first (smaller, or larger
/// when descending), and ties keep the original order.
pub open spec fn precedes(keys: Seq<i64>, descending: bool, i: int, j: int) -> bool {
    if keys[i] == keys[j] {
        i < j
    } else if descending {
        keys[i] > keys[j]
    } else {
        keys[i] < keys[j]
    }
}

/// `order` lists each position of `keys` once, in the stable order by key.
pub open spec fn is_stable_order(keys: Seq<i64>, descending: bool, order: Seq<usize>) -> bool {
    &&& order.len() == keys.len()
    &&& forall|a: int| 0 <= a < order.len() ==> (#[trigger] order[a]) < keys.len()
    &&& forall|i: usize| i < keys.len() ==> #[trigger] order.contains(i)
    &&& forall|a: int, b: int|
        0 <= a < b < order.len() ==> precedes(keys, descending, #[trigger] order[a] as int, #[trigger] order[b] as int)
}

/// The positions of `keys` in the stable order by key: ascending, or
/// descending when asked; equal keys keep their original order.
pub fn stable_order(keys: &Vec<i64>, descending: bool) -> (order: Vec<usize>)
    ensures
        is_stable_order(keys@, descending, order@),
{
    let ghost k = keys@;
    let mut order: Vec<usize> = Vec::new();
    let mut i: usize = 0;
    while i < keys.len()
        invariant
            k == keys@,
            i <= k.len(),
            order@.len() == i,
            forall|a: int| 0 <= a < order@.len() ==> (#[trigger] order@[a]) < i,
            forall|j: usize| j < i ==> #[trigger] order@.contains(j),
            forall|a: int, b: int|
                0 <= a < b < order@.len() ==> precedes(k, descending, #[trigger] order@[a] as int, #[trigger] order@[b] as int),
        decreases k.len() - i,
    {
        let key = keys[i];
        // The first position whose item must come after item `i`.
        let mut p: usize = 0;
        while p < order.len()
            invariant
                k == keys@,
                i < k.len(),
                key == k[i as int],
                p <= order@.len(),
                order@.len() == i,
                forall|a: int| 0 <= a < order@.len() ==> (#[trigger] order@[a]) < i,
                forall|a: int| 0 <= a < p ==> precedes(k, descending, #[trigger] order@[a] as int, i as int),
            ensures
                p <= order@.len(),
                forall|a: int| 0 <= a < p ==> precedes(k, descending, #[trigger] order@[a] as int, i as int),
                p < order@.len() ==> (if descending {
                    k[order@[p as int] as int] < key
                } else {
                    k[order@[p as int] as int] > key
                }),
            decreases order@.len() - p,
        {
            let other = keys[order[p]];
            let after = if descending {
                other < key
            } else {
                other > key
            };
            if after {
                break;
            }
            p = p + 1;
        }
        proof {
            if p < order@.len() {
                let q = order@[p as int] as int;
                assert(precedes(k, descending, i as int, q));
                assert forall|b: int| p <= b < order@.len() implies precedes(k, descending, i as int, #[trigger] order@[b] as int) by {
                    if b > p {
                        assert(precedes(k, descending, q, order@[b] as int));
                    }
                }
            }
        }
        let ghost old_order = order@;
        order.insert(p, i);
        proof {
            assert(order@ == old_order.insert(p as int, i));
            assert forall|a: int| 0 <= a < order@.len() implies (#[trigger] order@[a]) < i + 1 by {
                if a < p {
                    assert(order@[a] == old_order[a]);
                } else if a > p {
                    assert(order@[a] == old_order[a - 1]);
                }
            }
            assert forall|j: usize| j < i + 1 implies #[trigger] order@.contains(j) by {
                if j == i {
                    assert(order@[p as int] == i);
                } else {
                    assert(old_order.contains(j));
                    let a = choose|a: int| 0 <= a < old_order.len() && old_order[a] == j;
                    if a < p {
                        assert(order@[a] == old_order[a]);
                    } else {
                        assert(order@[a + 1] == old_order[a]);
                    }
                }
            }
            assert forall|a: int, b: int| 0 <= a < b < order@.len() implies precedes(
                k,
                descending,
                #[trigger] order@[a] as int,
                #[trigger] order@[b] as int,
            ) by {
                if b < p {
                    assert(order@[a] == old_order[a] && order@[b] == old_order[b]);
                } else if b == p {
                    assert(order@[a] == old_order[a]);
                } else if a == p {
                    assert(order@[b] == old_order[b - 1]);
                } else if a < p {
                    assert(order@[a] == old_order[a] && order@[b] == old_order[b - 1]);
                } else {
                    assert(order@[a] == old_order[a - 1] && order@[b] == old_order[b - 1]);
                }
            }
        }
        i = i + 1;
    }
    order
}

/// `a` comes strictly before `b` when names are compared character by
/// character (as `str`'s ordering does; a prefix comes first).
pub open spec fn chars_less(a: Seq<char>, b: Seq<char>) -> bool
    decreases a.len(),
{
    if a.len() == 0 {
        b.len() > 0
    } else if b.len() == 0 {
        false
    } else if a[0] != b[0] {
        (a[0] as int) < (b[0] as int)
    } else {
        chars_less(a.drop_first(), b.drop_first())
    }
}

/// No name comes before itself, and of two names at most one comes first.
pub proof fn lemma_chars_less_asymmetric(a: Seq<char>, b: Seq<char>)
    ensures
        chars_less(a, b) ==> !chars_less(b, a),
    decreases a.len(),
{
    if a.len() > 0 && b.len() > 0 && a[0] == b[0] {
        lemma_chars_less_asymmetric(a.drop_first(), b.drop_first());
    }
}

/// Of two different names, one comes first.
pub proof fn lemma_chars_less_total(a: Seq<char>, b: Seq<char>)
    ensures
        a != b ==> chars_less(a, b) || chars_less(b, a),
    decreases a.len(),
{
    if a.len() > 0 && b.len() > 0 && a[0] == b[0] {
        lemma_chars_less_total(a.drop_first(), b.drop_first());
        if a.drop_first() == b.drop_first() {
            assert(a =~= seq![a[0]] + a.drop_first());
            assert(b =~= seq![b[0]] + b.drop_first());
        }
    } else if a.len() > 0 && b.len() > 0 {
        assert((a[0] as int) != (b[0] as int));
    } else if a.len() == 0 && b.len() == 0 {
        assert(a =~= b);
    }
}

/// Coming first is transitive.
pub proof fn lemma_chars_less_transitive(a: Seq<char>, b: Seq<char>, c: Seq<char>)
    requires
        chars_less(a, b),
        chars_less(b, c),
    ensures
        chars_less(a, c),
    decreases a.len(),
{
    if a.len() > 0 && b.len() > 0 && c.len() > 0 && a[0] == b[0] && b[0] == c[0] {
        lemma_chars_less_transitive(a.drop_first(), b.drop_first(), c.drop_first());
    }
}

/// A listed entry: whether it is a directory, and its name. Directories
/// come before files, and entries of one kind by name.
pub open spec fn listing_less(a: (bool, Seq<char>), b: (bool, Seq<char>)) -> bool {
    if a.0 != b.0 {
        a.0
    } else {
        chars_less(a.1, b.1)
    }
}

/// Entry `i` comes before entry `j`: its key comes first, and equal keys
/// keep their original order.
pub open spec fn listing_precedes(keys: Seq<(bool, Seq<char>)>, i: int, j: int) -> bool {
    if keys[i] == keys[j] {
        i < j
    } else {
        listing_less(keys[i], keys[j])
    }
}

/// `order` lists each position of `keys` once, directories first, each
/// kind by name, ties in their original order.
pub open spec fn is_listing_order(keys: Seq<(bool, Seq<char>)>, order: Seq<usize>) -> bool {
    &&& order.len() == keys.len()
    &&& forall|a: int| 0 <= a < order.len() ==> (#[trigger] order[a]) < keys.len()
    &&& forall|i: usize| i < keys.len() ==> #[trigger] order.contains(i)
    &&& forall|a: int, b: int|
        0 <= a < b < order.len() ==> listing_precedes(keys, #[trigger] order[a] as int, #[trigger] order[b] as int)
}

proof fn lemma_listing_less_facts(x: (bool, Seq<char>), y: (bool, Seq<char>), z: (bool, Seq<char>))
    ensures
        listing_less(x, y) ==> !listing_less(y, x),
        x != y ==> listing_less(x, y) || listing_less(y, x),
        listing_less(x, y) && listing_less(y, z) ==> listing_less(x, z),
{
    lemma_chars_less_asymmetric(x.1, y.1);
    lemma_chars_less_total(x.1, y.1);
    if listing_less(x, y) && listing_less(y, z) && x.0 == y.0 && y.0 == z.0 {
        lemma_chars_less_transitive(x.1, y.1, z.1);
    }
}

proof fn lemma_listing_precedes_transitive(keys: Seq<(bool, Seq<char>)>, i: int, j: int, k: int)
    requires
        0 <= i < keys.len(),
        0 <= j < keys.len(),
        0 <= k < keys.len(),
        listing_precedes(keys, i, j),
        listing_precedes(keys, j, k),
    ensures
        listing_precedes(keys, i, k),
{
    lemma_listing_less_facts(keys[i], keys[j], keys[k]);
    lemma_listing_less_facts(keys[i], keys[k], keys[j]);
    lemma_listing_less_facts(keys[j], keys[i], keys[k]);
    lemma_listing_less_facts(keys[k], keys[i], keys[j]);
    lemma_listing_less_facts(keys[j], keys[k], keys[i]);
    lemma_listing_less_facts(keys[k], keys[j], keys[i]);
}

/// Whether name `a` comes strictly before name `b`.
pub fn chars_before(a: &[char], b: &[char]) -> (r: bool)
    ensures
        r == chars_less(a@, b@),
{
    let mut i: usize = 0;
    assert(a@.skip(0) =~= a@);
    assert(b@.skip(0) =~= b@);
    while i < a.len() && i < b.len()
        invariant
            i <= a@.len(),
            i <= b@.len(),
            chars_less(a@, b@) == chars_less(a@.skip(i as int), b@.skip(i as int)),
        decreases a@.len() - i,
    {
        if a[i] != b[i] {
            return a[i] < b[i];
        }
        assert(a@.skip(i as int).drop_first() =~= a@.skip(i + 1));
        assert(b@.skip(i as int).drop_first() =~= b@.skip(i + 1));
        i = i + 1;
    }
    i == a.len() && i < b.len()
}

fn listing_before(x: &(bool, Vec<char>), y: &(bool, Vec<char>)) -> (r: bool)
    ensures
        r == listing_less((x.0, x.1@), (y.0, y.1@)),
{
    if x.0 != y.0 {
        x.0
    } else {
        chars_before(x.1.as_slice(), y.1.as_slice())
    }
}

/// The views of listing keys.
pub open spec fn listing_keys(keys: Seq<(bool, Vec<char>)>) -> Seq<(bool, Seq<char>)> {
    keys.map_values(|k: (bool, Vec<char>)| (k.0, k.1@))
}

/// The positions of the entries in the order they are listed: directories
/// first, each kind by name, entries with equal keys in their original order.
pub fn listing_order(keys: &Vec<(bool, Vec<char>)>) -> (order: Vec<usize>)
    ensures
        is_listing_order(listing_keys(keys@), order@),
{
    let ghost k = listing_keys(keys@);
    let mut order: Vec<usize> = Vec::new();
    let mut i: usize = 0;
    while i < keys.len()
        invariant
            k == listing_keys(keys@),
            i <= k.len(),
            order@.len() == i,
            forall|a: int| 0 <= a < order@.len() ==> (#[trigger] order@[a]) < i,
            forall|j: usize| j < i ==> #[trigger] order@.contains(j),
            forall|a: int, b: int|
                0 <= a < b < order@.len() ==> listing_precedes(k, #[trigger] order@[a] as int, #[trigger] order@[b] as int),
        decreases k.len() - i,
    {
        // The first position whose entry must come after entry `i`.
        let mut p: usize = 0;
        while p < order.len()
            invariant
                k == listing_keys(keys@),
                i < k.len(),
                p <= order@.len(),
                order@.len() == i,
                forall|a: int| 0 <= a < order@.len() ==> (#[trigger] order@[a]) < i,
                forall|a: int| 0 <= a < p ==> listing_precedes(k, #[trigger] order@[a] as int, i as int),
            ensures
                p <= order@.len(),
                forall|a: int| 0 <= a < p ==> listing_precedes(k, #[trigger] order@[a] as int, i as int),
                p < order@.len() ==> listing_less(k[i as int], k[order@[p as int] as int]),
            decreases order@.len() - p,
        {
            let q = order[p];
            let after = listing_before(&keys[i], &keys[q]);
            if after {
                break;
            }
            proof {
                lemma_listing_less_facts(k[i as int], k[q as int], k[q as int]);
                assert(listing_precedes(k, q as int, i as int));
            }
            p = p + 1;
        }
        proof {
            if p < order@.len() {
                let q = order@[p as int] as int;
                lemma_listing_less_facts(k[i as int], k[q], k[q]);
                assert(listing_precedes(k, i as int, q));
                assert forall|b: int| p <= b < order@.len() implies listing_precedes(k, i as int, #[trigger] order@[b] as int) by {
                    if b > p {
                        assert(listing_precedes(k, q, order@[b] as int));
                        lemma_listing_precedes_transitive(k, i as int, q, order@[b] as int);
                    }
                }
            }
        }
        let ghost old_order = order@;
        order.insert(p, i);
        proof {
            assert(order@ == old_order.insert(p as int, i));
            assert forall|a: int| 0 <= a < order@.len() implies (#[trigger] order@[a]) < i + 1 by {
                if a < p {
                    assert(order@[a] == old_order[a]);
                } else if a > p {
                    assert(order@[a] == old_order[a - 1]);
                }
            }
            assert forall|j: usize| j < i + 1 implies #[trigger] order@.contains(j) by {
                if j == i {
                    assert(order@[p as int] == i);
                } else {
                    assert(old_order.contains(j));
                    let a = choose|a: int| 0 <= a < old_order.len() && old_order[a] == j;
                    if a < p {
                        assert(order@[a] == old_order[a]);
                    } else {
                        assert(order@[a + 1] == old_order[a]);
                    }
                }
            }
            assert forall|a: int, b: int| 0 <= a < b < order@.len() implies listing_precedes(
                k,
                #[trigger] order@[a] as int,
                #[trigger] order@[b] as int,
            ) by {
                if b < p {
                    assert(order@[a] == old_order[a] && order@[b] == old_order[b]);
                } else if b == p {
                    assert(order@[a] == old_order[a]);
                } else if a == p {
                    assert(order@[b] == old_order[b - 1]);
                } else if a < p {
                    assert(order@[a] == old_order[a] && order@[b] == old_order[b - 1]);
                } else {
                    assert(order@[a] == old_order[a - 1] && order@[b] == old_order[b - 1]);
                }
            }
        }
        i = i + 1;
    }
    order
}

} // verus!
