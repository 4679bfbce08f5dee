//! Arranging rows by an integer key.
//!
//! The arrangement is the one an insertion sort gives: keys ascend, and rows
//! with the same key stay in the order in which they were stored.

use vstd::prelude::*;

verus! {

/// `sorted` with `v` put in behind the last row whose key is not greater.
pub open spec fn placed<T>(sorted: Seq<T>, v: T, key: spec_fn(T) -> int) -> Seq<T>
    decreases sorted.len(),
{
    if sorted.len() > 0 && key(sorted.last()) > key(v) {
        placed(sorted.drop_last(), v, key).push(sorted.last())
    } else {
        sorted.push(v)
    }
}

/// The rows in ascending order of their keys, rows of one key in storage
/// order.
pub open spec fn arranged<T>(rows: Seq<T>, key: spec_fn(T) -> int) -> Seq<T>
    decreases rows.len(),
{
    if rows.len() == 0 {
        rows
    } else {
        placed(arranged(rows.drop_last(), key), rows.last(), key)
    }
}

/// Whether the keys never fall from one row to the next.
pub open spec fn ascends<T>(rows: Seq<T>, key: spec_fn(T) -> int) -> bool {
    forall|i: int, j: int| 0 <= i <= j < rows.len() ==> key(rows[i]) <= key(rows[j])
}

/// Putting a row in is inserting it at the place where the greater keys
/// begin.
pub proof fn lemma_placed_at<T>(sorted: Seq<T>, v: T, key: spec_fn(T) -> int, at: int)
    requires
        0 <= at <= sorted.len(),
        forall|i: int| at <= i < sorted.len() ==> key(#[trigger] sorted[i]) > key(v),
        at > 0 ==> key(sorted[at - 1]) <= key(v),
    ensures
        placed(sorted, v, key) == sorted.insert(at, v),
    decreases sorted.len() - at,
{
    if at == sorted.len() {
        assert(sorted.push(v) =~= sorted.insert(at, v));
    } else {
        let front = sorted.drop_last();
        assert(key(sorted[sorted.len() - 1]) > key(v));
        assert forall|i: int| at <= i < front.len() implies key(#[trigger] front[i]) > key(v) by {
            assert(front[i] == sorted[i]);
        }
        lemma_placed_at(front, v, key, at);
        assert(front.insert(at, v).push(sorted.last()) =~= sorted.insert(at, v));
    }
}

/// Putting a row in keeps every row, adds the new one, and keeps the keys
/// ascending.
pub proof fn lemma_placed<T>(sorted: Seq<T>, v: T, key: spec_fn(T) -> int)
    requires
        ascends(sorted, key),
    ensures
        ascends(placed(sorted, v, key), key),
        placed(sorted, v, key).len() == sorted.len() + 1,
        placed(sorted, v, key).to_multiset() == sorted.to_multiset().insert(v),
    decreases sorted.len(),
{
    broadcast use vstd::seq_lib::group_to_multiset_ensures;

    if sorted.len() > 0 && key(sorted.last()) > key(v) {
        let front = sorted.drop_last();
        let last = sorted.last();
        assert(ascends(front, key)) by {
            assert forall|i: int, j: int| 0 <= i <= j < front.len() implies key(front[i]) <= key(
                front[j],
            ) by {
                assert(front[i] == sorted[i] && front[j] == sorted[j]);
            }
        }
        lemma_placed(front, v, key);
        let inner = placed(front, v, key);
        let out = inner.push(last);
        assert(sorted =~= front.push(last));
        assert(forall|x: T| inner.to_multiset().count(x) > 0 ==> inner.contains(x));
        assert forall|i: int, j: int| 0 <= i <= j < out.len() implies key(out[i]) <= key(
            out[j],
        ) by {
            if j == out.len() - 1 && i < j {
                let x = inner[i];
                assert(inner.to_multiset().count(x) > 0);
                if x != v {
                    assert(front.to_multiset().count(x) > 0);
                    assert(front.contains(x));
                    let k = choose|k: int| 0 <= k < front.len() && front[k] == x;
                    assert(sorted[k] == x);
                    assert(key(sorted[k]) <= key(sorted[sorted.len() - 1]));
                }
            }
        }
        assert(out.to_multiset() =~= sorted.to_multiset().insert(v));
    } else {
        let out = sorted.push(v);
        assert forall|i: int, j: int| 0 <= i <= j < out.len() implies key(out[i]) <= key(
            out[j],
        ) by {
            if j == out.len() - 1 && i < j {
                assert(key(sorted[i]) <= key(sorted[sorted.len() - 1]));
            }
        }
    }
}

/// The arrangement holds exactly the rows it was given, with keys ascending.
pub proof fn lemma_arranged<T>(rows: Seq<T>, key: spec_fn(T) -> int)
    ensures
        ascends(arranged(rows, key), key),
        arranged(rows, key).len() == rows.len(),
        arranged(rows, key).to_multiset() == rows.to_multiset(),
    decreases rows.len(),
{
    broadcast use vstd::seq_lib::group_to_multiset_ensures;

    if rows.len() > 0 {
        let front = rows.drop_last();
        lemma_arranged(front, key);
        lemma_placed(arranged(front, key), rows.last(), key);
        assert(rows =~= front.push(rows.last()));
    }
}

/// The test that a row has the key `k`.
pub open spec fn has_key<T>(key: spec_fn(T) -> int, k: int) -> spec_fn(T) -> bool {
    |row: T| key(row) == k
}

/// Rows of one key stay in the order in which they were stored: the rows
/// with the key `k` are the same sequence before and after arranging.
pub proof fn lemma_arranged_is_stable<T>(rows: Seq<T>, key: spec_fn(T) -> int, k: int)
    ensures
        arranged(rows, key).filter(has_key(key, k)) == rows.filter(has_key(key, k)),
    decreases rows.len(),
{
    if rows.len() > 0 {
        let front = rows.drop_last();
        lemma_arranged_is_stable(front, key, k);
        lemma_placed_is_stable(arranged(front, key), rows.last(), key, k);
        assert(rows =~= front.push(rows.last()));
        front.lemma_filter_push(rows.last(), has_key(key, k));
    }
}

/// A row is put in behind every row of its own key, and between no two
/// rows of another.
proof fn lemma_placed_is_stable<T>(sorted: Seq<T>, v: T, key: spec_fn(T) -> int, k: int)
    ensures
        placed(sorted, v, key).filter(has_key(key, k)) == if key(v) == k {
            sorted.filter(has_key(key, k)).push(v)
        } else {
            sorted.filter(has_key(key, k))
        },
    decreases sorted.len(),
{
    if sorted.len() > 0 && key(sorted.last()) > key(v) {
        let front = sorted.drop_last();
        lemma_placed_is_stable(front, v, key, k);
        placed(front, v, key).lemma_filter_push(sorted.last(), has_key(key, k));
        assert(sorted =~= front.push(sorted.last()));
        front.lemma_filter_push(sorted.last(), has_key(key, k));
    } else {
        sorted.lemma_filter_push(v, has_key(key, k));
    }
}

/// Arranging the rows changes nothing in how many of them pass a test.
pub proof fn lemma_arranged_keeps_counts<T>(
    rows: Seq<T>,
    key: spec_fn(T) -> int,
    test: spec_fn(T) -> bool,
)
    ensures
        arranged(rows, key).filter(test).len() == rows.filter(test).len(),
    decreases rows.len(),
{
    if rows.len() == 0 {
    } else {
        let front = rows.drop_last();
        lemma_arranged_keeps_counts(front, key, test);
        lemma_placed_keeps_counts(arranged(front, key), rows.last(), key, test);
        assert(rows =~= front.push(rows.last()));
        front.lemma_filter_len_push(test, rows.last());
    }
}

/// Putting a row in adds it to the rows that pass a test where it passes,
/// and changes nothing otherwise.
proof fn lemma_placed_keeps_counts<T>(
    sorted: Seq<T>,
    v: T,
    key: spec_fn(T) -> int,
    test: spec_fn(T) -> bool,
)
    ensures
        placed(sorted, v, key).filter(test).len() == sorted.filter(test).len() + if test(v) {
            1int
        } else {
            0int
        },
    decreases sorted.len(),
{
    if sorted.len() > 0 && key(sorted.last()) > key(v) {
        let front = sorted.drop_last();
        lemma_placed_keeps_counts(front, v, key, test);
        placed(front, v, key).lemma_filter_len_push(test, sorted.last());
        assert(sorted =~= front.push(sorted.last()));
        front.lemma_filter_len_push(test, sorted.last());
    } else {
        sorted.lemma_filter_len_push(test, v);
    }
}

/// Arranges `items` by `keys`, which holds the key of each item at the same
/// place.
pub(crate) fn arrange<T: Copy>(
    items: &Vec<T>,
    keys: &Vec<i64>,
    Ghost(key): Ghost<spec_fn(T) -> int>,
) -> (out: Vec<T>)
    requires
        items.len() == keys.len(),
        forall|i: int| 0 <= i < items.len() ==> keys[i] == key(#[trigger] items[i]),
    ensures
        out@ == arranged(items@, key),
{
    let mut out: Vec<T> = Vec::new();
    let mut out_keys: Vec<i64> = Vec::new();
    let mut n: usize = 0;
    while n < items.len()
        invariant
            n <= items.len(),
            items.len() == keys.len(),
            forall|i: int| 0 <= i < items.len() ==> keys[i] == key(#[trigger] items[i]),
            out@ == arranged(items@.take(n as int), key),
            out_keys.len() == out.len(),
            forall|i: int| 0 <= i < out.len() ==> out_keys[i] == key(#[trigger] out[i]),
        decreases items.len() - n,
    {
        let item: T = items[n];
        let k: i64 = keys[n];
        let mut at: usize = out.len();
        while at > 0 && out_keys[at - 1] > k
            invariant
                at <= out.len(),
                out_keys.len() == out.len(),
                forall|i: int| 0 <= i < out.len() ==> out_keys[i] == key(#[trigger] out[i]),
                forall|i: int| at <= i < out.len() ==> key(#[trigger] out[i]) > k,
            decreases at,
        {
            at -= 1;
        }
        proof {
            assert(k == key(item));
            lemma_placed_at(out@, item, key, at as int);
            assert(items@.take(n as int + 1).drop_last() =~= items@.take(n as int));
        }
        out.insert(at, item);
        out_keys.insert(at, k);
        n += 1;
    }
    proof {
        assert(items@.take(n as int) =~= items@);
    }
    out
}

} // verus!
