//! Moving the elements of vectors without copying them.
use vstd::prelude::*;

verus! {

/// The elements of `v` in reverse order.
pub(crate) fn reversed<T>(v: Vec<T>) -> (r: Vec<T>)
    ensures
        r@.len() == v@.len(),
        forall|j: int| 0 <= j < v@.len() ==> #[trigger] r@[j] == v@[v@.len() - 1 - j],
{
    let ghost v0 = v@;
    let mut v = v;
    let mut r: Vec<T> = Vec::new();
    while v.len() > 0
        invariant
            r@.len() + v@.len() == v0.len(),
            v@ == v0.take(v@.len() as int),
            forall|j: int| 0 <= j < r@.len() ==> #[trigger] r@[j] == v0[v0.len() - 1 - j],
        decreases v@.len(),
    {
        let x = v.pop().unwrap();
        r.push(x);
    }
    r
}

/// The second and first components of pairs, in order.
pub(crate) fn split_rows(rows: Vec<(u128, String)>) -> (r: (Vec<String>, Vec<u128>))
    ensures
        r.0@.len() == rows@.len() && r.1@.len() == rows@.len(),
        forall|i: int| 0 <= i < rows@.len() ==> #[trigger] r.0@[i] == rows@[i].1 && r.1@[i] == rows@[i].0,
{
    let ghost rows0 = rows@;
    let mut rows = rows;
    let mut keys_rev: Vec<String> = Vec::new();
    let mut ids_rev: Vec<u128> = Vec::new();
    while rows.len() > 0
        invariant
            rows@ == rows0.take(rows@.len() as int),
            keys_rev@.len() + rows@.len() == rows0.len(),
            ids_rev@.len() == keys_rev@.len(),
            forall|j: int| 0 <= j < keys_rev@.len() ==> #[trigger] keys_rev@[j] == rows0[rows0.len() - 1 - j].1
                && ids_rev@[j] == rows0[rows0.len() - 1 - j].0,
        decreases rows@.len(),
    {
        let (id, key) = rows.pop().unwrap();
        keys_rev.push(key);
        ids_rev.push(id);
    }
    let n = keys_rev.len();
    let mut keys: Vec<String> = Vec::new();
    let mut ids: Vec<u128> = Vec::new();
    while keys_rev.len() > 0
        invariant
            n == rows0.len(),
            keys_rev@.len() + keys@.len() == n,
            ids_rev@.len() == keys_rev@.len(),
            ids@.len() == keys@.len(),
            forall|j: int| 0 <= j < keys_rev@.len() ==> #[trigger] keys_rev@[j] == rows0[n - 1 - j].1
                && ids_rev@[j] == rows0[n - 1 - j].0,
            forall|j: int| 0 <= j < keys@.len() ==> #[trigger] keys@[j] == rows0[j].1 && ids@[j] == rows0[j].0,
        decreases keys_rev@.len(),
    {
        let k = keys_rev.pop().unwrap();
        let i = ids_rev.pop().unwrap();
        keys.push(k);
        ids.push(i);
    }
    (keys, ids)
}

} // verus!
