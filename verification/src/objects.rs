//! Editing the entries of JSON objects: removing, inserting and renaming keys.
use vstd::prelude::*;

use crate::data::{lookup, opt_view, pairs_view, Data, DataValue};

verus! {

/// The entries without those under `key`, in order.
pub open spec fn drop_key(es: Seq<(Seq<char>, Data)>, key: Seq<char>) -> Seq<(Seq<char>, Data)>
    decreases es.len(),
{
    if es.len() == 0 {
        es
    } else {
        let rest = drop_key(es.drop_last(), key);
        if es.last().0 == key {
            rest
        } else {
            rest.push(es.last())
        }
    }
}

/// `map.insert(key, value)` on entries: any entry under `key` goes, and the
/// new one comes last.
pub open spec fn put_key(es: Seq<(Seq<char>, Data)>, key: Seq<char>, value: Data) -> Seq<(Seq<char>, Data)> {
    drop_key(es, key).push((key, value))
}

/// `if let Some(v) = map.remove(from) { map.insert(to, v) }` on entries.
pub open spec fn rename_key(es: Seq<(Seq<char>, Data)>, from: Seq<char>, to: Seq<char>) -> Seq<(Seq<char>, Data)> {
    match lookup(es, from) {
        Some(v) => put_key(drop_key(es, from), to, v),
        None => es,
    }
}

/// The first entry under a key is found after the entries before it.
pub proof fn lemma_lookup_push(es: Seq<(Seq<char>, Data)>, e: (Seq<char>, Data), key: Seq<char>)
    ensures
        lookup(es.push(e), key) == (match lookup(es, key) {
            Some(v) => Some(v),
            None => if e.0 == key {
                Some(e.1)
            } else {
                None
            },
        }),
    decreases es.len(),
{
    if es.len() > 0 {
        assert(es.push(e)[0] == es[0]);
        assert(es.push(e).drop_first() == es.drop_first().push(e));
        lemma_lookup_push(es.drop_first(), e, key);
    } else {
        assert(es.push(e)[0] == e);
        assert(es.push(e).drop_first().len() == 0);
        assert(lookup(es.push(e).drop_first(), key) is None);
    }
}

/// Nothing is found under a key that no entry has.
pub proof fn lemma_lookup_none(es: Seq<(Seq<char>, Data)>, key: Seq<char>)
    ensures
        lookup(es, key) is None <==> forall|i: int| 0 <= i < es.len() ==> es[i].0 != key,
    decreases es.len(),
{
    if es.len() > 0 {
        lemma_lookup_none(es.drop_first(), key);
        assert forall|i: int| 0 < i < es.len() implies es[i] == es.drop_first()[i - 1] by {}
        if lookup(es, key) is None {
            assert forall|i: int| 0 <= i < es.len() implies es[i].0 != key by {
                if i > 0 {
                    assert(es[i] == es.drop_first()[i - 1]);
                }
            }
        }
    }
}

/// Dropping a key that no entry has leaves the entries as they are.
pub proof fn lemma_drop_absent(es: Seq<(Seq<char>, Data)>, key: Seq<char>)
    requires
        forall|i: int| 0 <= i < es.len() ==> es[i].0 != key,
    ensures
        drop_key(es, key) == es,
    decreases es.len(),
{
    if es.len() > 0 {
        lemma_drop_absent(es.drop_last(), key);
        assert(es.drop_last().push(es.last()) == es);
    }
}

/// Removes every entry under `key`; returns the rest, in order, and the value
/// of the first removed entry.
pub fn remove_key(es: Vec<(String, DataValue)>, key: &str) -> (r: (Vec<(String, DataValue)>, Option<DataValue>))
    ensures
        pairs_view(r.0@) == drop_key(pairs_view(es@), key@),
        opt_view(r.1) == lookup(pairs_view(es@), key@),
{
    let ghost all = pairs_view(es@);
    assert(all.len() == es@.len());
    let mut rest = es;
    let mut kept: Vec<(String, DataValue)> = Vec::new();
    let mut found: Option<DataValue> = None;
    let total: usize = rest.len();
    let ghost n = total as nat;
    let mut k: usize = 0;
    while rest.len() > 0
        invariant
            k <= n,
            n == all.len(),
            n <= usize::MAX,
            rest@.len() == n - k,
            pairs_view(rest@) == all.skip(k as int),
            pairs_view(kept@) == drop_key(all.take(k as int), key@),
            opt_view(found) == lookup(all.take(k as int), key@),
        decreases rest@.len(),
    {
        let ghost before_rest = rest@;
        let e = rest.remove(0);
        let ghost ev = (e.0@, e.1@);
        proof {
            assert(pairs_view(before_rest)[0] == ev);
            assert(all.skip(k as int)[0] == all[k as int]);
            assert(all[k as int] == ev);
            assert(all.take(k + 1) == all.take(k as int).push(ev));
            assert(all.take(k + 1).drop_last() == all.take(k as int));
            assert(rest@ =~= before_rest.skip(1));
            assert(pairs_view(before_rest.skip(1)) =~= pairs_view(before_rest).skip(1));
            assert(pairs_view(rest@) =~= all.skip(k + 1));
            lemma_lookup_push(all.take(k as int), ev, key@);
        }
        if crate::text::str_eq(e.0.as_str(), key) {
            if found.is_none() {
                found = Some(e.1);
            }
        } else {
            let ghost prev = kept@;
            kept.push(e);
            assert(pairs_view(kept@) =~= pairs_view(prev).push(ev));
        }
        k = k + 1;
    }
    assert(all.take(k as int) == all);
    (kept, found)
}

/// `map.insert(key, value)` on entries.
pub fn put_entry(es: Vec<(String, DataValue)>, key: &str, value: DataValue) -> (r: Vec<(String, DataValue)>)
    ensures
        pairs_view(r@) == put_key(pairs_view(es@), key@, value@),
{
    let (mut kept, _) = remove_key(es, key);
    crate::data::push_entry(&mut kept, key, value);
    kept
}

/// `if let Some(v) = map.remove(from) { map.insert(to, v) }` on entries.
pub fn rename_entry(es: Vec<(String, DataValue)>, from: &str, to: &str) -> (r: Vec<(String, DataValue)>)
    ensures
        pairs_view(r@) == rename_key(pairs_view(es@), from@, to@),
{
    let ghost all = pairs_view(es@);
    let (kept, found) = remove_key(es, from);
    match found {
        Some(v) => put_entry(kept, to, v),
        None => {
            proof {
                lemma_lookup_none(all, from@);
                lemma_drop_absent(all, from@);
            }
            kept
        },
    }
}

} // verus!
