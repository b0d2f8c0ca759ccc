//! Environment configuration: a default YAML file deep-merged with the file of
//! the selected environment.
use vstd::prelude::*;

use crate::data::{distinct_keys, lookup, pairs_view, yaml_doc, Data, DataValue};

verus! {

/// The position of the first entry under `key`.
pub open spec fn key_index(es: Seq<(Seq<char>, Data)>, key: Seq<char>) -> Option<int>
    decreases es.len(),
{
    if es.len() == 0 {
        None
    } else if es[0].0 == key {
        Some(0)
    } else {
        match key_index(es.drop_first(), key) {
            Some(i) => Some(i + 1),
            None => None,
        }
    }
}

/// `mapping.remove(key)` on entries: the first entry under `key` is replaced
/// by the last entry, which then goes (a swap removal).
pub open spec fn swap_out(es: Seq<(Seq<char>, Data)>, key: Seq<char>) -> Seq<(Seq<char>, Data)> {
    match key_index(es, key) {
        Some(i) => es.update(i, es.last()).drop_last(),
        None => es,
    }
}

/// `deep_merge`: two mappings merge key by key (a key of both merges its two
/// values, the overlay's other keys are added); anything else is replaced by
/// the overlay.
pub open spec fn spec_deep_merge(base: Data, overlay: Data) -> Data
    decreases overlay, 0int,
{
    match overlay {
        Data::Object(o) => match base {
            Data::Object(b) => Data::Object(merge_entries(b, o, o.len() as int)),
            _ => overlay,
        },
        _ => overlay,
    }
}

/// The base entries after merging the first `n` overlay entries into them, in
/// order: each overlay key is taken out of the base (by a swap removal) and
/// put back at the end with the merged value.
pub open spec fn merge_entries(b: Seq<(Seq<char>, Data)>, o: Seq<(Seq<char>, Data)>, n: int) -> Seq<(Seq<char>, Data)>
    decreases o, n,
{
    if n <= 0 || n > o.len() {
        b
    } else {
        let acc = merge_entries(b, o, n - 1);
        let e = o[n - 1];
        proof {
            assert(decreases_to!(o => o[n - 1]));
            assert(decreases_to!(o[n - 1] => o[n - 1].1));
        }
        swap_out(acc, e.0).push(
            (
                e.0,
                match lookup(acc, e.0) {
                    Some(bv) => spec_deep_merge(bv, e.1),
                    None => e.1,
                },
            ),
        )
    }
}

/// What `key_index` finds: the first entry under the key, or no entry under it.
pub proof fn lemma_key_index(es: Seq<(Seq<char>, Data)>, key: Seq<char>)
    ensures
        match key_index(es, key) {
            Some(i) => 0 <= i < es.len() && es[i].0 == key && lookup(es, key) == Some(es[i].1) && forall|j: int|
                0 <= j < i ==> es[j].0 != key,
            None => lookup(es, key) is None && forall|j: int| 0 <= j < es.len() ==> es[j].0 != key,
        },
    decreases es.len(),
{
    if es.len() > 0 {
        lemma_key_index(es.drop_first(), key);
        assert forall|j: int| 0 < j < es.len() implies es[j] == es.drop_first()[j - 1] by {}
        if es[0].0 != key {
            match key_index(es.drop_first(), key) {
                Some(i) => {
                    assert forall|j: int| 0 <= j < i + 1 implies es[j].0 != key by {
                        if j > 0 {
                            assert(es[j] == es.drop_first()[j - 1]);
                        }
                    }
                },
                None => {
                    assert forall|j: int| 0 <= j < es.len() implies es[j].0 != key by {
                        if j > 0 {
                            assert(es[j] == es.drop_first()[j - 1]);
                        }
                    }
                },
            }
        }
    }
}

/// In entries with distinct keys, the entry under a key is the one found.
proof fn lemma_lookup_distinct(es: Seq<(Seq<char>, Data)>, m: int)
    requires
        distinct_keys(es),
        0 <= m < es.len(),
    ensures
        lookup(es, es[m].0) == Some(es[m].1),
{
    lemma_key_index(es, es[m].0);
    if let Some(i) = key_index(es, es[m].0) {
        if i != m {
            assert(es[m].0 != es[i].0);
        }
    }
}

/// Taking a key out by a swap removal and putting it back at the end with a
/// new value: that key holds the new value, every other key keeps its value,
/// and no key occurs twice.
proof fn lemma_swap_put(es: Seq<(Seq<char>, Data)>, k: Seq<char>, v: Data, key: Seq<char>)
    requires
        distinct_keys(es),
    ensures
        lookup(swap_out(es, k).push((k, v)), key) == (if key == k {
            Some(v)
        } else {
            lookup(es, key)
        }),
        distinct_keys(swap_out(es, k).push((k, v))),
{
    let s = swap_out(es, k);
    let t = s.push((k, v));
    lemma_key_index(es, k);
    assert(forall|j: int| 0 <= j < s.len() ==> s[j].0 != k) by {
        match key_index(es, k) {
            Some(i) => {
                assert forall|j: int| 0 <= j < s.len() implies s[j].0 != k by {
                    if j == i {
                        assert(s[j] == es[es.len() - 1]);
                        assert(es[i].0 != es[es.len() - 1].0);
                    } else {
                        assert(s[j] == es[j]);
                        if j < i {
                        } else {
                            assert(es[i].0 != es[j].0);
                        }
                    }
                }
            },
            None => {},
        }
    }
    assert(distinct_keys(t)) by {
        assert forall|a: int, b: int| 0 <= a < b < t.len() implies t[a].0 != t[b].0 by {
            if b == t.len() - 1 {
                assert(t[b].0 == k);
                assert(t[a] == s[a]);
            } else {
                assert(t[a] == s[a] && t[b] == s[b]);
                match key_index(es, k) {
                    Some(i) => {
                        let last = es.len() - 1;
                        let ia = if a == i { last } else { a };
                        let ib = if b == i { last } else { b };
                        assert(s[a] == es[ia]);
                        assert(s[b] == es[ib]);
                        assert(ia != ib);
                        if ia < ib {
                        } else {
                            assert(es[ib].0 != es[ia].0);
                        }
                    },
                    None => {},
                }
            }
        }
    }
    crate::objects::lemma_lookup_push(s, (k, v), key);
    if key == k {
        crate::objects::lemma_lookup_none(s, k);
    } else {
        lemma_key_index(s, key);
        lemma_key_index(es, key);
        match key_index(es, key) {
            Some(m) => {
                match key_index(es, k) {
                    Some(i) => {
                        let last = es.len() - 1;
                        let sm = if m == last { i } else { m };
                        assert(m != i);
                        assert(s[sm] == es[m]);
                        assert(distinct_keys(s)) by {
                            assert forall|a: int, b: int| 0 <= a < b < s.len() implies s[a].0 != s[b].0 by {
                                assert(t[a] == s[a] && t[b] == s[b]);
                            }
                        }
                        lemma_lookup_distinct(s, sm);
                    },
                    None => {},
                }
            },
            None => {
                match key_index(es, k) {
                    Some(i) => {
                        match key_index(s, key) {
                            Some(j) => {
                                if j == i {
                                    assert(s[j] == es[es.len() - 1]);
                                } else {
                                    assert(s[j] == es[j]);
                                }
                            },
                            None => {},
                        }
                    },
                    None => {},
                }
            },
        }
    }
}

/// The position of the first entry under a key.
fn find_key(es: &Vec<(String, DataValue)>, key: &str) -> (r: Option<usize>)
    ensures
        match r {
            Some(i) => key_index(pairs_view(es@), key@) == Some(i as int),
            None => key_index(pairs_view(es@), key@) is None,
        },
{
    let ghost all = pairs_view(es@);
    proof {
        lemma_key_index(all, key@);
    }
    let mut j: usize = 0;
    while j < es.len()
        invariant
            j <= es@.len(),
            all == pairs_view(es@),
            forall|m: int| 0 <= m < j ==> all[m].0 != key@,
            match key_index(all, key@) {
                Some(i) => 0 <= i < all.len() && all[i].0 == key@ && forall|m: int| 0 <= m < i ==> all[m].0 != key@,
                None => forall|m: int| 0 <= m < all.len() ==> all[m].0 != key@,
            },
        decreases es@.len() - j,
    {
        if crate::text::str_eq(es[j].0.as_str(), key) {
            assert(all[j as int].0 == key@);
            return Some(j);
        }
        j = j + 1;
    }
    None
}

/// Deep-merges an overlay into a base.
pub fn deep_merge(base: &DataValue, overlay: &DataValue) -> (r: DataValue)
    ensures
        r@ == spec_deep_merge(base@, overlay@),
    decreases overlay,
{
    match overlay {
        DataValue::Object(o) => match base {
            DataValue::Object(b) => {
                let ghost ov = overlay@->Object_0;
                let ghost bv = base@->Object_0;
                assert(ov =~= pairs_view(o@));
                assert(bv =~= pairs_view(b@));
                let mut acc: Vec<(String, DataValue)> = crate::ai_types::clone_entries(b);
                let mut i: usize = 0;
                while i < o.len()
                    invariant
                        *overlay == DataValue::Object(*o),
                        i <= o@.len(),
                        ov == pairs_view(o@),
                        bv == base@->Object_0,
                        base@ is Object,
                        pairs_view(acc@) == merge_entries(bv, ov, i as int),
                    decreases o@.len() - i,
                {
                    proof {
                        vstd::std_specs::vec::axiom_vec_index_decreases(*o, i as int);
                        assert(decreases_to!(*overlay => (*overlay)->Object_0));
                        assert(decreases_to!(*o => o[i as int]));
                        assert(decreases_to!(o[i as int] => o[i as int].1));
                        assert(ov[i as int] == (o@[i as int].0@, o@[i as int].1@));
                    }
                    let ghost before = pairs_view(acc@);
                    proof {
                        lemma_key_index(before, o@[i as int].0@);
                    }
                    let merged = match find_key(&acc, o[i].0.as_str()) {
                        Some(k) => {
                            let ghost prev = acc@;
                            let (_name, bval) = acc.swap_remove(k);
                            assert(pairs_view(acc@) =~= before.update(k as int, before.last()).drop_last());
                            deep_merge(&bval, &o[i].1)
                        },
                        None => o[i].1.copy(),
                    };
                    crate::data::push_entry(&mut acc, o[i].0.as_str(), merged);
                    i = i + 1;
                }
                let r = DataValue::object(acc);
                r
            },
            _ => overlay.copy(),
        },
        _ => overlay.copy(),
    }
}

/// Merging two mappings: a key of the overlay holds its value merged into the
/// base's value for it (or just the overlay's value where the base lacks the
/// key); a key only of the base keeps its value.
pub proof fn lemma_deep_merge_lookup(base: Seq<(Seq<char>, Data)>, overlay: Seq<(Seq<char>, Data)>, key: Seq<char>)
    requires
        distinct_keys(base),
        distinct_keys(overlay),
    ensures
        lookup(merge_entries(base, overlay, overlay.len() as int), key) == (match lookup(overlay, key) {
            Some(ov) => Some(
                match lookup(base, key) {
                    Some(bv) => spec_deep_merge(bv, ov),
                    None => ov,
                },
            ),
            None => lookup(base, key),
        }),
        distinct_keys(merge_entries(base, overlay, overlay.len() as int)),
{
    lemma_merge_prefix(base, overlay, overlay.len() as int, key);
    assert(overlay.take(overlay.len() as int) == overlay);
}

proof fn lemma_merge_prefix(base: Seq<(Seq<char>, Data)>, overlay: Seq<(Seq<char>, Data)>, n: int, key: Seq<char>)
    requires
        distinct_keys(base),
        distinct_keys(overlay),
        0 <= n <= overlay.len(),
    ensures
        lookup(merge_entries(base, overlay, n), key) == (match lookup(overlay.take(n), key) {
            Some(ov) => Some(
                match lookup(base, key) {
                    Some(bv) => spec_deep_merge(bv, ov),
                    None => ov,
                },
            ),
            None => lookup(base, key),
        }),
        distinct_keys(merge_entries(base, overlay, n)),
    decreases n,
{
    if n == 0 {
        assert(overlay.take(0).len() == 0);
    } else {
        lemma_merge_prefix(base, overlay, n - 1, key);
        let acc = merge_entries(base, overlay, n - 1);
        let e = overlay[n - 1];
        let merged = match lookup(acc, e.0) {
            Some(bv) => spec_deep_merge(bv, e.1),
            None => e.1,
        };
        lemma_swap_put(acc, e.0, merged, key);
        assert(overlay.take(n) == overlay.take(n - 1).push(e));
        crate::objects::lemma_lookup_push(overlay.take(n - 1), e, key);
        if key == e.0 {
            crate::objects::lemma_lookup_none(overlay.take(n - 1), key);
            assert forall|i: int| 0 <= i < overlay.take(n - 1).len() implies #[trigger] overlay.take(n - 1)[i].0 != key by {
                assert(overlay[i].0 != overlay[n - 1].0);
            }
            lemma_merge_prefix(base, overlay, n - 1, e.0);
        }
    }
}

/// The settings of the environment configuration.
pub struct EnvConfig {
    pub log_level: Option<String>,
    pub model_override: Option<String>,
    pub extra: DataValue,
}

/// Reads the settings out of the merged configuration.
pub fn env_config_from(merged: DataValue) -> (r: EnvConfig)
    ensures
        crate::ai_types::opt_str(r.log_level) == merged@.get_str("log_level"@),
        crate::ai_types::opt_str(r.model_override) == merged@.get_str("model_override"@),
        r.extra == merged,
{
    let log_level = merged.get_str("log_level");
    let model_override = merged.get_str("model_override");
    EnvConfig { log_level, model_override, extra: merged }
}

/// What a configuration file reads as: its YAML, or an empty mapping where it
/// is missing or does not parse.
pub open spec fn spec_yaml_or_empty(text: Option<Seq<char>>) -> Data {
    match text {
        Some(t) => match yaml_doc(t) {
            Some(d) => d,
            None => Data::Object(Seq::empty()),
        },
        None => Data::Object(Seq::empty()),
    }
}

pub fn yaml_or_empty(text: Option<&str>) -> (r: DataValue)
    ensures
        r@ == spec_yaml_or_empty(match text {
            Some(t) => Some(t@),
            None => None,
        }),
{
    let none: Vec<(String, DataValue)> = Vec::new();
    assert(pairs_view(none@) =~= Seq::<(Seq<char>, Data)>::empty());
    let empty = DataValue::object(none);
    match text {
        Some(t) => match crate::data::parse_yaml(t) {
            Some(d) => d,
            None => empty,
        },
        None => empty,
    }
}

/// The environment to load: the one asked for, else the one `GITCLAW_ENV`
/// names.
pub fn select_env(flag: Option<&str>, from_env: Option<String>) -> (r: Option<String>)
    ensures
        match flag {
            Some(f) => r matches Some(s) && s@ == f@,
            None => r == from_env,
        },
{
    match flag {
        Some(f) => Some(f.to_owned()),
        None => from_env,
    }
}

/// The configuration of an environment: the default file merged with the
/// environment's file where one is selected.
pub fn merge_env_config(base: DataValue, env_override: Option<DataValue>) -> (r: EnvConfig)
    ensures
        r.extra@ == (match env_override {
            Some(o) => spec_deep_merge(base@, o@),
            None => base@,
        }),
        crate::ai_types::opt_str(r.log_level) == r.extra@.get_str("log_level"@),
        crate::ai_types::opt_str(r.model_override) == r.extra@.get_str("model_override"@),
{
    let merged = match env_override {
        Some(o) => deep_merge(&base, &o),
        None => base,
    };
    env_config_from(merged)
}

} // verus!
