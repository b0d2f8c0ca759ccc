//! The model registry: reading model descriptions out of the registry's JSON
//! document, and looking models up by provider and id.
use vstd::prelude::*;

use crate::ai_types::Model;
use crate::data::{json_parse, lookup, opt_view, pairs_view, views, Data, DataValue};
use crate::objects::{rename_entry, rename_key};
use crate::text::{contains, contains_seq, str_eq, str_pairs, views_of};

verus! {

/// The registry's JSON document: providers, each with its models by id, with
/// their prices per million tokens.
pub const MODELS_JSON: &'static str = "{\"anthropic\":{\"sonnet-4-5-20250929\":{\"id\":\"sonnet-4-5-20250929\",\"name\":\"Sonnet 4.5\",\"api\":\"anthropic-messages\",\"provider\":\"anthropic\",\"baseUrl\":\"https://api.anthropic.com\",\"reasoning\":true,\"input\":[\"text\",\"image\"],\"cost\":{\"input\":3,\"output\":15,\"cacheRead\":0.3,\"cacheWrite\":3.75},\"contextWindow\":200000,\"maxTokens\":64000}},\"openai\":{\"gpt-4o-mini\":{\"id\":\"gpt-4o-mini\",\"name\":\"GPT-4o mini\",\"api\":\"openai-completions\",\"provider\":\"openai\",\"baseUrl\":\"https://api.openai.com/v1\",\"reasoning\":false,\"input\":[\"text\",\"image\"],\"cost\":{\"input\":0.15,\"output\":0.6,\"cacheRead\":0.075,\"cacheWrite\":0},\"contextWindow\":128000,\"maxTokens\":16384}},\"google\":{\"gemini-2.5-flash\":{\"id\":\"gemini-2.5-flash\",\"name\":\"Gemini 2.5 Flash\",\"api\":\"google-generative-ai\",\"provider\":\"google\",\"baseUrl\":\"https://generativelanguage.googleapis.com\",\"reasoning\":true,\"input\":[\"text\",\"image\"],\"cost\":{\"input\":0.3,\"output\":2.5,\"cacheRead\":0.075,\"cacheWrite\":0},\"contextWindow\":1048576,\"maxTokens\":65536}}}";

/// A model as plain values.
pub struct ModelView {
    pub id: Seq<char>,
    pub name: Seq<char>,
    pub api: Seq<char>,
    pub provider: Seq<char>,
    pub base_url: Seq<char>,
    pub reasoning: bool,
    pub input: Seq<Seq<char>>,
    pub context_window: u64,
    pub max_tokens: u32,
    pub headers: Option<Seq<(Seq<char>, Seq<char>)>>,
    pub compat: Option<Data>,
}

impl View for Model {
    type V = ModelView;

    open spec fn view(&self) -> ModelView {
        ModelView {
            id: self.id@,
            name: self.name@,
            api: self.api@,
            provider: self.provider@,
            base_url: self.base_url@,
            reasoning: self.reasoning,
            input: views_of(self.input@),
            context_window: self.context_window,
            max_tokens: self.max_tokens,
            headers: match self.headers {
                Some(h) => Some(str_pairs(h@)),
                None => None,
            },
            compat: opt_view(self.compat),
        }
    }
}

/// The registry's camelCase keys renamed to the field names: `baseUrl`,
/// `contextWindow`, `maxTokens`, and `cacheRead`, `cacheWrite` of an object
/// under `cost`.
pub open spec fn spec_remap_model(d: Data) -> Data {
    match d {
        Data::Object(es) => {
            let top = rename_key(
                rename_key(rename_key(es, "baseUrl"@, "base_url"@), "contextWindow"@, "context_window"@),
                "maxTokens"@,
                "max_tokens"@,
            );
            Data::Object(top.map_values(|e: (Seq<char>, Data)| remap_cost_entry(e)))
        },
        other => other,
    }
}

/// An entry under `cost` whose value is an object gets its cache keys renamed.
pub open spec fn remap_cost_entry(e: (Seq<char>, Data)) -> (Seq<char>, Data) {
    if e.0 == "cost"@ {
        match e.1 {
            Data::Object(c) => (
                e.0,
                Data::Object(rename_key(rename_key(c, "cacheRead"@, "cache_read"@), "cacheWrite"@, "cache_write"@)),
            ),
            _ => e,
        }
    } else {
        e
    }
}

/// Renames a model description's camelCase keys to the field names.
pub fn remap_model_json(value: DataValue) -> (r: DataValue)
    ensures
        r@ == spec_remap_model(value@),
{
    let ghost v = value@;
    match value {
        DataValue::Object(es) => {
            proof {
                assert(v->Object_0 =~= pairs_view(es@));
            }
            let es = rename_entry(es, "baseUrl", "base_url");
            let es = rename_entry(es, "contextWindow", "context_window");
            let es = rename_entry(es, "maxTokens", "max_tokens");
            let ghost top = pairs_view(es@);
            let mut rest = es;
            let mut out: Vec<(String, DataValue)> = Vec::new();
            let total: usize = rest.len();
            let mut k: usize = 0;
            while rest.len() > 0
                invariant
                    k <= total,
                    top.len() == total,
                    rest@.len() == total - k,
                    pairs_view(rest@) == top.skip(k as int),
                    pairs_view(out@) == top.take(k as int).map_values(
                        |e: (Seq<char>, Data)| remap_cost_entry(e),
                    ),
                decreases rest@.len(),
            {
                let ghost before_rest = rest@;
                let e = rest.remove(0);
                proof {
                    assert(pairs_view(before_rest)[0] == (e.0@, e.1@));
                    assert(top.skip(k as int)[0] == top[k as int]);
                    assert(rest@ =~= before_rest.skip(1));
                    assert(pairs_view(before_rest.skip(1)) =~= pairs_view(before_rest).skip(1));
                    assert(pairs_view(rest@) =~= top.skip(k + 1));
                    assert(top.take(k + 1) == top.take(k as int).push(top[k as int]));
                }
                let (key, val) = e;
                let ghost ev = (key@, val@);
                let fixed = if str_eq(key.as_str(), "cost") {
                    let ghost vv = val@;
                    match val {
                        DataValue::Object(c) => {
                            proof {
                                assert(vv->Object_0 =~= pairs_view(c@));
                            }
                            let c = rename_entry(c, "cacheRead", "cache_read");
                            let c = rename_entry(c, "cacheWrite", "cache_write");
                            (key, DataValue::object(c))
                        },
                        other => (key, other),
                    }
                } else {
                    (key, val)
                };
                let ghost prev = out@;
                out.push(fixed);
                proof {
                    assert((fixed.0@, fixed.1@) == remap_cost_entry(ev));
                    assert(pairs_view(out@) =~= pairs_view(prev).push((fixed.0@, fixed.1@)));
                    assert(top.take(k + 1).map_values(|e: (Seq<char>, Data)| remap_cost_entry(e)) =~= top.take(
                        k as int,
                    ).map_values(|e: (Seq<char>, Data)| remap_cost_entry(e)).push(remap_cost_entry(ev)));
                }
                k = k + 1;
            }
            assert(top.take(k as int) == top);
            DataValue::object(out)
        },
        other => other,
    }
}

/// The texts of a list whose items are all strings.
pub open spec fn str_list(items: Seq<Data>) -> Option<Seq<Seq<char>>>
    decreases items.len(),
{
    if items.len() == 0 {
        Some(Seq::empty())
    } else {
        match (str_list(items.drop_last()), items.last()) {
            (Some(r), Data::Str(s)) => Some(r.push(s)),
            _ => None,
        }
    }
}

/// The pairs of an object whose values are all strings.
pub open spec fn str_entries(es: Seq<(Seq<char>, Data)>) -> Option<Seq<(Seq<char>, Seq<char>)>>
    decreases es.len(),
{
    if es.len() == 0 {
        Some(Seq::empty())
    } else {
        match (str_entries(es.drop_last()), es.last().1) {
            (Some(r), Data::Str(s)) => Some(r.push((es.last().0, s))),
            _ => None,
        }
    }
}

pub open spec fn is_number(d: Option<Data>) -> bool {
    d matches Some(Data::Num(_))
}

/// Whether an object carries the four prices of a model.
pub open spec fn has_prices(d: Data) -> bool {
    &&& is_number(d.get("input"@))
    &&& is_number(d.get("output"@))
    &&& is_number(d.get("cache_read"@))
    &&& is_number(d.get("cache_write"@))
}

/// The optional headers of a model: absent or null is none; an object of
/// strings is the headers; anything else is not a model (`None`).
pub open spec fn headers_of(d: Data) -> Option<Option<Seq<(Seq<char>, Seq<char>)>>> {
    match d.get("headers"@) {
        None => Some(None),
        Some(Data::Null) => Some(None),
        Some(Data::Object(es)) => match str_entries(es) {
            Some(h) => Some(Some(h)),
            None => None,
        },
        _ => None,
    }
}

/// The optional compat settings: absent or null is none.
pub open spec fn compat_of(d: Data) -> Option<Data> {
    match d.get("compat"@) {
        None => None,
        Some(Data::Null) => None,
        Some(v) => Some(v),
    }
}

pub open spec fn input_of(d: Data) -> Option<Seq<Seq<char>>> {
    match d.get_list("input"@) {
        Some(l) => str_list(l),
        None => None,
    }
}

pub open spec fn max_tokens_of(d: Data) -> Option<u32> {
    match d.get_u64("max_tokens"@) {
        Some(n) => if n <= u32::MAX {
            Some(n as u32)
        } else {
            None
        },
        None => None,
    }
}

/// A model read from an object with the field names: the strings `id`,
/// `name`, `api`, `provider`, `base_url`; the flag `reasoning`; the list of
/// strings `input`; an object `cost` with the four prices; the counts
/// `context_window` and `max_tokens`; the optional `headers` and `compat`.
/// Anything missing or of another type makes it no model.
pub open spec fn model_of(d: Data) -> Option<ModelView> {
    match (
        d.get_str("id"@),
        d.get_str("name"@),
        d.get_str("api"@),
        d.get_str("provider"@),
        d.get_str("base_url"@),
        d.get_bool("reasoning"@),
        input_of(d),
        d.get_u64("context_window"@),
        max_tokens_of(d),
        headers_of(d),
    ) {
        (
            Some(id),
            Some(name),
            Some(api),
            Some(provider),
            Some(base_url),
            Some(reasoning),
            Some(input),
            Some(context_window),
            Some(max_tokens),
            Some(headers),
        ) => if d.get("cost"@) matches Some(c) && has_prices(c) {
            Some(
                ModelView {
                    id,
                    name,
                    api,
                    provider,
                    base_url,
                    reasoning,
                    input,
                    context_window,
                    max_tokens,
                    headers,
                    compat: compat_of(d),
                },
            )
        } else {
            None
        },
        _ => None,
    }
}

pub open spec fn model_opt_view(m: Option<Model>) -> Option<ModelView> {
    match m {
        Some(m) => Some(m@),
        None => None,
    }
}

/// The texts of a list of strings.
pub(crate) fn strings_of(items: &Vec<DataValue>) -> (r: Option<Vec<String>>)
    ensures
        match r {
            Some(v) => str_list(views(items@)) == Some(views_of(v@)),
            None => str_list(views(items@)) is None,
        },
{
    let mut out: Vec<String> = Vec::new();
    let mut i: usize = 0;
    while i < items.len()
        invariant
            i <= items@.len(),
            str_list(views(items@.take(i as int))) == Some(views_of(out@)),
        decreases items@.len() - i,
    {
        proof {
            assert(items@.take(i + 1) == items@.take(i as int).push(items@[i as int]));
            assert(views(items@.take(i + 1)) =~= views(items@.take(i as int)).push(items@[i as int]@));
            assert(views(items@.take(i + 1)).drop_last() =~= views(items@.take(i as int)));
        }
        match items[i].as_str() {
            Some(s) => {
                let ghost prev = out@;
                out.push(s.to_owned());
                assert(views_of(out@) =~= views_of(prev).push(s@));
            },
            None => {
                proof {
                    lemma_str_list_prefix(views(items@), i as int + 1);
                    assert(views(items@).take(i + 1) =~= views(items@.take(i + 1)));
                }
                return None;
            },
        }
        i = i + 1;
    }
    assert(items@.take(items@.len() as int) == items@);
    Some(out)
}

/// A list whose prefix has a non-string has no texts.
proof fn lemma_str_list_prefix(items: Seq<Data>, n: int)
    requires
        0 <= n <= items.len(),
        str_list(items.take(n)) is None,
    ensures
        str_list(items) is None,
    decreases items.len(),
{
    if n < items.len() {
        assert(items.drop_last().take(n) == items.take(n));
        lemma_str_list_prefix(items.drop_last(), n);
    } else {
        assert(items.take(n) == items);
    }
}

/// An object's pairs where all values are strings.
fn string_pairs_of(es: &Vec<(String, DataValue)>) -> (r: Option<Vec<(String, String)>>)
    ensures
        match r {
            Some(v) => str_entries(pairs_view(es@)) == Some(str_pairs(v@)),
            None => str_entries(pairs_view(es@)) is None,
        },
{
    let mut out: Vec<(String, String)> = Vec::new();
    let mut i: usize = 0;
    while i < es.len()
        invariant
            i <= es@.len(),
            str_entries(pairs_view(es@.take(i as int))) == Some(str_pairs(out@)),
        decreases es@.len() - i,
    {
        proof {
            assert(es@.take(i + 1) == es@.take(i as int).push(es@[i as int]));
            assert(pairs_view(es@.take(i + 1)) =~= pairs_view(es@.take(i as int)).push(
                (es@[i as int].0@, es@[i as int].1@),
            ));
            assert(pairs_view(es@.take(i + 1)).drop_last() =~= pairs_view(es@.take(i as int)));
        }
        match es[i].1.as_str() {
            Some(s) => {
                let ghost prev = out@;
                out.push((es[i].0.clone(), s.to_owned()));
                assert(str_pairs(out@) =~= str_pairs(prev).push((es@[i as int].0@, s@)));
            },
            None => {
                proof {
                    lemma_str_entries_prefix(pairs_view(es@), i as int + 1);
                    assert(pairs_view(es@).take(i + 1) =~= pairs_view(es@.take(i + 1)));
                }
                return None;
            },
        }
        i = i + 1;
    }
    assert(es@.take(es@.len() as int) == es@);
    Some(out)
}

proof fn lemma_str_entries_prefix(es: Seq<(Seq<char>, Data)>, n: int)
    requires
        0 <= n <= es.len(),
        str_entries(es.take(n)) is None,
    ensures
        str_entries(es) is None,
    decreases es.len(),
{
    if n < es.len() {
        assert(es.drop_last().take(n) == es.take(n));
        lemma_str_entries_prefix(es.drop_last(), n);
    } else {
        assert(es.take(n) == es);
    }
}

/// Whether an entry is a number.
fn is_number_at(d: &DataValue, key: &str) -> (r: bool)
    ensures
        r == is_number(d@.get(key@)),
{
    match d.get(key) {
        Some(v) => match v {
            DataValue::Number(_) => true,
            _ => false,
        },
        None => false,
    }
}

/// Reads a model out of an object with the field names (see `model_of`).
pub fn model_from_data(d: &DataValue) -> (r: Option<Model>)
    ensures
        model_opt_view(r) == model_of(d@),
{
    let id = match d.get_str("id") {
        Some(s) => s,
        None => return None,
    };
    let name = match d.get_str("name") {
        Some(s) => s,
        None => return None,
    };
    let api = match d.get_str("api") {
        Some(s) => s,
        None => return None,
    };
    let provider = match d.get_str("provider") {
        Some(s) => s,
        None => return None,
    };
    let base_url = match d.get_str("base_url") {
        Some(s) => s,
        None => return None,
    };
    let reasoning = match d.get_bool("reasoning") {
        Some(b) => b,
        None => return None,
    };
    let input = match d.get("input") {
        Some(v) => match v.as_list() {
            Some(items) => match strings_of(items) {
                Some(ss) => ss,
                None => return None,
            },
            None => return None,
        },
        None => return None,
    };
    let context_window = match d.get_u64("context_window") {
        Some(n) => n,
        None => return None,
    };
    let max_tokens: u32 = match d.get_u64("max_tokens") {
        Some(n) => {
            if n <= 4294967295u64 {
                n as u32
            } else {
                return None;
            }
        },
        None => return None,
    };
    let headers = match d.get("headers") {
        None => None,
        Some(v) => match v {
            DataValue::Null => None,
            DataValue::Object(es) => {
                let ghost vv = v@;
                proof {
                    assert(vv->Object_0 =~= pairs_view(es@));
                }
                match string_pairs_of(es) {
                    Some(h) => Some(h),
                    None => return None,
                }
            },
            _ => return None,
        },
    };
    let prices = match d.get("cost") {
        Some(c) => is_number_at(c, "input") && is_number_at(c, "output") && is_number_at(c, "cache_read")
            && is_number_at(c, "cache_write"),
        None => false,
    };
    if !prices {
        return None;
    }
    let compat = match d.get("compat") {
        None => None,
        Some(v) => match v {
            DataValue::Null => None,
            other => Some(other.copy()),
        },
    };
    Some(
        Model {
            id,
            name,
            api,
            provider,
            base_url,
            reasoning,
            input,
            context_window,
            max_tokens,
            headers,
            compat,
        },
    )
}


/// The models of one provider's object, read after renaming their keys, in
/// order; descriptions that are no model are left out.
pub open spec fn models_of(ms: Seq<(Seq<char>, Data)>) -> Seq<(Seq<char>, ModelView)>
    decreases ms.len(),
{
    if ms.len() == 0 {
        Seq::empty()
    } else {
        let rest = models_of(ms.drop_last());
        match model_of(spec_remap_model(ms.last().1)) {
            Some(m) => rest.push((ms.last().0, m)),
            None => rest,
        }
    }
}

/// The registry a document describes: an object of providers, each an object
/// of models by id. Anything else describes none.
pub open spec fn groups_of(ps: Seq<(Seq<char>, Data)>) -> Option<Seq<(Seq<char>, Seq<(Seq<char>, ModelView)>)>>
    decreases ps.len(),
{
    if ps.len() == 0 {
        Some(Seq::empty())
    } else {
        match (groups_of(ps.drop_last()), ps.last().1) {
            (Some(r), Data::Object(ms)) => Some(r.push((ps.last().0, models_of(ms)))),
            _ => None,
        }
    }
}

pub open spec fn registry_of(d: Data) -> Option<Seq<(Seq<char>, Seq<(Seq<char>, ModelView)>)>> {
    match d {
        Data::Object(ps) => groups_of(ps),
        _ => None,
    }
}

/// Models by provider and id.
pub struct ModelRegistry {
    pub providers: Vec<(String, Vec<(String, Model)>)>,
}

pub open spec fn group_view(ms: Seq<(String, Model)>) -> Seq<(Seq<char>, ModelView)> {
    ms.map_values(|e: (String, Model)| (e.0@, e.1@))
}

pub open spec fn groups_view(ps: Seq<(String, Vec<(String, Model)>)>) -> Seq<(Seq<char>, Seq<(Seq<char>, ModelView)>)> {
    ps.map_values(|p: (String, Vec<(String, Model)>)| (p.0@, group_view(p.1@)))
}

impl View for ModelRegistry {
    type V = Seq<(Seq<char>, Seq<(Seq<char>, ModelView)>)>;

    open spec fn view(&self) -> Self::V {
        groups_view(self.providers@)
    }
}

/// The models of the first entry under a name.
pub open spec fn first_named<T>(es: Seq<(Seq<char>, T)>, name: Seq<char>) -> Option<T>
    decreases es.len(),
{
    if es.len() == 0 {
        None
    } else if es[0].0 == name {
        Some(es[0].1)
    } else {
        first_named(es.drop_first(), name)
    }
}

proof fn lemma_first_named_skip<T>(es: Seq<(Seq<char>, T)>, i: int, name: Seq<char>)
    requires
        0 <= i < es.len(),
    ensures
        first_named(es.skip(i), name) == (if es[i].0 == name {
            Some(es[i].1)
        } else {
            first_named(es.skip(i + 1), name)
        }),
{
    assert(es.skip(i)[0] == es[i]);
    assert(es.skip(i).drop_first() == es.skip(i + 1));
}

/// The models of a provider's object, each read after renaming its keys.
fn read_models(ms: &Vec<(String, DataValue)>) -> (r: Vec<(String, Model)>)
    ensures
        group_view(r@) == models_of(pairs_view(ms@)),
{
    let mut out: Vec<(String, Model)> = Vec::new();
    let mut i: usize = 0;
    while i < ms.len()
        invariant
            i <= ms@.len(),
            group_view(out@) == models_of(pairs_view(ms@.take(i as int))),
        decreases ms@.len() - i,
    {
        proof {
            assert(ms@.take(i + 1) == ms@.take(i as int).push(ms@[i as int]));
            assert(pairs_view(ms@.take(i + 1)) =~= pairs_view(ms@.take(i as int)).push(
                (ms@[i as int].0@, ms@[i as int].1@),
            ));
            assert(pairs_view(ms@.take(i + 1)).drop_last() =~= pairs_view(ms@.take(i as int)));
        }
        let remapped = remap_model_json(ms[i].1.copy());
        match model_from_data(&remapped) {
            Some(m) => {
                let ghost prev = out@;
                out.push((ms[i].0.clone(), m));
                assert(group_view(out@) =~= group_view(prev).push((ms@[i as int].0@, m@)));
            },
            None => {},
        }
        i = i + 1;
    }
    assert(ms@.take(ms@.len() as int) == ms@);
    out
}

proof fn lemma_groups_prefix(ps: Seq<(Seq<char>, Data)>, n: int)
    requires
        0 <= n <= ps.len(),
        groups_of(ps.take(n)) is None,
    ensures
        groups_of(ps) is None,
    decreases ps.len(),
{
    if n < ps.len() {
        assert(ps.drop_last().take(n) == ps.take(n));
        lemma_groups_prefix(ps.drop_last(), n);
    } else {
        assert(ps.take(n) == ps);
    }
}

impl ModelRegistry {
    /// Reads a registry out of its JSON document (see `registry_of`).
    pub fn from_data(d: &DataValue) -> (r: Option<ModelRegistry>)
        ensures
            match r {
                Some(reg) => registry_of(d@) == Some(reg@),
                None => registry_of(d@) is None,
            },
    {
        let ghost dv = d@;
        match d {
            DataValue::Object(ps) => {
                proof {
                    assert(dv->Object_0 =~= pairs_view(ps@));
                }
                let mut out: Vec<(String, Vec<(String, Model)>)> = Vec::new();
                let mut i: usize = 0;
                while i < ps.len()
                    invariant
                        i <= ps@.len(),
                        dv == d@,
                        dv->Object_0 == pairs_view(ps@),
                        dv is Object,
                        groups_of(pairs_view(ps@.take(i as int))) == Some(groups_view(out@)),
                    decreases ps@.len() - i,
                {
                    proof {
                        assert(ps@.take(i + 1) == ps@.take(i as int).push(ps@[i as int]));
                        assert(pairs_view(ps@.take(i + 1)) =~= pairs_view(ps@.take(i as int)).push(
                            (ps@[i as int].0@, ps@[i as int].1@),
                        ));
                        assert(pairs_view(ps@.take(i + 1)).drop_last() =~= pairs_view(ps@.take(i as int)));
                    }
                    let ghost pv = ps@[i as int].1@;
                    match &ps[i].1 {
                        DataValue::Object(ms) => {
                            proof {
                                assert(pv->Object_0 =~= pairs_view(ms@));
                            }
                            let models = read_models(ms);
                            let ghost prev = out@;
                            out.push((ps[i].0.clone(), models));
                            assert(groups_view(out@) =~= groups_view(prev).push(
                                (ps@[i as int].0@, group_view(models@)),
                            ));
                        },
                        _ => {
                            proof {
                                assert(pairs_view(ps@).take(i + 1) =~= pairs_view(ps@.take(i + 1)));
                                assert(pairs_view(ps@.take(i + 1)).last().1 == pv);
                                assert(!(pv is Object));
                                assert(groups_of(pairs_view(ps@.take(i + 1))) is None);
                                lemma_groups_prefix(pairs_view(ps@), i as int + 1);
                                assert(dv->Object_0 == pairs_view(ps@));
                            }
                            return None;
                        },
                    }
                    i = i + 1;
                }
                assert(ps@.take(ps@.len() as int) == ps@);
                Some(ModelRegistry { providers: out })
            },
            _ => None,
        }
    }

    /// The providers, in order.
    pub fn provider_names(&self) -> (r: Vec<String>)
        ensures
            views_of(r@) == self@.map_values(|g: (Seq<char>, Seq<(Seq<char>, ModelView)>)| g.0),
    {
        let mut out: Vec<String> = Vec::new();
        let mut i: usize = 0;
        while i < self.providers.len()
            invariant
                i <= self.providers@.len(),
                views_of(out@) == self@.take(i as int).map_values(
                    |g: (Seq<char>, Seq<(Seq<char>, ModelView)>)| g.0,
                ),
            decreases self.providers@.len() - i,
        {
            let ghost prev = out@;
            out.push(self.providers[i].0.clone());
            proof {
                assert(self@.take(i + 1) == self@.take(i as int).push(self@[i as int]));
                assert(views_of(out@) =~= views_of(prev).push(self.providers@[i as int].0@));
                assert(self@.take(i + 1).map_values(|g: (Seq<char>, Seq<(Seq<char>, ModelView)>)| g.0)
                    =~= self@.take(i as int).map_values(
                    |g: (Seq<char>, Seq<(Seq<char>, ModelView)>)| g.0,
                ).push(self@[i as int].0));
            }
            i = i + 1;
        }
        assert(self@.take(self@.len() as int) == self@);
        out
    }

    /// The index of the first provider of a name.
    fn provider_index(&self, provider: &str) -> (r: Option<usize>)
        ensures
            match r {
                Some(i) => i < self@.len() && first_named(self@, provider@) == Some(self@[i as int].1),
                None => first_named(self@, provider@) is None,
            },
    {
        let mut i: usize = 0;
        assert(self@.skip(0) == self@);
        while i < self.providers.len()
            invariant
                i <= self@.len(),
                self@.len() == self.providers@.len(),
                first_named(self@, provider@) == first_named(self@.skip(i as int), provider@),
            decreases self.providers@.len() - i,
        {
            proof {
                lemma_first_named_skip(self@, i as int, provider@);
            }
            if str_eq(self.providers[i].0.as_str(), provider) {
                return Some(i);
            }
            i = i + 1;
        }
        None
    }

    /// A copy of the model a provider has under an id.
    pub fn get_model(&self, provider: &str, model_id: &str) -> (r: Option<Model>)
        ensures
            model_opt_view(r) == (match first_named(self@, provider@) {
                Some(ms) => first_named(ms, model_id@),
                None => None,
            }),
    {
        match self.provider_index(provider) {
            None => None,
            Some(p) => {
                let ms = &self.providers[p].1;
                let ghost g = group_view(ms@);
                assert(g == self@[p as int].1);
                let mut i: usize = 0;
                assert(g.skip(0) == g);
                while i < ms.len()
                    invariant
                        i <= g.len(),
                        g.len() == ms@.len(),
                        g == group_view(ms@),
                        first_named(self@, provider@) == Some(g),
                        first_named(g, model_id@) == first_named(g.skip(i as int), model_id@),
                    decreases ms@.len() - i,
                {
                    proof {
                        lemma_first_named_skip(g, i as int, model_id@);
                    }
                    if str_eq(ms[i].0.as_str(), model_id) {
                        return Some(ms[i].1.copy());
                    }
                    i = i + 1;
                }
                None
            },
        }
    }

    /// Copies of a provider's models, in order; none for an unknown provider.
    pub fn get_models(&self, provider: &str) -> (r: Vec<Model>)
        ensures
            r@.map_values(|m: Model| m@) == (match first_named(self@, provider@) {
                Some(ms) => ms.map_values(|e: (Seq<char>, ModelView)| e.1),
                None => Seq::empty(),
            }),
    {
        let mut out: Vec<Model> = Vec::new();
        match self.provider_index(provider) {
            None => {
                assert(out@.map_values(|m: Model| m@) =~= Seq::<ModelView>::empty());
                out
            },
            Some(p) => {
                let ms = &self.providers[p].1;
                let ghost g = group_view(ms@);
                let mut i: usize = 0;
                while i < ms.len()
                    invariant
                        i <= ms@.len(),
                        g == group_view(ms@),
                        out@.map_values(|m: Model| m@) == g.take(i as int).map_values(
                            |e: (Seq<char>, ModelView)| e.1,
                        ),
                    decreases ms@.len() - i,
                {
                    let m = ms[i].1.copy();
                    let ghost prev = out@;
                    out.push(m);
                    proof {
                        assert(g.take(i + 1) == g.take(i as int).push(g[i as int]));
                        assert(out@.map_values(|m: Model| m@) =~= prev.map_values(|m: Model| m@).push(m@));
                        assert(g.take(i + 1).map_values(|e: (Seq<char>, ModelView)| e.1) =~= g.take(
                            i as int,
                        ).map_values(|e: (Seq<char>, ModelView)| e.1).push(g[i as int].1));
                    }
                    i = i + 1;
                }
                assert(g.take(g.len() as int) == g);
                out
            },
        }
    }
}

impl Model {
    /// A deep copy.
    pub fn copy(&self) -> (r: Model)
        ensures
            r@ == self@,
    {
        let mut input: Vec<String> = Vec::new();
        let mut i: usize = 0;
        while i < self.input.len()
            invariant
                i <= self.input@.len(),
                views_of(input@) == views_of(self.input@.take(i as int)),
            decreases self.input@.len() - i,
        {
            let ghost prev = input@;
            input.push(self.input[i].clone());
            proof {
                assert(self.input@.take(i + 1) == self.input@.take(i as int).push(self.input@[i as int]));
                assert(views_of(input@) =~= views_of(prev).push(self.input@[i as int]@));
                assert(views_of(self.input@.take(i + 1)) =~= views_of(self.input@.take(i as int)).push(
                    self.input@[i as int]@,
                ));
            }
            i = i + 1;
        }
        assert(self.input@.take(self.input@.len() as int) == self.input@);
        let headers = match &self.headers {
            Some(h) => {
                let mut out: Vec<(String, String)> = Vec::new();
                let mut j: usize = 0;
                while j < h.len()
                    invariant
                        j <= h@.len(),
                        str_pairs(out@) == str_pairs(h@.take(j as int)),
                    decreases h@.len() - j,
                {
                    let ghost prev = out@;
                    out.push((h[j].0.clone(), h[j].1.clone()));
                    proof {
                        assert(h@.take(j + 1) == h@.take(j as int).push(h@[j as int]));
                        assert(str_pairs(out@) =~= str_pairs(prev).push((h@[j as int].0@, h@[j as int].1@)));
                        assert(str_pairs(h@.take(j + 1)) =~= str_pairs(h@.take(j as int)).push(
                            (h@[j as int].0@, h@[j as int].1@),
                        ));
                    }
                    j = j + 1;
                }
                assert(h@.take(h@.len() as int) == h@);
                Some(out)
            },
            None => None,
        };
        let compat = match &self.compat {
            Some(c) => Some(c.copy()),
            None => None,
        };
        Model {
            id: self.id.clone(),
            name: self.name.clone(),
            api: self.api.clone(),
            provider: self.provider.clone(),
            base_url: self.base_url.clone(),
            reasoning: self.reasoning,
            input,
            context_window: self.context_window,
            max_tokens: self.max_tokens,
            headers,
            compat,
        }
    }
}

/// The registry the built-in document describes, if it reads as one.
pub open spec fn builtin_registry() -> Option<Seq<(Seq<char>, Seq<(Seq<char>, ModelView)>)>> {
    match json_parse(MODELS_JSON@) {
        Some(d) => registry_of(d),
        None => None,
    }
}

/// Reads the built-in registry.
pub fn load_builtin_registry() -> (r: Option<ModelRegistry>)
    ensures
        match r {
            Some(reg) => builtin_registry() == Some(reg@),
            None => builtin_registry() is None,
        },
{
    match crate::data::parse_json(MODELS_JSON) {
        Some(d) => ModelRegistry::from_data(&d),
        None => None,
    }
}

/// The model a provider of the built-in registry has under an id.
pub open spec fn builtin_model(provider: Seq<char>, model_id: Seq<char>) -> Option<ModelView> {
    match builtin_registry() {
        Some(g) => match first_named(g, provider) {
            Some(ms) => first_named(ms, model_id),
            None => None,
        },
        None => None,
    }
}

/// Looks a model up in the built-in registry.
pub fn get_model(provider: &str, model_id: &str) -> (r: Option<Model>)
    ensures
        model_opt_view(r) == builtin_model(provider@, model_id@),
{
    match load_builtin_registry() {
        Some(reg) => reg.get_model(provider, model_id),
        None => None,
    }
}

/// The providers of the built-in registry.
pub fn get_providers() -> (r: Vec<String>)
    ensures
        views_of(r@) == (match builtin_registry() {
            Some(g) => g.map_values(|e: (Seq<char>, Seq<(Seq<char>, ModelView)>)| e.0),
            None => Seq::empty(),
        }),
{
    match load_builtin_registry() {
        Some(reg) => reg.provider_names(),
        None => {
            let v: Vec<String> = Vec::new();
            assert(views_of(v@) =~= Seq::<Seq<char>>::empty());
            v
        },
    }
}

/// The models of a provider of the built-in registry.
pub fn get_models(provider: &str) -> (r: Vec<Model>)
    ensures
        r@.map_values(|m: Model| m@) == (match builtin_registry() {
            Some(g) => match first_named(g, provider@) {
                Some(ms) => ms.map_values(|e: (Seq<char>, ModelView)| e.1),
                None => Seq::empty(),
            },
            None => Seq::empty(),
        }),
{
    match load_builtin_registry() {
        Some(reg) => reg.get_models(provider),
        None => {
            let v: Vec<Model> = Vec::new();
            assert(v@.map_values(|m: Model| m@) =~= Seq::<ModelView>::empty());
            v
        },
    }
}

/// Whether a model accepts the `xhigh` reasoning level: the GPT-5.2 and 5.3
/// families, and Opus 4.6 on the Anthropic API.
pub fn supports_xhigh(model: &Model) -> (r: bool)
    ensures
        r == (contains_seq(model.id@, "gpt-5.2"@) || contains_seq(model.id@, "gpt-5.3"@) || (model.api@
            == "anthropic-messages"@ && (contains_seq(model.id@, "opus-4-6"@) || contains_seq(
            model.id@,
            "opus-4.6"@,
        )))),
{
    if contains(model.id.as_str(), "gpt-5.2") || contains(model.id.as_str(), "gpt-5.3") {
        return true;
    }
    if str_eq(model.api.as_str(), "anthropic-messages") {
        return contains(model.id.as_str(), "opus-4-6") || contains(model.id.as_str(), "opus-4.6");
    }
    false
}

/// Two models are the same when both are given and agree on id and provider.
pub fn models_are_equal(a: Option<&Model>, b: Option<&Model>) -> (r: bool)
    ensures
        r == (match (a, b) {
            (Some(x), Some(y)) => x.id@ == y.id@ && x.provider@ == y.provider@,
            _ => false,
        }),
{
    match (a, b) {
        (Some(x), Some(y)) => str_eq(x.id.as_str(), y.id.as_str()) && str_eq(
            x.provider.as_str(),
            y.provider.as_str(),
        ),
        _ => false,
    }
}

} // verus!
