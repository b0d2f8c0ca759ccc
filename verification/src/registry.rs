//! The registry of API providers: at most one provider per API, each
//! optionally tagged with the source that registered it.
use vstd::prelude::*;

use crate::ai_types::{opt_str, Model};
use crate::anthropic::AnthropicProvider;
use crate::errors::PiAiError;
use crate::google::GoogleProvider;
use crate::openai::OpenAICompletionsProvider;

verus! {

pub struct RegisteredProvider<P> {
    pub api: String,
    pub provider: P,
    pub source_id: Option<String>,
}

pub struct ApiRegistry<P> {
    pub entries: Vec<RegisteredProvider<P>>,
}

/// What the registry holds for an API: the provider and its source.
pub open spec fn lookup_api<P>(es: Seq<RegisteredProvider<P>>, api: Seq<char>) -> Option<(P, Option<Seq<char>>)>
    decreases es.len(),
{
    if es.len() == 0 {
        None
    } else if es.last().api@ == api {
        Some((es.last().provider, opt_str(es.last().source_id)))
    } else {
        lookup_api(es.drop_last(), api)
    }
}

/// No API is registered twice.
pub open spec fn distinct_apis<P>(es: Seq<RegisteredProvider<P>>) -> bool {
    forall|i: int, j: int| 0 <= i < j < es.len() ==> es[i].api@ != es[j].api@
}

/// A provider is found exactly where one of the entries has its API.
pub proof fn lemma_lookup_found<P>(es: Seq<RegisteredProvider<P>>, api: Seq<char>)
    ensures
        lookup_api(es, api) is Some <==> exists|i: int| 0 <= i < es.len() && es[i].api@ == api,
    decreases es.len(),
{
    if es.len() > 0 {
        lemma_lookup_found(es.drop_last(), api);
        if exists|i: int| 0 <= i < es.drop_last().len() && es.drop_last()[i].api@ == api {
            let i = choose|i: int| 0 <= i < es.drop_last().len() && es.drop_last()[i].api@ == api;
            assert(es[i].api@ == api);
        }
        if exists|i: int| 0 <= i < es.len() && es[i].api@ == api {
            let i = choose|i: int| 0 <= i < es.len() && es[i].api@ == api;
            if i < es.len() - 1 {
                assert(es.drop_last()[i].api@ == api);
            }
        }
    }
}

/// With distinct APIs, the provider found for an entry's API is that entry's.
pub proof fn lemma_lookup_at<P>(es: Seq<RegisteredProvider<P>>, i: int)
    requires
        distinct_apis(es),
        0 <= i < es.len(),
    ensures
        lookup_api(es, es[i].api@) == Some((es[i].provider, opt_str(es[i].source_id))),
    decreases es.len(),
{
    if i < es.len() - 1 {
        assert(es.drop_last()[i] == es[i]);
        lemma_lookup_at(es.drop_last(), i);
    }
}

impl<P> ApiRegistry<P> {
    pub open spec fn wf(&self) -> bool {
        distinct_apis(self.entries@)
    }

    pub open spec fn lookup(&self, api: Seq<char>) -> Option<(P, Option<Seq<char>>)> {
        lookup_api(self.entries@, api)
    }

    /// An empty registry.
    pub fn new() -> (r: ApiRegistry<P>)
        ensures
            r.wf(),
            forall|api: Seq<char>| #[trigger] r.lookup(api) is None,
    {
        ApiRegistry { entries: Vec::new() }
    }
}

/// Registers a provider for an API, replacing the one registered for it
/// before; every other API keeps its provider.
pub fn register_api_provider<P>(
    registry: &mut ApiRegistry<P>,
    api: &str,
    provider: P,
    source_id: Option<String>,
)
    requires
        old(registry).wf(),
    ensures
        final(registry).wf(),
        final(registry).lookup(api@) == Some((provider, opt_str(source_id))),
        forall|other: Seq<char>|
            other != api@ ==> #[trigger] final(registry).lookup(other) == old(registry).lookup(other),
{
    let ghost old_es = registry.entries@;
    let n = registry.entries.len();
    let mut i: usize = 0;
    let mut at: usize = n;
    while i < n
        invariant
            i <= n,
            n == registry.entries@.len(),
            registry.entries@ == old_es,
            at <= n,
            at == n ==> forall|j: int| 0 <= j < i ==> registry.entries@[j].api@ != api@,
            at < n ==> at < i && registry.entries@[at as int].api@ == api@,
        decreases n - i,
    {
        if at == n && crate::text::str_eq(registry.entries[i].api.as_str(), api) {
            at = i;
        }
        i = i + 1;
    }
    let i = at;
    let entry = RegisteredProvider { api: api.to_owned(), provider, source_id };
    if i < registry.entries.len() {
        registry.entries.set(i, entry);
        proof {
            let es = registry.entries@;
            assert forall|a: int, b: int| 0 <= a < b < es.len() implies es[a].api@ != es[b].api@ by {
                if a == i {
                    assert(old_es[b].api@ != old_es[i as int].api@);
                } else if b == i {
                    assert(old_es[a].api@ != old_es[i as int].api@);
                }
            }
            lemma_lookup_at(es, i as int);
            assert forall|other: Seq<char>| other != api@ implies #[trigger] lookup_api(es, other)
                == lookup_api(old_es, other) by {
                lemma_lookup_found(es, other);
                lemma_lookup_found(old_es, other);
                if exists|j: int| 0 <= j < es.len() && es[j].api@ == other {
                    let j = choose|j: int| 0 <= j < es.len() && es[j].api@ == other;
                    assert(j != i);
                    assert(es[j] == old_es[j]);
                    lemma_lookup_at(es, j);
                    lemma_lookup_at(old_es, j);
                } else {
                    assert forall|j: int| 0 <= j < old_es.len() implies old_es[j].api@ != other by {
                        if j != i {
                            assert(es[j] == old_es[j]);
                        }
                    }
                }
            }
        }
    } else {
        registry.entries.push(entry);
        proof {
            let es = registry.entries@;
            assert(es.drop_last() == old_es);
            assert forall|a: int, b: int| 0 <= a < b < es.len() implies es[a].api@ != es[b].api@ by {
                if b == es.len() - 1 {
                    assert(es[a] == old_es[a]);
                    assert(es[b].api@ == api@);
                    assert(old_es[a].api@ != api@);
                } else {
                    assert(es[a] == old_es[a]);
                    assert(es[b] == old_es[b]);
                }
            }
            assert forall|other: Seq<char>| other != api@ implies #[trigger] lookup_api(es, other)
                == lookup_api(old_es, other) by {}
        }
    }
}

/// The provider registered for an API, if any.
pub fn get_api_provider<'a, P>(registry: &'a ApiRegistry<P>, api: &str) -> (r: Option<&'a P>)
    requires
        registry.wf(),
    ensures
        match registry.lookup(api@) {
            Some((p, _)) => r == Some(&p),
            None => r is None,
        },
{
    let mut i: usize = 0;
    while i < registry.entries.len()
        invariant
            i <= registry.entries@.len(),
            distinct_apis(registry.entries@),
            forall|j: int| 0 <= j < i ==> registry.entries@[j].api@ != api@,
        decreases registry.entries@.len() - i,
    {
        if crate::text::str_eq(registry.entries[i].api.as_str(), api) {
            proof {
                lemma_lookup_at(registry.entries@, i as int);
            }
            return Some(&registry.entries[i].provider);
        }
        i = i + 1;
    }
    proof {
        lemma_lookup_found(registry.entries@, api@);
    }
    None
}

/// Drops every provider that the given source registered; the others stay.
pub fn unregister_api_providers<P>(registry: &mut ApiRegistry<P>, source_id: &str)
    requires
        old(registry).wf(),
    ensures
        final(registry).wf(),
        forall|api: Seq<char>|
            #[trigger] final(registry).lookup(api) == (match old(registry).lookup(api) {
                Some((p, s)) => if s == Some(source_id@) {
                    None
                } else {
                    Some((p, s))
                },
                None => None,
            }),
{
    let ghost old_es = registry.entries@;
    let mut rest: Vec<RegisteredProvider<P>> = Vec::new();
    std::mem::swap(&mut rest, &mut registry.entries);
    assert(rest@ == old_es);
    assert(old_es.len() == rest.len());
    let mut kept: Vec<RegisteredProvider<P>> = Vec::new();
    let mut k: usize = 0;
    while rest.len() > 0
        invariant
            k <= old_es.len(),
            old_es.len() <= usize::MAX,
            rest@ == old_es.skip(k as int),
            rest@.len() == old_es.len() - k,
            distinct_apis(old_es),
            distinct_apis(kept@),
            forall|m: int|
                0 <= m < kept@.len() ==> exists|j: int| 0 <= j < k && #[trigger] kept@[m].api@ == old_es[j].api@,
            forall|api: Seq<char>|
                #[trigger] lookup_api(kept@, api) == (match lookup_api(old_es.take(k as int), api) {
                    Some((p, s)) => if s == Some(source_id@) {
                        None
                    } else {
                        Some((p, s))
                    },
                    None => None,
                }),
        decreases rest@.len(),
    {
        let e = rest.remove(0);
        let ghost pre = old_es.take(k as int);
        proof {
            assert(old_es[k as int] == e);
            assert(old_es.take(k + 1) == pre.push(e));
            assert(rest@ =~= old_es.skip(k + 1));
            assert(old_es.take(k + 1).drop_last() == pre);
        }
        let drop = match &e.source_id {
            Some(s) => crate::text::str_eq(s.as_str(), source_id),
            None => false,
        };
        if !drop {
            let ghost before = kept@;
            kept.push(e);
            proof {
                assert(kept@.drop_last() == before);
                assert forall|a: int, b: int| 0 <= a < b < kept@.len() implies kept@[a].api@ != kept@[b].api@ by {
                    if b == kept@.len() - 1 {
                        let j = choose|j: int| 0 <= j < k && #[trigger] before[a].api@ == old_es[j].api@;
                        assert(kept@[a] == before[a]);
                    } else {
                        assert(kept@[a] == before[a]);
                        assert(kept@[b] == before[b]);
                    }
                }
                assert(kept@.last() == e);
                assert(opt_str(e.source_id) != Some(source_id@));
                assert forall|api: Seq<char>| #[trigger] lookup_api(kept@, api) == (match lookup_api(
                    old_es.take(k + 1),
                    api,
                ) {
                    Some((p, s)) => if s == Some(source_id@) {
                        None
                    } else {
                        Some((p, s))
                    },
                    None => None,
                }) by {
                    let t = old_es.take(k + 1);
                    assert(t.last() == e);
                    assert(t.len() > 0);
                    assert(kept@.len() > 0);
                    if e.api@ == api {
                        assert(lookup_api(kept@, api) == Some((e.provider, opt_str(e.source_id))));
                        assert(lookup_api(t, api) == Some((e.provider, opt_str(e.source_id))));
                    } else {
                        assert(lookup_api(kept@, api) == lookup_api(before, api));
                        assert(lookup_api(t, api) == lookup_api(pre, api));
                    }
                }
                assert forall|m: int| 0 <= m < kept@.len() implies exists|j: int|
                    0 <= j < k + 1 && #[trigger] kept@[m].api@ == old_es[j].api@ by {
                    if m == kept@.len() - 1 {
                        assert(kept@[m].api@ == old_es[k as int].api@);
                    } else {
                        assert(kept@[m] == before[m]);
                        let j = choose|j: int| 0 <= j < k && #[trigger] before[m].api@ == old_es[j].api@;
                        assert(kept@[m].api@ == old_es[j].api@);
                    }
                }
            }
        } else {
            proof {
                assert forall|m: int| 0 <= m < kept@.len() implies exists|j: int|
                    0 <= j < k + 1 && #[trigger] kept@[m].api@ == old_es[j].api@ by {
                    let j = choose|j: int| 0 <= j < k && #[trigger] kept@[m].api@ == old_es[j].api@;
                    assert(kept@[m].api@ == old_es[j].api@);
                }
                assert forall|api: Seq<char>| #[trigger] lookup_api(kept@, api) == (match lookup_api(
                    old_es.take(k + 1),
                    api,
                ) {
                    Some((p, s)) => if s == Some(source_id@) {
                        None
                    } else {
                        Some((p, s))
                    },
                    None => None,
                }) by {
                    if api == e.api@ {
                        lemma_lookup_found(pre, api);
                        if exists|j: int| 0 <= j < pre.len() && pre[j].api@ == api {
                            let j = choose|j: int| 0 <= j < pre.len() && pre[j].api@ == api;
                            assert(old_es[j].api@ == old_es[k as int].api@);
                        }
                    }
                }
            }
        }
        k = k + 1;
    }
    proof {
        assert(old_es.take(k as int) == old_es);
    }
    registry.entries = kept;
}

/// Drops every provider.
pub fn clear_api_providers<P>(registry: &mut ApiRegistry<P>)
    ensures
        final(registry).wf(),
        forall|api: Seq<char>| #[trigger] final(registry).lookup(api) is None,
{
    registry.entries = Vec::new();
}

/// Registers the three built-in providers under their APIs, with no source.
pub fn register_builtins<P>(registry: &mut ApiRegistry<P>, anthropic: P, openai: P, google: P)
    requires
        old(registry).wf(),
    ensures
        final(registry).wf(),
        final(registry).lookup("anthropic-messages"@) == Some((anthropic, None::<Seq<char>>)),
        final(registry).lookup("openai-completions"@) == Some((openai, None::<Seq<char>>)),
        final(registry).lookup("google-generative-ai"@) == Some((google, None::<Seq<char>>)),
        forall|other: Seq<char>|
            other != "anthropic-messages"@ && other != "openai-completions"@ && other
                != "google-generative-ai"@ ==> #[trigger] final(registry).lookup(other) == old(
                registry,
            ).lookup(other),
{
    let a = AnthropicProvider.api();
    let o = OpenAICompletionsProvider.api();
    let g = GoogleProvider.api();
    proof {
        reveal_strlit("anthropic-messages");
        reveal_strlit("openai-completions");
        reveal_strlit("google-generative-ai");
        assert("anthropic-messages"@[0] != "openai-completions"@[0]);
        assert("anthropic-messages"@[0] != "google-generative-ai"@[0]);
        assert("openai-completions"@[0] != "google-generative-ai"@[0]);
    }
    register_api_provider(registry, a, anthropic, None);
    register_api_provider(registry, o, openai, None);
    register_api_provider(registry, g, google, None);
}

/// The provider that serves a model's API, or `NoProvider` with the API.
pub fn resolve_provider<'a, P>(registry: &'a ApiRegistry<P>, model: &Model) -> (r: Result<&'a P, PiAiError>)
    requires
        registry.wf(),
    ensures
        match registry.lookup(model.api@) {
            Some((p, _)) => r == Ok::<&P, PiAiError>(&p),
            None => r matches Err(PiAiError::NoProvider(a)) && a@ == model.api@,
        },
{
    match get_api_provider(registry, model.api.as_str()) {
        Some(p) => Ok(p),
        None => Err(PiAiError::NoProvider(model.api.clone())),
    }
}

} // verus!
