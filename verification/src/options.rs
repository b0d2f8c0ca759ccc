//! Option defaults for simplified streaming requests.
use vstd::prelude::*;

use crate::ai_types::{
    clone_opt_str, opt_str, Model, SimpleStreamOptions, StreamOptions, ThinkingLevel,
};
use crate::data::{opt_view, pairs_view};
use crate::text::str_pairs;

verus! {

/// Whether two option sets agree on everything but the token limit.
pub open spec fn same_but_max_tokens(a: StreamOptions, b: StreamOptions) -> bool {
    &&& opt_view(a.temperature) == opt_view(b.temperature)
    &&& opt_str(a.api_key) == opt_str(b.api_key)
    &&& a.transport == b.transport
    &&& a.cache_retention == b.cache_retention
    &&& opt_str(a.session_id) == opt_str(b.session_id)
    &&& match (a.headers, b.headers) {
        (Some(x), Some(y)) => str_pairs(x@) == str_pairs(y@),
        (None, None) => true,
        _ => false,
    }
    &&& a.max_retry_delay_ms == b.max_retry_delay_ms
    &&& match (a.metadata, b.metadata) {
        (Some(x), Some(y)) => pairs_view(x@) == pairs_view(y@),
        (None, None) => true,
        _ => false,
    }
}

fn clone_headers(h: &Option<Vec<(String, String)>>) -> (r: Option<Vec<(String, String)>>)
    ensures
        match (r, *h) {
            (Some(x), Some(y)) => str_pairs(x@) == str_pairs(y@),
            (None, None) => true,
            _ => false,
        },
{
    match h {
        None => None,
        Some(v) => {
            let mut out: Vec<(String, String)> = Vec::new();
            let mut i: usize = 0;
            while i < v.len()
                invariant
                    i <= v@.len(),
                    str_pairs(out@) == str_pairs(v@.take(i as int)),
                decreases v@.len() - i,
            {
                let p = (v[i].0.clone(), v[i].1.clone());
                let ghost prev = out@;
                out.push(p);
                assert(str_pairs(out@) =~= str_pairs(prev).push((p.0@, p.1@)));
                proof {
                    crate::text::lemma_map_take_push(v@, i as int, |p: (String, String)| (p.0@, p.1@));
                }
                i = i + 1;
            }
            assert(v@.take(v@.len() as int) == v@);
            Some(out)
        },
    }
}

impl StreamOptions {
    /// A deep copy.
    pub fn copy(&self) -> (r: StreamOptions)
        ensures
            same_but_max_tokens(r, *self),
            r.max_tokens == self.max_tokens,
            self.keyed() ==> r.keyed(),
    {
        StreamOptions {
            temperature: match &self.temperature {
                Some(t) => Some(t.copy()),
                None => None,
            },
            max_tokens: self.max_tokens,
            api_key: clone_opt_str(&self.api_key),
            transport: self.transport,
            cache_retention: self.cache_retention,
            session_id: clone_opt_str(&self.session_id),
            headers: clone_headers(&self.headers),
            max_retry_delay_ms: self.max_retry_delay_ms,
            metadata: match &self.metadata {
                Some(m) => Some(crate::ai_types::clone_entries(m)),
                None => None,
            },
        }
    }
}

/// The model's token limit capped at 32000.
pub open spec fn capped_model_max(model: Model) -> u32 {
    if model.max_tokens <= 32000 { model.max_tokens } else { 32000 }
}

/// The base options of a simplified request: the caller's options, with the
/// token limit defaulting to the model's limit capped at 32000.
pub fn build_base_options(model: &Model, options: &SimpleStreamOptions) -> (r: StreamOptions)
    ensures
        same_but_max_tokens(r, options.base),
        r.max_tokens == Some(match options.base.max_tokens {
            Some(n) => n,
            None => capped_model_max(*model),
        }),
        options.base.keyed() ==> r.keyed(),
{
    let mut base = options.base.copy();
    if base.max_tokens.is_none() {
        base.max_tokens = Some(if model.max_tokens <= 32000 { model.max_tokens } else { 32000 });
    }
    base
}

/// `xhigh` becomes `high`; other levels stay.
pub fn clamp_reasoning(level: ThinkingLevel) -> (r: ThinkingLevel)
    ensures
        r == (if level == ThinkingLevel::Xhigh { ThinkingLevel::High } else { level }),
{
    match level {
        ThinkingLevel::Xhigh => ThinkingLevel::High,
        other => other,
    }
}

pub open spec fn spec_default_budget(level: ThinkingLevel) -> u32 {
    match level {
        ThinkingLevel::Minimal => 1024,
        ThinkingLevel::Low => 2048,
        ThinkingLevel::Medium => 8192,
        ThinkingLevel::High | ThinkingLevel::Xhigh => 16384,
    }
}

/// The thinking budget of a level when none is configured.
pub fn default_budget(level: ThinkingLevel) -> (r: u32)
    ensures
        r == spec_default_budget(level),
{
    match level {
        ThinkingLevel::Minimal => 1024,
        ThinkingLevel::Low => 2048,
        ThinkingLevel::Medium => 8192,
        ThinkingLevel::High | ThinkingLevel::Xhigh => 16384,
    }
}

/// The thinking budget a request uses: the configured budget of its level
/// (`medium` where none is asked for), else the level's default.
pub open spec fn thinking_budget_of(options: SimpleStreamOptions) -> u32 {
    let level = match options.reasoning {
        Some(l) => l,
        None => ThinkingLevel::Medium,
    };
    let configured = match options.thinking_budgets {
        Some(b) => match level {
            ThinkingLevel::Minimal => b.minimal,
            ThinkingLevel::Low => b.low,
            ThinkingLevel::Medium => b.medium,
            ThinkingLevel::High | ThinkingLevel::Xhigh => b.high,
        },
        None => None,
    };
    match configured {
        Some(n) => n,
        None => spec_default_budget(
            if level == ThinkingLevel::Xhigh { ThinkingLevel::High } else { level },
        ),
    }
}

/// The token limit before thinking is added.
pub open spec fn base_max_of(model: Model, options: SimpleStreamOptions) -> u32 {
    match options.base.max_tokens {
        Some(n) => n,
        None => capped_model_max(model),
    }
}

/// Whether the token sums of `adjust_max_tokens_for_thinking` fit in 32 bits.
pub fn thinking_fits(model: &Model, options: &SimpleStreamOptions) -> (r: bool)
    ensures
        r == (base_max_of(*model, *options) + thinking_budget_of(*options) <= u32::MAX
            && thinking_budget_of(*options) + 1024 <= u32::MAX),
{
    let reasoning = match options.reasoning {
        Some(l) => l,
        None => ThinkingLevel::Medium,
    };
    let configured = match &options.thinking_budgets {
        Some(b) => match reasoning {
            ThinkingLevel::Minimal => b.minimal,
            ThinkingLevel::Low => b.low,
            ThinkingLevel::Medium => b.medium,
            ThinkingLevel::High | ThinkingLevel::Xhigh => b.high,
        },
        None => None,
    };
    let budget = match configured {
        Some(n) => n,
        None => default_budget(clamp_reasoning(reasoning)),
    };
    let base_max = match options.base.max_tokens {
        Some(n) => n,
        None => if model.max_tokens <= 32000 { model.max_tokens } else { 32000 },
    };
    (base_max as u64) + (budget as u64) <= u32::MAX as u64 && (budget as u64) + 1024 <= u32::MAX as u64
}

/// `(max_tokens, thinking_budget)` for budget-based thinking: the budget is
/// added to the token limit, and at least 1024 tokens stay for the answer.
pub fn adjust_max_tokens_for_thinking(model: &Model, options: &SimpleStreamOptions) -> (r: (u32, u32))
    requires
        base_max_of(*model, *options) + thinking_budget_of(*options) <= u32::MAX,
        thinking_budget_of(*options) + 1024 <= u32::MAX,
    ensures
        r.1 == thinking_budget_of(*options),
        r.0 == (if base_max_of(*model, *options) + r.1 >= r.1 + 1024 {
            base_max_of(*model, *options) + r.1
        } else {
            r.1 + 1024
        }),
{
    let reasoning = match options.reasoning {
        Some(l) => l,
        None => ThinkingLevel::Medium,
    };
    let configured = match &options.thinking_budgets {
        Some(b) => match reasoning {
            ThinkingLevel::Minimal => b.minimal,
            ThinkingLevel::Low => b.low,
            ThinkingLevel::Medium => b.medium,
            ThinkingLevel::High | ThinkingLevel::Xhigh => b.high,
        },
        None => None,
    };
    let thinking_budget = match configured {
        Some(n) => n,
        None => default_budget(clamp_reasoning(reasoning)),
    };
    let base_max = match options.base.max_tokens {
        Some(n) => n,
        None => if model.max_tokens <= 32000 { model.max_tokens } else { 32000 },
    };
    let a = base_max + thinking_budget;
    let b = thinking_budget + 1024;
    let max_tokens = if a >= b { a } else { b };
    (max_tokens, thinking_budget)
}

} // verus!
