//! Server-sent event framing shared by the provider decoders.
use vstd::prelude::*;

use crate::text::{chars_of, is_prefix, string_of_chars, trim, trim_seq};

verus! {

/// The payload of a `data: ` line: the trimmed line after its `data: ` prefix.
pub open spec fn sse_payload(line: Seq<char>) -> Option<Seq<char>> {
    let t = trim_seq(line);
    if is_prefix("data: "@, t) {
        Some(t.skip("data: "@.len() as int))
    } else {
        None
    }
}

/// The payload of a `data: ` line, if the line is one.
pub fn sse_payload_of(line: &str) -> (r: Option<String>)
    ensures
        match r {
            Some(p) => sse_payload(line@) == Some(p@),
            None => sse_payload(line@) is None,
        },
{
    let t = trim(line);
    let cs = chars_of(t.as_str());
    let prefix = chars_of("data: ");
    if !crate::text::chars_starts_with(cs.as_slice(), prefix.as_slice()) {
        return None;
    }
    let mut rest: Vec<char> = Vec::new();
    let mut k: usize = prefix.len();
    while k < cs.len()
        invariant
            prefix@.len() <= k <= cs@.len(),
            rest@ == cs@.subrange(prefix@.len() as int, k as int),
        decreases cs@.len() - k,
    {
        rest.push(cs[k]);
        k = k + 1;
        assert(cs@.subrange(prefix@.len() as int, k as int) == cs@.subrange(
            prefix@.len() as int,
            k - 1,
        ).push(cs@[k - 1]));
    }
    assert(cs@.subrange(prefix@.len() as int, cs@.len() as int) == cs@.skip(
        prefix@.len() as int,
    ));
    Some(string_of_chars(rest.as_slice()))
}

} // verus!
