//! Markdown front matter: a YAML block between `---` fences at the top of a
//! file, and the body that follows it.
use vstd::prelude::*;

use crate::data::{opt_view, yaml_doc, Data, DataValue};
use crate::text::{chars_of, is_prefix, matches_at, occurs_at, push_char};

verus! {

/// Where the YAML starts: after an opening `---` line.
pub open spec fn fm_open(s: Seq<char>) -> Option<int> {
    if is_prefix("---\n"@, s) {
        Some("---\n"@.len() as int)
    } else if is_prefix("---\r\n"@, s) {
        Some("---\r\n"@.len() as int)
    } else {
        None
    }
}

/// The length of a closing fence (a line break, then `---`) at a position.
pub open spec fn fence_at(s: Seq<char>, i: int) -> Option<int> {
    if occurs_at("\r\n---"@, s, i) {
        Some("\r\n---"@.len() as int)
    } else if occurs_at("\n---"@, s, i) {
        Some("\n---"@.len() as int)
    } else {
        None
    }
}

/// The first closing fence at or after a position.
pub open spec fn first_fence(s: Seq<char>, from: int) -> Option<int> {
    if exists|j: int| from <= j && #[trigger] fence_at(s, j) is Some {
        Some(
            choose|j: int|
                from <= j && #[trigger] fence_at(s, j) is Some && forall|k: int|
                    from <= k < j ==> fence_at(s, k) is None,
        )
    } else {
        None
    }
}

/// Drops one leading character if it is `c`.
pub open spec fn strip_leading(s: Seq<char>, c: char) -> Seq<char> {
    if s.len() > 0 && s[0] == c {
        s.drop_first()
    } else {
        s
    }
}

/// The YAML text and the body of a document with front matter: the shortest
/// text between the opening line and a closing fence, and what follows the
/// fence after one line break.
pub open spec fn spec_split_frontmatter(s: Seq<char>) -> Option<(Seq<char>, Seq<char>)> {
    match fm_open(s) {
        None => None,
        Some(st) => match first_fence(s, st) {
            None => None,
            Some(j) => Some(
                (
                    s.subrange(st, j),
                    strip_leading(strip_leading(s.skip(j + fence_at(s, j)->Some_0), '\r'), '\n'),
                ),
            ),
        },
    }
}

/// The characters from one position to another, as a string.
pub fn substring(cs: &[char], from: usize, to: usize) -> (s: String)
    requires
        from <= to <= cs@.len(),
    ensures
        s@ == cs@.subrange(from as int, to as int),
{
    let mut s = String::new();
    let mut i: usize = from;
    while i < to
        invariant
            from <= i <= to,
            to <= cs@.len(),
            s@ == cs@.subrange(from as int, i as int),
        decreases to - i,
    {
        push_char(&mut s, cs[i]);
        assert(cs@.subrange(from as int, i + 1) == cs@.subrange(from as int, i as int).push(cs@[i as int]));
        i = i + 1;
    }
    s
}

/// Splits a document into the YAML of its front matter and its body.
pub fn split_frontmatter(content: &str) -> (r: Option<(String, String)>)
    ensures
        match r {
            Some((y, b)) => spec_split_frontmatter(content@) == Some((y@, b@)),
            None => spec_split_frontmatter(content@) is None,
        },
{
    let cs = chars_of(content);
    let open_lf = chars_of("---\n");
    let open_crlf = chars_of("---\r\n");
    let close_crlf = chars_of("\r\n---");
    let close_lf = chars_of("\n---");
    let start: usize = if matches_at(cs.as_slice(), open_lf.as_slice(), 0) {
        open_lf.len()
    } else if matches_at(cs.as_slice(), open_crlf.as_slice(), 0) {
        open_crlf.len()
    } else {
        return None;
    };
    assert(fm_open(content@) == Some(start as int));
    let mut j: usize = start;
    let mut fence: usize = 0;
    proof {
        reveal_strlit("\r\n---");
        reveal_strlit("\n---");
    }
    while j < cs.len() && fence == 0
        invariant
            close_crlf@.len() > 0,
            close_lf@.len() > 0,
            start <= j <= cs@.len(),
            cs@ == content@,
            close_crlf@ == "\r\n---"@,
            close_lf@ == "\n---"@,
            forall|k: int| start <= k < j ==> fence_at(content@, k) is None,
            fence != 0 ==> j < cs@.len() && fence_at(content@, j as int) == Some(fence as int),
        decreases cs@.len() - j + (if fence == 0 {
            1int
        } else {
            0int
        }),
    {
        if matches_at(cs.as_slice(), close_crlf.as_slice(), j) {
            fence = close_crlf.len();
        } else if matches_at(cs.as_slice(), close_lf.as_slice(), j) {
            fence = close_lf.len();
        } else {
            j = j + 1;
        }
    }
    if fence == 0 {
        proof {
            lemma_no_fence(content@, start as int);
        }
        return None;
    }
    proof {
        lemma_first_fence(content@, start as int, j as int);
    }
    let yaml = substring(cs.as_slice(), start, j);
    let after = j + fence;
    let mut m = after;
    if m < cs.len() && cs[m] == '\r' {
        m = m + 1;
    }
    let mut b = m;
    if b < cs.len() && cs[b] == '\n' {
        b = b + 1;
    }
    let body = substring(cs.as_slice(), b, cs.len());
    proof {
        lemma_strip_both(content@, after as int, b as int);
    }
    Some((yaml, body))
}

proof fn lemma_no_fence(s: Seq<char>, start: int)
    requires
        forall|k: int| start <= k < s.len() ==> fence_at(s, k) is None,
    ensures
        first_fence(s, start) is None,
{
    assert forall|k: int| start <= k implies #[trigger] fence_at(s, k) is None by {
        reveal_strlit("\r\n---");
        reveal_strlit("\n---");
        if k >= s.len() {
            assert(!occurs_at("\r\n---"@, s, k));
            assert(!occurs_at("\n---"@, s, k));
        }
    }
}

proof fn lemma_first_fence(s: Seq<char>, start: int, j: int)
    requires
        start <= j,
        forall|k: int| start <= k < j ==> fence_at(s, k) is None,
        fence_at(s, j) is Some,
    ensures
        first_fence(s, start) == Some(j),
{
    assert(exists|m: int| start <= m && #[trigger] fence_at(s, m) is Some);
    let c = choose|m: int|
        start <= m && #[trigger] fence_at(s, m) is Some && forall|k: int| start <= k < m ==> fence_at(s, k) is None;
    assert(start <= j && fence_at(s, j) is Some && forall|k: int| start <= k < j ==> fence_at(s, k) is None);
    if c < j {
        assert(fence_at(s, c) is None);
    } else if c > j {
        assert(fence_at(s, j) is None);
    }
}

proof fn lemma_strip_both(s: Seq<char>, after: int, b: int)
    requires
        0 <= after <= b <= s.len(),
        b == after + (if after < s.len() && s[after] == '\r' {
            1int
        } else {
            0int
        }) + (if (if after < s.len() && s[after] == '\r' {
            after + 1
        } else {
            after
        }) < s.len() && s[(if after < s.len() && s[after] == '\r' {
            after + 1
        } else {
            after
        })] == '\n' {
            1int
        } else {
            0int
        }),
    ensures
        strip_leading(strip_leading(s.skip(after), '\r'), '\n') == s.subrange(b, s.len() as int),
{
    let r1 = strip_leading(s.skip(after), '\r');
    let m = if after < s.len() && s[after] == '\r' {
        after + 1
    } else {
        after
    };
    assert(r1 =~= s.skip(m));
    assert(strip_leading(r1, '\n') =~= s.subrange(b, s.len() as int));
}

/// The front matter of a document as a YAML value (null where there is none or
/// it does not parse), and the body (the whole document where there is no
/// front matter).
pub open spec fn spec_parse_frontmatter(s: Seq<char>) -> (Data, Seq<char>) {
    match spec_split_frontmatter(s) {
        Some((y, b)) => (
            match yaml_doc(y) {
                Some(d) => d,
                None => Data::Null,
            },
            b,
        ),
        None => (Data::Null, s),
    }
}

/// Reads the front matter and the body of a document.
pub fn parse_frontmatter(content: &str) -> (r: (DataValue, String))
    ensures
        (r.0@, r.1@) == spec_parse_frontmatter(content@),
{
    match split_frontmatter(content) {
        Some((y, b)) => {
            let d = match crate::data::parse_yaml(y.as_str()) {
                Some(d) => d,
                None => DataValue::Null,
            };
            (d, b)
        },
        None => (DataValue::Null, content.to_owned()),
    }
}

} // verus!
