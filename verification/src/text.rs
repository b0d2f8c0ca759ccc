use vstd::prelude::*;

verus! {

/// Appends one character (`String::push`).
#[verifier::external_body]
pub(crate) fn push_char(s: &mut String, c: char)
    ensures
        final(s)@ == old(s)@.push(c),
{
    s.push(c);
}

/// The characters of a string slice, in order.
pub fn chars_of(s: &str) -> (v: Vec<char>)
    ensures
        v@ == s@,
{
    let mut v: Vec<char> = Vec::new();
    for c in it: s.chars()
        invariant
            v@ == it.seq().take(it.index() as int),
    {
        v.push(c);
    }
    v
}

} // verus!

verus! {

/// Builds a string from characters.
pub fn string_of_chars(cs: &[char]) -> (s: String)
    ensures
        s@ == cs@,
{
    let mut s = String::new();
    let mut i: usize = 0;
    while i < cs.len()
        invariant
            i <= cs@.len(),
            s@ == cs@.take(i as int),
        decreases cs@.len() - i,
    {
        push_char(&mut s, cs[i]);
        i = i + 1;
        assert(cs@.take(i as int) == cs@.take((i - 1) as int).push(cs@[i - 1]));
    }
    assert(cs@.take(cs@.len() as int) == cs@);
    s
}

/// Whether two character slices hold the same characters.
pub fn chars_eq(a: &[char], b: &[char]) -> (r: bool)
    ensures
        r == (a@ == b@),
{
    if a.len() != b.len() {
        return false;
    }
    let mut i: usize = 0;
    while i < a.len()
        invariant
            a@.len() == b@.len(),
            i <= a@.len(),
            forall|j: int| 0 <= j < i ==> a@[j] == b@[j],
        decreases a@.len() - i,
    {
        if a[i] != b[i] {
            return false;
        }
        i = i + 1;
    }
    assert(a@ =~= b@);
    true
}

/// Whether two string slices are equal.
pub fn str_eq(a: &str, b: &str) -> (r: bool)
    ensures
        r == (a@ == b@),
{
    let x = chars_of(a);
    let y = chars_of(b);
    chars_eq(x.as_slice(), y.as_slice())
}

pub open spec fn is_prefix(p: Seq<char>, s: Seq<char>) -> bool {
    p.len() <= s.len() && s.subrange(0, p.len() as int) == p
}

pub open spec fn is_suffix(p: Seq<char>, s: Seq<char>) -> bool {
    p.len() <= s.len() && s.subrange(s.len() - p.len(), s.len() as int) == p
}

pub open spec fn occurs_at(p: Seq<char>, s: Seq<char>, i: int) -> bool {
    0 <= i && i + p.len() <= s.len() && s.subrange(i, i + p.len()) == p
}

pub open spec fn contains_seq(s: Seq<char>, p: Seq<char>) -> bool {
    exists|i: int| occurs_at(p, s, i)
}

/// Whether `p` occurs in `s` at position `i` (character positions).
pub fn matches_at(s: &[char], p: &[char], i: usize) -> (r: bool)
    ensures
        r == occurs_at(p@, s@, i as int),
{
    if i > s.len() || p.len() > s.len() - i {
        return false;
    }
    let n = s.len();
    let mut j: usize = 0;
    while j < p.len()
        invariant
            n == s@.len(),
            i + p@.len() <= s@.len(),
            j <= p@.len(),
            forall|k: int| 0 <= k < j ==> s@[i + k] == p@[k],
        decreases p@.len() - j,
    {
        assert(i + j < s@.len());
        if s[i + j] != p[j] {
            assert(s@.subrange(i as int, i + p@.len())[j as int] != p@[j as int]);
            return false;
        }
        j = j + 1;
    }
    assert(s@.subrange(i as int, i + p@.len()) =~= p@);
    true
}

/// `str::starts_with` on character slices.
pub fn chars_starts_with(s: &[char], p: &[char]) -> (r: bool)
    ensures
        r == is_prefix(p@, s@),
{
    matches_at(s, p, 0)
}

/// `str::ends_with` on character slices.
pub fn chars_ends_with(s: &[char], p: &[char]) -> (r: bool)
    ensures
        r == is_suffix(p@, s@),
{
    if p.len() > s.len() {
        return false;
    }
    matches_at(s, p, s.len() - p.len())
}

/// `str::contains` on character slices.
pub fn chars_contains(s: &[char], p: &[char]) -> (r: bool)
    ensures
        r == contains_seq(s@, p@),
{
    if p.len() > s.len() {
        assert forall|i: int| !occurs_at(p@, s@, i) by {}
        return false;
    }
    let last = s.len() - p.len();
    let mut i: usize = 0;
    loop
        invariant
            p@.len() <= s@.len(),
            last == s@.len() - p@.len(),
            i <= last,
            forall|k: int| 0 <= k < i ==> !occurs_at(p@, s@, k),
        ensures
            forall|k: int| 0 <= k <= last ==> !occurs_at(p@, s@, k),
        decreases last - i,
    {
        if matches_at(s, p, i) {
            return true;
        }
        if i == last {
            break;
        }
        i = i + 1;
    }
    assert forall|k: int| !occurs_at(p@, s@, k) by {
        if 0 <= k <= last {
        }
    }
    false
}

/// `str::starts_with`.
pub fn starts_with(s: &str, p: &str) -> (r: bool)
    ensures
        r == is_prefix(p@, s@),
{
    let a = chars_of(s);
    let b = chars_of(p);
    chars_starts_with(a.as_slice(), b.as_slice())
}

/// `str::ends_with`.
pub fn ends_with(s: &str, p: &str) -> (r: bool)
    ensures
        r == is_suffix(p@, s@),
{
    let a = chars_of(s);
    let b = chars_of(p);
    chars_ends_with(a.as_slice(), b.as_slice())
}

/// `str::contains` with a string pattern.
pub fn contains(s: &str, p: &str) -> (r: bool)
    ensures
        r == contains_seq(s@, p@),
{
    let a = chars_of(s);
    let b = chars_of(p);
    chars_contains(a.as_slice(), b.as_slice())
}

} // verus!

verus! {

/// Unicode `White_Space`, the set `char::is_whitespace` tests for.
pub open spec fn is_ws(c: char) -> bool {
    let u = c as u32;
    (9 <= u <= 13) || u == 32 || u == 0x85 || u == 0xA0 || u == 0x1680 || (0x2000 <= u <= 0x200A)
        || u == 0x2028 || u == 0x2029 || u == 0x202F || u == 0x205F || u == 0x3000
}

/// `char::is_whitespace`.
pub fn is_whitespace(c: char) -> (r: bool)
    ensures
        r == is_ws(c),
{
    let u = c as u32;
    (9 <= u && u <= 13) || u == 32 || u == 0x85 || u == 0xA0 || u == 0x1680 || (0x2000 <= u && u
        <= 0x200A) || u == 0x2028 || u == 0x2029 || u == 0x202F || u == 0x205F || u == 0x3000
}

pub open spec fn trim_start_seq(s: Seq<char>) -> Seq<char>
    decreases s.len(),
{
    if s.len() > 0 && is_ws(s[0]) {
        trim_start_seq(s.drop_first())
    } else {
        s
    }
}

pub open spec fn trim_end_seq(s: Seq<char>) -> Seq<char>
    decreases s.len(),
{
    if s.len() > 0 && is_ws(s.last()) {
        trim_end_seq(s.drop_last())
    } else {
        s
    }
}

/// What `str::trim` leaves of `s`.
pub open spec fn trim_seq(s: Seq<char>) -> Seq<char> {
    trim_end_seq(trim_start_seq(s))
}

/// `str::trim_end`.
pub fn trim_end_chars(s: &[char]) -> (r: Vec<char>)
    ensures
        r@ == trim_end_seq(s@),
{
    let mut j: usize = s.len();
    assert(s@.take(j as int) == s@);
    while j > 0 && is_whitespace(s[j - 1])
        invariant
            j <= s@.len(),
            trim_end_seq(s@) == trim_end_seq(s@.take(j as int)),
        decreases j,
    {
        assert(s@.take(j as int).drop_last() == s@.take(j - 1));
        j = j - 1;
    }
    let mut r: Vec<char> = Vec::new();
    let mut k: usize = 0;
    while k < j
        invariant
            j <= s@.len(),
            k <= j,
            r@ == s@.take(k as int),
        decreases j - k,
    {
        r.push(s[k]);
        k = k + 1;
        assert(s@.take(k as int) == s@.take(k - 1).push(s@[k - 1]));
    }
    r
}

/// `str::trim_start`.
pub fn trim_start_chars(s: &[char]) -> (r: Vec<char>)
    ensures
        r@ == trim_start_seq(s@),
{
    let mut i: usize = 0;
    assert(s@.skip(0) == s@);
    while i < s.len() && is_whitespace(s[i])
        invariant
            i <= s@.len(),
            trim_start_seq(s@) == trim_start_seq(s@.skip(i as int)),
        decreases s@.len() - i,
    {
        assert(s@.skip(i as int).drop_first() == s@.skip(i + 1));
        i = i + 1;
    }
    let mut r: Vec<char> = Vec::new();
    let mut k: usize = i;
    while k < s.len()
        invariant
            i <= k <= s@.len(),
            r@ == s@.subrange(i as int, k as int),
        decreases s@.len() - k,
    {
        r.push(s[k]);
        k = k + 1;
        assert(s@.subrange(i as int, k as int) == s@.subrange(i as int, k - 1).push(s@[k - 1]));
    }
    assert(s@.subrange(i as int, s@.len() as int) == s@.skip(i as int));
    r
}

/// `str::trim`.
pub fn trim(s: &str) -> (r: String)
    ensures
        r@ == trim_seq(s@),
{
    let cs = chars_of(s);
    let a = trim_start_chars(cs.as_slice());
    let b = trim_end_chars(a.as_slice());
    string_of_chars(b.as_slice())
}

pub open spec fn trim_end_matches_seq(s: Seq<char>, p: Seq<char>) -> Seq<char>
    decreases s.len(),
{
    if p.len() > 0 && is_suffix(p, s) {
        trim_end_matches_seq(s.subrange(0, s.len() - p.len()), p)
    } else {
        s
    }
}

/// `str::trim_end_matches` with a string pattern.
pub fn trim_end_matches(s: &str, p: &str) -> (r: String)
    ensures
        r@ == trim_end_matches_seq(s@, p@),
{
    let cs = chars_of(s);
    let ps = chars_of(p);
    let mut j: usize = cs.len();
    assert(s@.take(j as int) == s@);
    if ps.len() > 0 {
        loop
            invariant
                cs@ == s@,
                ps@ == p@,
                ps@.len() > 0,
                j <= cs@.len(),
                trim_end_matches_seq(s@, p@) == trim_end_matches_seq(s@.take(j as int), p@),
            ensures
                trim_end_matches_seq(s@, p@) == s@.take(j as int),
            decreases j,
        {
            let ghost t = s@.take(j as int);
            if j >= ps.len() && matches_at(cs.as_slice(), ps.as_slice(), j - ps.len()) {
                assert(t.subrange(t.len() - p@.len(), t.len() as int) == s@.subrange(
                    j - p@.len(),
                    j as int,
                ));
                assert(t.subrange(0, t.len() - p@.len()) == s@.take(j - p@.len()));
                j = j - ps.len();
            } else {
                assert(!is_suffix(p@, t)) by {
                    if is_suffix(p@, t) {
                        assert(t.subrange(t.len() - p@.len(), t.len() as int) == s@.subrange(
                            j - p@.len(),
                            j as int,
                        ));
                    }
                }
                break;
            }
        }
    } else {
        assert(s@.take(j as int) == s@);
    }
    let mut r: Vec<char> = Vec::new();
    let mut k: usize = 0;
    while k < j
        invariant
            cs@ == s@,
            j <= cs@.len(),
            k <= j,
            r@ == s@.take(k as int),
        decreases j - k,
    {
        r.push(cs[k]);
        k = k + 1;
        assert(s@.take(k as int) == s@.take(k - 1).push(s@[k - 1]));
    }
    assert(trim_end_matches_seq(s@, p@) == s@.take(j as int));
    string_of_chars(r.as_slice())
}

/// `str::strip_prefix`.
pub fn strip_prefix(s: &str, p: &str) -> (r: Option<String>)
    ensures
        match r {
            Some(t) => is_prefix(p@, s@) && t@ == s@.skip(p@.len() as int),
            None => !is_prefix(p@, s@),
        },
{
    let cs = chars_of(s);
    let ps = chars_of(p);
    if !chars_starts_with(cs.as_slice(), ps.as_slice()) {
        return None;
    }
    let mut r: Vec<char> = Vec::new();
    let mut k: usize = ps.len();
    while k < cs.len()
        invariant
            ps@.len() <= k <= cs@.len(),
            r@ == cs@.subrange(ps@.len() as int, k as int),
        decreases cs@.len() - k,
    {
        r.push(cs[k]);
        k = k + 1;
        assert(cs@.subrange(ps@.len() as int, k as int) == cs@.subrange(
            ps@.len() as int,
            k - 1,
        ).push(cs@[k - 1]));
    }
    assert(cs@.subrange(ps@.len() as int, cs@.len() as int) == cs@.skip(ps@.len() as int));
    Some(string_of_chars(r.as_slice()))
}

} // verus!

verus! {

/// What `str::replace` gives for a non-empty pattern: leftmost matches,
/// scanned left to right, each replaced.
pub open spec fn replace_seq(s: Seq<char>, from: Seq<char>, to: Seq<char>) -> Seq<char>
    recommends
        from.len() > 0,
    decreases s.len(),
{
    if s.len() == 0 || from.len() == 0 {
        s
    } else if is_prefix(from, s) {
        to + replace_seq(s.skip(from.len() as int), from, to)
    } else {
        seq![s[0]] + replace_seq(s.drop_first(), from, to)
    }
}

/// `str::replace` with a non-empty string pattern.
pub fn replace(s: &str, from: &str, to: &str) -> (r: String)
    requires
        from@.len() > 0,
    ensures
        r@ == replace_seq(s@, from@, to@),
{
    let cs = chars_of(s);
    let fs = chars_of(from);
    let ts = chars_of(to);
    let mut out: Vec<char> = Vec::new();
    let mut i: usize = 0;
    assert(s@.skip(0) == s@);
    while i < cs.len()
        invariant
            cs@ == s@,
            fs@ == from@,
            ts@ == to@,
            fs@.len() > 0,
            i <= cs@.len(),
            out@ + replace_seq(s@.skip(i as int), from@, to@) == replace_seq(s@, from@, to@),
        decreases cs@.len() - i,
    {
        let ghost rest = s@.skip(i as int);
        if matches_at(cs.as_slice(), fs.as_slice(), i) {
            assert(rest.subrange(0, from@.len() as int) == s@.subrange(i as int, i + from@.len()));
            assert(rest.skip(from@.len() as int) == s@.skip(i + from@.len()));
            let mut k: usize = 0;
            let ghost out0 = out@;
            while k < ts.len()
                invariant
                    k <= ts@.len(),
                    out@ == out0 + ts@.take(k as int),
                decreases ts@.len() - k,
            {
                out.push(ts[k]);
                k = k + 1;
                assert(ts@.take(k as int) == ts@.take(k - 1).push(ts@[k - 1]));
            }
            assert(ts@.take(ts@.len() as int) == ts@);
            assert(out0 + (to@ + replace_seq(s@.skip(i + from@.len()), from@, to@)) == (out0
                + to@) + replace_seq(s@.skip(i + from@.len()), from@, to@));
            i = i + fs.len();
        } else {
            assert(!is_prefix(from@, rest)) by {
                if is_prefix(from@, rest) {
                    assert(rest.subrange(0, from@.len() as int) == s@.subrange(
                        i as int,
                        i + from@.len(),
                    ));
                }
            }
            assert(rest.drop_first() == s@.skip(i + 1));
            let ghost out0 = out@;
            out.push(cs[i]);
            assert(out0 + (seq![rest[0]] + replace_seq(rest.drop_first(), from@, to@)) == out0.push(
                rest[0],
            ) + replace_seq(rest.drop_first(), from@, to@));
            i = i + 1;
        }
    }
    assert(s@.skip(cs@.len() as int) == Seq::<char>::empty());
    assert(out@ + Seq::<char>::empty() == out@);
    string_of_chars(out.as_slice())
}

/// The pieces `str::split` gives for a single-character separator.
pub open spec fn split_seq(s: Seq<char>, sep: char) -> Seq<Seq<char>>
    decreases s.len(),
{
    if s.len() == 0 {
        seq![Seq::<char>::empty()]
    } else {
        let rest = split_seq(s.drop_last(), sep);
        if s.last() == sep {
            rest.push(Seq::<char>::empty())
        } else {
            rest.update(rest.len() - 1, rest.last().push(s.last()))
        }
    }
}

pub proof fn lemma_split_nonempty(s: Seq<char>, sep: char)
    ensures
        split_seq(s, sep).len() >= 1,
    decreases s.len(),
{
    if s.len() > 0 {
        lemma_split_nonempty(s.drop_last(), sep);
    }
}

pub open spec fn views_of(v: Seq<String>) -> Seq<Seq<char>> {
    v.map_values(|x: String| x@)
}

/// `str::split` with a character separator, collected.
pub fn split_char(s: &str, sep: char) -> (r: Vec<String>)
    ensures
        views_of(r@) == split_seq(s@, sep),
{
    let cs = chars_of(s);
    let mut pieces: Vec<String> = Vec::new();
    let mut cur: Vec<char> = Vec::new();
    let mut i: usize = 0;
    assert(s@.take(0) == Seq::<char>::empty());
    assert(views_of(pieces@).push(cur@) =~= seq![Seq::<char>::empty()]);
    while i < cs.len()
        invariant
            cs@ == s@,
            i <= cs@.len(),
            views_of(pieces@).push(cur@) == split_seq(s@.take(i as int), sep),
        decreases cs@.len() - i,
    {
        let ghost before = s@.take(i as int);
        assert(s@.take(i + 1).drop_last() == before);
        assert(s@.take(i + 1).last() == s@[i as int]);
        proof {
            lemma_split_nonempty(before, sep);
        }
        if cs[i] == sep {
            let piece = string_of_chars(cur.as_slice());
            pieces.push(piece);
            cur = Vec::new();
            assert(views_of(pieces@) =~= views_of(pieces@.drop_last()).push(piece@));
        } else {
            let ghost old_cur = cur@;
            cur.push(cs[i]);
            assert(views_of(pieces@).push(cur@) =~= views_of(pieces@).push(old_cur).update(
                views_of(pieces@).len() as int,
                old_cur.push(s@[i as int]),
            ));
        }
        i = i + 1;
    }
    assert(s@.take(cs@.len() as int) == s@);
    let last = string_of_chars(cur.as_slice());
    pieces.push(last);
    assert(views_of(pieces@) =~= views_of(pieces@.drop_last()).push(last@));
    pieces
}

/// `[T]::join` for strings.
pub open spec fn join_seq(parts: Seq<Seq<char>>, sep: Seq<char>) -> Seq<char>
    decreases parts.len(),
{
    if parts.len() == 0 {
        Seq::<char>::empty()
    } else if parts.len() == 1 {
        parts[0]
    } else {
        join_seq(parts.drop_last(), sep) + sep + parts.last()
    }
}

proof fn lemma_join_extend_last(parts: Seq<Seq<char>>, sep: Seq<char>, c: char)
    requires
        parts.len() >= 1,
    ensures
        join_seq(parts.update(parts.len() - 1, parts.last().push(c)), sep) == join_seq(parts, sep).push(c),
{
    let q = parts.update(parts.len() - 1, parts.last().push(c));
    if parts.len() >= 2 {
        assert(q.drop_last() =~= parts.drop_last());
        assert(join_seq(q, sep) =~= join_seq(parts, sep).push(c));
    }
}

/// Joining the pieces of a split with the separator gives the text back.
pub proof fn lemma_join_split(s: Seq<char>, sep: char)
    ensures
        join_seq(split_seq(s, sep), seq![sep]) == s,
    decreases s.len(),
{
    if s.len() > 0 {
        let rest = split_seq(s.drop_last(), sep);
        lemma_join_split(s.drop_last(), sep);
        lemma_split_nonempty(s.drop_last(), sep);
        if s.last() == sep {
            let parts = rest.push(Seq::<char>::empty());
            assert(parts.drop_last() =~= rest);
            assert(join_seq(parts, seq![sep]) =~= s);
        } else {
            lemma_join_extend_last(rest, seq![sep], s.last());
            assert(s.drop_last().push(s.last()) =~= s);
        }
    }
}

/// `parts.join(sep)`.
pub fn join(parts: &Vec<String>, sep: &str) -> (r: String)
    ensures
        r@ == join_seq(views_of(parts@), sep@),
{
    let mut r = String::new();
    let mut i: usize = 0;
    while i < parts.len()
        invariant
            i <= parts@.len(),
            r@ == join_seq(views_of(parts@.take(i as int)), sep@),
        decreases parts@.len() - i,
    {
        assert(views_of(parts@.take(i + 1)).drop_last() =~= views_of(parts@.take(i as int)));
        assert(views_of(parts@.take(i + 1)).last() == parts@[i as int]@);
        if i > 0 {
            r.append(sep);
        }
        r.append(parts[i].as_str());
        i = i + 1;
    }
    assert(parts@.take(parts@.len() as int) == parts@);
    r
}

pub open spec fn digit_char(d: nat) -> char {
    if d == 0 { '0' }
    else if d == 1 { '1' }
    else if d == 2 { '2' }
    else if d == 3 { '3' }
    else if d == 4 { '4' }
    else if d == 5 { '5' }
    else if d == 6 { '6' }
    else if d == 7 { '7' }
    else if d == 8 { '8' }
    else if d == 9 { '9' }
    else if d == 10 { 'a' }
    else if d == 11 { 'b' }
    else if d == 12 { 'c' }
    else if d == 13 { 'd' }
    else if d == 14 { 'e' }
    else { 'f' }
}

/// The decimal digits of `n`, as `to_string` writes them.
pub open spec fn decimal(n: nat) -> Seq<char>
    decreases n,
{
    if n < 10 {
        seq![digit_char(n)]
    } else {
        decimal(n / 10).push(digit_char(n % 10))
    }
}

/// The last `width` hexadecimal digits of `n`, zero-padded (`{:0width$x}` for
/// values below `16^width`).
pub open spec fn hex_digits(n: nat, width: nat) -> Seq<char>
    decreases width,
{
    if width == 0 {
        Seq::<char>::empty()
    } else {
        hex_digits(n / 16, (width - 1) as nat).push(digit_char(n % 16))
    }
}

fn digit(d: u64) -> (c: char)
    requires
        d < 16,
    ensures
        c == digit_char(d as nat),
{
    if d == 0 { '0' }
    else if d == 1 { '1' }
    else if d == 2 { '2' }
    else if d == 3 { '3' }
    else if d == 4 { '4' }
    else if d == 5 { '5' }
    else if d == 6 { '6' }
    else if d == 7 { '7' }
    else if d == 8 { '8' }
    else if d == 9 { '9' }
    else if d == 10 { 'a' }
    else if d == 11 { 'b' }
    else if d == 12 { 'c' }
    else if d == 13 { 'd' }
    else if d == 14 { 'e' }
    else { 'f' }
}

/// `u64::to_string`.
pub fn decimal_string(n: u64) -> (s: String)
    ensures
        s@ == decimal(n as nat),
    decreases n,
{
    if n < 10 {
        let mut s = String::new();
        push_char(&mut s, digit(n));
        s
    } else {
        let mut s = decimal_string(n / 10);
        push_char(&mut s, digit(n % 10));
        s
    }
}

/// The decimal text of an integer, with a minus sign when negative.
pub open spec fn signed_decimal(n: int) -> Seq<char> {
    if n < 0 {
        "-"@ + decimal((-n) as nat)
    } else {
        decimal(n as nat)
    }
}

/// `i32::to_string`.
pub fn i32_string(n: i32) -> (s: String)
    ensures
        s@ == signed_decimal(n as int),
{
    if n < 0 {
        let m: u64 = (0i64 - (n as i64)) as u64;
        let d = decimal_string(m);
        "-".to_owned().concat(d.as_str())
    } else {
        decimal_string(n as u64)
    }
}

/// `format!("{:08x}", n)` for a `u32`.
pub fn hex8(n: u32) -> (s: String)
    ensures
        s@ == hex_digits(n as nat, 8),
{
    let mut digits: Vec<char> = Vec::new();
    let mut m: u64 = n as u64;
    let mut k: u64 = 0;
    while k < 8
        invariant
            k <= 8,
            hex_digits(n as nat, 8) == hex_digits(m as nat, (8 - k) as nat) + digits@,
        decreases 8 - k,
    {
        let d = digit(m % 16);
        let ghost rest = hex_digits(m as nat / 16, (8 - k - 1) as nat);
        assert(hex_digits(m as nat, (8 - k) as nat) == rest.push(digit_char(m as nat % 16)));
        assert(rest.push(d) + digits@ == rest + seq![d].add(digits@));
        digits.insert(0, d);
        assert(digits@ == seq![d].add(digits@.drop_first()));
        m = m / 16;
        k = k + 1;
    }
    string_of_chars(digits.as_slice())
}

} // verus!

verus! {

pub open spec fn strip_cr(line: Seq<char>) -> Seq<char> {
    if line.len() > 0 && line.last() == '\r' {
        line.drop_last()
    } else {
        line
    }
}

/// The lines `str::lines` yields: the text split at `'\n'`, a `'\r'` before
/// a `'\n'` dropped, and no empty last line after a final `'\n'`.
pub open spec fn lines_seq(s: Seq<char>) -> Seq<Seq<char>> {
    let parts = split_seq(s, '\n');
    let n = parts.len();
    let init = parts.take(n - 1).map_values(|p: Seq<char>| strip_cr(p));
    if parts[n - 1].len() == 0 {
        init
    } else {
        init.push(parts[n - 1])
    }
}

fn strip_cr_string(line: String) -> (r: String)
    ensures
        r@ == strip_cr(line@),
{
    let cs = chars_of(line.as_str());
    if cs.len() > 0 && cs[cs.len() - 1] == '\r' {
        let mut v: Vec<char> = Vec::new();
        let mut k: usize = 0;
        while k < cs.len() - 1
            invariant
                cs@ == line@,
                cs@.len() > 0,
                k <= cs@.len() - 1,
                v@ == cs@.take(k as int),
            decreases cs@.len() - 1 - k,
        {
            v.push(cs[k]);
            k = k + 1;
            assert(cs@.take(k as int) == cs@.take(k - 1).push(cs@[k - 1]));
        }
        string_of_chars(v.as_slice())
    } else {
        line
    }
}

/// `str::lines`, collected.
pub fn lines(s: &str) -> (r: Vec<String>)
    ensures
        views_of(r@) == lines_seq(s@),
{
    let parts = split_char(s, '\n');
    proof {
        lemma_split_nonempty(s@, '\n');
    }
    let n = parts.len();
    let mut out: Vec<String> = Vec::new();
    let mut i: usize = 0;
    while i < n - 1
        invariant
            n == parts@.len(),
            n >= 1,
            views_of(parts@) == split_seq(s@, '\n'),
            i <= n - 1,
            views_of(out@) == split_seq(s@, '\n').take(i as int).map_values(
                |p: Seq<char>| strip_cr(p),
            ),
        decreases n - 1 - i,
    {
        let piece = strip_cr_string(parts[i].clone());
        assert(parts@[i as int]@ == split_seq(s@, '\n')[i as int]);
        let ghost prev = views_of(out@);
        out.push(piece);
        assert(views_of(out@) =~= prev.push(piece@));
        assert(split_seq(s@, '\n').take(i + 1).map_values(|p: Seq<char>| strip_cr(p))
            =~= split_seq(s@, '\n').take(i as int).map_values(|p: Seq<char>| strip_cr(p)).push(
            strip_cr(split_seq(s@, '\n')[i as int]),
        ));
        i = i + 1;
    }
    assert(parts@[n - 1]@ == split_seq(s@, '\n')[n - 1]);
    if !parts[n - 1].as_str().is_empty() {
        let last = parts[n - 1].clone();
        out.push(last);
        assert(views_of(out@) =~= views_of(out@.drop_last()).push(last@));
    }
    out
}

/// The characters of the first `n` bytes of the UTF-8 encoding of `s`.
pub open spec fn utf8_head(s: Seq<char>, n: int) -> Seq<char> {
    vstd::utf8::decode_utf8(vstd::utf8::encode_utf8(s).subrange(0, n))
}

/// The characters after the first `n` bytes of the UTF-8 encoding of `s`.
pub open spec fn utf8_tail(s: Seq<char>, n: int) -> Seq<char> {
    let b = vstd::utf8::encode_utf8(s);
    vstd::utf8::decode_utf8(b.subrange(n, b.len() as int))
}

/// Whether byte offset `n` of the UTF-8 encoding of `s` starts a character.
pub open spec fn utf8_boundary(s: Seq<char>, n: int) -> bool {
    vstd::utf8::is_char_boundary(vstd::utf8::encode_utf8(s), n)
}

/// The length in bytes of the UTF-8 encoding of `s`.
pub open spec fn utf8_len(s: Seq<char>) -> int {
    vstd::utf8::encode_utf8(s).len() as int
}

/// The first `max` bytes of a text longer than that, else the whole text
/// (`&s[..max]` when `s.len() > max`).
pub fn head_bytes(s: &str, max: usize) -> (r: String)
    requires
        utf8_len(s@) > max ==> utf8_boundary(s@, max as int),
    ensures
        r@ == (if utf8_len(s@) > max {
            utf8_head(s@, max as int)
        } else {
            s@
        }),
{
    let n = s.as_bytes().len();
    if n > max {
        let (a, _b) = split_at_byte(s, max);
        a
    } else {
        s.to_owned()
    }
}

/// The largest byte offset at most `n` that starts a character of `s` (or is
/// its end); 0 where there is none above 0.
pub open spec fn floor_boundary(s: Seq<char>, n: int) -> int
    decreases n,
{
    if n <= 0 {
        0
    } else if utf8_boundary(s, n) {
        n
    } else {
        floor_boundary(s, n - 1)
    }
}

/// The smallest byte offset at least `n` that starts a character of `s`, or
/// the end of its encoding.
pub open spec fn ceil_boundary(s: Seq<char>, n: int) -> int
    decreases utf8_len(s) - n,
{
    if n >= utf8_len(s) {
        utf8_len(s)
    } else if utf8_boundary(s, n) {
        n
    } else {
        ceil_boundary(s, n + 1)
    }
}

/// The start and the end of an encoding are character boundaries.
pub proof fn lemma_boundary_ends(s: Seq<char>)
    ensures
        utf8_boundary(s, 0),
        utf8_boundary(s, utf8_len(s)),
{
    vstd::utf8::encode_utf8_valid_utf8(s);
    vstd::utf8::is_char_boundary_start_end_of_seq(vstd::utf8::encode_utf8(s));
}

/// `floor_boundary` is a boundary, between 0 and `n`.
pub proof fn lemma_floor_boundary(s: Seq<char>, n: int)
    ensures
        0 <= floor_boundary(s, n),
        n >= 0 ==> floor_boundary(s, n) <= n,
        utf8_boundary(s, floor_boundary(s, n)),
        n >= 0 && utf8_boundary(s, n) ==> floor_boundary(s, n) == n,
    decreases n,
{
    lemma_boundary_ends(s);
    if n > 0 && !utf8_boundary(s, n) {
        lemma_floor_boundary(s, n - 1);
    }
}

/// `ceil_boundary` is a boundary, between `n` and the end.
pub proof fn lemma_ceil_boundary(s: Seq<char>, n: int)
    ensures
        ceil_boundary(s, n) <= utf8_len(s),
        n <= utf8_len(s) ==> n <= ceil_boundary(s, n),
        utf8_boundary(s, ceil_boundary(s, n)),
        n <= utf8_len(s) && utf8_boundary(s, n) ==> ceil_boundary(s, n) == n,
    decreases utf8_len(s) - n,
{
    lemma_boundary_ends(s);
    if n < utf8_len(s) && !utf8_boundary(s, n) {
        lemma_ceil_boundary(s, n + 1);
    }
}

/// Cutting an encoding at a character boundary splits the text into the
/// characters before and after the cut, of those byte lengths.
pub proof fn lemma_split_at_boundary(s: Seq<char>, n: int)
    requires
        utf8_boundary(s, n),
    ensures
        s == utf8_head(s, n) + utf8_tail(s, n),
        utf8_len(utf8_head(s, n)) == n,
        utf8_len(utf8_tail(s, n)) == utf8_len(s) - n,
{
    let b = vstd::utf8::encode_utf8(s);
    vstd::utf8::encode_utf8_valid_utf8(s);
    vstd::utf8::encode_utf8_decode_utf8(s);
    vstd::utf8::decode_utf8_split(b, n);
    vstd::utf8::valid_utf8_split(b, n);
    vstd::utf8::decode_utf8_encode_utf8(b.subrange(0, n));
    vstd::utf8::decode_utf8_encode_utf8(b.subrange(n, b.len() as int));
}

/// `str::floor_char_boundary`: the largest character boundary at most `n`.
pub fn floor_char_boundary(s: &str, n: usize) -> (b: usize)
    ensures
        b == floor_boundary(s@, n as int),
{
    let mut b = n;
    while b > 0 && !s.is_char_boundary(b)
        invariant
            b <= n,
            floor_boundary(s@, n as int) == floor_boundary(s@, b as int),
        decreases b,
    {
        b = b - 1;
    }
    b
}

/// `str::ceil_char_boundary`: the smallest character boundary at least `n`,
/// or the length.
pub fn ceil_char_boundary(s: &str, n: usize) -> (b: usize)
    ensures
        b == ceil_boundary(s@, n as int),
{
    let len = s.as_bytes().len();
    if n >= len {
        return len;
    }
    let mut b = n;
    while b < len && !s.is_char_boundary(b)
        invariant
            n <= b <= len,
            len == utf8_len(s@),
            ceil_boundary(s@, n as int) == ceil_boundary(s@, b as int),
        decreases len - b,
    {
        b = b + 1;
    }
    b
}

/// `str::split_at` at a byte offset, owned.
pub fn split_at_byte(s: &str, n: usize) -> (r: (String, String))
    requires
        utf8_boundary(s@, n as int),
    ensures
        r.0@ == utf8_head(s@, n as int),
        r.1@ == utf8_tail(s@, n as int),
{
    let (a, b) = s.split_at(n);
    proof {
        vstd::utf8::encode_utf8_decode_utf8(a@);
        vstd::utf8::encode_utf8_decode_utf8(b@);
    }
    (a.to_owned(), b.to_owned())
}

} // verus!

verus! {

/// Taking one more element of a sequence and mapping it appends the image of
/// that element.
pub proof fn lemma_map_take_push<A, B>(s: Seq<A>, i: int, f: spec_fn(A) -> B)
    requires
        0 <= i < s.len(),
    ensures
        s.take(i + 1).map_values(f) == s.take(i).map_values(f).push(f(s[i])),
{
    assert(s.take(i + 1).map_values(f) =~= s.take(i).map_values(f).push(f(s[i])));
}

/// Pairs of strings, as views.
pub open spec fn str_pairs(v: Seq<(String, String)>) -> Seq<(Seq<char>, Seq<char>)> {
    v.map_values(|p: (String, String)| (p.0@, p.1@))
}

} // verus!
