//! Local sessions on a cloned repository: the URLs, branch names, git
//! commands and scaffold files a session works with.
use vstd::prelude::*;

use crate::text::{
    chars_of, hex8, hex_digits, is_prefix, replace, replace_seq, split_char, split_seq, strip_prefix,
    trim_end_matches, trim_end_matches_seq, views_of,
};

verus! {

pub struct LocalRepoOptions {
    pub url: String,
    pub token: String,
    pub dir: String,
    pub session: Option<String>,
}

pub struct LocalSession {
    pub dir: String,
    pub branch: String,
    pub session_id: String,
}

/// The URL with the token as credentials (`https://TOKEN@...`).
pub open spec fn spec_authed_url(url: Seq<char>, token: Seq<char>) -> Seq<char> {
    replace_seq(url, "https://"@, "https://"@ + token + "@"@)
}

pub fn authed_url(url: &str, token: &str) -> (r: String)
    ensures
        r@ == spec_authed_url(url@, token@),
{
    proof {
        reveal_strlit("https://");
    }
    let with = "https://".to_owned().concat(token).concat("@");
    replace(url, "https://", with.as_str())
}

/// The end of the credentials of an `https://` URL: the first `@` after at
/// least one other character.
pub open spec fn credentials_end(url: Seq<char>) -> Option<int> {
    let p = "https://"@.len() as int;
    if is_prefix("https://"@, url) && exists|i: int| p < i < url.len() && url[i] == '@' && forall|j: int|
        p <= j < i ==> url[j] != '@' {
        Some(
            choose|i: int| p < i < url.len() && url[i] == '@' && forall|j: int| p <= j < i ==> url[j] != '@',
        )
    } else {
        None
    }
}

/// The URL without the credentials an `https://` URL carries.
pub open spec fn spec_clean_url(url: Seq<char>) -> Seq<char> {
    match credentials_end(url) {
        Some(i) => "https://"@ + url.skip(i + 1),
        None => url,
    }
}

pub fn clean_url(url: &str) -> (r: String)
    ensures
        r@ == spec_clean_url(url@),
{
    let cs = chars_of(url);
    let prefix = chars_of("https://");
    if !crate::text::chars_starts_with(cs.as_slice(), prefix.as_slice()) {
        return url.to_owned();
    }
    let p = prefix.len();
    let mut i: usize = p;
    while i < cs.len() && cs[i] != '@'
        invariant
            p <= i <= cs@.len(),
            cs@ == url@,
            p == "https://"@.len(),
            forall|j: int| p <= j < i ==> cs@[j] != '@',
        decreases cs@.len() - i,
    {
        i = i + 1;
    }
    if i == cs.len() || i == p {
        proof {
            if exists|k: int| p < k < url@.len() && url@[k] == '@' && forall|j: int| p <= j < k ==> url@[j] != '@' {
                let k = choose|k: int| p < k < url@.len() && url@[k] == '@' && forall|j: int| p <= j < k ==> url@[j] != '@';
                if i == p {
                    assert(url@[p as int] == '@');
                }
            }
        }
        return url.to_owned();
    }
    proof {
        let c = choose|k: int| p < k < url@.len() && url@[k] == '@' && forall|j: int| p <= j < k ==> url@[j] != '@';
        assert(p < i < url@.len() && url@[i as int] == '@' && forall|j: int| p <= j < i ==> url@[j] != '@');
        if c < i {
        } else if c > i {
        }
    }
    let rest = crate::frontmatter::substring(cs.as_slice(), i + 1, cs.len());
    assert(rest@ =~= url@.skip(i + 1));
    "https://".to_owned().concat(rest.as_str())
}

/// Replacing a pattern that does not occur leaves the text as it is.
proof fn lemma_replace_absent(s: Seq<char>, from: Seq<char>, to: Seq<char>)
    requires
        from.len() > 0,
        !crate::text::contains_seq(s, from),
    ensures
        replace_seq(s, from, to) == s,
    decreases s.len(),
{
    if s.len() > 0 {
        if is_prefix(from, s) {
            assert(crate::text::occurs_at(from, s, 0));
        }
        assert forall|i: int| !crate::text::occurs_at(from, s.drop_first(), i) by {
            if crate::text::occurs_at(from, s.drop_first(), i) {
                assert(s.subrange(i + 1, i + 1 + from.len()) =~= s.drop_first().subrange(i, i + from.len()));
                assert(crate::text::occurs_at(from, s, i + 1));
            }
        }
        lemma_replace_absent(s.drop_first(), from, to);
        assert(seq![s[0]] + s.drop_first() =~= s);
    }
}

/// Cleaning a URL undoes putting a token into it: for an `https://` URL with
/// no second `https://` in it, and a non-empty token without `@`.
pub proof fn lemma_clean_undoes_token(rest: Seq<char>, token: Seq<char>)
    requires
        token.len() > 0,
        forall|i: int| 0 <= i < token.len() ==> token[i] != '@',
        !crate::text::contains_seq(rest, "https://"@),
    ensures
        spec_clean_url(spec_authed_url("https://"@ + rest, token)) == "https://"@ + rest,
{
    reveal_strlit("https://");
    let pre = "https://"@;
    let url = pre + rest;
    let with = pre + token + "@"@;
    assert(is_prefix(pre, url)) by {
        assert(url.subrange(0, pre.len() as int) =~= pre);
    }
    assert(url.skip(pre.len() as int) =~= rest);
    lemma_replace_absent(rest, pre, with);
    assert(replace_seq(url, pre, with) == with + replace_seq(rest, pre, with));
    let a = with + rest;
    assert(spec_authed_url(url, token) == a);
    let p = pre.len() as int;
    let k = p + token.len();
    reveal_strlit("@");
    assert(a[k] == '@');
    assert(forall|j: int| p <= j < k ==> a[j] == token[j - p]);
    assert(forall|j: int| p <= j < k ==> a[j] != '@');
    assert(is_prefix(pre, a)) by {
        assert(a.subrange(0, pre.len() as int) =~= pre);
    }
    assert(p < k < a.len() && a[k] == '@' && forall|j: int| p <= j < k ==> a[j] != '@');
    let c = choose|i: int| p < i < a.len() && a[i] == '@' && forall|j: int| p <= j < i ==> a[j] != '@';
    if c < k {
        assert(a[c] != '@');
    } else if c > k {
        assert(a[k] != '@');
    }
    assert(credentials_end(a) == Some(k));
    assert(a.skip(k + 1) =~= rest);
}

/// The message of a session commit: the one given, else an auto-commit note
/// naming the branch.
pub fn commit_message(msg: Option<&str>, branch: &str) -> (r: String)
    ensures
        match msg {
            Some(m) => r@ == m@,
            None => r@ == "gitclaw: auto-commit ("@ + branch@ + ")"@,
        },
{
    match msg {
        Some(m) => m.to_owned(),
        None => "gitclaw: auto-commit (".to_owned().concat(branch).concat(")"),
    }
}

/// The git arguments that commit with a message.
pub fn commit_args(message: &str) -> (r: String)
    ensures
        r@ == "commit -m \""@ + message@ + "\""@,
{
    "commit -m \"".to_owned().concat(message).concat("\"")
}

/// The git arguments that push a branch.
pub fn push_args(branch: &str) -> (r: String)
    ensures
        r@ == "push origin "@ + branch@,
{
    "push origin ".to_owned().concat(branch)
}

/// The command that clones a repository into a directory.
pub fn clone_command(authed: &str, dir: &str) -> (r: String)
    ensures
        r@ == "git clone --depth 1 --no-single-branch "@ + authed@ + " "@ + dir@,
{
    "git clone --depth 1 --no-single-branch ".to_owned().concat(authed).concat(" ").concat(dir)
}

/// The git arguments that bring an existing clone up to date with the default
/// branch, in order.
pub fn sync_args(authed: &str, default_branch: &str) -> (r: Vec<String>)
    ensures
        views_of(r@) == seq![
            "remote set-url origin "@ + authed@,
            "fetch origin"@,
            "checkout "@ + default_branch@,
            "reset --hard origin/"@ + default_branch@,
        ],
{
    let mut v: Vec<String> = Vec::new();
    v.push("remote set-url origin ".to_owned().concat(authed));
    v.push("fetch origin".to_owned());
    v.push("checkout ".to_owned().concat(default_branch));
    v.push("reset --hard origin/".to_owned().concat(default_branch));
    assert(views_of(v@) =~= seq![
        "remote set-url origin "@ + authed@,
        "fetch origin"@,
        "checkout "@ + default_branch@,
        "reset --hard origin/"@ + default_branch@,
    ]);
    v
}

/// The default branch: the one `origin/HEAD` points to, else `main` where
/// `origin/main` exists, else `master`.
pub fn default_branch(symbolic_ref: Option<&str>, has_origin_main: bool) -> (r: String)
    ensures
        match symbolic_ref {
            Some(s) => r@ == replace_seq(s@, "refs/remotes/origin/"@, Seq::empty()),
            None => r@ == (if has_origin_main {
                "main"@
            } else {
                "master"@
            }),
        },
{
    match symbolic_ref {
        Some(s) => {
            proof {
                reveal_strlit("refs/remotes/origin/");
                reveal_strlit("");
                assert(""@ =~= Seq::<char>::empty());
            }
            replace(s, "refs/remotes/origin/", "")
        },
        None => if has_origin_main {
            "main".to_owned()
        } else {
            "master".to_owned()
        },
    }
}

/// The branch and id of a session: a named session is its own branch, its id
/// the branch without the `gitclaw/session-` prefix; a new one gets an id of
/// eight hex digits and the branch `gitclaw/session-<id>`.
pub fn session_names(session: Option<&str>, random: u32) -> (r: (String, String))
    ensures
        match session {
            Some(s) => r.0@ == s@ && r.1@ == (if is_prefix("gitclaw/session-"@, s@) {
                s@.skip("gitclaw/session-"@.len() as int)
            } else {
                s@
            }),
            None => r.1@ == hex_digits(random as nat, 8) && r.0@ == "gitclaw/session-"@ + r.1@,
        },
{
    match session {
        Some(s) => {
            let sid = match strip_prefix(s, "gitclaw/session-") {
                Some(t) => t,
                None => s.to_owned(),
            };
            (s.to_owned(), sid)
        },
        None => {
            let sid = hex8(random);
            ("gitclaw/session-".to_owned().concat(sid.as_str()), sid)
        },
    }
}

/// The git arguments that switch to a session's branch, then the fallback
/// that creates it from the remote one.
pub fn checkout_args(branch: &str) -> (r: (String, String))
    ensures
        r.0@ == "checkout "@ + branch@,
        r.1@ == "checkout -b "@ + branch@ + " origin/"@ + branch@,
{
    (
        "checkout ".to_owned().concat(branch),
        "checkout -b ".to_owned().concat(branch).concat(" origin/").concat(branch),
    )
}

/// The name of a repository: the last segment of its URL without `.git`.
pub open spec fn spec_repo_name(url: Seq<char>) -> Seq<char> {
    trim_end_matches_seq(split_seq(url, '/').last(), ".git"@)
}

pub fn repo_name(url: &str) -> (r: String)
    ensures
        r@ == spec_repo_name(url@),
{
    let parts = split_char(url, '/');
    proof {
        crate::text::lemma_split_nonempty(url@, '/');
    }
    let last = &parts[parts.len() - 1];
    assert(last@ == split_seq(url@, '/').last());
    trim_end_matches(last.as_str(), ".git")
}

/// The `agent.yaml` a new agent starts with.
pub open spec fn spec_agent_yaml(name: Seq<char>, model: Seq<char>) -> Seq<char> {
    "spec_version: \"0.1.0\"\nname: "@ + name + "\nversion: 0.1.0\ndescription: Gitclaw agent for "@ + name
        + "\nmodel:\n  preferred: \""@ + model
        + "\"\n  fallback: []\ntools: [cli, read, write, memory]\nruntime:\n  max_turns: 50\n"@
}

pub fn agent_yaml(name: &str, model: &str) -> (r: String)
    ensures
        r@ == spec_agent_yaml(name@, model@),
{
    "spec_version: \"0.1.0\"\nname: ".to_owned().concat(name).concat(
        "\nversion: 0.1.0\ndescription: Gitclaw agent for ",
    ).concat(name).concat("\nmodel:\n  preferred: \"").concat(model).concat(
        "\"\n  fallback: []\ntools: [cli, read, write, memory]\nruntime:\n  max_turns: 50\n",
    )
}

/// The scaffold of a session's repository: an `agent.yaml` named after the
/// repository, on `openai:gpt-4o-mini`.
pub fn session_agent_yaml(url: &str) -> (r: String)
    ensures
        r@ == spec_agent_yaml(spec_repo_name(url@), "openai:gpt-4o-mini"@),
{
    let name = repo_name(url);
    agent_yaml(name.as_str(), "openai:gpt-4o-mini")
}

/// What a new memory file holds.
pub fn memory_stub() -> (r: &'static str)
    ensures
        r@ == "# Memory\n"@,
{
    "# Memory\n"
}


impl LocalSession {
    /// The commit of an auto-commit, once everything is staged (`git add -A`):
    /// where something is staged, the arguments that commit it with the given
    /// message or the auto-commit note; else none.
    pub fn commit_changes(&self, msg: Option<&str>, staged: bool) -> (r: Option<String>)
        ensures
            !staged ==> r is None,
            staged ==> (r matches Some(a) && a@ == "commit -m \""@ + (match msg {
                Some(m) => m@,
                None => "gitclaw: auto-commit ("@ + self.branch@ + ")"@,
            }) + "\""@),
    {
        if !staged {
            return None;
        }
        let m = commit_message(msg, self.branch.as_str());
        Some(commit_args(m.as_str()))
    }

    /// The arguments that push the session's branch.
    pub fn push(&self) -> (r: String)
        ensures
            r@ == "push origin "@ + self.branch@,
    {
        push_args(self.branch.as_str())
    }

    /// Ending a session: the auto-commit (where something is staged), then
    /// the push.
    pub fn finalize(&self, staged: bool) -> (r: (Option<String>, String))
        ensures
            !staged ==> r.0 is None,
            staged ==> (r.0 matches Some(a) && a@ == "commit -m \"gitclaw: auto-commit ("@ + self.branch@
                + ")\""@),
            r.1@ == "push origin "@ + self.branch@,
    {
        let c = self.commit_changes(None, staged);
        proof {
            assert("commit -m \""@ + ("gitclaw: auto-commit ("@ + self.branch@ + ")"@) + "\""@ =~= "commit -m \"gitclaw: auto-commit ("@
                + self.branch@ + ")\""@) by {
                reveal_strlit("commit -m \"");
                reveal_strlit("gitclaw: auto-commit (");
                reveal_strlit("commit -m \"gitclaw: auto-commit (");
                reveal_strlit(")");
                reveal_strlit("\"");
                reveal_strlit(")\"");
            }
        }
        (c, self.push())
    }
}

} // verus!
