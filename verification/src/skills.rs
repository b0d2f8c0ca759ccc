//! Skills: directories with a `SKILL.md`, listed in the prompt and expanded on
//! `/skill:` commands.
use vstd::prelude::*;

use crate::frontmatter::spec_parse_frontmatter;
use crate::sorting::Named;
use crate::text::{chars_of, is_ws, is_whitespace, join, join_seq, str_eq, string_of_chars, trim, trim_seq, views_of};

verus! {

#[derive(Clone)]
pub struct SkillMetadata {
    pub name: String,
    pub description: String,
    pub directory: String,
    pub file_path: String,
}

impl Named for SkillMetadata {
    open spec fn name_view(&self) -> Seq<char> {
        self.name@
    }

    fn name_str(&self) -> (r: &str) {
        self.name.as_str()
    }
}

pub struct ParsedSkill {
    pub meta: SkillMetadata,
    pub instructions: String,
    pub has_scripts: bool,
    pub has_references: bool,
}

pub open spec fn kebab_char(c: char) -> bool {
    ('a' <= c && c <= 'z') || ('0' <= c && c <= '9')
}

/// Kebab case: lowercase letters and digits in words joined by single hyphens.
pub open spec fn is_kebab(s: Seq<char>) -> bool {
    &&& s.len() > 0
    &&& kebab_char(s[0])
    &&& kebab_char(s.last())
    &&& forall|i: int| 0 <= i < s.len() ==> kebab_char(#[trigger] s[i]) || s[i] == '-'
    &&& forall|i: int| 0 <= i < s.len() - 1 && #[trigger] s[i] == '-' ==> s[i + 1] != '-'
}

/// Whether a name is in kebab case.
pub fn kebab_case(name: &str) -> (r: bool)
    ensures
        r == is_kebab(name@),
{
    let cs = chars_of(name);
    let n = cs.len();
    if n == 0 {
        return false;
    }
    let mut i: usize = 0;
    while i < n
        invariant
            n == cs@.len(),
            cs@ == name@,
            i <= n,
            forall|k: int| 0 <= k < i ==> kebab_char(#[trigger] cs@[k]) || cs@[k] == '-',
            forall|k: int| 0 <= k < i && k < n - 1 && #[trigger] cs@[k] == '-' ==> cs@[k + 1] != '-',
        decreases n - i,
    {
        let c = cs[i];
        let ok = ('a' <= c && c <= 'z') || ('0' <= c && c <= '9') || c == '-';
        if !ok {
            return false;
        }
        if c == '-' && i + 1 < n && cs[i + 1] == '-' {
            return false;
        }
        i = i + 1;
    }
    let first = cs[0];
    let last = cs[n - 1];
    (('a' <= first && first <= 'z') || ('0' <= first && first <= '9')) && (('a' <= last && last <= 'z') || (
    '0' <= last && last <= '9'))
}

/// A skill read from its `SKILL.md`: the front matter must give a name and a
/// description; the name must be the directory's and in kebab case.
pub fn skill_from_file(dir_name: &str, directory: &str, file_path: &str, content: &str) -> (r: Option<SkillMetadata>)
    ensures
        ({
            let fm = spec_parse_frontmatter(content@).0;
            match (fm.get_str("name"@), fm.get_str("description"@)) {
                (Some(n), Some(d)) => if n == dir_name@ && is_kebab(n) {
                    r matches Some(s) && s.name@ == n && s.description@ == d && s.directory@ == directory@
                        && s.file_path@ == file_path@
                } else {
                    r is None
                },
                _ => r is None,
            }
        }),
{
    let (fm, _body) = crate::frontmatter::parse_frontmatter(content);
    let name = match fm.get_str("name") {
        Some(n) => n,
        None => return None,
    };
    let description = match fm.get_str("description") {
        Some(d) => d,
        None => return None,
    };
    if !str_eq(name.as_str(), dir_name) || !kebab_case(name.as_str()) {
        return None;
    }
    Some(
        SkillMetadata {
            name,
            description,
            directory: directory.to_owned(),
            file_path: file_path.to_owned(),
        },
    )
}

/// A loaded skill: its instructions are the trimmed body of `SKILL.md`.
pub fn parse_skill(meta: SkillMetadata, content: &str, has_scripts: bool, has_references: bool) -> (r: ParsedSkill)
    ensures
        r.meta == meta,
        r.instructions@ == trim_seq(spec_parse_frontmatter(content@).1),
        r.has_scripts == has_scripts,
        r.has_references == has_references,
{
    let (_fm, body) = crate::frontmatter::parse_frontmatter(content);
    ParsedSkill { meta, instructions: trim(body.as_str()), has_scripts, has_references }
}

pub open spec fn skill_entry(s: SkillMetadata) -> Seq<char> {
    "<skill>\n<name>"@ + s.name@ + "</name>\n<description>"@ + s.description@ + "</description>\n</skill>"@
}

pub open spec fn skill_entries(s: Seq<SkillMetadata>) -> Seq<Seq<char>> {
    s.map_values(|k: SkillMetadata| skill_entry(k))
}

/// The prompt section listing skills; empty where there are none.
pub open spec fn spec_skills_prompt(s: Seq<SkillMetadata>) -> Seq<char> {
    if s.len() == 0 {
        Seq::empty()
    } else {
        "# Skills\n\n<available_skills>\n"@ + join_seq(skill_entries(s), "\n"@)
            + "\n</available_skills>\n\nWhen a task matches a skill, use the `read` tool to load `skills/<name>/SKILL.md` for full instructions. Scripts within a skill are relative to the skill's directory (e.g., `skills/<name>/scripts/`). Use the `cli` tool to execute them."@
    }
}

pub fn format_skills_for_prompt(skills: &[SkillMetadata]) -> (r: String)
    ensures
        r@ == spec_skills_prompt(skills@),
{
    if skills.len() == 0 {
        return String::new();
    }
    let mut entries: Vec<String> = Vec::new();
    let mut i: usize = 0;
    while i < skills.len()
        invariant
            i <= skills@.len(),
            views_of(entries@) == skill_entries(skills@.take(i as int)),
        decreases skills@.len() - i,
    {
        let s = &skills[i];
        let e = "<skill>\n<name>".to_owned().concat(s.name.as_str()).concat("</name>\n<description>").concat(
            s.description.as_str(),
        ).concat("</description>\n</skill>");
        let ghost prev = entries@;
        entries.push(e);
        proof {
            assert(skills@.take(i + 1) == skills@.take(i as int).push(skills@[i as int]));
            assert(views_of(entries@) =~= views_of(prev).push(e@));
            assert(skill_entries(skills@.take(i + 1)) =~= skill_entries(skills@.take(i as int)).push(
                skill_entry(skills@[i as int]),
            ));
        }
        i = i + 1;
    }
    assert(skills@.take(skills@.len() as int) == skills@);
    let body = join(&entries, "\n");
    "# Skills\n\n<available_skills>\n".to_owned().concat(body.as_str()).concat(
        "\n</available_skills>\n\nWhen a task matches a skill, use the `read` tool to load `skills/<name>/SKILL.md` for full instructions. Scripts within a skill are relative to the skill's directory (e.g., `skills/<name>/scripts/`). Use the `cli` tool to execute them.",
    )
}

pub open spec fn skill_name_char(c: char) -> bool {
    kebab_char(c) || c == '-'
}

/// The length of the run of characters from `i` on that satisfy `skill_name_char`.
pub open spec fn name_run_end(s: Seq<char>, i: int) -> int
    decreases s.len() - i,
{
    if i < s.len() && skill_name_char(s[i]) {
        name_run_end(s, i + 1)
    } else {
        i
    }
}

/// The end of the run of whitespace from `i` on.
pub open spec fn ws_run_end(s: Seq<char>, i: int) -> int
    decreases s.len() - i,
{
    if i < s.len() && is_ws(s[i]) {
        ws_run_end(s, i + 1)
    } else {
        i
    }
}

/// A `/skill:name args` command: the name is the longest run of lowercase
/// letters, digits and hyphens after the prefix (at least one), the arguments
/// what follows the whitespace after it, trimmed.
pub open spec fn spec_skill_command(s: Seq<char>) -> Option<(Seq<char>, Seq<char>)> {
    let p = "/skill:"@;
    if s.len() >= p.len() && s.subrange(0, p.len() as int) == p {
        let e = name_run_end(s, p.len() as int);
        if e > p.len() {
            Some((s.subrange(p.len() as int, e), trim_seq(s.skip(ws_run_end(s, e)))))
        } else {
            None
        }
    } else {
        None
    }
}

/// Reads a `/skill:` command into the skill's name and the arguments.
pub fn parse_skill_command(input: &str) -> (r: Option<(String, String)>)
    ensures
        match r {
            Some((n, a)) => spec_skill_command(input@) == Some((n@, a@)),
            None => spec_skill_command(input@) is None,
        },
{
    let cs = chars_of(input);
    let prefix = chars_of("/skill:");
    if !crate::text::chars_starts_with(cs.as_slice(), prefix.as_slice()) {
        return None;
    }
    let start = prefix.len();
    let mut e: usize = start;
    proof {
        assert(name_run_end(input@, start as int) == name_run_end(input@, e as int));
    }
    while e < cs.len() && ((cs[e] >= 'a' && cs[e] <= 'z') || (cs[e] >= '0' && cs[e] <= '9') || cs[e] == '-')
        invariant
            start <= e <= cs@.len(),
            cs@ == input@,
            name_run_end(input@, start as int) == name_run_end(input@, e as int),
        decreases cs@.len() - e,
    {
        e = e + 1;
    }
    if e == start {
        return None;
    }
    let mut w: usize = e;
    while w < cs.len() && is_whitespace(cs[w])
        invariant
            e <= w <= cs@.len(),
            cs@ == input@,
            ws_run_end(input@, e as int) == ws_run_end(input@, w as int),
        decreases cs@.len() - w,
    {
        w = w + 1;
    }
    let name = crate::frontmatter::substring(cs.as_slice(), start, e);
    let rest = crate::frontmatter::substring(cs.as_slice(), w, cs.len());
    assert(rest@ =~= input@.skip(w as int));
    Some((name, trim(rest.as_str())))
}

/// The index of the first skill of a name.
pub fn find_skill(skills: &[SkillMetadata], name: &str) -> (r: Option<usize>)
    ensures
        match r {
            Some(i) => i < skills@.len() && skills@[i as int].name@ == name@ && forall|j: int|
                0 <= j < i ==> skills@[j].name@ != name@,
            None => forall|j: int| 0 <= j < skills@.len() ==> skills@[j].name@ != name@,
        },
{
    let mut i: usize = 0;
    while i < skills.len()
        invariant
            i <= skills@.len(),
            forall|j: int| 0 <= j < i ==> skills@[j].name@ != name@,
        decreases skills@.len() - i,
    {
        if str_eq(skills[i].name.as_str(), name) {
            return Some(i);
        }
        i = i + 1;
    }
    None
}

/// The prompt a skill command expands to: the skill's instructions in a
/// `skill` element, then the arguments where there are any.
pub open spec fn spec_expand_skill(name: Seq<char>, directory: Seq<char>, instructions: Seq<char>, args: Seq<char>) -> Seq<char> {
    "<skill name=\""@ + name + "\" baseDir=\""@ + directory + "\">\n"@ + instructions + "\n</skill>"@ + (if args.len()
        == 0 {
        Seq::empty()
    } else {
        "\n\n"@ + args
    })
}

pub fn expand_skill(name: &str, directory: &str, instructions: &str, args: &str) -> (r: String)
    ensures
        r@ == spec_expand_skill(name@, directory@, instructions@, args@),
{
    let base = "<skill name=\"".to_owned().concat(name).concat("\" baseDir=\"").concat(directory).concat(
        "\">\n",
    ).concat(instructions).concat("\n</skill>");
    if args.is_empty() {
        assert(base@ + Seq::<char>::empty() =~= base@);
        base
    } else {
        base.concat("\n\n").concat(args)
    }
}

} // verus!
