//! The built-in tools: reading their arguments, paging and truncating their
//! output, and the texts they answer with.
use vstd::prelude::*;

use crate::agent_types::AgentToolResult;
use crate::ai_types::TextContent;
use crate::data::{lookup, pairs_view, Data, DataValue};
use crate::env_keys::{join_path, join_path_str};
use crate::text::{
    decimal, decimal_string, is_prefix, join, join_seq, signed_decimal, split_char, split_seq, starts_with,
    str_eq, trim, trim_seq, utf8_boundary, utf8_head, utf8_len, utf8_tail, views_of, ceil_boundary,
    floor_boundary, lemma_ceil_boundary, lemma_floor_boundary, lemma_split_at_boundary,
};

verus! {

pub const MAX_OUTPUT: usize = 100000;

pub const MAX_LINES: usize = 2000;

pub const MAX_BYTES: usize = 100000;

pub const DEFAULT_TIMEOUT: u64 = 120;

/// An argument of a call, by name.
pub open spec fn arg(args: Seq<(String, DataValue)>, key: Seq<char>) -> Option<Data> {
    lookup(pairs_view(args), key)
}

/// A string argument.
pub fn arg_str(args: &Vec<(String, DataValue)>, key: &str) -> (r: Option<String>)
    ensures
        match arg(args@, key@) {
            Some(Data::Str(s)) => r matches Some(v) && v@ == s,
            _ => r is None,
        },
{
    let ghost es = pairs_view(args@);
    let mut i: usize = 0;
    assert(es.skip(0) == es);
    while i < args.len()
        invariant
            i <= args@.len(),
            es == pairs_view(args@),
            lookup(es, key@) == lookup(es.skip(i as int), key@),
        decreases args@.len() - i,
    {
        assert(es.skip(i as int)[0] == (args@[i as int].0@, args@[i as int].1@));
        assert(es.skip(i as int).drop_first() == es.skip(i + 1));
        if str_eq(args[i].0.as_str(), key) {
            return match args[i].1.as_str() {
                Some(s) => Some(s.to_owned()),
                None => None,
            };
        }
        i = i + 1;
    }
    None
}

/// An argument that is a non-negative integer.
pub fn arg_u64(args: &Vec<(String, DataValue)>, key: &str) -> (r: Option<u64>)
    ensures
        r == (match arg(args@, key@) {
            Some(d) => d.u64_of(),
            None => None,
        }),
{
    let ghost es = pairs_view(args@);
    let mut i: usize = 0;
    assert(es.skip(0) == es);
    while i < args.len()
        invariant
            i <= args@.len(),
            es == pairs_view(args@),
            lookup(es, key@) == lookup(es.skip(i as int), key@),
        decreases args@.len() - i,
    {
        assert(es.skip(i as int)[0] == (args@[i as int].0@, args@[i as int].1@));
        assert(es.skip(i as int).drop_first() == es.skip(i + 1));
        if str_eq(args[i].0.as_str(), key) {
            return args[i].1.as_u64();
        }
        i = i + 1;
    }
    None
}

/// A boolean argument.
pub fn arg_bool(args: &Vec<(String, DataValue)>, key: &str) -> (r: Option<bool>)
    ensures
        r == (match arg(args@, key@) {
            Some(d) => d.bool_of(),
            None => None,
        }),
{
    let ghost es = pairs_view(args@);
    let mut i: usize = 0;
    assert(es.skip(0) == es);
    while i < args.len()
        invariant
            i <= args@.len(),
            es == pairs_view(args@),
            lookup(es, key@) == lookup(es.skip(i as int), key@),
        decreases args@.len() - i,
    {
        assert(es.skip(i as int)[0] == (args@[i as int].0@, args@[i as int].1@));
        assert(es.skip(i as int).drop_first() == es.skip(i + 1));
        if str_eq(args[i].0.as_str(), key) {
            return args[i].1.as_bool();
        }
        i = i + 1;
    }
    None
}

pub open spec fn str_arg(args: Seq<(String, DataValue)>, key: Seq<char>) -> Option<Seq<char>> {
    match arg(args, key) {
        Some(Data::Str(s)) => Some(s),
        _ => None,
    }
}

/// Where output over the limit is cut: the first character boundary at or
/// after the point that leaves the last 100000 bytes.
pub open spec fn output_cut(text: Seq<char>) -> int {
    ceil_boundary(text, utf8_len(text) - MAX_OUTPUT)
}

/// Output over the limit keeps its last ~100KB (whole characters, at most
/// 100000 bytes), after a notice.
pub open spec fn spec_truncate_output(text: Seq<char>) -> Seq<char> {
    if utf8_len(text) > MAX_OUTPUT {
        "[output truncated, showing last ~100KB]\n"@ + utf8_tail(text, output_cut(text))
    } else {
        text
    }
}

/// Truncates command output to its last ~100KB.
pub fn truncate_output(text: &str) -> (r: String)
    ensures
        r@ == spec_truncate_output(text@),
        utf8_len(text@) > MAX_OUTPUT ==> {
            let kept = utf8_tail(text@, output_cut(text@));
            &&& text@ == utf8_head(text@, output_cut(text@)) + kept
            &&& utf8_len(kept) <= MAX_OUTPUT
            &&& utf8_boundary(text@, utf8_len(text@) - MAX_OUTPUT) ==> utf8_len(kept) == MAX_OUTPUT
        },
{
    let n = text.as_bytes().len();
    if n > MAX_OUTPUT {
        let cut = crate::text::ceil_char_boundary(text, n - MAX_OUTPUT);
        proof {
            lemma_ceil_boundary(text@, utf8_len(text@) - MAX_OUTPUT);
            lemma_split_at_boundary(text@, cut as int);
        }
        let (_head, tail) = crate::text::split_at_byte(text, cut);
        "[output truncated, showing last ~100KB]\n".to_owned().concat(tail.as_str())
    } else {
        text.to_owned()
    }
}

pub struct PaginateResult {
    pub text: String,
    pub has_more: bool,
    pub shown_range: (usize, usize),
    pub total_lines: usize,
}

/// The first line shown: the 1-based offset, else the first.
pub open spec fn page_start(offset: Option<usize>) -> int {
    match offset {
        Some(o) => if o == 0 {
            0
        } else {
            o - 1
        },
        None => 0,
    }
}

/// The line after the last one shown.
pub open spec fn page_end(text: Seq<char>, offset: Option<usize>, limit: Option<usize>) -> int {
    let total = split_seq(text, '\n').len() as int;
    let want = page_start(offset) + match limit {
        Some(l) => l as int,
        None => MAX_LINES as int,
    };
    if want < total {
        want
    } else {
        total
    }
}

/// The selected lines, joined.
pub open spec fn page_lines(text: Seq<char>, offset: Option<usize>, limit: Option<usize>) -> Seq<char> {
    join_seq(split_seq(text, '\n').subrange(page_start(offset), page_end(text, offset, limit)), "\n"@)
}

/// A page of a text's lines: from the 1-based offset, at most `limit` lines
/// (2000 by default), cut to its first 100KB (at the last character boundary
/// within 100000 bytes); an offset past the last line is an error.
pub open spec fn page_ok(text: Seq<char>, offset: Option<usize>, limit: Option<usize>, p: PaginateResult) -> bool {
    let total = split_seq(text, '\n').len() as int;
    let sel = page_lines(text, offset, limit);
    let cut = utf8_len(sel) > MAX_BYTES;
    &&& p.text@ == (if cut {
        utf8_head(sel, floor_boundary(sel, MAX_BYTES as int))
    } else {
        sel
    })
    &&& p.has_more == (page_end(text, offset, limit) < total || cut)
    &&& p.shown_range.0 == page_start(offset) + 1
    &&& p.shown_range.1 == page_end(text, offset, limit)
    &&& p.total_lines == total
}

pub open spec fn page_error(text: Seq<char>, offset: Option<usize>) -> Seq<char> {
    "Offset "@ + decimal((page_start(offset) + 1) as nat) + " is beyond end of file ("@ + decimal(
        split_seq(text, '\n').len(),
    ) + " lines)"@
}

pub fn paginate_lines(text: &str, offset: Option<usize>, limit: Option<usize>) -> (r: Result<PaginateResult, String>)
    ensures
        page_start(offset) >= split_seq(text@, '\n').len() ==> (r matches Err(e) && e@ == page_error(
            text@,
            offset,
        )),
        page_start(offset) < split_seq(text@, '\n').len() ==> (r matches Ok(p) && page_ok(text@, offset, limit, p)),
{
    let lines = split_char(text, '\n');
    let total = lines.len();
    let start: usize = match offset {
        Some(o) => if o == 0 {
            0
        } else {
            o - 1
        },
        None => 0,
    };
    if start >= total {
        let shown = decimal_string(start as u64 + 1);
        let t = decimal_string(total as u64);
        return Err(
            "Offset ".to_owned().concat(shown.as_str()).concat(" is beyond end of file (").concat(t.as_str()).concat(
                " lines)",
            ),
        );
    }
    let max_lines = match limit {
        Some(l) => l,
        None => MAX_LINES,
    };
    let end = if max_lines < total - start {
        start + max_lines
    } else {
        total
    };
    let mut picked: Vec<String> = Vec::new();
    let mut i: usize = start;
    while i < end
        invariant
            start <= i <= end,
            end <= lines@.len(),
            views_of(picked@) == views_of(lines@).subrange(start as int, i as int),
        decreases end - i,
    {
        let ghost prev = picked@;
        picked.push(lines[i].clone());
        assert(views_of(picked@) =~= views_of(prev).push(lines@[i as int]@));
        assert(views_of(lines@).subrange(start as int, i + 1) =~= views_of(lines@).subrange(start as int, i as int).push(
            lines@[i as int]@,
        ));
        i = i + 1;
    }
    let selected = join(&picked, "\n");
    let n = selected.as_str().as_bytes().len();
    let cut = n > MAX_BYTES;
    let page_text = if cut {
        let at = crate::text::floor_char_boundary(selected.as_str(), MAX_BYTES);
        proof {
            lemma_floor_boundary(selected@, MAX_BYTES as int);
        }
        let (head, _tail) = crate::text::split_at_byte(selected.as_str(), at);
        head
    } else {
        selected
    };
    Ok(
        PaginateResult {
            text: page_text,
            has_more: end < total || cut,
            shown_range: (start + 1, end),
            total_lines: total,
        },
    )
}

/// A tool result of one text.
pub fn text_result(text: String) -> (r: AgentToolResult)
    ensures
        r@ == crate::agent_loop::text_result_view(text@),
{
    AgentToolResult::text(text)
}

/// Where the built-in tools work and how long a command may run.
pub struct BuiltinToolsConfig {
    pub dir: String,
    pub timeout: Option<u64>,
}

/// The four built-in tools (command, read, write, memory), all working in the
/// configured directory; the command tool with the configured timeout.
pub fn builtin_tools(config: &BuiltinToolsConfig) -> (r: (CliTool, ReadTool, WriteTool, MemoryTool))
    ensures
        r.0.cwd@ == config.dir@,
        r.0.default_timeout == (match config.timeout {
            Some(t) => t,
            None => DEFAULT_TIMEOUT,
        }),
        r.1.cwd@ == config.dir@,
        r.2.cwd@ == config.dir@,
        r.3.cwd@ == config.dir@,
{
    (
        CliTool::new(config.dir.clone(), config.timeout),
        ReadTool::new(config.dir.clone()),
        WriteTool::new(config.dir.clone()),
        MemoryTool::new(config.dir.clone()),
    )
}

pub struct CliTool {
    pub cwd: String,
    pub default_timeout: u64,
}

impl CliTool {
    /// The shell tool; commands time out after 120 seconds unless set.
    pub fn new(cwd: String, timeout: Option<u64>) -> (r: CliTool)
        ensures
            r.cwd == cwd,
            r.default_timeout == (match timeout {
                Some(t) => t,
                None => DEFAULT_TIMEOUT,
            }),
    {
        CliTool {
            cwd,
            default_timeout: match timeout {
                Some(t) => t,
                None => DEFAULT_TIMEOUT,
            },
        }
    }

    /// The command to run and its timeout in seconds.
    pub fn args(&self, args: &Vec<(String, DataValue)>) -> (r: Result<(String, u64), String>)
        ensures
            match str_arg(args@, "command"@) {
                Some(c) => r matches Ok((cmd, t)) && cmd@ == c && t == (match arg(args@, "timeout"@) {
                    Some(d) => match d.u64_of() {
                        Some(n) => n,
                        None => self.default_timeout,
                    },
                    None => self.default_timeout,
                }),
                None => r matches Err(e) && e@ == "Missing 'command' argument"@,
            },
    {
        let command = match arg_str(args, "command") {
            Some(c) => c,
            None => return Err("Missing 'command' argument".to_owned()),
        };
        let timeout = match arg_u64(args, "timeout") {
            Some(t) => t,
            None => self.default_timeout,
        };
        Ok((command, timeout))
    }
}

/// The text a command's output is shown as: stdout then stderr, truncated, or
/// `(no output)`.
pub open spec fn spec_cli_text(stdout: Seq<char>, stderr: Seq<char>) -> Seq<char> {
    if (stdout + stderr).len() == 0 {
        "(no output)"@
    } else {
        spec_truncate_output(stdout + stderr)
    }
}

/// The outcome of a command: its output (with its exit code as details) when
/// it exits with 0, else an error with the output and the exit code.
pub fn cli_outcome(stdout: &str, stderr: &str, code: i32) -> (r: Result<AgentToolResult, String>)
    ensures
        code != 0 ==> (r matches Err(e) && e@ == spec_cli_text(stdout@, stderr@) + "\n\nExit code: "@ + signed_decimal(
            code as int,
        )),
        code == 0 ==> (r matches Ok(res) && res@.content == crate::agent_loop::text_result_view(
            spec_cli_text(stdout@, stderr@),
        ).content && res@.details == Some(Data::Object(seq![("exitCode"@, crate::data::num_data(0))]))),
{
    let both = stdout.to_owned().concat(stderr);
    let text = if both.as_str().is_empty() {
        "(no output)".to_owned()
    } else {
        truncate_output(both.as_str())
    };
    if code != 0 {
        let shown = crate::text::i32_string(code);
        return Err(text.concat("\n\nExit code: ").concat(shown.as_str()));
    }
    let mut res = AgentToolResult::text(text);
    res.details = Some(DataValue::obj1("exitCode", DataValue::from_u64(0)));
    Ok(res)
}

/// The message of a command that timed out.
pub fn cli_timeout_message(seconds: u64) -> (r: String)
    ensures
        r@ == "Command timed out after "@ + decimal(seconds as nat) + " seconds"@,
{
    let s = decimal_string(seconds);
    "Command timed out after ".to_owned().concat(s.as_str()).concat(" seconds")
}

pub struct ReadTool {
    pub cwd: String,
}

/// A path as given where absolute, else under the tool's directory.
pub open spec fn spec_resolve_path(cwd: Seq<char>, path: Seq<char>) -> Seq<char> {
    if is_prefix("/"@, path) {
        path
    } else {
        join_path(cwd, path)
    }
}

pub fn resolve_path(cwd: &str, path: &str) -> (r: String)
    ensures
        r@ == spec_resolve_path(cwd@, path@),
{
    if starts_with(path, "/") {
        path.to_owned()
    } else {
        join_path_str(cwd, path)
    }
}

impl ReadTool {
    pub fn new(cwd: String) -> (r: ReadTool)
        ensures
            r.cwd == cwd,
    {
        ReadTool { cwd }
    }

    /// The path to read and the optional offset and limit.
    pub fn args(&self, args: &Vec<(String, DataValue)>) -> (r: Result<(String, Option<u64>, Option<u64>), String>)
        ensures
            match str_arg(args@, "path"@) {
                Some(p) => r matches Ok((path, offset, limit)) && path@ == p && offset == (match arg(
                    args@,
                    "offset"@,
                ) {
                    Some(d) => d.u64_of(),
                    None => None,
                }) && limit == (match arg(args@, "limit"@) {
                    Some(d) => d.u64_of(),
                    None => None,
                }),
                None => r matches Err(e) && e@ == "Missing 'path' argument"@,
            },
    {
        let path = match arg_str(args, "path") {
            Some(p) => p,
            None => return Err("Missing 'path' argument".to_owned()),
        };
        Ok((path, arg_u64(args, "offset"), arg_u64(args, "limit")))
    }
}

/// Whether data looks binary: a zero byte among its first 8192 bytes.
pub open spec fn spec_is_binary(data: Seq<u8>) -> bool {
    exists|i: int| 0 <= i < data.len() && i < 8192 && data[i] == 0
}

pub fn is_binary(data: &[u8]) -> (r: bool)
    ensures
        r == spec_is_binary(data@),
{
    let n = if data.len() < 8192 {
        data.len()
    } else {
        8192
    };
    let mut i: usize = 0;
    while i < n
        invariant
            i <= n,
            n <= data@.len(),
            n == data@.len() || n == 8192,
            n <= 8192,
            forall|j: int| 0 <= j < i ==> data@[j] != 0,
        decreases n - i,
    {
        if data[i] == 0 {
            assert(0 <= i < data@.len() && i < 8192 && data@[i as int] == 0);
            return true;
        }
        i = i + 1;
    }
    false
}

/// What a binary file is shown as.
pub fn binary_notice(path: &str, size: usize) -> (r: String)
    ensures
        r@ == "[Binary file: "@ + path@ + " ("@ + decimal(size as nat) + " bytes)]"@,
{
    let s = decimal_string(size as u64);
    "[Binary file: ".to_owned().concat(path).concat(" (").concat(s.as_str()).concat(" bytes)]")
}

/// A page as shown: its text, then where more follows, which lines were shown
/// and the offset to continue from.
pub open spec fn spec_page_text(p: PaginateResult) -> Seq<char> {
    p.text@ + if p.has_more {
        "\n\n[Showing lines "@ + decimal(p.shown_range.0 as nat) + "-"@ + decimal(p.shown_range.1 as nat) + " of "@
            + decimal(p.total_lines as nat) + ". Use offset="@ + decimal((p.shown_range.1 + 1) as nat)
            + " to continue.]"@
    } else {
        Seq::empty()
    }
}

/// A text of at most 2000 lines and 100000 bytes, read from its start with no
/// limit, comes back whole on one page, with no note that more follows.
pub proof fn lemma_whole_text_page(text: Seq<char>, p: PaginateResult)
    requires
        split_seq(text, '\n').len() <= MAX_LINES,
        utf8_len(text) <= MAX_BYTES,
        page_ok(text, None, None, p),
    ensures
        p.text@ == text,
        !p.has_more,
        p.shown_range == (1usize, split_seq(text, '\n').len() as usize),
        spec_page_text(p) == text,
{
    reveal_strlit("\n");
    let parts = split_seq(text, '\n');
    assert(parts.subrange(0, parts.len() as int) =~= parts);
    crate::text::lemma_join_split(text, '\n');
    assert("\n"@ =~= seq!['\n']);
    assert(page_lines(text, None, None) == text);
    assert(p.text@ + Seq::<char>::empty() =~= p.text@);
}

pub fn page_text(p: &PaginateResult) -> (r: String)
    requires
        p.shown_range.1 < u64::MAX,
    ensures
        r@ == spec_page_text(*p),
{
    if !p.has_more {
        assert(p.text@ + Seq::<char>::empty() =~= p.text@);
        return p.text.clone();
    }
    let a = decimal_string(p.shown_range.0 as u64);
    let b = decimal_string(p.shown_range.1 as u64);
    let t = decimal_string(p.total_lines as u64);
    let next = decimal_string(p.shown_range.1 as u64 + 1);
    p.text.clone().concat("\n\n[Showing lines ").concat(a.as_str()).concat("-").concat(b.as_str()).concat(" of ").concat(
        t.as_str(),
    ).concat(". Use offset=").concat(next.as_str()).concat(" to continue.]")
}

pub struct WriteTool {
    pub cwd: String,
}

impl WriteTool {
    pub fn new(cwd: String) -> (r: WriteTool)
        ensures
            r.cwd == cwd,
    {
        WriteTool { cwd }
    }

    /// The path, the content, and whether to create missing directories (yes
    /// unless `createDirs` is `false`).
    pub fn args(&self, args: &Vec<(String, DataValue)>) -> (r: Result<(String, String, bool), String>)
        ensures
            match (str_arg(args@, "path"@), str_arg(args@, "content"@)) {
                (Some(p), Some(c)) => r matches Ok((path, content, dirs)) && path@ == p && content@ == c && dirs
                    == (match arg(args@, "createDirs"@) {
                    Some(d) => match d.bool_of() {
                        Some(b) => b,
                        None => true,
                    },
                    None => true,
                }),
                (None, _) => r matches Err(e) && e@ == "Missing 'path' argument"@,
                (Some(_), None) => r matches Err(e) && e@ == "Missing 'content' argument"@,
            },
    {
        let path = match arg_str(args, "path") {
            Some(p) => p,
            None => return Err("Missing 'path' argument".to_owned()),
        };
        let content = match arg_str(args, "content") {
            Some(c) => c,
            None => return Err("Missing 'content' argument".to_owned()),
        };
        let dirs = match arg_bool(args, "createDirs") {
            Some(b) => b,
            None => true,
        };
        Ok((path, content, dirs))
    }
}

/// The answer after writing: how many bytes went to which path.
pub fn write_message(path: &str, content: &str) -> (r: String)
    ensures
        r@ == "Wrote "@ + decimal(utf8_len(content@) as nat) + " bytes to "@ + path@,
{
    let n = content.as_bytes().len();
    let s = decimal_string(n as u64);
    "Wrote ".to_owned().concat(s.as_str()).concat(" bytes to ").concat(path)
}

pub struct MemoryTool {
    pub cwd: String,
}

/// What a memory call asks for.
pub enum MemoryAction {
    Load,
    Save { content: String, message: String },
}

impl MemoryTool {
    pub fn new(cwd: String) -> (r: MemoryTool)
        ensures
            r.cwd == cwd,
    {
        MemoryTool { cwd }
    }

    /// The action: `load`, else a save of the content with a commit message
    /// (`Update memory` by default).
    pub fn args(&self, args: &Vec<(String, DataValue)>) -> (r: Result<MemoryAction, String>)
        ensures
            match str_arg(args@, "action"@) {
                None => r matches Err(e) && e@ == "Missing 'action' argument"@,
                Some(a) => if a == "load"@ {
                    r matches Ok(MemoryAction::Load)
                } else {
                    match str_arg(args@, "content"@) {
                        None => r matches Err(e) && e@ == "content is required for save action"@,
                        Some(c) => r matches Ok(MemoryAction::Save { content, message }) && content@ == c
                            && message@ == (match str_arg(args@, "message"@) {
                            Some(m) => m,
                            None => "Update memory"@,
                        }),
                    }
                },
            },
    {
        let action = match arg_str(args, "action") {
            Some(a) => a,
            None => return Err("Missing 'action' argument".to_owned()),
        };
        if str_eq(action.as_str(), "load") {
            return Ok(MemoryAction::Load);
        }
        let content = match arg_str(args, "content") {
            Some(c) => c,
            None => return Err("content is required for save action".to_owned()),
        };
        let message = match arg_str(args, "message") {
            Some(m) => m,
            None => "Update memory".to_owned(),
        };
        Ok(MemoryAction::Save { content, message })
    }
}

/// The answer to `load`: the trimmed memory, or that there is none yet (no
/// file, an empty one, or only the heading).
pub open spec fn spec_memory_load(text: Option<Seq<char>>) -> Seq<char> {
    match text {
        Some(t) => if trim_seq(t).len() == 0 || trim_seq(t) == "# Memory"@ {
            "No memories yet."@
        } else {
            trim_seq(t)
        },
        None => "No memories yet."@,
    }
}

pub fn memory_load_text(text: Option<&str>) -> (r: String)
    ensures
        r@ == spec_memory_load(match text {
            Some(t) => Some(t@),
            None => None,
        }),
{
    match text {
        Some(t) => {
            let trimmed = trim(t);
            if trimmed.as_str().is_empty() || str_eq(trimmed.as_str(), "# Memory") {
                "No memories yet.".to_owned()
            } else {
                trimmed
            }
        },
        None => "No memories yet.".to_owned(),
    }
}

/// The shell command that commits the memory file, with the message's double
/// quotes escaped.
pub fn memory_commit_command(message: &str) -> (r: String)
    ensures
        r@ == "git add \"memory/MEMORY.md\" && git commit -m \""@ + crate::text::replace_seq(
            message@,
            "\""@,
            "\\\""@,
        ) + "\""@,
{
    proof {
        reveal_strlit("\"");
    }
    let escaped = crate::text::replace(message, "\"", "\\\"");
    "git add \"memory/MEMORY.md\" && git commit -m \"".to_owned().concat(escaped.as_str()).concat("\"")
}

/// The answer after a save, by how the commit went: committed, failed with an
/// error output, or could not run.
pub enum CommitOutcome {
    Committed,
    Failed(String),
    NotRun,
}

pub fn memory_save_message(message: &str, outcome: &CommitOutcome) -> (r: String)
    ensures
        match outcome {
            CommitOutcome::Committed => r@ == "Memory saved and committed: \""@ + message@ + "\""@,
            CommitOutcome::Failed(stderr) => r@ == "Memory saved to memory/MEMORY.md but git commit failed: "@
                + trim_seq(stderr@) + ". The file was still written."@,
            CommitOutcome::NotRun => r@
                == "Memory saved to memory/MEMORY.md but git commit failed. The file was still written."@,
        },
{
    match outcome {
        CommitOutcome::Committed => "Memory saved and committed: \"".to_owned().concat(message).concat("\""),
        CommitOutcome::Failed(stderr) => {
            let t = trim(stderr.as_str());
            "Memory saved to memory/MEMORY.md but git commit failed: ".to_owned().concat(t.as_str()).concat(
                ". The file was still written.",
            )
        },
        CommitOutcome::NotRun => "Memory saved to memory/MEMORY.md but git commit failed. The file was still written.".to_owned(),
    }
}


/// `{"type": t, "description": d}`.
pub open spec fn prop(t: Seq<char>, d: Seq<char>) -> Data {
    Data::Object(seq![("type"@, Data::Str(t)), ("description"@, Data::Str(d))])
}

fn prop_value(t: &str, d: &str) -> (r: DataValue)
    ensures
        r@ == prop(t@, d@),
{
    DataValue::obj2("type", DataValue::text(t), "description", DataValue::text(d))
}

pub open spec fn str_datas(s: Seq<Seq<char>>) -> Seq<Data> {
    s.map_values(|t: Seq<char>| Data::Str(t))
}

pub open spec fn str_views(s: Seq<&str>) -> Seq<Seq<char>> {
    s.map_values(|t: &str| t@)
}

/// An object schema of properties and required names.
pub open spec fn object_schema(props: Seq<(Seq<char>, Data)>, required: Seq<Seq<char>>) -> Data {
    Data::Object(
        seq![
            ("type"@, Data::Str("object"@)),
            ("properties"@, Data::Object(props)),
            ("required"@, Data::List(str_datas(required))),
        ],
    )
}

fn schema_value(props: Vec<(String, DataValue)>, required: Vec<&str>) -> (r: DataValue)
    ensures
        r@ == object_schema(pairs_view(props@), str_views(required@)),
{
    let mut names: Vec<DataValue> = Vec::new();
    let mut i: usize = 0;
    while i < required.len()
        invariant
            i <= required@.len(),
            crate::data::views(names@) == str_datas(str_views(required@.take(i as int))),
        decreases required@.len() - i,
    {
        let ghost prev = names@;
        names.push(DataValue::text(required[i]));
        proof {
            assert(required@.take(i + 1) == required@.take(i as int).push(required@[i as int]));
            assert(crate::data::views(names@) =~= crate::data::views(prev).push(Data::Str(required@[i as int]@)));
            assert(str_datas(str_views(required@.take(i + 1))) =~= str_datas(str_views(required@.take(i as int))).push(
                Data::Str(required@[i as int]@),
            ));
        }
        i = i + 1;
    }
    assert(required@.take(required@.len() as int) == required@);
    DataValue::obj3(
        "type",
        DataValue::text("object"),
        "properties",
        DataValue::object(props),
        "required",
        DataValue::list(names),
    )
}

impl CliTool {
    pub fn name(&self) -> (r: &'static str)
        ensures
            r@ == "cli"@,
    {
        "cli"
    }

    pub fn description(&self) -> (r: &'static str)
        ensures
            r@
                == "Execute a shell command. Returns stdout and stderr combined. Output is truncated if it exceeds ~100KB. Default timeout is 120 seconds."@,
    {
        "Execute a shell command. Returns stdout and stderr combined. Output is truncated if it exceeds ~100KB. Default timeout is 120 seconds."
    }

    /// The JSON Schema of the arguments: a required `command` and an optional
    /// `timeout`.
    pub fn parameters(&self) -> (r: DataValue)
        ensures
            r@ == object_schema(
                seq![
                    ("command"@, prop("string"@, "Shell command to execute"@)),
                    ("timeout"@, prop("number"@, "Timeout in seconds (default: 120)"@)),
                ],
                seq!["command"@],
            ),
    {
        let mut props: Vec<(String, DataValue)> = Vec::new();
        crate::data::push_entry(&mut props, "command", prop_value("string", "Shell command to execute"));
        crate::data::push_entry(&mut props, "timeout", prop_value("number", "Timeout in seconds (default: 120)"));
        let ghost pv = pairs_view(props@);
        let mut req: Vec<&str> = Vec::new();
        req.push("command");
        assert(str_views(req@) =~= seq!["command"@]);
        assert(pv =~= seq![
            ("command"@, prop("string"@, "Shell command to execute"@)),
            ("timeout"@, prop("number"@, "Timeout in seconds (default: 120)"@)),
        ]);
        schema_value(props, req)
    }
}

impl ReadTool {
    pub fn name(&self) -> (r: &'static str)
        ensures
            r@ == "read"@,
    {
        "read"
    }

    pub fn description(&self) -> (r: &'static str)
        ensures
            r@
                == "Read the contents of a file. Output is limited to 2000 lines or ~100KB. Use offset/limit for large files."@,
    {
        "Read the contents of a file. Output is limited to 2000 lines or ~100KB. Use offset/limit for large files."
    }

    /// The JSON Schema of the arguments: a required `path`, an optional
    /// `offset` and `limit`.
    pub fn parameters(&self) -> (r: DataValue)
        ensures
            r@ == object_schema(
                seq![
                    ("path"@, prop("string"@, "Path to the file to read (relative or absolute)"@)),
                    ("offset"@, prop("number"@, "Line number to start from (1-indexed)"@)),
                    ("limit"@, prop("number"@, "Maximum number of lines to read"@)),
                ],
                seq!["path"@],
            ),
    {
        let mut props: Vec<(String, DataValue)> = Vec::new();
        crate::data::push_entry(&mut props, "path", prop_value("string", "Path to the file to read (relative or absolute)"));
        crate::data::push_entry(&mut props, "offset", prop_value("number", "Line number to start from (1-indexed)"));
        crate::data::push_entry(&mut props, "limit", prop_value("number", "Maximum number of lines to read"));
        let ghost pv = pairs_view(props@);
        let mut req: Vec<&str> = Vec::new();
        req.push("path");
        assert(str_views(req@) =~= seq!["path"@]);
        assert(pv =~= seq![
            ("path"@, prop("string"@, "Path to the file to read (relative or absolute)"@)),
            ("offset"@, prop("number"@, "Line number to start from (1-indexed)"@)),
            ("limit"@, prop("number"@, "Maximum number of lines to read"@)),
        ]);
        schema_value(props, req)
    }
}

impl WriteTool {
    pub fn name(&self) -> (r: &'static str)
        ensures
            r@ == "write"@,
    {
        "write"
    }

    pub fn description(&self) -> (r: &'static str)
        ensures
            r@
                == "Write content to a file. Creates the file if it doesn't exist, overwrites if it does. Parent directories are created automatically."@,
    {
        "Write content to a file. Creates the file if it doesn't exist, overwrites if it does. Parent directories are created automatically."
    }

    /// The JSON Schema of the arguments: a required `path` and `content`, an
    /// optional `createDirs`.
    pub fn parameters(&self) -> (r: DataValue)
        ensures
            r@ == object_schema(
                seq![
                    ("path"@, prop("string"@, "Path to the file to write (relative or absolute)"@)),
                    ("content"@, prop("string"@, "Content to write to the file"@)),
                    ("createDirs"@, prop("boolean"@, "Create parent directories if needed (default: true)"@)),
                ],
                seq!["path"@, "content"@],
            ),
    {
        let mut props: Vec<(String, DataValue)> = Vec::new();
        crate::data::push_entry(&mut props, "path", prop_value("string", "Path to the file to write (relative or absolute)"));
        crate::data::push_entry(&mut props, "content", prop_value("string", "Content to write to the file"));
        crate::data::push_entry(
            &mut props,
            "createDirs",
            prop_value("boolean", "Create parent directories if needed (default: true)"),
        );
        let ghost pv = pairs_view(props@);
        let mut req: Vec<&str> = Vec::new();
        req.push("path");
        req.push("content");
        assert(str_views(req@) =~= seq!["path"@, "content"@]);
        assert(pv =~= seq![
            ("path"@, prop("string"@, "Path to the file to write (relative or absolute)"@)),
            ("content"@, prop("string"@, "Content to write to the file"@)),
            ("createDirs"@, prop("boolean"@, "Create parent directories if needed (default: true)"@)),
        ]);
        schema_value(props, req)
    }
}

impl MemoryTool {
    pub fn name(&self) -> (r: &'static str)
        ensures
            r@ == "memory"@,
    {
        "memory"
    }

    pub fn description(&self) -> (r: &'static str)
        ensures
            r@
                == "Git-backed memory. Use 'load' to read current memory, 'save' to update memory and commit to git. Each save creates a git commit, giving you full history of what you've remembered."@,
    {
        "Git-backed memory. Use 'load' to read current memory, 'save' to update memory and commit to git. Each save creates a git commit, giving you full history of what you've remembered."
    }

    /// The JSON Schema of the arguments: a required `action` (`load` or
    /// `save`), an optional `content` and `message`.
    pub fn parameters(&self) -> (r: DataValue)
        ensures
            r@ == object_schema(
                seq![
                    (
                        "action"@,
                        Data::Object(
                            seq![
                                ("type"@, Data::Str("string"@)),
                                ("enum"@, Data::List(seq![Data::Str("load"@), Data::Str("save"@)])),
                                ("description"@, Data::Str("Whether to load or save memory"@)),
                            ],
                        ),
                    ),
                    ("content"@, prop("string"@, "Memory content to save (required for save)"@)),
                    (
                        "message"@,
                        prop("string"@, "Commit message describing why this memory changed (required for save)"@),
                    ),
                ],
                seq!["action"@],
            ),
    {
        let mut props: Vec<(String, DataValue)> = Vec::new();
        let mut choices: Vec<DataValue> = Vec::new();
        choices.push(DataValue::text("load"));
        choices.push(DataValue::text("save"));
        let ghost cv = choices@;
        let action = DataValue::obj3(
            "type",
            DataValue::text("string"),
            "enum",
            DataValue::list(choices),
            "description",
            DataValue::text("Whether to load or save memory"),
        );
        proof {
            assert(crate::data::views(cv) =~= seq![Data::Str("load"@), Data::Str("save"@)]);
        }
        crate::data::push_entry(&mut props, "action", action);
        crate::data::push_entry(&mut props, "content", prop_value("string", "Memory content to save (required for save)"));
        crate::data::push_entry(
            &mut props,
            "message",
            prop_value("string", "Commit message describing why this memory changed (required for save)"),
        );
        let ghost pv = pairs_view(props@);
        let mut req: Vec<&str> = Vec::new();
        req.push("action");
        assert(str_views(req@) =~= seq!["action"@]);
        assert(pv =~= seq![
            (
                "action"@,
                Data::Object(
                    seq![
                        ("type"@, Data::Str("string"@)),
                        ("enum"@, Data::List(seq![Data::Str("load"@), Data::Str("save"@)])),
                        ("description"@, Data::Str("Whether to load or save memory"@)),
                    ],
                ),
            ),
            ("content"@, prop("string"@, "Memory content to save (required for save)"@)),
            ("message"@, prop("string"@, "Commit message describing why this memory changed (required for save)"@)),
        ]);
        schema_value(props, req)
    }
}

} // verus!
