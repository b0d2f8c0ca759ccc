//! Knowledge documents: the index, which documents are loaded up front, and
//! the prompt section that lists them.
use vstd::prelude::*;

use crate::data::{views, Data, DataValue};
use crate::models::str_list;
use crate::text::{join, join_seq, trim, trim_seq, views_of};

verus! {

#[derive(Clone)]
pub struct KnowledgeEntry {
    pub path: String,
    pub tags: Vec<String>,
    pub priority: String,
    pub always_load: bool,
}

pub struct KnowledgeView {
    pub path: Seq<char>,
    pub tags: Seq<Seq<char>>,
    pub priority: Seq<char>,
    pub always_load: bool,
}

impl View for KnowledgeEntry {
    type V = KnowledgeView;

    open spec fn view(&self) -> KnowledgeView {
        KnowledgeView {
            path: self.path@,
            tags: views_of(self.tags@),
            priority: self.priority@,
            always_load: self.always_load,
        }
    }
}

#[derive(Clone)]
pub struct PreloadedDoc {
    pub path: String,
    pub content: String,
}

#[derive(Clone)]
pub struct LoadedKnowledge {
    pub preloaded: Vec<PreloadedDoc>,
    pub available: Vec<KnowledgeEntry>,
}

/// An index entry: a path (required), tags (none by default), a priority
/// (`medium` by default) and whether to load it up front (no by default).
pub open spec fn knowledge_entry_of(d: Data) -> Option<KnowledgeView> {
    let tags = match d.get("tags"@) {
        None => Some(Seq::<Seq<char>>::empty()),
        Some(Data::List(l)) => str_list(l),
        _ => None,
    };
    let priority = match d.get("priority"@) {
        None => Some("medium"@),
        Some(Data::Str(s)) => Some(s),
        _ => None,
    };
    let always_load = match d.get("always_load"@) {
        None => Some(false),
        Some(Data::Bool(b)) => Some(b),
        _ => None,
    };
    match (d.get_str("path"@), tags, priority, always_load) {
        (Some(path), Some(tags), Some(priority), Some(always_load)) => if d is Object {
            Some(KnowledgeView { path, tags, priority, always_load })
        } else {
            None
        },
        _ => None,
    }
}

/// The entries of an index; one entry that does not read makes the index not
/// read.
pub open spec fn knowledge_entries_of(items: Seq<Data>) -> Option<Seq<KnowledgeView>>
    decreases items.len(),
{
    if items.len() == 0 {
        Some(Seq::empty())
    } else {
        match (knowledge_entries_of(items.drop_last()), knowledge_entry_of(items.last())) {
            (Some(r), Some(e)) => Some(r.push(e)),
            _ => None,
        }
    }
}

/// The index document: an object with a list of `entries`.
pub open spec fn knowledge_index_of(d: Data) -> Option<Seq<KnowledgeView>> {
    match d.get("entries"@) {
        Some(Data::List(items)) => knowledge_entries_of(items),
        _ => None,
    }
}

pub open spec fn entries_view(s: Seq<KnowledgeEntry>) -> Seq<KnowledgeView> {
    s.map_values(|e: KnowledgeEntry| e@)
}

proof fn lemma_entries_prefix(items: Seq<Data>, n: int)
    requires
        0 <= n <= items.len(),
        knowledge_entries_of(items.take(n)) is None,
    ensures
        knowledge_entries_of(items) is None,
    decreases items.len(),
{
    if n < items.len() {
        assert(items.drop_last().take(n) == items.take(n));
        lemma_entries_prefix(items.drop_last(), n);
    } else {
        assert(items.take(n) == items);
    }
}

/// Reads one index entry.
pub fn knowledge_entry_from_data(d: &DataValue) -> (r: Option<KnowledgeEntry>)
    ensures
        match r {
            Some(e) => knowledge_entry_of(d@) == Some(e@),
            None => knowledge_entry_of(d@) is None,
        },
{
    let is_object = match d {
        DataValue::Object(_) => true,
        _ => false,
    };
    let path = match d.get_str("path") {
        Some(p) => p,
        None => return None,
    };
    let tags = match d.get("tags") {
        None => Vec::new(),
        Some(v) => match v.as_list() {
            Some(items) => match crate::models::strings_of(items) {
                Some(t) => t,
                None => return None,
            },
            None => return None,
        },
    };
    let priority = match d.get("priority") {
        None => "medium".to_owned(),
        Some(v) => match v.as_str() {
            Some(s) => s.to_owned(),
            None => return None,
        },
    };
    let always_load = match d.get("always_load") {
        None => false,
        Some(v) => match v.as_bool() {
            Some(b) => b,
            None => return None,
        },
    };
    if !is_object {
        return None;
    }
    let e = KnowledgeEntry { path, tags, priority, always_load };
    proof {
        if d@.get("tags"@) is None {
            assert(views_of(e.tags@) =~= Seq::<Seq<char>>::empty());
        }
    }
    Some(e)
}

/// Reads the knowledge index.
pub fn knowledge_index_from_data(d: &DataValue) -> (r: Option<Vec<KnowledgeEntry>>)
    ensures
        match r {
            Some(es) => knowledge_index_of(d@) == Some(entries_view(es@)),
            None => knowledge_index_of(d@) is None,
        },
{
    let items = match d.get("entries") {
        Some(v) => match v.as_list() {
            Some(items) => items,
            None => return None,
        },
        None => return None,
    };
    assert(d@.get("entries"@) == Some(Data::List(views(items@))));
    let mut out: Vec<KnowledgeEntry> = Vec::new();
    let mut i: usize = 0;
    while i < items.len()
        invariant
            i <= items@.len(),
            d@.get("entries"@) == Some(Data::List(views(items@))),
            knowledge_entries_of(views(items@.take(i as int))) == Some(entries_view(out@)),
        decreases items@.len() - i,
    {
        proof {
            assert(items@.take(i + 1) == items@.take(i as int).push(items@[i as int]));
            assert(views(items@.take(i + 1)) =~= views(items@.take(i as int)).push(items@[i as int]@));
            assert(views(items@.take(i + 1)).drop_last() =~= views(items@.take(i as int)));
        }
        match knowledge_entry_from_data(&items[i]) {
            Some(e) => {
                let ghost prev = out@;
                out.push(e);
                assert(entries_view(out@) =~= entries_view(prev).push(e@));
            },
            None => {
                proof {
                    lemma_entries_prefix(views(items@), i as int + 1);
                    assert(views(items@).take(i + 1) =~= views(items@.take(i + 1)));
                }
                return None;
            },
        }
        i = i + 1;
    }
    assert(items@.take(items@.len() as int) == items@);
    Some(out)
}

/// The entries loaded up front, in order.
pub open spec fn preloaded_of(s: Seq<KnowledgeView>) -> Seq<KnowledgeView>
    decreases s.len(),
{
    if s.len() == 0 {
        s
    } else if s.last().always_load {
        preloaded_of(s.drop_last()).push(s.last())
    } else {
        preloaded_of(s.drop_last())
    }
}

/// The entries only listed as available, in order.
pub open spec fn available_of(s: Seq<KnowledgeView>) -> Seq<KnowledgeView>
    decreases s.len(),
{
    if s.len() == 0 {
        s
    } else if !s.last().always_load {
        available_of(s.drop_last()).push(s.last())
    } else {
        available_of(s.drop_last())
    }
}

/// Splits the index into the entries to load up front and those to list.
pub fn split_knowledge(entries: Vec<KnowledgeEntry>) -> (r: (Vec<KnowledgeEntry>, Vec<KnowledgeEntry>))
    ensures
        entries_view(r.0@) == preloaded_of(entries_view(entries@)),
        entries_view(r.1@) == available_of(entries_view(entries@)),
{
    let ghost all = entries_view(entries@);
    let total: usize = entries.len();
    let mut rest = entries;
    let mut pre: Vec<KnowledgeEntry> = Vec::new();
    let mut avail: Vec<KnowledgeEntry> = Vec::new();
    let mut k: usize = 0;
    while rest.len() > 0
        invariant
            k <= total,
            all.len() == total,
            rest@.len() == total - k,
            entries_view(rest@) == all.skip(k as int),
            entries_view(pre@) == preloaded_of(all.take(k as int)),
            entries_view(avail@) == available_of(all.take(k as int)),
        decreases rest@.len(),
    {
        let ghost before_rest = rest@;
        let e = rest.remove(0);
        proof {
            assert(entries_view(before_rest)[0] == e@);
            assert(all.skip(k as int)[0] == all[k as int]);
            assert(rest@ =~= before_rest.skip(1));
            assert(entries_view(before_rest.skip(1)) =~= entries_view(before_rest).skip(1));
            assert(all.take(k + 1) == all.take(k as int).push(e@));
            assert(all.take(k + 1).drop_last() == all.take(k as int));
        }
        let ghost ev = e@;
        if e.always_load {
            let ghost prev = pre@;
            pre.push(e);
            assert(entries_view(pre@) =~= entries_view(prev).push(ev));
        } else {
            let ghost prev = avail@;
            avail.push(e);
            assert(entries_view(avail@) =~= entries_view(prev).push(ev));
        }
        k = k + 1;
    }
    assert(all.take(k as int) == all);
    (pre, avail)
}

/// A document loaded up front: its trimmed content.
pub fn preloaded_doc(path: String, content: &str) -> (r: PreloadedDoc)
    ensures
        r.path == path,
        r.content@ == trim_seq(content@),
{
    PreloadedDoc { path, content: trim(content) }
}

pub open spec fn doc_block(d: PreloadedDoc) -> Seq<char> {
    "<knowledge path=\""@ + d.path@ + "\">\n"@ + d.content@ + "\n</knowledge>"@
}

pub open spec fn doc_blocks(s: Seq<PreloadedDoc>) -> Seq<Seq<char>> {
    s.map_values(|d: PreloadedDoc| doc_block(d))
}

pub open spec fn available_line(e: KnowledgeEntry) -> Seq<char> {
    "<doc path=\"knowledge/"@ + e.path@ + "\" priority=\""@ + e.priority@ + "\""@ + (if e.tags@.len() > 0 {
        " tags=\""@ + join_seq(views_of(e.tags@), ","@) + "\""@
    } else {
        Seq::empty()
    }) + " />"@
}

pub open spec fn available_lines(s: Seq<KnowledgeEntry>) -> Seq<Seq<char>> {
    s.map_values(|e: KnowledgeEntry| available_line(e))
}

pub open spec fn knowledge_parts(k: LoadedKnowledge) -> Seq<Seq<char>> {
    doc_blocks(k.preloaded@) + (if k.available@.len() > 0 {
        seq![
            "<available_knowledge>\n"@ + join_seq(available_lines(k.available@), "\n"@)
                + "\n</available_knowledge>\n\nUse the `read` tool to load any available knowledge document when needed."@,
        ]
    } else {
        Seq::empty()
    })
}

/// The knowledge section of the prompt: the documents loaded up front, then
/// the list of the others; empty where there is neither.
pub open spec fn spec_knowledge_prompt(k: LoadedKnowledge) -> Seq<char> {
    if knowledge_parts(k).len() == 0 {
        Seq::empty()
    } else {
        "# Knowledge\n\n"@ + join_seq(knowledge_parts(k), "\n\n"@)
    }
}

pub fn format_knowledge_for_prompt(knowledge: &LoadedKnowledge) -> (r: String)
    ensures
        r@ == spec_knowledge_prompt(*knowledge),
{
    let mut parts: Vec<String> = Vec::new();
    let mut i: usize = 0;
    while i < knowledge.preloaded.len()
        invariant
            i <= knowledge.preloaded@.len(),
            views_of(parts@) == doc_blocks(knowledge.preloaded@.take(i as int)),
        decreases knowledge.preloaded@.len() - i,
    {
        let d = &knowledge.preloaded[i];
        let b = "<knowledge path=\"".to_owned().concat(d.path.as_str()).concat("\">\n").concat(d.content.as_str()).concat(
            "\n</knowledge>",
        );
        let ghost prev = parts@;
        parts.push(b);
        proof {
            let s = knowledge.preloaded@;
            assert(s.take(i + 1) == s.take(i as int).push(s[i as int]));
            assert(views_of(parts@) =~= views_of(prev).push(b@));
            assert(doc_blocks(s.take(i + 1)) =~= doc_blocks(s.take(i as int)).push(doc_block(s[i as int])));
        }
        i = i + 1;
    }
    assert(knowledge.preloaded@.take(knowledge.preloaded@.len() as int) == knowledge.preloaded@);
    let ghost docs = parts@;
    if knowledge.available.len() > 0 {
        let mut lines: Vec<String> = Vec::new();
        let mut j: usize = 0;
        while j < knowledge.available.len()
            invariant
                j <= knowledge.available@.len(),
                views_of(lines@) == available_lines(knowledge.available@.take(j as int)),
            decreases knowledge.available@.len() - j,
        {
            let e = &knowledge.available[j];
            let tags = if e.tags.len() > 0 {
                let t = join(&e.tags, ",");
                " tags=\"".to_owned().concat(t.as_str()).concat("\"")
            } else {
                String::new()
            };
            let line = "<doc path=\"knowledge/".to_owned().concat(e.path.as_str()).concat("\" priority=\"").concat(
                e.priority.as_str(),
            ).concat("\"").concat(tags.as_str()).concat(" />");
            let ghost prev = lines@;
            lines.push(line);
            proof {
                let s = knowledge.available@;
                assert(line@ == available_line(s[j as int]));
                assert(s.take(j + 1) == s.take(j as int).push(s[j as int]));
                assert(views_of(lines@) =~= views_of(prev).push(line@));
                assert(available_lines(s.take(j + 1)) =~= available_lines(s.take(j as int)).push(
                    available_line(s[j as int]),
                ));
            }
            j = j + 1;
        }
        assert(knowledge.available@.take(knowledge.available@.len() as int) == knowledge.available@);
        let listed = join(&lines, "\n");
        let part = "<available_knowledge>\n".to_owned().concat(listed.as_str()).concat(
            "\n</available_knowledge>\n\nUse the `read` tool to load any available knowledge document when needed.",
        );
        let ghost prev = parts@;
        parts.push(part);
        assert(views_of(parts@) =~= views_of(prev).push(part@));
    }
    assert(views_of(parts@) =~= knowledge_parts(*knowledge));
    if parts.len() == 0 {
        return String::new();
    }
    let body = join(&parts, "\n\n");
    "# Knowledge\n\n".to_owned().concat(body.as_str())
}

} // verus!
