//! Examples: markdown files shown to the model as worked examples.
use vstd::prelude::*;

use crate::sorting::Named;
use crate::text::{ends_with, is_suffix, join, join_seq, trim, trim_end_matches, trim_end_matches_seq, trim_seq, views_of};

verus! {

#[derive(Clone)]
pub struct ExampleEntry {
    pub name: String,
    pub content: String,
}

impl Named for ExampleEntry {
    open spec fn name_view(&self) -> Seq<char> {
        self.name@
    }

    fn name_str(&self) -> (r: &str) {
        self.name.as_str()
    }
}

/// An example read from a file: only `.md` files count; the name is the file
/// name without its `.md` endings, the content is trimmed.
pub fn example_from_file(file_name: &str, content: &str) -> (r: Option<ExampleEntry>)
    ensures
        is_suffix(".md"@, file_name@) ==> (r matches Some(e) && e.name@ == trim_end_matches_seq(file_name@, ".md"@)
            && e.content@ == trim_seq(content@)),
        !is_suffix(".md"@, file_name@) ==> r is None,
{
    if !ends_with(file_name, ".md") {
        return None;
    }
    Some(ExampleEntry { name: trim_end_matches(file_name, ".md"), content: trim(content) })
}

pub open spec fn example_block(e: ExampleEntry) -> Seq<char> {
    "<example name=\""@ + e.name@ + "\">\n"@ + e.content@ + "\n</example>"@
}

pub open spec fn example_blocks(s: Seq<ExampleEntry>) -> Seq<Seq<char>> {
    s.map_values(|e: ExampleEntry| example_block(e))
}

/// The prompt section of examples; empty where there are none.
pub open spec fn spec_examples_prompt(s: Seq<ExampleEntry>) -> Seq<char> {
    if s.len() == 0 {
        Seq::empty()
    } else {
        "# Examples\n\n<examples>\n"@ + join_seq(example_blocks(s), "\n\n"@) + "\n</examples>"@
    }
}

pub fn format_examples_for_prompt(examples: &[ExampleEntry]) -> (r: String)
    ensures
        r@ == spec_examples_prompt(examples@),
{
    if examples.len() == 0 {
        return String::new();
    }
    let mut blocks: Vec<String> = Vec::new();
    let mut i: usize = 0;
    while i < examples.len()
        invariant
            i <= examples@.len(),
            views_of(blocks@) == example_blocks(examples@.take(i as int)),
        decreases examples@.len() - i,
    {
        let e = &examples[i];
        let b = "<example name=\"".to_owned().concat(e.name.as_str()).concat("\">\n").concat(e.content.as_str()).concat(
            "\n</example>",
        );
        let ghost prev = blocks@;
        blocks.push(b);
        proof {
            assert(examples@.take(i + 1) == examples@.take(i as int).push(examples@[i as int]));
            assert(views_of(blocks@) =~= views_of(prev).push(b@));
            assert(example_blocks(examples@.take(i + 1)) =~= example_blocks(examples@.take(i as int)).push(
                example_block(examples@[i as int]),
            ));
        }
        i = i + 1;
    }
    assert(examples@.take(examples@.len() as int) == examples@);
    let body = join(&blocks, "\n\n");
    "# Examples\n\n<examples>\n".to_owned().concat(body.as_str()).concat("\n</examples>")
}

} // verus!
