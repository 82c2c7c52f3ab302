//! Framing of the leading `---` block of a markdown file.
use vstd::prelude::*;
use crate::text::{
    chars_of, copy_range, skip_front, string_of, trim_chars, trim_spec, trim_start_spec,
};

verus! {

/// The fields of a post's frontmatter block.
pub struct Frontmatter {
    pub title: String,
    pub summary: Option<String>,
    pub tags: Option<Vec<String>>,
    pub slug: Option<String>,
}

/// A text cut into its frontmatter block, if it has one, and the body.
pub struct Split {
    /// The text between the two delimiters, trimmed; `None` when the text has no block.
    pub yaml: Option<String>,
    pub body: String,
}

pub enum FrontmatterError {
    /// The text opens a block with `---` that no second `---` closes.
    MissingClosingDelimiter,
}

/// `s` holds the delimiter `---` at index `i`.
pub open spec fn is_delim_at(s: Seq<char>, i: int) -> bool {
    0 <= i && i + 3 <= s.len() && s[i] == '-' && s[i + 1] == '-' && s[i + 2] == '-'
}

/// The first index at or after `i` where `s` holds the delimiter.
pub open spec fn first_delim_from(s: Seq<char>, i: int) -> Option<int>
    decreases s.len() - i,
{
    if i < 0 || i + 3 > s.len() {
        None
    } else if is_delim_at(s, i) {
        Some(i)
    } else {
        first_delim_from(s, i + 1)
    }
}

/// What extraction gives for `text`: the trimmed block and the body after it,
/// or no block and `text` itself.
pub open spec fn split_spec(text: Seq<char>) -> Result<(Option<Seq<char>>, Seq<char>), ()> {
    let t = trim_start_spec(text, false);
    if !is_delim_at(t, 0) {
        Ok((None, text))
    } else {
        match first_delim_from(t, 3) {
            None => Err(()),
            Some(k) => Ok(
                (
                    Some(trim_spec(t.subrange(3, k))),
                    trim_start_spec(t.subrange(k + 3, t.len() as int), true),
                ),
            ),
        }
    }
}

/// A delimiter found from `i` lies at or after `i`, and is one.
pub proof fn lemma_first_delim_found(s: Seq<char>, i: int)
    ensures
        first_delim_from(s, i) matches Some(k) ==> i <= k && is_delim_at(s, k),
    decreases s.len() - i,
{
    if !(i < 0 || i + 3 > s.len()) && !is_delim_at(s, i) {
        lemma_first_delim_found(s, i + 1);
    }
}

pub open spec fn split_matches(r: Result<Split, FrontmatterError>, text: Seq<char>) -> bool {
    match (r, split_spec(text)) {
        (Ok(sp), Ok((y, b))) => sp.body@ == b && match (sp.yaml, y) {
            (Some(a), Some(c)) => a@ == c,
            (None, None) => true,
            _ => false,
        },
        (Err(FrontmatterError::MissingClosingDelimiter), Err(())) => true,
        _ => false,
    }
}

/// Whether `v` holds the delimiter at `i`.
fn delim_at(v: &Vec<char>, i: usize) -> (r: bool)
    ensures
        r == is_delim_at(v@, i as int),
{
    i <= v.len() && v.len() - i >= 3 && v[i] == '-' && v[i + 1] == '-' && v[i + 2] == '-'
}

/// The first index at or after `from` where `v` holds the delimiter.
fn find_delim(v: &Vec<char>, from: usize) -> (r: Option<usize>)
    ensures
        r matches Some(k) ==> first_delim_from(v@, from as int) == Some(k as int),
        r is None ==> first_delim_from(v@, from as int) is None,
{
    let mut i: usize = from;
    while i <= v.len() && v.len() - i >= 3
        invariant
            from <= i,
            first_delim_from(v@, from as int) == first_delim_from(v@, i as int),
        decreases v.len() - i,
    {
        if delim_at(v, i) {
            return Some(i);
        }
        i = i + 1;
    }
    None
}

/// Cuts `text` into its leading frontmatter block and its body.
///
/// Leading whitespace is passed over. A text that does not then open with
/// `---` has no block and comes back whole as the body. Otherwise the block
/// runs up to the next `---` and is trimmed; the body follows that delimiter,
/// without the newlines that start it.
pub fn split_frontmatter(text: &str) -> (r: Result<Split, FrontmatterError>)
    ensures
        split_matches(r, text@),
{
    let chars = chars_of(text);
    let start = skip_front(&chars, false);
    let t = copy_range(&chars, start, chars.len());
    if !delim_at(&t, 0) {
        return Ok(Split { yaml: None, body: string_of(&chars) });
    }
    match find_delim(&t, 3) {
        None => Err(FrontmatterError::MissingClosingDelimiter),
        Some(k) => {
            proof {
                lemma_first_delim_found(t@, 3);
            }
            let block = copy_range(&t, 3, k);
            let yaml = trim_chars(&block);
            let after = copy_range(&t, k + 3, t.len());
            let b = skip_front(&after, true);
            let body = copy_range(&after, b, after.len());
            Ok(Split { yaml: Some(string_of(&yaml)), body: string_of(&body) })
        },
    }
}


proof fn lemma_first_delim_at(s: Seq<char>, i: int, k: int)
    requires
        0 <= i <= k,
        is_delim_at(s, k),
        forall|j: int| i <= j < k ==> !is_delim_at(s, j),
    ensures
        first_delim_from(s, i) == Some(k),
    decreases k - i,
{
    if i < k {
        lemma_first_delim_at(s, i + 1, k);
    }
}

/// A text made of a `---` line, a block free of `---`, a closing `---` and a
/// rest yields the block, trimmed, and the rest without its leading
/// newlines: the body holds nothing of the delimited block.
pub proof fn lemma_block_extracted(text: Seq<char>, block: Seq<char>, rest: Seq<char>)
    requires
        text == "---"@ + block + "---"@ + rest,
        forall|j: int| 3 <= j < 3 + block.len() ==> !is_delim_at(text, j),
    ensures
        split_spec(text) == Ok::<(Option<Seq<char>>, Seq<char>), ()>(
            (Some(trim_spec(block)), trim_start_spec(rest, true)),
        ),
{
    reveal_strlit("---");
    let k: int = 3 + block.len() as int;
    assert(text[0] == '-');
    assert(trim_start_spec(text, false) == text);
    assert(is_delim_at(text, 0));
    assert(text[k] == '-' && text[k + 1] == '-' && text[k + 2] == '-');
    lemma_first_delim_at(text, 3, k);
    assert(text.subrange(3, k) =~= block);
    assert(text.subrange(k + 3, text.len() as int) =~= rest);
}

/// A text that does not open with `---`, once leading whitespace is passed
/// over, has no block and is returned unchanged.
pub proof fn lemma_plain_text_unchanged(text: Seq<char>)
    requires
        !is_delim_at(trim_start_spec(text, false), 0),
    ensures
        split_spec(text) == Ok::<(Option<Seq<char>>, Seq<char>), ()>((None, text)),
{
}

} // verus!
