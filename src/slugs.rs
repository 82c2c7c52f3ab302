//! Slugs: where a post's slug comes from, and how stored names compare to it.
use vstd::prelude::*;
use crate::text::{chars_of, copy_range, string_of};

verus! {

/// What `slug::slugify` makes of a text.
pub uninterp spec fn slugify_of(s: Seq<char>) -> Seq<char>;

/// A character that a slug may hold: `a`-`z`, `0`-`9` or `-`.
pub open spec fn is_slug_char(c: char) -> bool {
    ('a' <= c && c <= 'z') || ('0' <= c && c <= '9') || c == '-'
}

/// Relies on `slug::slugify`: a lower-case ASCII slug of the text, made of
/// `a`-`z`, `0`-`9` and single `-` separators, never starting or ending with `-`.
#[verifier::external_body]
fn slugify(s: &str) -> (r: String)
    ensures
        r@ == slugify_of(s@),
        forall|i: int| 0 <= i < r@.len() ==> is_slug_char(#[trigger] r@[i]),
        r@.len() > 0 ==> r@[0] != '-' && r@.last() != '-',
{
    slug::slugify(s)
}

/// `s` ends with `.md`.
pub open spec fn has_md_suffix(s: Seq<char>) -> bool {
    s.len() >= 3 && s[s.len() - 3] == '.' && s[s.len() - 2] == 'm' && s[s.len() - 1] == 'd'
}

/// `s` without one trailing `.md`.
pub open spec fn normalize_spec(s: Seq<char>) -> Seq<char> {
    if has_md_suffix(s) {
        s.subrange(0, s.len() - 3)
    } else {
        s
    }
}

/// The canonical slug of a stored object name or table value: the name
/// without one trailing `.md`.
pub fn normalize_slug(input: &str) -> (r: String)
    ensures
        r@ == normalize_spec(input@),
{
    let v = chars_of(input);
    let n = v.len();
    if n >= 3 && v[n - 3] == '.' && v[n - 2] == 'm' && v[n - 1] == 'd' {
        string_of(&copy_range(&v, 0, n - 3))
    } else {
        string_of(&v)
    }
}

/// The slug of a post: the explicit one as given, else the slugified file
/// stem, else the slugified title.
pub open spec fn resolve_slug_spec(
    explicit: Option<Seq<char>>,
    file_stem: Option<Seq<char>>,
    title: Seq<char>,
) -> Seq<char> {
    match explicit {
        Some(s) => s,
        None => match file_stem {
            Some(stem) => slugify_of(stem),
            None => slugify_of(title),
        },
    }
}

pub open spec fn opt_view(o: Option<String>) -> Option<Seq<char>> {
    match o {
        Some(s) => Some(s@),
        None => None,
    }
}

/// The slug under which a post is published. `file_stem` is the file name
/// of the post without its extension, where the path has one.
pub fn resolve_slug(explicit: Option<String>, file_stem: Option<String>, title: &str) -> (r:
    String)
    ensures
        r@ == resolve_slug_spec(opt_view(explicit), opt_view(file_stem), title@),
{
    match explicit {
        Some(s) => s,
        None => match file_stem {
            Some(stem) => slugify(stem.as_str()),
            None => slugify(title),
        },
    }
}

/// An explicit slug is used verbatim whatever the file and title; without
/// one, a file stem gives the slugified stem.
pub proof fn lemma_slug_precedence(
    explicit: Option<Seq<char>>,
    file_stem: Option<Seq<char>>,
    title: Seq<char>,
)
    ensures
        explicit matches Some(s) ==> resolve_slug_spec(explicit, file_stem, title) == s,
        explicit is None && file_stem is Some ==> resolve_slug_spec(explicit, file_stem, title)
            == slugify_of(file_stem->Some_0),
{
}

/// Appending `.md` to a name and normalizing gives the name back.
pub proof fn lemma_normalize_strips_suffix(s: Seq<char>)
    ensures
        normalize_spec(s + ".md"@) == s,
{
    reveal_strlit(".md");
    let t = s + ".md"@;
    assert(has_md_suffix(t));
    assert(t.subrange(0, t.len() - 3) =~= s);
}

/// A name without a `.md` suffix is its own canonical slug.
pub proof fn lemma_normalize_plain(s: Seq<char>)
    requires
        !has_md_suffix(s),
    ensures
        normalize_spec(s) == s,
{
}

} // verus!
