//! Character-level helpers: whitespace, trimming and copying of ranges.
use vstd::prelude::*;

verus! {

/// The Unicode `White_Space` property.
pub open spec fn is_space_spec(c: char) -> bool {
    let n = c as u32;
    (0x09 <= n && n <= 0x0D) || n == 0x20 || n == 0x85 || n == 0xA0 || n == 0x1680
        || (0x2000 <= n && n <= 0x200A) || n == 0x2028 || n == 0x2029 || n == 0x202F
        || n == 0x205F || n == 0x3000
}

/// Whether `c` is dropped by trimming: any whitespace, or only `'\n'`.
pub open spec fn is_trimmed(c: char, newline_only: bool) -> bool {
    if newline_only {
        c == '\n'
    } else {
        is_space_spec(c)
    }
}

/// `s` without its leading trimmed characters.
pub open spec fn trim_start_spec(s: Seq<char>, newline_only: bool) -> Seq<char>
    decreases s.len(),
{
    if s.len() > 0 && is_trimmed(s[0], newline_only) {
        trim_start_spec(s.drop_first(), newline_only)
    } else {
        s
    }
}

/// `s` without its trailing whitespace.
pub open spec fn trim_end_spec(s: Seq<char>) -> Seq<char>
    decreases s.len(),
{
    if s.len() > 0 && is_space_spec(s.last()) {
        trim_end_spec(s.drop_last())
    } else {
        s
    }
}

/// `s` without whitespace at either end.
pub open spec fn trim_spec(s: Seq<char>) -> Seq<char> {
    trim_end_spec(trim_start_spec(s, false))
}

pub fn is_space(c: char) -> (r: bool)
    ensures
        r == is_space_spec(c),
{
    let n = c as u32;
    (0x09 <= n && n <= 0x0D) || n == 0x20 || n == 0x85 || n == 0xA0 || n == 0x1680 || (0x2000
        <= n && n <= 0x200A) || n == 0x2028 || n == 0x2029 || n == 0x202F || n == 0x205F || n
        == 0x3000
}

/// Whether trimming drops `c`.
pub fn trimmed(c: char, newline_only: bool) -> (r: bool)
    ensures
        r == is_trimmed(c, newline_only),
{
    if newline_only {
        c == '\n'
    } else {
        is_space(c)
    }
}

/// Relies on `str::chars`: it yields the characters of the string, in order.
#[verifier::external_body]
pub(crate) fn chars_of(s: &str) -> (r: Vec<char>)
    ensures
        r@ == s@,
{
    s.chars().collect()
}

/// Relies on `String: FromIterator<&char>`: the characters, in order, make the string.
#[verifier::external_body]
pub(crate) fn string_of(v: &Vec<char>) -> (r: String)
    ensures
        r@ == v@,
{
    v.iter().collect()
}

/// The characters of `v` from `lo` up to `hi`.
pub fn copy_range(v: &Vec<char>, lo: usize, hi: usize) -> (r: Vec<char>)
    requires
        lo <= hi <= v.len(),
    ensures
        r@ == v@.subrange(lo as int, hi as int),
{
    let mut r: Vec<char> = Vec::new();
    let mut i: usize = lo;
    while i < hi
        invariant
            lo <= i <= hi <= v.len(),
            r@ == v@.subrange(lo as int, i as int),
        decreases hi - i,
    {
        r.push(v[i]);
        i = i + 1;
        assert(r@ =~= v@.subrange(lo as int, i as int));
    }
    r
}

/// The index of the first character of `v` that trimming keeps.
pub fn skip_front(v: &Vec<char>, newline_only: bool) -> (i: usize)
    ensures
        i <= v.len(),
        v@.subrange(i as int, v.len() as int) == trim_start_spec(v@, newline_only),
{
    let mut i: usize = 0;
    assert(v@.subrange(0, v.len() as int) =~= v@);
    while i < v.len() && trimmed(v[i], newline_only)
        invariant
            i <= v.len(),
            trim_start_spec(v@.subrange(i as int, v.len() as int), newline_only)
                == trim_start_spec(v@, newline_only),
        decreases v.len() - i,
    {
        assert(v@.subrange(i as int, v.len() as int).drop_first() =~= v@.subrange(
            i + 1,
            v.len() as int,
        ));
        i = i + 1;
    }
    i
}

/// The length of `v` once its trailing whitespace is dropped.
pub fn skip_back(v: &Vec<char>) -> (j: usize)
    ensures
        j <= v.len(),
        v@.subrange(0, j as int) == trim_end_spec(v@),
{
    let mut j: usize = v.len();
    assert(v@.subrange(0, v.len() as int) =~= v@);
    while j > 0 && is_space(v[j - 1])
        invariant
            j <= v.len(),
            trim_end_spec(v@.subrange(0, j as int)) == trim_end_spec(v@),
        decreases j,
    {
        assert(v@.subrange(0, j as int).drop_last() =~= v@.subrange(0, j - 1));
        j = j - 1;
    }
    j
}

/// `s` with whitespace dropped at both ends.
pub fn trim_chars(v: &Vec<char>) -> (r: Vec<char>)
    ensures
        r@ == trim_spec(v@),
{
    let a = skip_front(v, false);
    let t = copy_range(v, a, v.len());
    let b = skip_back(&t);
    copy_range(&t, 0, b)
}

} // verus!
