//! Reconciliation of the slugs found in the bucket with those in the table.
use vstd::prelude::*;
use crate::slugs::{normalize_slug, normalize_spec};
use crate::text::{chars_of, string_of};
use vstd::string::{StrSliceExecFns, StringExecFns};

verus! {

/// Where a slug was found.
#[derive(PartialEq, Eq, Structural, Clone, Copy, Debug)]
pub enum Location {
    Both,
    Bucket,
    Table,
    Missing,
}

/// The location of a slug found in the bucket or not, in the table or not.
pub open spec fn classify_spec(in_bucket: bool, in_table: bool) -> Location {
    if in_bucket && in_table {
        Location::Both
    } else if in_bucket {
        Location::Bucket
    } else if in_table {
        Location::Table
    } else {
        Location::Missing
    }
}

pub fn classify(in_bucket: bool, in_table: bool) -> (r: Location)
    ensures
        r == classify_spec(in_bucket, in_table),
{
    if in_bucket && in_table {
        Location::Both
    } else if in_bucket {
        Location::Bucket
    } else if in_table {
        Location::Table
    } else {
        Location::Missing
    }
}

/// Lexicographic order of character sequences, by code point.
pub open spec fn lex_lt(a: Seq<char>, b: Seq<char>) -> bool
    decreases a.len(),
{
    if a.len() == 0 {
        b.len() > 0
    } else if b.len() == 0 {
        false
    } else if a[0] < b[0] {
        true
    } else if a[0] > b[0] {
        false
    } else {
        lex_lt(a.drop_first(), b.drop_first())
    }
}

pub proof fn lemma_lex_total(a: Seq<char>, b: Seq<char>)
    ensures
        lex_lt(a, b) || a == b || lex_lt(b, a),
    decreases a.len(),
{
    if a.len() > 0 && b.len() > 0 && a[0] == b[0] {
        lemma_lex_total(a.drop_first(), b.drop_first());
        if a.drop_first() == b.drop_first() {
            assert(a[0] == b[0]);
            assert(a =~= seq![a[0]] + a.drop_first());
            assert(b =~= seq![b[0]] + b.drop_first());
        }
    } else if a.len() == 0 && b.len() == 0 {
        assert(a =~= b);
    }
}

pub proof fn lemma_lex_transitive(a: Seq<char>, b: Seq<char>, c: Seq<char>)
    requires
        lex_lt(a, b),
        lex_lt(b, c),
    ensures
        lex_lt(a, c),
    decreases a.len(),
{
    if a.len() > 0 && b.len() > 0 && c.len() > 0 && a[0] == b[0] && b[0]
        == c[0] {
        lemma_lex_transitive(a.drop_first(), b.drop_first(), c.drop_first());
    }
}

/// Whether `a` comes before `b`.
fn less(a: &Vec<char>, b: &Vec<char>) -> (r: bool)
    ensures
        r == lex_lt(a@, b@),
{
    let mut i: usize = 0;
    assert(a@.skip(0) =~= a@);
    assert(b@.skip(0) =~= b@);
    while i < a.len() && i < b.len() && a[i] == b[i]
        invariant
            i <= a.len(),
            i <= b.len(),
            lex_lt(a@.skip(i as int), b@.skip(i as int)) == lex_lt(a@, b@),
        decreases a.len() - i,
    {
        assert(a@.skip(i as int).drop_first() =~= a@.skip(i + 1));
        assert(b@.skip(i as int).drop_first() =~= b@.skip(i + 1));
        i = i + 1;
    }
    assert(a@.skip(i as int).len() == a.len() - i);
    assert(b@.skip(i as int).len() == b.len() - i);
    if i < a.len() && i < b.len() {
        assert(a@.skip(i as int)[0] == a@[i as int]);
        assert(b@.skip(i as int)[0] == b@[i as int]);
    }
    if i == a.len() {
        i < b.len()
    } else if i == b.len() {
        false
    } else {
        a[i] < b[i]
    }
}

/// Whether two character vectors hold the same characters.
fn same(a: &Vec<char>, b: &Vec<char>) -> (r: bool)
    ensures
        r == (a@ == b@),
{
    if a.len() != b.len() {
        return false;
    }
    let mut i: usize = 0;
    while i < a.len()
        invariant
            a.len() == b.len(),
            i <= a.len(),
            a@.subrange(0, i as int) == b@.subrange(0, i as int),
        decreases a.len() - i,
    {
        if a[i] != b[i] {
            assert(a@.subrange(0, i + 1)[i as int] != b@.subrange(0, i + 1)[i as int]);
            return false;
        }
        assert(a@.subrange(0, i + 1) =~= a@.subrange(0, i as int).push(a[i as int]));
        assert(b@.subrange(0, i + 1) =~= b@.subrange(0, i as int).push(b[i as int]));
        i = i + 1;
    }
    assert(a@ =~= a@.subrange(0, a.len() as int));
    assert(b@ =~= b@.subrange(0, b.len() as int));
    true
}

/// The views of a vector of character vectors.
pub open spec fn views(v: Seq<Vec<char>>) -> Seq<Seq<char>> {
    v.map_values(|x: Vec<char>| x@)
}

/// Each entry comes strictly before the next ones.
pub open spec fn strictly_sorted(s: Seq<Seq<char>>) -> bool {
    forall|i: int, j: int| 0 <= i < j < s.len() ==> lex_lt(#[trigger] s[i], #[trigger] s[j])
}

/// Whether `v` holds `x`.
fn holds(v: &Vec<Vec<char>>, x: &Vec<char>) -> (r: bool)
    ensures
        r == views(v@).contains(x@),
{
    let mut i: usize = 0;
    while i < v.len()
        invariant
            i <= v.len(),
            forall|j: int| 0 <= j < i ==> views(v@)[j] != x@,
        decreases v.len() - i,
    {
        if same(&v[i], x) {
            assert(views(v@)[i as int] == x@);
            return true;
        }
        i = i + 1;
    }
    false
}

/// Adds `x` to a strictly sorted vector, where it is not there yet.
fn insert_sorted(v: &mut Vec<Vec<char>>, x: Vec<char>)
    requires
        strictly_sorted(views(old(v)@)),
    ensures
        strictly_sorted(views(final(v)@)),
        views(final(v)@).to_set() == views(old(v)@).to_set().insert(x@),
{
    let ghost xv = x@;
    let mut p: usize = 0;
    while p < v.len() && less(&v[p], &x)
        invariant
            p <= v.len(),
            forall|j: int| 0 <= j < p ==> lex_lt(#[trigger] views(v@)[j], x@),
        decreases v.len() - p,
    {
        p = p + 1;
    }
    if p < v.len() && same(&v[p], &x) {
        assert(views(v@)[p as int] == xv);
        assert(views(v@).contains(xv));
        assert(views(v@).to_set().insert(xv) =~= views(v@).to_set());
        return;
    }
    let ghost before = views(v@);
    proof {
        if p < v.len() {
            lemma_lex_total(before[p as int], xv);
            assert(lex_lt(xv, before[p as int]));
            assert forall|j: int| p <= j < before.len() implies lex_lt(xv, #[trigger] before[j]) by {
                if j > p {
                    lemma_lex_transitive(xv, before[p as int], before[j]);
                }
            }
        }
    }
    v.insert(p, x);
    let ghost after = views(v@);
    assert(after =~= before.insert(p as int, xv));
    assert forall|i: int, j: int| 0 <= i < j < after.len() implies lex_lt(
        #[trigger] after[i],
        #[trigger] after[j],
    ) by {
        if i < p && j == p {
        } else if i < p && j > p {
            assert(after[i] == before[i] && after[j] == before[j - 1]);
        } else if i == p {
        } else if i > p {
            assert(after[i] == before[i - 1] && after[j] == before[j - 1]);
        } else {
            assert(after[i] == before[i] && after[j] == before[j]);
        }
    }
    assert(after.to_set() =~= before.to_set().insert(xv)) by {
        assert forall|y: Seq<char>| after.to_set().contains(y) implies before.to_set().insert(
            xv,
        ).contains(y) by {
            let k = choose|k: int| 0 <= k < after.len() && after[k] == y;
            if k < p {
                assert(before[k] == y);
            } else if k > p {
                assert(before[k - 1] == y);
            }
        }
        assert forall|y: Seq<char>| before.to_set().insert(xv).contains(y) implies after.to_set().contains(
            y,
        ) by {
            if y == xv {
                assert(after[p as int] == y);
            } else {
                let k = choose|k: int| 0 <= k < before.len() && before[k] == y;
                if k < p {
                    assert(after[k] == y);
                } else {
                    assert(after[k + 1] == y);
                }
            }
        }
    }
}


/// One line of the listing: a slug and where it was found.
pub struct ListRow {
    pub slug: String,
    pub location: Location,
}

/// The canonical slugs of a list of names.
pub open spec fn normalized(names: Seq<String>) -> Seq<Seq<char>> {
    names.map_values(|n: String| normalize_spec(n@))
}

/// The slugs of the rows of a listing.
pub open spec fn row_slugs(rows: Seq<ListRow>) -> Seq<Seq<char>> {
    rows.map_values(|r: ListRow| r.slug@)
}

proof fn lemma_take_push_to_set(s: Seq<Seq<char>>, i: int)
    requires
        0 <= i < s.len(),
    ensures
        s.take(i + 1).to_set() == s.take(i).to_set().insert(s[i]),
{
    assert(s.take(i + 1) =~= s.take(i).push(s[i]));
    let a = s.take(i + 1);
    let b = s.take(i);
    assert forall|y: Seq<char>| a.to_set().contains(y) implies b.to_set().insert(s[i]).contains(
        y,
    ) by {
        let k = choose|k: int| 0 <= k < a.len() && a[k] == y;
        if k < i {
            assert(b[k] == y);
        }
    }
    assert forall|y: Seq<char>| b.to_set().insert(s[i]).contains(y) implies a.to_set().contains(
        y,
    ) by {
        if y == s[i] {
            assert(a[i] == y);
        } else {
            let k = choose|k: int| 0 <= k < b.len() && b[k] == y;
            assert(a[k] == y);
        }
    }
    assert(a.to_set() =~= b.to_set().insert(s[i]));
}

/// The canonical slugs of `names`, as character vectors.
fn normalize_all(names: &Vec<String>) -> (r: Vec<Vec<char>>)
    ensures
        views(r@) == normalized(names@),
{
    let mut r: Vec<Vec<char>> = Vec::new();
    let mut i: usize = 0;
    while i < names.len()
        invariant
            i <= names.len(),
            r.len() == i,
            forall|j: int| 0 <= j < i ==> (#[trigger] r@[j])@ == normalize_spec(names@[j]@),
        decreases names.len() - i,
    {
        let n = normalize_slug(names[i].as_str());
        r.push(chars_of(n.as_str()));
        i = i + 1;
    }
    assert(views(r@) =~= normalized(names@));
    r
}

/// Adds each of `items` to the strictly sorted `all`.
fn insert_all(all: &mut Vec<Vec<char>>, items: &Vec<Vec<char>>)
    requires
        strictly_sorted(views(old(all)@)),
    ensures
        strictly_sorted(views(final(all)@)),
        views(final(all)@).to_set() == views(old(all)@).to_set() + views(items@).to_set(),
{
    let ghost start = views(all@).to_set();
    let mut i: usize = 0;
    assert(views(items@).take(0).to_set() =~= Set::empty());
    assert(start + Set::empty() =~= start);
    while i < items.len()
        invariant
            i <= items.len(),
            strictly_sorted(views(all@)),
            views(all@).to_set() == start + views(items@).take(i as int).to_set(),
        decreases items.len() - i,
    {
        let x = items[i].clone();
        insert_sorted(all, x);
        proof {
            lemma_take_push_to_set(views(items@), i as int);
            assert(views(all@).to_set() =~= start + views(items@).take(i + 1).to_set());
        }
        i = i + 1;
    }
    assert(views(items@).take(items.len() as int) =~= views(items@));
}

/// The listing of the slugs found in the bucket and in the table: the
/// canonical slug of every object name and table value, each once, in
/// ascending lexicographic order, with where it was found.
pub fn list_rows(bucket_names: &Vec<String>, table_slugs: &Vec<String>) -> (r: Vec<ListRow>)
    ensures
        strictly_sorted(row_slugs(r@)),
        row_slugs(r@).to_set() == normalized(bucket_names@).to_set() + normalized(
            table_slugs@,
        ).to_set(),
        forall|i: int|
            0 <= i < r.len() ==> (#[trigger] r@[i]).location == classify_spec(
                normalized(bucket_names@).contains(r@[i].slug@),
                normalized(table_slugs@).contains(r@[i].slug@),
            ),
        forall|i: int| 0 <= i < r.len() ==> (#[trigger] r@[i]).location != Location::Missing,
{
    let bucket = normalize_all(bucket_names);
    let table = normalize_all(table_slugs);
    let mut all: Vec<Vec<char>> = Vec::new();
    assert(views(all@).to_set() =~= Set::empty());
    insert_all(&mut all, &bucket);
    insert_all(&mut all, &table);
    assert(views(all@).to_set() =~= views(bucket@).to_set() + views(table@).to_set());
    let mut r: Vec<ListRow> = Vec::new();
    let mut k: usize = 0;
    while k < all.len()
        invariant
            k <= all.len(),
            r.len() == k,
            views(all@).to_set() == views(bucket@).to_set() + views(table@).to_set(),
            views(bucket@) == normalized(bucket_names@),
            views(table@) == normalized(table_slugs@),
            forall|j: int|
                0 <= j < k ==> (#[trigger] r@[j]).slug@ == views(all@)[j] && r@[j].location
                    == classify_spec(
                    views(bucket@).contains(r@[j].slug@),
                    views(table@).contains(r@[j].slug@),
                ),
        decreases all.len() - k,
    {
        let in_bucket = holds(&bucket, &all[k]);
        let in_table = holds(&table, &all[k]);
        r.push(ListRow { slug: string_of(&all[k]), location: classify(in_bucket, in_table) });
        k = k + 1;
    }
    assert(row_slugs(r@) =~= views(all@));
    assert forall|i: int| 0 <= i < r.len() implies (#[trigger] r@[i]).location
        != Location::Missing by {
        let y = r@[i].slug@;
        assert(views(all@)[i] == y);
        assert(views(all@).to_set().contains(y));
    }
    r
}


/// The word that names a location in the listing.
pub open spec fn label_spec(l: Location) -> Seq<char> {
    match l {
        Location::Both => "both"@,
        Location::Bucket => "bucket"@,
        Location::Table => "table"@,
        Location::Missing => "missing"@,
    }
}

impl Location {
    pub fn label(&self) -> (r: &'static str)
        ensures
            r@ == label_spec(*self),
    {
        match self {
            Location::Both => "both",
            Location::Bucket => "bucket",
            Location::Table => "table",
            Location::Missing => "missing",
        }
    }
}

/// The width of the slug column of the listing.
pub const SLUG_COLUMN: usize = 32;

/// `n` spaces.
pub open spec fn spaces(n: nat) -> Seq<char> {
    Seq::new(n, |i: int| ' ')
}

/// A line of the listing: the first column padded with spaces to its width,
/// then the second.
pub open spec fn row_text(first: Seq<char>, second: Seq<char>) -> Seq<char> {
    if first.len() < SLUG_COLUMN {
        first + spaces((SLUG_COLUMN - first.len()) as nat) + second
    } else {
        first + second
    }
}

/// The line of the listing for `first` and `second`.
pub fn format_row(first: &str, second: &str) -> (r: String)
    ensures
        r@ == row_text(first@, second@),
{
    let mut line = String::from_str(first);
    let mut n: usize = first.unicode_len();
    while n < SLUG_COLUMN
        invariant
            first@.len() <= n <= SLUG_COLUMN || (n == first@.len() && n >= SLUG_COLUMN),
            line@ == first@ + spaces((n - first@.len()) as nat),
        decreases SLUG_COLUMN - n,
    {
        line.append(" ");
        proof {
            reveal_strlit(" ");
        }
        assert(spaces((n + 1 - first@.len()) as nat) =~= spaces((n - first@.len()) as nat)
            + " "@);
        n = n + 1;
    }
    line.append(second);
    if first.unicode_len() >= SLUG_COLUMN {
        assert(spaces(0) =~= Seq::<char>::empty());
        assert(line@ =~= first@ + second@);
    }
    line
}

/// The line of the listing for a row.
pub fn row_line(row: &ListRow) -> (r: String)
    ensures
        r@ == row_text(row.slug@, label_spec(row.location)),
{
    format_row(row.slug.as_str(), row.location.label())
}

} // verus!
