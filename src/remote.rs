//! The addresses, headers and bodies of the requests made to the storage
//! and table endpoints, and how their answers are judged.
use vstd::prelude::*;
use vstd::string::{StrSliceExecFns, StringExecFns};

verus! {

/// An HTTP status of the success class.
pub open spec fn is_success_spec(status: u16) -> bool {
    200 <= status && status < 300
}

/// Whether a response status reports success (`2xx`).
pub fn is_success(status: u16) -> (r: bool)
    ensures
        r == is_success_spec(status),
{
    200 <= status && status < 300
}

/// `s` without its trailing `/` characters.
pub open spec fn strip_slashes(s: Seq<char>) -> Seq<char>
    decreases s.len(),
{
    if s.len() > 0 && s.last() == '/' {
        strip_slashes(s.drop_last())
    } else {
        s
    }
}

/// The service's base URL with its trailing slashes dropped.
pub fn base_url(url: &str) -> (r: String)
    ensures
        r@ == strip_slashes(url@),
{
    let mut n: usize = url.unicode_len();
    assert(url@.subrange(0, n as int) =~= url@);
    while n > 0 && url.get_char(n - 1) == '/'
        invariant
            n <= url@.len(),
            strip_slashes(url@.subrange(0, n as int)) == strip_slashes(url@),
        decreases n,
    {
        assert(url@.subrange(0, n as int).drop_last() =~= url@.subrange(0, n - 1));
        n = n - 1;
    }
    String::from_str(url.substring_char(0, n))
}

/// The address of a post's markdown object in the bucket.
pub open spec fn object_url_spec(url: Seq<char>, bucket: Seq<char>, slug: Seq<char>) -> Seq<char> {
    strip_slashes(url) + "/storage/v1/object/"@ + bucket + "/"@ + slug + ".md"@
}

pub fn storage_object_url(url: &str, bucket: &str, slug: &str) -> (r: String)
    ensures
        r@ == object_url_spec(url@, bucket@, slug@),
{
    let mut r = base_url(url);
    r.append("/storage/v1/object/");
    r.append(bucket);
    r.append("/");
    r.append(slug);
    r.append(".md");
    r
}

/// The address that lists a bucket's objects.
pub open spec fn list_url_spec(url: Seq<char>, bucket: Seq<char>) -> Seq<char> {
    strip_slashes(url) + "/storage/v1/object/list/"@ + bucket
}

pub fn storage_list_url(url: &str, bucket: &str) -> (r: String)
    ensures
        r@ == list_url_spec(url@, bucket@),
{
    let mut r = base_url(url);
    r.append("/storage/v1/object/list/");
    r.append(bucket);
    r
}

/// The table's REST endpoint.
pub open spec fn table_url_spec(url: Seq<char>, table: Seq<char>) -> Seq<char> {
    strip_slashes(url) + "/rest/v1/"@ + table
}

pub fn table_url(url: &str, table: &str) -> (r: String)
    ensures
        r@ == table_url_spec(url@, table@),
{
    let mut r = base_url(url);
    r.append("/rest/v1/");
    r.append(table);
    r
}

/// The table's rows whose slug is `slug`.
pub open spec fn row_url_spec(url: Seq<char>, table: Seq<char>, slug: Seq<char>) -> Seq<char> {
    table_url_spec(url, table) + "?slug=eq."@ + slug
}

pub fn table_row_url(url: &str, table: &str, slug: &str) -> (r: String)
    ensures
        r@ == row_url_spec(url@, table@, slug@),
{
    let mut r = table_url(url, table);
    r.append("?slug=eq.");
    r.append(slug);
    r
}

/// The slug column of the table's rows whose slug is `slug`.
pub open spec fn lookup_url_spec(url: Seq<char>, table: Seq<char>, slug: Seq<char>) -> Seq<
    char,
> {
    row_url_spec(url, table, slug) + "&select=slug"@
}

pub fn table_lookup_url(url: &str, table: &str, slug: &str) -> (r: String)
    ensures
        r@ == lookup_url_spec(url@, table@, slug@),
{
    let mut r = table_row_url(url, table, slug);
    r.append("&select=slug");
    r
}

/// The slug column of all of the table's rows.
pub open spec fn slugs_url_spec(url: Seq<char>, table: Seq<char>) -> Seq<char> {
    table_url_spec(url, table) + "?select=slug"@
}

pub fn table_slugs_url(url: &str, table: &str) -> (r: String)
    ensures
        r@ == slugs_url_spec(url@, table@),
{
    let mut r = table_url(url, table);
    r.append("?select=slug");
    r
}

/// The value of the `Authorization` header for a key.
pub fn bearer(key: &str) -> (r: String)
    ensures
        r@ == "Bearer "@ + key@,
{
    let mut r = String::from_str("Bearer ");
    r.append(key);
    r
}

/// What `serde_json` writes for a JSON string holding the text.
pub uninterp spec fn json_string_of(s: Seq<char>) -> Seq<char>;

/// Relies on `serde_json::Value`'s `Display`: the compact JSON text of a
/// string value, quoted and escaped.
#[verifier::external_body]
fn json_string(s: &str) -> (r: String)
    ensures
        r@ == json_string_of(s@),
{
    serde_json::Value::String(s.to_string()).to_string()
}

/// A JSON array of JSON strings.
pub open spec fn json_list_spec(items: Seq<Seq<char>>) -> Seq<char>
    decreases items.len(),
{
    if items.len() == 0 {
        Seq::empty()
    } else if items.len() == 1 {
        json_string_of(items[0])
    } else {
        json_list_spec(items.drop_last()) + ","@ + json_string_of(items.last())
    }
}

/// The items of a JSON array of strings, comma-separated, without brackets.
fn json_list(items: &Vec<String>) -> (r: String)
    ensures
        r@ == json_list_spec(items@.map_values(|t: String| t@)),
{
    let ghost all = items@.map_values(|t: String| t@);
    let mut r = String::new();
    let mut i: usize = 0;
    assert(all.take(0) =~= Seq::<Seq<char>>::empty());
    while i < items.len()
        invariant
            i <= items.len(),
            all == items@.map_values(|t: String| t@),
            r@ == json_list_spec(all.take(i as int)),
        decreases items.len() - i,
    {
        if i > 0 {
            r.append(",");
        }
        let q = json_string(items[i].as_str());
        r.append(q.as_str());
        assert(all.take(i + 1).drop_last() =~= all.take(i as int));
        i = i + 1;
    }
    assert(all.take(items.len() as int) =~= all);
    r
}

/// The body of the metadata upsert: an array with the post's one row.
pub open spec fn payload_spec(
    slug: Seq<char>,
    title: Seq<char>,
    summary: Seq<char>,
    tags: Seq<Seq<char>>,
) -> Seq<char> {
    "[{\"slug\":"@ + json_string_of(slug) + ",\"title\":"@ + json_string_of(title)
        + ",\"summary\":"@ + json_string_of(summary) + ",\"tags\":["@ + json_list_spec(tags)
        + "]}]"@
}

pub fn upsert_payload(slug: &str, title: &str, summary: &str, tags: &Vec<String>) -> (r: String)
    ensures
        r@ == payload_spec(slug@, title@, summary@, tags@.map_values(|t: String| t@)),
{
    let mut r = String::from_str("[{\"slug\":");
    r.append(json_string(slug).as_str());
    r.append(",\"title\":");
    r.append(json_string(title).as_str());
    r.append(",\"summary\":");
    r.append(json_string(summary).as_str());
    r.append(",\"tags\":[");
    r.append(json_list(tags).as_str());
    r.append("]}]");
    r
}

} // verus!
