//! Publishing a post: what is uploaded where, and how the answers are judged.
use vstd::prelude::*;
use vstd::string::StringExecFns;
use crate::config::ResolvedConfig;
use crate::frontmatter::{split_frontmatter, split_spec, Frontmatter, FrontmatterError};
use crate::remote::{
    is_success, is_success_spec, object_url_spec, payload_spec, storage_object_url,
    table_url, table_url_spec, upsert_payload,
};
use crate::slugs::{opt_view, resolve_slug, resolve_slug_spec};

verus! {

pub enum PublishError {
    /// The file does not start with a frontmatter block.
    MissingFrontmatter,
    /// The frontmatter block is opened and never closed.
    MissingClosingDelimiter,
    /// The upload of the markdown was answered with a failure status.
    StorageUploadFailed { status: u16, body: String },
    /// The upsert of the metadata row was answered with a failure status.
    MetadataUpsertFailed { status: u16, body: String },
}

/// The frontmatter block of a post, which publishing requires.
pub open spec fn block_matches(r: Result<String, PublishError>, text: Seq<char>) -> bool {
    match split_spec(text) {
        Err(()) => r is Err && r->Err_0 is MissingClosingDelimiter,
        Ok((None, _)) => r is Err && r->Err_0 is MissingFrontmatter,
        Ok((Some(y), _)) => r matches Ok(s) && s@ == y,
    }
}

/// The frontmatter block of a post's text, trimmed; a text without one
/// cannot be published.
pub fn frontmatter_block(text: &str) -> (r: Result<String, PublishError>)
    ensures
        block_matches(r, text@),
{
    match split_frontmatter(text) {
        Err(FrontmatterError::MissingClosingDelimiter) => Err(
            PublishError::MissingClosingDelimiter,
        ),
        Ok(sp) => match sp.yaml {
            Some(y) => Ok(y),
            None => Err(PublishError::MissingFrontmatter),
        },
    }
}

/// The requests that publish a post.
pub struct PublishPlan {
    pub slug: String,
    /// The name of the uploaded file: the slug with `.md`.
    pub file_name: String,
    /// Where the markdown is uploaded.
    pub upload_url: String,
    /// Where the metadata row is upserted.
    pub rest_url: String,
    /// The JSON body of the upsert.
    pub payload: String,
}

pub open spec fn tags_view(tags: Option<Vec<String>>) -> Seq<Seq<char>> {
    match tags {
        Some(v) => v@.map_values(|t: String| t@),
        None => Seq::empty(),
    }
}

pub open spec fn summary_view(summary: Option<String>) -> Seq<char> {
    match summary {
        Some(s) => s@,
        None => Seq::empty(),
    }
}

/// The plan for publishing the post with frontmatter `fm` from a file whose
/// stem is `file_stem`: its slug resolved, the object `{slug}.md` in the
/// bucket, and one row of slug, title, summary and tags.
pub open spec fn plan_matches(
    p: PublishPlan,
    config: ResolvedConfig,
    file_stem: Option<Seq<char>>,
    fm: Frontmatter,
) -> bool {
    let slug = resolve_slug_spec(opt_view(fm.slug), file_stem, fm.title@);
    &&& p.slug@ == slug
    &&& p.file_name@ == slug + ".md"@
    &&& p.upload_url@ == object_url_spec(config.supabase_url@, config.bucket@, slug)
    &&& p.rest_url@ == table_url_spec(config.supabase_url@, config.table@)
    &&& p.payload@ == payload_spec(
        slug,
        fm.title@,
        summary_view(fm.summary),
        tags_view(fm.tags),
    )
}

pub fn plan_publish(config: &ResolvedConfig, file_stem: Option<String>, fm: Frontmatter) -> (r:
    PublishPlan)
    ensures
        plan_matches(r, *config, opt_view(file_stem), fm),
{
    let ghost f = fm;
    let slug = resolve_slug(fm.slug, file_stem, fm.title.as_str());
    let mut file_name = slug.clone();
    file_name.append(".md");
    let upload_url = storage_object_url(
        config.supabase_url.as_str(),
        config.bucket.as_str(),
        slug.as_str(),
    );
    let rest_url = table_url(config.supabase_url.as_str(), config.table.as_str());
    let summary = match fm.summary {
        Some(s) => s,
        None => String::new(),
    };
    let tags = match fm.tags {
        Some(t) => t,
        None => Vec::new(),
    };
    assert(tags@.map_values(|t: String| t@) =~= tags_view(f.tags));
    let payload = upsert_payload(slug.as_str(), fm.title.as_str(), summary.as_str(), &tags);
    PublishPlan { slug, file_name, upload_url, rest_url, payload }
}

/// Judges the answer to the upload.
pub fn check_upload(status: u16, body: String) -> (r: Result<(), PublishError>)
    ensures
        is_success_spec(status) <==> r is Ok,
        r matches Err(PublishError::StorageUploadFailed { status: s, body: b }) ==> s == status
            && b@ == body@,
        r is Err ==> r->Err_0 is StorageUploadFailed,
{
    if is_success(status) {
        Ok(())
    } else {
        Err(PublishError::StorageUploadFailed { status, body })
    }
}

/// Judges the answer to the metadata upsert.
pub fn check_upsert(status: u16, body: String) -> (r: Result<(), PublishError>)
    ensures
        is_success_spec(status) <==> r is Ok,
        r matches Err(PublishError::MetadataUpsertFailed { status: s, body: b }) ==> s == status
            && b@ == body@,
        r is Err ==> r->Err_0 is MetadataUpsertFailed,
{
    if is_success(status) {
        Ok(())
    } else {
        Err(PublishError::MetadataUpsertFailed { status, body })
    }
}

} // verus!
