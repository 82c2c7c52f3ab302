use supamarker::config::ResolvedConfig;
use supamarker::delete::{DeleteAction, DeleteError, DeleteEvent, DeleteOutcome, DeleteSession, DeleteStage};
use supamarker::frontmatter::Frontmatter;
use supamarker::publish::{check_upload, check_upsert, frontmatter_block, plan_publish, PublishError};

fn config() -> ResolvedConfig {
    ResolvedConfig {
        supabase_url: "https://x.co/".to_string(),
        service_key: "key".to_string(),
        bucket: "blog".to_string(),
        table: "posts".to_string(),
    }
}

fn is_mutation(a: &DeleteAction) -> bool {
    matches!(a, DeleteAction::DeleteStorage | DeleteAction::DeleteTable)
}

#[test]
fn soft_delete_in_both_places_deletes_only_the_row() {
    let (mut s, first) = DeleteSession::new(&config(), "post.md", true);
    assert_eq!(s.slug, "post");
    assert_eq!(s.object_url, "https://x.co/storage/v1/object/blog/post.md");
    assert_eq!(s.lookup_url, "https://x.co/rest/v1/posts?slug=eq.post&select=slug");
    assert_eq!(s.row_url, "https://x.co/rest/v1/posts?slug=eq.post");
    let mut actions = vec![first];
    actions.push(s.step(DeleteEvent::StorageProbed { status: 200 }));
    actions.push(s.step(DeleteEvent::TableProbed { status: 200, body: "[{\"slug\":\"post\"}]".to_string(), rows: 1 }));
    match &actions[2] {
        DeleteAction::Confirm { question } => {
            assert_eq!(question, "Delete `post` (soft delete: keep bucket file)?")
        }
        _ => panic!("confirmation expected"),
    }
    actions.push(s.step(DeleteEvent::Answered { yes: true }));
    actions.push(s.step(DeleteEvent::TableDeleted { status: 204, body: String::new() }));
    assert!(matches!(actions[0], DeleteAction::ProbeStorage));
    assert!(matches!(actions[1], DeleteAction::ProbeTable));
    assert!(matches!(actions[3], DeleteAction::DeleteTable));
    assert!(matches!(actions[4], DeleteAction::Finish { outcome: DeleteOutcome::Deleted }));
    assert_eq!(actions.iter().filter(|a| matches!(a, DeleteAction::DeleteStorage)).count(), 0);
    assert_eq!(actions.iter().filter(|a| matches!(a, DeleteAction::DeleteTable)).count(), 1);
    assert_eq!(s.stage, DeleteStage::Finished);
}

#[test]
fn hard_delete_removes_object_then_row() {
    let (mut s, _) = DeleteSession::new(&config(), "post", false);
    s.step(DeleteEvent::StorageProbed { status: 200 });
    match s.step(DeleteEvent::TableProbed { status: 200, body: String::new(), rows: 1 }) {
        DeleteAction::Confirm { question } => assert_eq!(question, "Delete `post`?"),
        _ => panic!("confirmation expected"),
    }
    assert!(matches!(s.step(DeleteEvent::Answered { yes: true }), DeleteAction::DeleteStorage));
    assert!(matches!(
        s.step(DeleteEvent::StorageDeleted { status: 200, body: String::new() }),
        DeleteAction::DeleteTable
    ));
    assert!(matches!(
        s.step(DeleteEvent::TableDeleted { status: 200, body: String::new() }),
        DeleteAction::Finish { outcome: DeleteOutcome::Deleted }
    ));
}

#[test]
fn absent_slug_is_not_found_without_mutation() {
    let (mut s, first) = DeleteSession::new(&config(), "ghost", false);
    let a1 = s.step(DeleteEvent::StorageProbed { status: 404 });
    let a2 = s.step(DeleteEvent::TableProbed { status: 200, body: "[]".to_string(), rows: 0 });
    for a in [&first, &a1, &a2] {
        assert!(!is_mutation(a));
    }
    match a2 {
        DeleteAction::Fail { error: DeleteError::NotFound { slug } } => assert_eq!(slug, "ghost"),
        _ => panic!("not found expected"),
    }
    let a3 = s.step(DeleteEvent::Answered { yes: true });
    assert!(!is_mutation(&a3));
    assert!(matches!(a3, DeleteAction::Fail { error: DeleteError::UnexpectedEvent }));
}

#[test]
fn declined_confirmation_aborts() {
    let (mut s, _) = DeleteSession::new(&config(), "post", false);
    s.step(DeleteEvent::StorageProbed { status: 200 });
    s.step(DeleteEvent::TableProbed { status: 200, body: String::new(), rows: 0 });
    assert!(matches!(
        s.step(DeleteEvent::Answered { yes: false }),
        DeleteAction::Finish { outcome: DeleteOutcome::Aborted }
    ));
}

#[test]
fn storage_only_post_skips_the_row_delete() {
    let (mut s, _) = DeleteSession::new(&config(), "post", false);
    s.step(DeleteEvent::StorageProbed { status: 200 });
    s.step(DeleteEvent::TableProbed { status: 200, body: String::new(), rows: 0 });
    assert!(matches!(s.step(DeleteEvent::Answered { yes: true }), DeleteAction::DeleteStorage));
    assert!(matches!(
        s.step(DeleteEvent::StorageDeleted { status: 204, body: String::new() }),
        DeleteAction::Finish { outcome: DeleteOutcome::Deleted }
    ));
}

#[test]
fn delete_failures_carry_status_and_body() {
    let (mut s, _) = DeleteSession::new(&config(), "p", false);
    s.step(DeleteEvent::StorageProbed { status: 200 });
    match s.step(DeleteEvent::TableProbed { status: 500, body: "boom".to_string(), rows: 0 }) {
        DeleteAction::Fail { error: DeleteError::TableCheckFailed { status, body } } => {
            assert_eq!((status, body.as_str()), (500, "boom"))
        }
        _ => panic!("table check failure expected"),
    }

    let (mut s, _) = DeleteSession::new(&config(), "p", false);
    s.step(DeleteEvent::StorageProbed { status: 200 });
    s.step(DeleteEvent::TableProbed { status: 200, body: String::new(), rows: 1 });
    s.step(DeleteEvent::Answered { yes: true });
    match s.step(DeleteEvent::StorageDeleted { status: 403, body: "denied".to_string() }) {
        DeleteAction::Fail { error: DeleteError::StorageDeleteFailed { status, body } } => {
            assert_eq!((status, body.as_str()), (403, "denied"))
        }
        _ => panic!("storage delete failure expected"),
    }

    let (mut s, _) = DeleteSession::new(&config(), "p", true);
    s.step(DeleteEvent::StorageProbed { status: 200 });
    s.step(DeleteEvent::TableProbed { status: 200, body: String::new(), rows: 1 });
    s.step(DeleteEvent::Answered { yes: true });
    match s.step(DeleteEvent::TableDeleted { status: 401, body: "no".to_string() }) {
        DeleteAction::Fail { error: DeleteError::MetadataDeleteFailed { status, body } } => {
            assert_eq!((status, body.as_str()), (401, "no"))
        }
        _ => panic!("metadata delete failure expected"),
    }
}

#[test]
fn publishing_needs_a_frontmatter_block() {
    assert!(matches!(frontmatter_block("just text"), Err(PublishError::MissingFrontmatter)));
    assert!(matches!(frontmatter_block("---\ntitle: a\n"), Err(PublishError::MissingClosingDelimiter)));
    match frontmatter_block("---\ntitle: A\n---\nbody") {
        Ok(y) => assert_eq!(y, "title: A"),
        Err(_) => panic!("block expected"),
    }
}

#[test]
fn publish_plan_from_file_stem() {
    let fm = Frontmatter {
        title: "Hello World".to_string(),
        summary: None,
        tags: Some(vec!["a".to_string()]),
        slug: None,
    };
    let p = plan_publish(&config(), Some("My Notes".to_string()), fm);
    assert_eq!(p.slug, "my-notes");
    assert_eq!(p.file_name, "my-notes.md");
    assert_eq!(p.upload_url, "https://x.co/storage/v1/object/blog/my-notes.md");
    assert_eq!(p.rest_url, "https://x.co/rest/v1/posts");
    assert_eq!(
        p.payload,
        "[{\"slug\":\"my-notes\",\"title\":\"Hello World\",\"summary\":\"\",\"tags\":[\"a\"]}]"
    );
}

#[test]
fn publish_plan_with_explicit_slug() {
    let fm = Frontmatter {
        title: "T".to_string(),
        summary: Some("S".to_string()),
        tags: None,
        slug: Some("keep_This".to_string()),
    };
    let p = plan_publish(&config(), Some("stem".to_string()), fm);
    assert_eq!(p.slug, "keep_This");
    assert_eq!(
        p.payload,
        "[{\"slug\":\"keep_This\",\"title\":\"T\",\"summary\":\"S\",\"tags\":[]}]"
    );
}

#[test]
fn response_checks() {
    assert!(check_upload(200, String::new()).is_ok());
    match check_upload(500, "err".to_string()) {
        Err(PublishError::StorageUploadFailed { status, body }) => {
            assert_eq!((status, body.as_str()), (500, "err"))
        }
        _ => panic!("upload failure expected"),
    }
    assert!(check_upsert(201, String::new()).is_ok());
    match check_upsert(409, "conflict".to_string()) {
        Err(PublishError::MetadataUpsertFailed { status, body }) => {
            assert_eq!((status, body.as_str()), (409, "conflict"))
        }
        _ => panic!("upsert failure expected"),
    }
}
