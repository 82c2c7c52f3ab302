use supamarker::remote::{
    base_url, bearer, is_success, storage_list_url, storage_object_url, table_lookup_url,
    table_row_url, table_slugs_url, table_url, upsert_payload,
};

#[test]
fn trailing_slashes_are_dropped_from_base() {
    assert_eq!(base_url("https://x.supabase.co//"), "https://x.supabase.co");
    assert_eq!(base_url("https://x.supabase.co"), "https://x.supabase.co");
}

#[test]
fn storage_addresses() {
    assert_eq!(
        storage_object_url("https://x.co/", "blog", "my-post"),
        "https://x.co/storage/v1/object/blog/my-post.md"
    );
    assert_eq!(storage_list_url("https://x.co", "blog"), "https://x.co/storage/v1/object/list/blog");
}

#[test]
fn table_addresses() {
    assert_eq!(table_url("https://x.co/", "posts"), "https://x.co/rest/v1/posts");
    assert_eq!(table_row_url("https://x.co", "posts", "a"), "https://x.co/rest/v1/posts?slug=eq.a");
    assert_eq!(
        table_lookup_url("https://x.co", "posts", "a"),
        "https://x.co/rest/v1/posts?slug=eq.a&select=slug"
    );
    assert_eq!(table_slugs_url("https://x.co", "posts"), "https://x.co/rest/v1/posts?select=slug");
}

#[test]
fn bearer_header_value() {
    assert_eq!(bearer("k123"), "Bearer k123");
}

#[test]
fn success_is_the_2xx_class() {
    assert!(is_success(200));
    assert!(is_success(204));
    assert!(is_success(299));
    assert!(!is_success(199));
    assert!(!is_success(300));
    assert!(!is_success(404));
}

#[test]
fn payload_is_one_row_array() {
    let tags = vec!["rust".to_string(), "web".to_string()];
    assert_eq!(
        upsert_payload("my-post", "My Post", "short", &tags),
        "[{\"slug\":\"my-post\",\"title\":\"My Post\",\"summary\":\"short\",\"tags\":[\"rust\",\"web\"]}]"
    );
    assert_eq!(
        upsert_payload("s", "T", "", &Vec::new()),
        "[{\"slug\":\"s\",\"title\":\"T\",\"summary\":\"\",\"tags\":[]}]"
    );
}

#[test]
fn payload_strings_are_escaped() {
    let p = upsert_payload("s", "Say \"hi\"\n", "a\\b", &vec!["x".to_string()]);
    assert_eq!(
        p,
        "[{\"slug\":\"s\",\"title\":\"Say \\\"hi\\\"\\n\",\"summary\":\"a\\\\b\",\"tags\":[\"x\"]}]"
    );
}
