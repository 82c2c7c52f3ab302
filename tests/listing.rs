use supamarker::reconcile::{classify, format_row, list_rows, row_line, Location};

fn strings(v: &[&str]) -> Vec<String> {
    v.iter().map(|s| s.to_string()).collect()
}

#[test]
fn reconciliation_of_bucket_and_table() {
    let rows = list_rows(&strings(&["a", "b"]), &strings(&["b", "c"]));
    let got: Vec<(String, Location)> = rows.into_iter().map(|r| (r.slug, r.location)).collect();
    assert_eq!(
        got,
        vec![
            ("a".to_string(), Location::Bucket),
            ("b".to_string(), Location::Both),
            ("c".to_string(), Location::Table),
        ]
    );
}

#[test]
fn object_names_are_normalized_before_comparison() {
    let rows = list_rows(&strings(&["b.md", "a.md"]), &strings(&["b", "c.md"]));
    let got: Vec<(String, Location)> = rows.into_iter().map(|r| (r.slug, r.location)).collect();
    assert_eq!(
        got,
        vec![
            ("a".to_string(), Location::Bucket),
            ("b".to_string(), Location::Both),
            ("c".to_string(), Location::Table),
        ]
    );
}

#[test]
fn empty_sources_give_no_rows() {
    assert!(list_rows(&Vec::new(), &Vec::new()).is_empty());
}

#[test]
fn duplicates_are_listed_once_in_code_point_order() {
    let rows = list_rows(&strings(&["zeta", "Zeta", "alpha.md", "alpha"]), &strings(&["alpha", "ab"]));
    let got: Vec<(String, Location)> = rows.into_iter().map(|r| (r.slug, r.location)).collect();
    assert_eq!(
        got,
        vec![
            ("Zeta".to_string(), Location::Bucket),
            ("ab".to_string(), Location::Table),
            ("alpha".to_string(), Location::Both),
            ("zeta".to_string(), Location::Bucket),
        ]
    );
}

#[test]
fn prefix_sorts_before_longer_slug() {
    let rows = list_rows(&strings(&["post-2", "post"]), &Vec::new());
    let got: Vec<String> = rows.into_iter().map(|r| r.slug).collect();
    assert_eq!(got, vec!["post".to_string(), "post-2".to_string()]);
}

#[test]
fn classification_of_all_four_cases() {
    assert_eq!(classify(true, true), Location::Both);
    assert_eq!(classify(true, false), Location::Bucket);
    assert_eq!(classify(false, true), Location::Table);
    assert_eq!(classify(false, false), Location::Missing);
    assert_eq!(Location::Missing.label(), "missing");
}

#[test]
fn rows_are_padded_to_the_slug_column() {
    let line = format_row("slug", "location");
    assert_eq!(line, format!("{:<32}{}", "slug", "location"));
    assert_eq!(line.len(), 40);
}

#[test]
fn long_slugs_are_not_padded() {
    let long = "x".repeat(40);
    assert_eq!(format_row(&long, "both"), format!("{}both", long));
}

#[test]
fn row_line_uses_the_location_label() {
    let rows = list_rows(&strings(&["a"]), &strings(&["a"]));
    assert_eq!(row_line(&rows[0]), format!("{:<32}{}", "a", "both"));
}
