use keyboard_splitter::profiles::{profile_file_name, profile_names, sanitize_name};

#[test]
fn sanitized_names() {
    assert_eq!(sanitize_name("  Couch / Night "), "Couch _ Night");
    assert_eq!(sanitize_name(""), "Profile");
    assert_eq!(sanitize_name("   "), "Profile");
    assert_eq!(sanitize_name("???"), "___");
    assert_eq!(sanitize_name("a-b_c 1"), "a-b_c 1");
    assert_eq!(sanitize_name("Ünïcödé 名前"), "Ünïcödé 名前");
    assert_eq!(sanitize_name("Profile"), "Profile");
    assert_eq!(sanitize_name(&sanitize_name(" x:y ")), sanitize_name(" x:y "));
}

#[test]
fn profile_files() {
    assert_eq!(profile_file_name("My Game!"), "My Game_.json");
    assert_eq!(profile_file_name(""), "Profile.json");
}

#[test]
fn listing_keeps_json_stems_sorted() {
    let files: Vec<String> = ["b.json", "a.json", ".json", "notes.txt", "c.d.json", "B.json", "json"]
        .iter()
        .map(|s| s.to_string())
        .collect();
    assert_eq!(profile_names(&files), vec!["B", "a", "b", "c.d"]);
    assert!(profile_names(&[]).is_empty());
}

#[test]
fn a_saved_profile_is_listed_under_its_name() {
    let file = profile_file_name(" Weekend ");
    assert_eq!(profile_names(&[file]), vec!["Weekend"]);
}
