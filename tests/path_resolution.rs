use emerald::resolve::{resolve_file_path, BUILD_DIR};

#[test]
fn absolute_path_is_unchanged() {
    assert_eq!(resolve_file_path("/abs/doc.md", Some("/home/u/project")), "/abs/doc.md");
    assert_eq!(resolve_file_path("/abs/doc.md", None), "/abs/doc.md");
}

#[test]
fn relative_path_joins_working_directory() {
    let r = resolve_file_path("notes.md", Some("/home/u/project"));
    assert_eq!(r, "/home/u/project/notes.md");
    assert!(r.starts_with('/'));
}

#[test]
fn relative_path_with_subdirectory() {
    assert_eq!(
        resolve_file_path("docs/a.md", Some("/home/u/project/")),
        "/home/u/project/docs/a.md"
    );
}

#[test]
fn build_directory_resolves_against_parent() {
    let cwd = format!("/home/u/project/{}", BUILD_DIR);
    assert_eq!(resolve_file_path("notes.md", Some(&cwd)), "/home/u/project/notes.md");
}

#[test]
fn build_directory_name_must_be_whole_component() {
    let cwd = format!("/home/u/my{}", BUILD_DIR);
    assert_eq!(
        resolve_file_path("notes.md", Some(&cwd)),
        format!("/home/u/my{}/notes.md", BUILD_DIR)
    );
}

#[test]
fn unknown_working_directory_returns_input() {
    assert_eq!(resolve_file_path("notes.md", None), "notes.md");
}
