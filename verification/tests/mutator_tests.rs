use what_the_path::dirs::file_name_of;
use what_the_path::dirs::join_path;
use what_the_path::error::ShellError;
use what_the_path::shell::append_to_rcfile;
use what_the_path::shell::remove_from_rcfile;
use what_the_path::text::contains_substring;
use what_the_path::text::remove_first_occurrence;
use what_the_path::text::substring_position;

#[test]
fn test_append_writes_line_and_newline() {
    let content = "# settings\n";
    let new_content = append_to_rcfile("/home/test/.profile", true, content, "export A=1").unwrap();
    assert_eq!(new_content, "# settings\nexport A=1\n");
}

#[test]
fn test_append_does_not_deduplicate() {
    let once = append_to_rcfile("/home/test/.profile", true, "", "export A=1").unwrap();
    let twice = append_to_rcfile("/home/test/.profile", true, &once, "export A=1").unwrap();
    assert_eq!(twice, "export A=1\nexport A=1\n");
}

#[test]
fn test_append_missing_file_fails_with_not_found() {
    let result = append_to_rcfile("/home/test/.profile", false, "", "export A=1");
    match result {
        Err(ShellError::RCFileNotFound(name)) => assert_eq!(name, ".profile"),
        _ => panic!("expected the not-found error"),
    }
}

#[test]
fn test_remove_missing_file_fails_with_not_found() {
    let result = remove_from_rcfile("/home/test/.bashrc", false, "anything", "anything");
    match result {
        Err(ShellError::RCFileNotFound(name)) => assert_eq!(name, ".bashrc"),
        _ => panic!("expected the not-found error"),
    }
}

#[test]
fn test_remove_deletes_first_occurrence_only() {
    let content = "export A=1\nexport B=2\nexport A=1\n";
    let new_content =
        remove_from_rcfile("/home/test/.profile", true, content, "export A=1\n").unwrap();
    assert_eq!(new_content, "export B=2\nexport A=1\n");
}

#[test]
fn test_remove_absent_line_is_a_noop() {
    let content = "export A=1\n";
    let new_content =
        remove_from_rcfile("/home/test/.profile", true, content, "export Z=9\n").unwrap();
    assert_eq!(new_content, content);
}

#[test]
fn test_remove_is_byte_exact_not_line_oriented() {
    let content = "abcdef\n";
    let new_content = remove_from_rcfile("/home/test/.profile", true, content, "cde").unwrap();
    assert_eq!(new_content, "abf\n");
}

#[test]
fn test_remove_twice_equals_remove_once() {
    let content = "a\nexport A=1\nb\n";
    let once = remove_from_rcfile("/home/test/.profile", true, content, "export A=1\n").unwrap();
    let twice = remove_from_rcfile("/home/test/.profile", true, &once, "export A=1\n").unwrap();
    assert_eq!(once, "a\nb\n");
    assert_eq!(twice, once);
}

#[test]
fn test_append_then_remove_restores_content() {
    let content = "# original content\nexport PATH=$PATH:/old\n";
    let line = "export PATH=$PATH:/new";
    let appended = append_to_rcfile("/home/test/.profile", true, content, line).unwrap();
    assert_ne!(appended, content);
    let removed = remove_from_rcfile(
        "/home/test/.profile",
        true,
        &appended,
        "export PATH=$PATH:/new\n",
    )
    .unwrap();
    assert_eq!(removed, content);
}

#[test]
fn test_remove_can_create_a_new_occurrence() {
    // Removing the first "ab" from "aabb" splices the remaining "a" and "b"
    // into a fresh "ab": the second removal is not a no-op here.
    let once = remove_first_occurrence("aabb", "ab");
    assert_eq!(once, "ab");
    let twice = remove_first_occurrence(&once, "ab");
    assert_eq!(twice, "");
}

#[test]
fn test_substring_position_finds_earliest_match() {
    assert_eq!(substring_position("aabb", "ab"), Some(1));
    assert_eq!(substring_position("hello", "world"), None);
    assert_eq!(substring_position("hello", ""), Some(0));
    assert_eq!(substring_position("", "x"), None);
}

#[test]
fn test_contains_substring_edges() {
    assert!(contains_substring("zsh", "zsh"));
    assert!(contains_substring("/usr/bin/zsh", "zsh"));
    assert!(!contains_substring("zs", "zsh"));
    assert!(contains_substring("anything", ""));
    assert!(!contains_substring("", "x"));
}

#[test]
fn test_join_path_inserts_separator() {
    assert_eq!(join_path("/home/test", ".profile"), "/home/test/.profile");
    assert_eq!(join_path("", "x"), "/x");
}

#[test]
fn test_file_name_of_takes_last_component() {
    assert_eq!(file_name_of("/home/test/.profile"), ".profile");
    assert_eq!(file_name_of(".bashrc"), ".bashrc");
    assert_eq!(file_name_of("/home/test/"), "");
    assert_eq!(file_name_of(""), "");
}

#[test]
fn test_error_messages() {
    assert_eq!(
        ShellError::NoShellVar.message(),
        "Shell environment variable not found"
    );
    assert_eq!(ShellError::NoHomeDir.message(), "Home directory not found");
    assert_eq!(
        ShellError::EmptyHomeAndZdotdir.message(),
        "Home environment and ZDOTDIR variables are empty"
    );
    assert_eq!(
        ShellError::RCFileNotFound(".profile".to_string()).message(),
        "RC file not found: .profile"
    );
}
