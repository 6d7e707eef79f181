use depsync::text::{chars_of, contains_text, find_chars, find_text, join_text, same_text, split_text};

fn owned(parts: &[&str]) -> Vec<String> {
    parts.iter().map(|s| s.to_string()).collect()
}

#[test]
fn chars_are_listed_in_order() {
    assert_eq!(chars_of("a/ç"), vec!['a', '/', 'ç']);
    assert_eq!(chars_of(""), Vec::<char>::new());
}

#[test]
fn same_text_compares_contents() {
    assert!(same_text("init", "init"));
    assert!(!same_text("init", "Init"));
    assert!(!same_text("init", "init "));
    assert!(same_text("", ""));
}

#[test]
fn find_gives_the_first_index_in_characters() {
    assert_eq!(find_text("https://example.com", "://"), Some(5));
    assert_eq!(find_text("a://b://c", "://"), Some(1));
    assert_eq!(find_text("example.com", "://"), None);
    assert_eq!(find_text("ééé@x", "@"), Some(3));
    assert_eq!(find_text("abc", ""), Some(0));
    assert_eq!(find_text("", ""), Some(0));
    assert_eq!(find_text("", "a"), None);
    assert_eq!(find_text("ab", "abc"), None);
    assert_eq!(find_text("aab", "ab"), Some(1));
}

#[test]
fn find_chars_agrees_with_find_text() {
    let hay: Vec<char> = "git@host".chars().collect();
    let needle: Vec<char> = "@".chars().collect();
    assert_eq!(find_chars(&hay, &needle), Some(3));
    let missing: Vec<char> = "#".chars().collect();
    assert_eq!(find_chars(&hay, &missing), None);
}

#[test]
fn contains_follows_find() {
    assert!(contains_text("git@example.com", "@"));
    assert!(!contains_text("example.com", "@"));
    assert!(contains_text("ssh://host", "://"));
    assert!(!contains_text("ssh:/host", "://"));
}

#[test]
fn split_keeps_empty_pieces() {
    assert_eq!(split_text("a/b/c", '/'), owned(&["a", "b", "c"]));
    assert_eq!(split_text("/a//b/", '/'), owned(&["", "a", "", "b", ""]));
    assert_eq!(split_text("", '/'), owned(&[""]));
    assert_eq!(split_text("abc", '/'), owned(&["abc"]));
    assert_eq!(split_text("/", '/'), owned(&["", ""]));
    assert_eq!(split_text("C:\\x\\y", '\\'), owned(&["C:", "x", "y"]));
}

#[test]
fn join_puts_the_separator_between_neighbours() {
    assert_eq!(join_text(&owned(&["a", "b", "c"]), "/"), "a/b/c");
    assert_eq!(join_text(&owned(&["", "a", ""]), "/"), "/a/");
    assert_eq!(join_text(&owned(&["only"]), "/"), "only");
    assert_eq!(join_text(&owned(&[]), "/"), "");
    assert_eq!(join_text(&owned(&["a", "b"]), ", "), "a, b");
}

#[test]
fn joining_a_split_restores_the_text() {
    for text in ["", "/", "a", "a/b", "//a///b/", "~/.ssh/id_rsa", "no separator"] {
        assert_eq!(join_text(&split_text(text, '/'), "/"), text);
    }
    for text in ["C:\\Users\\ann", "\\\\share\\x", "%USERPROFILE%\\.ssh"] {
        assert_eq!(join_text(&split_text(text, '\\'), "\\"), text);
    }
}
