use obs_reminder::text::{
    extension, file_name, find_last, has_prefix, join, list_holds, same_text, stem,
};

#[test]
fn find_last_gives_the_last_place() {
    assert_eq!(find_last("a.b.c", '.'), Some(3));
    assert_eq!(find_last(".", '.'), Some(0));
    assert_eq!(find_last("abc", '.'), None);
    assert_eq!(find_last("", '.'), None);
    assert_eq!(find_last("é.é", '.'), Some(1));
}

#[test]
fn prefixes_are_compared_by_characters() {
    assert!(has_prefix("/audio/x", "/audio/"));
    assert!(has_prefix("/audio/", "/audio/"));
    assert!(has_prefix("anything", ""));
    assert!(!has_prefix("/audio", "/audio/"));
    assert!(!has_prefix("/Audio/x", "/audio/"));
    assert!(!has_prefix("", "/"));
}

#[test]
fn texts_are_the_same_when_every_character_is() {
    assert!(same_text("", ""));
    assert!(same_text("提醒", "提醒"));
    assert!(!same_text("a", "b"));
    assert!(!same_text("a", "ab"));
    assert!(!same_text("ab", "a"));
}

#[test]
fn a_list_holds_what_is_in_it() {
    let list = vec!["a".to_string(), "b".to_string()];
    assert!(list_holds(&list, "a"));
    assert!(list_holds(&list, "b"));
    assert!(!list_holds(&list, "c"));
    assert!(!list_holds(&[], "a"));
}

#[test]
fn join_puts_one_text_after_the_other() {
    assert_eq!(join("ab", "cd"), "abcd");
    assert_eq!(join("", "x"), "x");
    assert_eq!(join("x", ""), "x");
}

#[test]
fn the_file_name_is_the_last_component() {
    assert_eq!(file_name("a/b/c.txt"), "c.txt");
    assert_eq!(file_name("c.txt"), "c.txt");
    assert_eq!(file_name("a/"), "");
    assert_eq!(file_name("/"), "");
    assert_eq!(file_name(""), "");
}

#[test]
fn extension_and_stem_split_at_the_last_dot() {
    assert_eq!(extension("clip.wav"), Some("wav"));
    assert_eq!(stem("clip.wav"), "clip");
    assert_eq!(extension("a.b.c"), Some("c"));
    assert_eq!(stem("a.b.c"), "a.b");
    assert_eq!(extension("clip."), Some(""));
    assert_eq!(stem("clip."), "clip");
}

#[test]
fn names_without_extension_are_their_own_stem() {
    for name in ["clip", ".hidden", "..", ".", ""] {
        assert_eq!(extension(name), None);
        assert_eq!(stem(name), name);
    }
}

#[test]
fn extension_and_stem_agree_with_the_standard_library() {
    for name in ["clip.wav", "a.b.c", "clip.", "clip", ".hidden", "...", "x..y", ".a.b", "é.ogg"] {
        let path = std::path::Path::new(name);
        assert_eq!(extension(name), path.extension().and_then(|e| e.to_str()));
        assert_eq!(Some(stem(name)), path.file_stem().and_then(|e| e.to_str()));
    }
    assert_eq!(std::path::Path::new("..").extension(), None);
}
