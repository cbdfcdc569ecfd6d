use hala_pathtracer::text::{
    ends_with, find_last, join, starts_with, str_eq, text_after_last, text_before_last,
};

#[test]
fn join_puts_the_separator_between_neighbours() {
    let none: Vec<String> = Vec::new();
    assert_eq!(join(&none, "#"), "");
    assert_eq!(join(&vec!["A".to_string()], "#"), "A");
    assert_eq!(join(&vec!["A".to_string(), "B".to_string(), "C".to_string()], "#"), "A#B#C");
    assert_eq!(join(&vec!["".to_string(), "B".to_string()], "#"), "#B");
    assert_eq!(join(&vec!["A".to_string(), "B".to_string()], ", "), "A, B");
}

#[test]
fn find_last_gives_the_last_position() {
    assert_eq!(find_last("a.b.c", '.'), Some(3));
    assert_eq!(find_last(".abc", '.'), Some(0));
    assert_eq!(find_last("abc.", '.'), Some(3));
    assert_eq!(find_last("abc", '.'), None);
    assert_eq!(find_last("", '.'), None);
    assert_eq!(find_last("\u{e9}.\u{e9}", '.'), Some(1));
}

#[test]
fn text_around_the_last_separator() {
    assert_eq!(text_after_last("foo.rgen", '.'), "rgen");
    assert_eq!(text_after_last("foo", '.'), "foo");
    assert_eq!(text_after_last("foo.", '.'), "");
    assert_eq!(text_before_last("foo.rgen", '.'), "foo");
    assert_eq!(text_before_last("foo", '.'), "foo");
    assert_eq!(text_before_last(".rgen", '.'), "");
    assert_eq!(text_before_last("a.b.c", '.'), "a.b");
}

#[test]
fn prefix_suffix_and_equality() {
    assert!(starts_with("src/proj", "src/"));
    assert!(starts_with("src", ""));
    assert!(!starts_with("sr", "src"));
    assert!(!starts_with("sra/x", "src"));
    assert!(ends_with("a.glsl", ".glsl"));
    assert!(!ends_with("a.glsx", ".glsl"));
    assert!(!ends_with("sl", ".glsl"));
    assert!(str_eq("abc", "abc"));
    assert!(!str_eq("abc", "abd"));
    assert!(!str_eq("abc", "ab"));
    assert!(str_eq("", ""));
}
