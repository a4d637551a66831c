use trend::text::{decimal_string, same_text};

#[test]
fn decimal_string_of_small_numbers() {
    assert_eq!(decimal_string(0), "0");
    assert_eq!(decimal_string(7), "7");
    assert_eq!(decimal_string(9), "9");
    assert_eq!(decimal_string(10), "10");
    assert_eq!(decimal_string(501), "501");
    assert_eq!(decimal_string(10000), "10000");
}

#[test]
fn decimal_string_agrees_with_std() {
    for n in [0usize, 1, 19, 100, 999, 1000, 65535, 4294967295, usize::MAX] {
        assert_eq!(decimal_string(n), n.to_string());
    }
}

#[test]
fn same_text_compares_the_whole_text() {
    assert!(same_text("", ""));
    assert!(same_text("link", "link"));
    assert!(!same_text("link", "link2"));
    assert!(!same_text("link", "Link"));
    assert!(!same_text("", " "));
}
