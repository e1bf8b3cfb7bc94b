use automata::text::{push_decimal, same_text};

#[test]
fn same_text_compares_characters() {
    assert!(same_text("default", "default"));
    assert!(same_text("", ""));
    assert!(!same_text("default", "defaults"));
    assert!(!same_text("default", "Default"));
    assert!(!same_text("", "a"));
}

#[test]
fn decimal_writing() {
    let mut s = String::from("n=");
    push_decimal(&mut s, 0);
    assert_eq!(s, "n=0");
    let mut s = String::new();
    push_decimal(&mut s, 7);
    assert_eq!(s, "7");
    let mut s = String::new();
    push_decimal(&mut s, 10);
    assert_eq!(s, "10");
    let mut s = String::new();
    push_decimal(&mut s, 1234567890);
    assert_eq!(s, "1234567890");
    let mut s = String::new();
    push_decimal(&mut s, u64::MAX);
    assert_eq!(s, u64::MAX.to_string());
}
