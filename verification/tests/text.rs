use uplc::text::{append_decimal, same_text};

#[test]
fn same_text_compares_every_character() {
    assert!(same_text("", ""));
    assert!(same_text("trace", "trace"));
    assert!(!same_text("trace", "tracE"));
    assert!(!same_text("trace", "trac"));
    assert!(!same_text("trac", "trace"));
    assert!(!same_text("", "a"));
    assert!(same_text("λx", "λx"));
    assert!(!same_text("λx", "λy"));
}

#[test]
fn decimal_is_written_after_the_text() {
    let mut text = String::from("n = ");
    append_decimal(&mut text, 0);
    assert_eq!(text, "n = 0");
    append_decimal(&mut text, 907);
    assert_eq!(text, "n = 0907");
    let mut text = String::new();
    append_decimal(&mut text, 10);
    assert_eq!(text, "10");
    let mut text = String::new();
    append_decimal(&mut text, u128::MAX);
    assert_eq!(text, "340282366920938463463374607431768211455");
}
