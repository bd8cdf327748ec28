use rusty_ci::{unquote, yes_or_no};

#[test]
fn unquote_string() {
    assert_eq!(unquote("\"\"hey jude\""), String::from("\"hey jude"));

    assert_eq!(unquote("\"\"hey jude\"\""), String::from("\"hey jude\""));

    assert_eq!(unquote("'hey jude'"), String::from("hey jude"));

    assert_eq!(unquote("''hey jude'"), String::from("'hey jude"));

    assert_eq!(unquote("'hey jude"), String::from("'hey jude"));
    assert_eq!(unquote("\"hey jude"), String::from("\"hey jude"));
    assert_eq!(unquote("hey jude'"), String::from("hey jude'"));
    assert_eq!(unquote("hey jude\""), String::from("hey jude\""));
    assert_eq!(unquote("''hey jude''"), String::from("'hey jude'"));
}

#[test]
fn unquote_is_idempotent_on_plain_values() {
    // normalizing a quoted value and normalizing the bare value agree
    assert_eq!(unquote("\"x\""), "x");
    assert_eq!(unquote("x"), "x");
    assert_eq!(unquote(unquote("\"x\"").as_str()), "x");
}

#[test]
fn yes_or_no_replies() {
    assert!(yes_or_no("y"));
    assert!(yes_or_no("Y"));
    assert!(yes_or_no("  y \r"));
    assert!(!yes_or_no("n"));
    assert!(!yes_or_no("yes"));
    assert!(!yes_or_no(""));
}
