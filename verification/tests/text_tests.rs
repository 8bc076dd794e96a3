use partydeck::prompt::{yesno_outcome, PromptChoice};
use partydeck::text::{join_with_spaces, quote_arg, u32_to_decimal};

#[test]
fn decimal_rendering() {
    assert_eq!(u32_to_decimal(0), "0");
    assert_eq!(u32_to_decimal(7), "7");
    assert_eq!(u32_to_decimal(10), "10");
    assert_eq!(u32_to_decimal(1080), "1080");
    assert_eq!(u32_to_decimal(1920), "1920");
    assert_eq!(u32_to_decimal(u32::MAX), "4294967295");
}

#[test]
fn quoting_wraps_in_double_quotes() {
    assert_eq!(quote_arg("partydeck"), "\"partydeck\"");
    assert_eq!(quote_arg(""), "\"\"");
    assert_eq!(quote_arg("a b"), "\"a b\"");
}

#[test]
fn joining_with_spaces() {
    assert_eq!(join_with_spaces(&Vec::new()), "");
    assert_eq!(join_with_spaces(&vec!["one".to_string()]), "one");
    assert_eq!(
        join_with_spaces(&vec!["a".to_string(), "b".to_string(), "c".to_string()]),
        "a b c"
    );
}

#[test]
fn yesno_outcome_is_true_only_for_yes() {
    assert!(yesno_outcome(Some(PromptChoice::Yes)));
    assert!(!yesno_outcome(Some(PromptChoice::No)));
    assert!(!yesno_outcome(Some(PromptChoice::Cancel)));
    assert!(!yesno_outcome(None));
}
