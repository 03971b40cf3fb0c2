use rspawn::confirm::{
    accepts, confirmation_prompt, default_affirmative, default_user_confirm, is_affirmative,
};

#[test]
fn prompt_names_the_version() {
    assert_eq!(
        confirmation_prompt("0.2.0"),
        "A new version 0.2.0 is available. Would you like to install it? (y/n): "
    );
}

#[test]
fn default_token_is_y() {
    assert_eq!(default_affirmative(), "y");
}

#[test]
fn default_policy_accepts_y_in_any_case_with_white_space_around() {
    assert!(default_user_confirm("y"));
    assert!(default_user_confirm("Y"));
    assert!(default_user_confirm("y\n"));
    assert!(default_user_confirm("  Y \r\n"));
    assert!(default_user_confirm("\ty\u{a0}"));
}

#[test]
fn default_policy_declines_everything_else() {
    assert!(!default_user_confirm(""));
    assert!(!default_user_confirm("\n"));
    assert!(!default_user_confirm("n"));
    assert!(!default_user_confirm("yes"));
    assert!(!default_user_confirm("y y"));
    assert!(!default_user_confirm("yy"));
    assert!(!default_user_confirm("ÿ"));
}

#[test]
fn policy_with_another_token_expects_that_token() {
    assert!(accepts("yes\n", "yes"));
    assert!(accepts(" YES ", "yes"));
    assert!(accepts("Yes", "yes"));
    assert!(!accepts("y", "yes"));
    assert!(!accepts("yes please", "yes"));
    assert!(accepts("JA", "ja"));
    assert!(accepts("ÄH", "äh"));
}

#[test]
fn token_is_compared_as_it_is_given() {
    assert!(!accepts("y", "Y"));
    assert!(!accepts("Y", "Y"));
    assert!(!accepts("y", " y"));
    assert!(accepts("", ""));
    assert!(accepts("  \n", ""));
}

#[test]
fn normalised_reply_is_compared_exactly() {
    assert!(is_affirmative("y", "y"));
    assert!(is_affirmative("", ""));
    assert!(!is_affirmative("Y", "y"));
    assert!(!is_affirmative(" y", "y"));
    assert!(!is_affirmative("y", "yes"));
}
