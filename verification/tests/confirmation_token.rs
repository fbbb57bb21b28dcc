use z2p::domain::ConfirmationToken;

#[test]
fn a_25_grapheme_long_name_is_valid() {
    let token = "a".repeat(25);
    assert!(ConfirmationToken::parse(token).is_ok());
}

#[test]
fn a_token_longer_than_25_graphemes_is_rejected() {
    let token = "a".repeat(26);
    assert!(ConfirmationToken::parse(token).is_err());
}

#[test]
fn a_token_shorter_than_25_graphemes_is_rejected() {
    let token = "a".repeat(24);
    assert!(ConfirmationToken::parse(token).is_err());
}

#[test]
fn whitespace_only_tokens_are_rejected() {
    let token = " ".to_string();
    assert!(ConfirmationToken::parse(token).is_err());
}

#[test]
fn confirmation_token_empty_string_is_rejected() {
    let token = "".to_string();
    assert!(ConfirmationToken::parse(token).is_err());
}

#[test]
fn names_containing_an_invalid_character_are_rejected() {
    for token in &['/', '(', ')', '"', '<', '>', '\\', '{', '}'] {
        let token = token.to_string().repeat(25);
        assert!(ConfirmationToken::parse(token).is_err());
    }
}

#[test]
fn a_valid_token_is_parsed_successfully() {
    let token = ConfirmationToken::new();
    let token = token.as_ref().to_string();
    assert!(ConfirmationToken::parse(token).is_ok());
}

#[test]
fn a_generated_token_has_25_ascii_letters_and_digits() {
    for _ in 0..50 {
        let token = ConfirmationToken::new();
        let text = token.as_ref();
        assert_eq!(text.chars().count(), 25);
        assert!(text.chars().all(|c| c.is_ascii_alphanumeric()));
    }
}

#[test]
fn generated_tokens_differ() {
    let first = ConfirmationToken::new();
    let second = ConfirmationToken::new();
    assert_ne!(first.as_ref(), second.as_ref());
}

#[test]
fn a_token_is_measured_in_grapheme_clusters_not_characters() {
    // 25 clusters of two characters each: a letter and a combining accent.
    let token = "e\u{301}".repeat(25);
    assert_eq!(token.chars().count(), 50);
    let parsed = ConfirmationToken::parse(token.clone()).expect("25 clusters are a token");
    assert_eq!(parsed.as_ref(), token);
    // 25 characters that make 13 clusters only.
    let short = format!("{}a", "e\u{301}".repeat(12));
    assert_eq!(short.chars().count(), 25);
    assert!(ConfirmationToken::parse(short).is_err());
}

#[test]
fn a_rejected_token_is_named_in_the_message() {
    let message = ConfirmationToken::parse("abc".to_string()).unwrap_err();
    assert_eq!(message, "abc is invalid confirmation token.");
}

#[test]
fn a_token_of_white_space_is_rejected_whatever_its_length() {
    assert!(ConfirmationToken::parse(" ".repeat(25)).is_err());
    assert!(ConfirmationToken::parse("\u{2003}".repeat(25)).is_err());
    assert!(ConfirmationToken::parse("\t\n".repeat(25)).is_err());
}

#[test]
fn a_clone_of_a_token_has_the_same_text() {
    let token = ConfirmationToken::parse("b".repeat(25)).unwrap();
    assert_eq!(token.clone().as_ref(), token.as_ref());
}
