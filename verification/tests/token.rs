use subscriptions::token::{generate_subscription_token, TOKEN_LENGTH};

#[test]
fn a_token_has_twenty_five_characters() {
    assert_eq!(TOKEN_LENGTH, 25);
    let token = generate_subscription_token();
    assert_eq!(token.chars().count(), 25);
    assert_eq!(token.len(), 25);
}

#[test]
fn a_token_holds_letters_and_digits_only() {
    for _ in 0..200 {
        let token = generate_subscription_token();
        assert!(token.chars().all(|c| c.is_ascii_alphanumeric()));
    }
}

#[test]
fn successive_tokens_differ() {
    let first = generate_subscription_token();
    let second = generate_subscription_token();
    assert_ne!(first, second);
}

#[test]
fn a_sample_of_tokens_holds_no_token_twice() {
    let mut seen: Vec<String> = Vec::new();
    for _ in 0..500 {
        let token = generate_subscription_token();
        assert!(!seen.contains(&token));
        seen.push(token);
    }
}

#[test]
fn tokens_are_not_made_of_one_character() {
    let token = generate_subscription_token();
    let first = token.chars().next().unwrap();
    assert!(token.chars().any(|c| c != first));
}
