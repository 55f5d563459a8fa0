use telegram_relay::auth::{authenticate, token_of, Auth, AuthError, UNAUTHORIZED};
use telegram_relay::credentials::CredentialSet;

fn set_of(line: &str) -> CredentialSet {
    CredentialSet::parse(line)
}

#[test]
fn bearer_token_of_the_set_is_authorized() {
    let set = set_of("alpha beta gamma");
    for token in ["alpha", "beta", "gamma"] {
        let header = format!("Bearer {}", token);
        assert_eq!(authenticate(Some(&header), &set), Ok(Auth));
    }
}

#[test]
fn bearer_token_outside_the_set_is_rejected() {
    let set = set_of("alpha beta");
    let outcome = authenticate(Some("Bearer delta"), &set);
    assert_eq!(outcome, Err(AuthError::InvalidToken));
    let why = outcome.unwrap_err();
    assert_eq!(why.status(), 401);
    assert_eq!(why.message(), "Invalid Authorization token.");
}

#[test]
fn missing_header_is_rejected() {
    let set = set_of("alpha");
    let outcome = authenticate(None, &set);
    assert_eq!(outcome, Err(AuthError::MissingToken));
    let why = outcome.unwrap_err();
    assert_eq!(why.status(), 401);
    assert_eq!(why.message(), "Missing Authorization token.");
}

#[test]
fn missing_header_is_rejected_by_an_empty_set_too() {
    let set = set_of("");
    assert_eq!(authenticate(None, &set), Err(AuthError::MissingToken));
}

#[test]
fn raw_token_without_prefix_is_authorized() {
    let set = set_of("alpha beta");
    assert_eq!(authenticate(Some("alpha"), &set), Ok(Auth));
    assert_eq!(authenticate(Some("beta"), &set), Ok(Auth));
}

#[test]
fn token_must_match_in_full() {
    let set = set_of("alpha");
    assert_eq!(authenticate(Some("Bearer alph"), &set), Err(AuthError::InvalidToken));
    assert_eq!(authenticate(Some("Bearer alphabet"), &set), Err(AuthError::InvalidToken));
    assert_eq!(authenticate(Some("Bearer lph"), &set), Err(AuthError::InvalidToken));
    assert_eq!(authenticate(Some("Bearer alpha "), &set), Err(AuthError::InvalidToken));
    assert_eq!(authenticate(Some(" alpha"), &set), Err(AuthError::InvalidToken));
}

#[test]
fn token_comparison_is_case_sensitive() {
    let set = set_of("Alpha");
    assert_eq!(authenticate(Some("Bearer Alpha"), &set), Ok(Auth));
    assert_eq!(authenticate(Some("Bearer alpha"), &set), Err(AuthError::InvalidToken));
    assert_eq!(authenticate(Some("Bearer ALPHA"), &set), Err(AuthError::InvalidToken));
}

#[test]
fn prefix_is_matched_to_the_letter() {
    let set = set_of("alpha");
    assert_eq!(authenticate(Some("bearer alpha"), &set), Err(AuthError::InvalidToken));
    assert_eq!(authenticate(Some("Bearer  alpha"), &set), Err(AuthError::InvalidToken));
    assert_eq!(authenticate(Some("Beareralpha"), &set), Err(AuthError::InvalidToken));
}

#[test]
fn prefix_is_taken_away_once() {
    let set = set_of("alpha");
    assert_eq!(token_of("Bearer Bearer alpha"), "Bearer alpha");
    assert_eq!(authenticate(Some("Bearer Bearer alpha"), &set), Err(AuthError::InvalidToken));
}

#[test]
fn empty_header_and_bare_prefix_are_rejected() {
    let set = set_of("alpha");
    assert_eq!(authenticate(Some(""), &set), Err(AuthError::InvalidToken));
    assert_eq!(authenticate(Some("Bearer "), &set), Err(AuthError::InvalidToken));
    assert_eq!(authenticate(Some("Bearer"), &set), Err(AuthError::InvalidToken));
}

#[test]
fn nothing_is_authorized_by_an_empty_set() {
    let set = set_of("   ");
    assert_eq!(set.len(), 0);
    assert_eq!(authenticate(Some("Bearer alpha"), &set), Err(AuthError::InvalidToken));
    assert_eq!(authenticate(Some(""), &set), Err(AuthError::InvalidToken));
}

#[test]
fn token_of_takes_the_prefix_away() {
    assert_eq!(token_of("Bearer alpha"), "alpha");
    assert_eq!(token_of("alpha"), "alpha");
    assert_eq!(token_of("Bearer "), "");
    assert_eq!(token_of(""), "");
    assert_eq!(token_of("Bear"), "Bear");
    assert_eq!(token_of("Bearer é✓"), "é✓");
    assert_eq!(token_of("é✓ Bearer x"), "é✓ Bearer x");
}

#[test]
fn unauthorized_is_401() {
    assert_eq!(UNAUTHORIZED, 401);
    assert_eq!(AuthError::MissingToken.status(), 401);
    assert_eq!(AuthError::InvalidToken.status(), 401);
}

#[test]
fn tokens_beyond_ascii_are_compared_by_character() {
    let set = set_of("schlüssel ключ");
    assert_eq!(authenticate(Some("Bearer schlüssel"), &set), Ok(Auth));
    assert_eq!(authenticate(Some("ключ"), &set), Ok(Auth));
    assert_eq!(authenticate(Some("Bearer schlussel"), &set), Err(AuthError::InvalidToken));
}
