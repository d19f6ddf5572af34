use paste_share::errors::ServiceError;
use paste_share::tokens::{TokenManager, TOKEN_LIFETIME_SECONDS};

#[test]
fn token_valid_up_to_expiry_and_not_after() {
    let mut tokens = TokenManager::new();
    let issued_at: i64 = 1_000;
    let token = tokens.issue_at(&"alice".to_string(), issued_at).expect("drawn token is fresh");
    let expiry = issued_at + TOKEN_LIFETIME_SECONDS;

    assert_eq!(tokens.validate_at(&token, issued_at), Ok("alice".to_string()));
    assert_eq!(tokens.validate_at(&token, expiry), Ok("alice".to_string()));
    assert_eq!(
        tokens.validate_at(&token, expiry + 1),
        Err(ServiceError::ExpiredSessionCredential)
    );
}

#[test]
fn freshly_issued_token_validates_against_the_clock() {
    let mut tokens = TokenManager::new();
    let token = tokens.issue(&"alice".to_string()).expect("drawn token is fresh");
    assert_eq!(tokens.validate(&token), Ok("alice".to_string()));
    assert_eq!(
        tokens.validate(&"no-such-token".to_string()),
        Err(ServiceError::UnknownSessionCredential)
    );
}

#[test]
fn never_issued_token_is_unknown() {
    let tokens = TokenManager::new();
    assert_eq!(
        tokens.validate_at(&"no-such-token".to_string(), 0),
        Err(ServiceError::UnknownSessionCredential)
    );
}

#[test]
fn reissue_keeps_earlier_token_valid() {
    let mut tokens = TokenManager::new();
    let t1 = tokens.issue_at(&"alice".to_string(), 1_000).expect("drawn token is fresh");
    let t2 = tokens.issue_at(&"alice".to_string(), 2_000).expect("drawn token is fresh");
    assert_ne!(t1, t2);
    assert_eq!(tokens.validate_at(&t1, 3_000), Ok("alice".to_string()));
    assert_eq!(tokens.validate_at(&t2, 3_000), Ok("alice".to_string()));
}

#[test]
fn tokens_of_two_users_stay_apart() {
    let mut tokens = TokenManager::new();
    let ta = tokens.issue_at(&"alice".to_string(), 0).expect("drawn token is fresh");
    let tb = tokens.issue_at(&"bob".to_string(), 0).expect("drawn token is fresh");
    assert_eq!(tokens.validate_at(&ta, 10), Ok("alice".to_string()));
    assert_eq!(tokens.validate_at(&tb, 10), Ok("bob".to_string()));
}
