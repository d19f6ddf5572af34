use paste_share::creds::CredentialStore;
use paste_share::errors::ServiceError;
use paste_share::handlers::{create_paste, login, register, show_paste, show_user_pastes};
use paste_share::pastes::PasteStore;
use paste_share::tokens::TokenManager;

#[test]
fn register_login_create_show_roundtrip() {
    let mut users = CredentialStore::new();
    let mut tokens = TokenManager::new();
    let mut pastes = PasteStore::new();

    let reg = register(&mut users, &mut tokens, &"alice".to_string(), &"pw1".to_string())
        .expect("the hash primitive works")
        .expect("registration succeeds");
    assert!(reg.http_only);
    assert!(reg.same_site_lax);
    assert!(reg.path_root);
    assert_eq!(reg.max_age_days, Some(60));

    let session = login(&users, &mut tokens, &"alice".to_string(), &"pw1".to_string())
        .expect("drawn token is fresh")
        .expect("login succeeds");
    assert!(session.http_only);
    assert!(!session.same_site_lax);
    assert!(session.path_root);
    assert_eq!(session.max_age_days, None);

    let created = create_paste(&tokens, &mut pastes, Some(&session.token), "hello".to_string())
        .expect("drawn id is fresh")
        .expect("session is valid");
    assert_eq!(created.owner, "alice");

    let shown = show_paste(&pastes, &created.id).expect("paste stored");
    assert_eq!(shown.text, "hello");

    let listed = show_user_pastes(&pastes, Some(&"alice".to_string())).expect("identifier given");
    assert_eq!(listed.len(), 1);
    assert_eq!(listed[0].id, created.id);
    assert_eq!(listed[0].text, "hello");
}

#[test]
fn register_duplicate_username_is_refused() {
    let mut users = CredentialStore::new();
    let mut tokens = TokenManager::new();
    assert!(matches!(
        register(&mut users, &mut tokens, &"alice".to_string(), &"pw1".to_string()),
        Some(Ok(_))
    ));
    assert!(matches!(
        register(&mut users, &mut tokens, &"alice".to_string(), &"pw2".to_string()),
        Some(Err(ServiceError::DuplicateUser))
    ));
}

#[test]
fn login_with_wrong_password_is_refused() {
    let mut users = CredentialStore::new();
    let mut tokens = TokenManager::new();
    assert!(matches!(
        register(&mut users, &mut tokens, &"alice".to_string(), &"pw1".to_string()),
        Some(Ok(_))
    ));
    assert_eq!(
        login(&users, &mut tokens, &"alice".to_string(), &"pw2".to_string())
            .expect("a refusal issues no token")
            .err(),
        Some(ServiceError::InvalidCredentials)
    );
}

#[test]
fn login_with_unknown_user_is_refused() {
    let users = CredentialStore::new();
    let mut tokens = TokenManager::new();
    assert_eq!(
        login(&users, &mut tokens, &"ghost".to_string(), &"pw".to_string())
            .expect("a refusal issues no token")
            .err(),
        Some(ServiceError::InvalidCredentials)
    );
}

#[test]
fn create_paste_without_credential_is_refused() {
    let tokens = TokenManager::new();
    let mut pastes = PasteStore::new();
    assert!(matches!(
        create_paste(&tokens, &mut pastes, None, "hello".to_string()),
        Some(Err(ServiceError::MissingSessionCredential))
    ));
}

#[test]
fn create_paste_with_forged_credential_is_refused() {
    let tokens = TokenManager::new();
    let mut pastes = PasteStore::new();
    assert!(matches!(
        create_paste(&tokens, &mut pastes, Some(&"forged".to_string()), "hello".to_string()),
        Some(Err(ServiceError::UnknownSessionCredential))
    ));
}

#[test]
fn create_paste_with_expired_credential_is_refused() {
    let mut tokens = TokenManager::new();
    let mut pastes = PasteStore::new();
    let stale = tokens.issue_at(&"alice".to_string(), -10_000_000).expect("drawn token is fresh");
    assert!(matches!(
        create_paste(&tokens, &mut pastes, Some(&stale), "hello".to_string()),
        Some(Err(ServiceError::ExpiredSessionCredential))
    ));
    assert_eq!(pastes.list_by_owner(&"alice".to_string()).len(), 0);
}

#[test]
fn sequential_creates_append_without_loss() {
    let mut tokens = TokenManager::new();
    let mut pastes = PasteStore::new();
    // Issued so late that the recorded expiry saturates: never expired.
    let token = tokens.issue_at(&"alice".to_string(), i64::MAX).expect("drawn token is fresh");

    let mut ids = Vec::new();
    for text in ["one", "two", "three"] {
        let created = create_paste(&tokens, &mut pastes, Some(&token), text.to_string())
            .expect("drawn id is fresh")
            .expect("session is valid");
        ids.push(created.id);
    }

    let listed = pastes.list_by_owner(&"alice".to_string());
    assert_eq!(listed.len(), 3);
    assert_eq!(listed[0].text, "one");
    assert_eq!(listed[1].text, "two");
    assert_eq!(listed[2].text, "three");
    assert_ne!(ids[0], ids[1]);
    assert_ne!(ids[0], ids[2]);
    assert_ne!(ids[1], ids[2]);
    for (k, id) in ids.iter().enumerate() {
        let shown = show_paste(&pastes, id).expect("paste stored");
        assert_eq!(shown.text, listed[k].text);
    }
}

#[test]
fn create_paste_with_blank_text_is_refused() {
    let mut tokens = TokenManager::new();
    let mut pastes = PasteStore::new();
    let token = tokens.issue_at(&"alice".to_string(), i64::MAX).expect("drawn token is fresh");

    assert!(matches!(
        create_paste(&tokens, &mut pastes, Some(&token), String::new()),
        Some(Err(ServiceError::BlankPasteText))
    ));
    assert!(matches!(
        create_paste(&tokens, &mut pastes, Some(&token), " \t\r\n ".to_string()),
        Some(Err(ServiceError::BlankPasteText))
    ));
    assert_eq!(pastes.list_by_owner(&"alice".to_string()).len(), 0);

    let created = create_paste(&tokens, &mut pastes, Some(&token), " hi ".to_string())
        .expect("drawn id is fresh")
        .expect("padded but not blank text is accepted");
    assert_eq!(show_paste(&pastes, &created.id).expect("paste stored").text, " hi ");
}

#[test]
fn show_user_pastes_without_identifier_is_refused() {
    let pastes = PasteStore::new();
    assert_eq!(
        show_user_pastes(&pastes, None).err(),
        Some(ServiceError::MissingIdentifier)
    );
}

#[test]
fn error_messages_match_the_taxonomy() {
    assert_eq!(ServiceError::DuplicateUser.message(), "user already exists");
    assert_eq!(ServiceError::InvalidCredentials.message(), "invalid credentials");
    assert_eq!(ServiceError::MissingSessionCredential.message(), "not authenticated");
    assert_eq!(ServiceError::UnknownSessionCredential.message(), "invalid session");
    assert_eq!(ServiceError::ExpiredSessionCredential.message(), "session expired");
    assert_eq!(ServiceError::BlankPasteText.message(), "empty paste text");
    assert_eq!(ServiceError::PasteNotFound.message(), "paste not found");
    assert_eq!(ServiceError::MissingIdentifier.message(), "missing identifier");
    assert_eq!(ServiceError::PersistenceWriteFailed.message(), "could not persist");
}
