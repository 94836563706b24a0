use auth_service::domain::{
    BannedTokenStore, Email, LoginAttemptId, Password, TwoFACode, TwoFACodeStore,
    TwoFACodeStoreError, User, UserStore, UserStoreError,
};
use auth_service::services::{HashMapTwoFACodeStore, HashMapUserStore, HashsetBannedTokenStore};
use auth_service::utils::hashing::PasswordHashError;

fn get_valid_email(i: u8) -> Email {
    Email::parse(format!("existing{}@test.txt", i).to_owned()).unwrap()
}

fn get_valid_password() -> Password {
    Password::parse("password123".to_owned()).unwrap()
}

fn setup() -> HashMapUserStore {
    let mut hm = HashMapUserStore::default();
    let user = User::new(get_valid_email(1), get_valid_password(), false);
    let _ = hm.add_user(user);
    hm
}

#[test]
fn test_add_user_succeed() {
    let mut store = setup();
    let user = User::new(get_valid_email(2), get_valid_password(), false);
    let result = store.add_user(user);
    assert!(result.is_ok());
}

#[test]
fn test_add_user_fail_user_already_exists() {
    let user = User::new(get_valid_email(1), get_valid_password(), false);
    let mut store = setup();
    let result = store.add_user(user);
    assert!(matches!(result, Err(UserStoreError::UserAlreadyExists)));
}

#[test]
fn test_get_user_returns_existing_user() {
    let store = setup();
    let result = store.get_user(&get_valid_email(1));
    assert!(result.is_ok());
}

#[test]
fn test_get_user_returns_user_not_found() {
    let store = setup();
    let result = store.get_user(&get_valid_email(3));
    assert!(matches!(result, Err(UserStoreError::UserNotFound)));
}

#[test]
fn test_validate_user_succeed_for_valid_parameters() {
    let store = setup();
    let result = store.validate_user(&get_valid_email(1), &get_valid_password());
    assert!(result.is_ok());
}

#[test]
fn test_validate_user_fail_for_inexistent_user() {
    let store = setup();
    let result = store.validate_user(&get_valid_email(3), &get_valid_password());
    assert!(matches!(result, Err(UserStoreError::UserNotFound)));
}

#[test]
fn test_validate_user_fail_for_invalid_password() {
    let store = setup();
    let result = store.validate_user(
        &get_valid_email(1),
        &Password::parse("wrongpassword".to_owned()).unwrap(),
    );
    assert!(matches!(result, Err(UserStoreError::InvalidCredentials)));
}

#[test]
fn added_user_validates_and_keeps_its_identity() {
    let mut store = HashMapUserStore::new();
    let email = Email::parse("a@x.com".to_owned()).unwrap();
    let password = get_valid_password();
    store.add_user(User::new(email.clone(), password.clone(), true)).expect("added");
    let user = store.validate_user(&email, &password).expect("validates");
    assert_eq!(user.email, email);
    assert!(user.requires_2fa);
}

#[test]
fn stored_password_is_a_hash() {
    let mut store = HashMapUserStore::new();
    let email = get_valid_email(1);
    store.add_user(User::new(email.clone(), get_valid_password(), false)).expect("added");
    let user = store.get_user(&email).expect("found");
    assert_eq!(user.email, email);
    assert!(!user.requires_2fa);
    assert_ne!(user.password, get_valid_password());
    assert!(user.password.as_ref().starts_with("$argon2id$v=19$m=15000,t=2,p=1$"));
}

#[test]
fn second_add_leaves_first_record_alone() {
    let mut store = HashMapUserStore::new();
    let email = get_valid_email(1);
    store.add_user(User::new(email.clone(), get_valid_password(), false)).expect("added");
    let before = store.get_user(&email).expect("found");
    let other = Password::parse("anotherpassword".to_owned()).unwrap();
    let result = store.add_user(User::new(email.clone(), other.clone(), true));
    assert_eq!(result, Err(UserStoreError::UserAlreadyExists));
    let after = store.get_user(&email).expect("found");
    assert_eq!(after.password, before.password);
    assert!(!after.requires_2fa);
    assert!(store.validate_user(&email, &get_valid_password()).is_ok());
    assert_eq!(
        store.validate_user(&email, &other).map(|_| ()),
        Err(UserStoreError::InvalidCredentials)
    );
}

#[test]
fn file_hashed_answers_for_each_hashing_result() {
    let mut store = HashMapUserStore::new();
    let email = get_valid_email(1);
    let user = User::new(email.clone(), get_valid_password(), false);
    assert_eq!(
        store.file_hashed(user.clone(), Err(PasswordHashError::HashingFailed)),
        Err(UserStoreError::UnexpectedError)
    );
    assert!(matches!(store.get_user(&email), Err(UserStoreError::UserNotFound)));
    assert_eq!(
        store.file_hashed(user.clone(), Ok("short".to_owned())),
        Err(UserStoreError::UnexpectedError)
    );
    assert!(matches!(store.get_user(&email), Err(UserStoreError::UserNotFound)));
    assert_eq!(store.file_hashed(user.clone(), Ok("not-a-real-hash".to_owned())), Ok(()));
    assert_eq!(store.get_user(&email).expect("found").password.as_ref(), "not-a-real-hash");
    assert_eq!(
        store.file_hashed(user.clone(), Err(PasswordHashError::HashingFailed)),
        Err(UserStoreError::UserAlreadyExists)
    );
    // A stored string that is no hash cannot be checked.
    assert_eq!(
        store.validate_user(&email, &get_valid_password()).map(|_| ()),
        Err(UserStoreError::UnexpectedError)
    );
}

#[test]
fn test_ban_and_check_token() {
    let mut store = HashsetBannedTokenStore::default();
    let token = "test_token";

    store.ban_token(token).expect("Failed to ban token");

    assert!(store.is_token_banned(token).expect("Failed to check token"));
}

#[test]
fn test_check_unbanned_token() {
    let store = HashsetBannedTokenStore::default();
    let token = "unbanned_token";

    assert!(!store.is_token_banned(token).expect("Failed to check token"));
}

#[test]
fn ban_is_idempotent_and_lasts() {
    let mut store = HashsetBannedTokenStore::new();
    store.ban_token("first").expect("banned");
    store.ban_token("first").expect("banned again");
    store.ban_token("second").expect("banned");
    assert_eq!(store.is_token_banned("first"), Ok(true));
    assert_eq!(store.is_token_banned("second"), Ok(true));
    assert_eq!(store.is_token_banned("third"), Ok(false));
    assert_eq!(store.is_token_banned(""), Ok(false));
}

#[test]
fn should_add_and_get_code() {
    let mut store = HashMapTwoFACodeStore::default();
    let email = Email::parse("test@example.org".to_owned()).unwrap();
    let login_attempt_id = LoginAttemptId::default();
    let code = TwoFACode::default();

    store.add_code(email.clone(), login_attempt_id.clone(), code.clone()).unwrap();

    let (stored_attempt_id, stored_code) = store.get_code(&email).unwrap();
    assert_eq!(stored_attempt_id, login_attempt_id);
    assert_eq!(stored_code, code);

    store.remove_code(&email).unwrap();
    let result = store.get_code(&email);

    assert!(result.is_err());
}

#[test]
fn add_code_replaces_the_live_challenge() {
    let mut store = HashMapTwoFACodeStore::new();
    let email = Email::parse("test@example.org".to_owned()).unwrap();
    let other = Email::parse("other@example.org".to_owned()).unwrap();
    let first = (LoginAttemptId::default(), TwoFACode::parse("111111").unwrap());
    let second = (LoginAttemptId::default(), TwoFACode::parse("222222").unwrap());
    store.add_code(other.clone(), first.0.clone(), first.1.clone()).unwrap();
    store.add_code(email.clone(), first.0.clone(), first.1.clone()).unwrap();
    store.add_code(email.clone(), second.0.clone(), second.1.clone()).unwrap();
    assert_eq!(store.get_code(&email), Ok(second));
    assert_eq!(store.get_code(&other), Ok(first));
}

#[test]
fn remove_code_is_idempotent() {
    let mut store = HashMapTwoFACodeStore::new();
    let email = Email::parse("test@example.org".to_owned()).unwrap();
    assert_eq!(store.remove_code(&email), Ok(()));
    store.add_code(email.clone(), LoginAttemptId::default(), TwoFACode::default()).unwrap();
    assert_eq!(store.remove_code(&email), Ok(()));
    assert_eq!(store.remove_code(&email), Ok(()));
    assert_eq!(store.get_code(&email), Err(TwoFACodeStoreError::LoginAttemptIdNotFound));
}
