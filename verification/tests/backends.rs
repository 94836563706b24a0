use auth_service::domain::{
    BannedTokenStoreError, Email, LoginAttemptId, Password, TwoFACode, TwoFACodeStoreError, User,
    UserStoreError,
};
use auth_service::services::data_stores::postgres_user_store::{
    insert_error, new_user_row, row_from_hash, user_from_row, validate_row, InsertFailure,
    UserRow,
};
use auth_service::services::data_stores::redis_banned_token_store::{
    ban_entry, ban_result, is_banned_result, BANNED_TOKEN_KEY_PREFIX,
};
use auth_service::services::data_stores::redis_two_fa_code_store::{
    challenge_entry, challenge_from_pair, challenge_from_reply, TEN_MINUTES_IN_SECONDS,
    TWO_FA_CODE_PREFIX,
};
use auth_service::services::data_stores::{redis_banned_token_store, redis_two_fa_code_store};
use auth_service::utils::auth::{TokenCodec, TOKEN_TTL_SECONDS};
use auth_service::utils::hashing::{verify_password_hash, PasswordHashError};

const STANDARD_HEADER: &str = "$argon2id$v=19$m=15000,t=2,p=1$";

const KNOWN_HASH: &str =
    "$argon2id$v=19$m=256,t=2,p=1$c29tZXNhbHQ$nf65EOgLrQMR/uIPnA4rEsF5h7TKyQwu9U1bMCHGi/4";

fn sample_user(requires_2fa: bool) -> User {
    User::new(
        Email::parse("a@x.com".to_owned()).unwrap(),
        Password::parse("password123".to_owned()).unwrap(),
        requires_2fa,
    )
}

fn known_row() -> UserRow {
    UserRow { email: "a@x.com".to_owned(), password_hash: KNOWN_HASH.to_owned(), requires_2fa: true }
}

#[test]
fn banned_token_key_has_its_prefix() {
    assert_eq!(BANNED_TOKEN_KEY_PREFIX, "banned_token:");
    assert_eq!(redis_banned_token_store::get_key("test_token"), "banned_token:test_token");
    assert_eq!(redis_banned_token_store::get_key(""), "banned_token:");
}

#[test]
fn ban_entry_lives_as_long_as_a_token() {
    let codec = TokenCodec::new("secret".to_owned(), TOKEN_TTL_SECONDS);
    let entry = ban_entry("test_token", &codec);
    assert_eq!(entry.key, "banned_token:test_token");
    assert_eq!(entry.ttl_seconds, 600);
    let long_lived = TokenCodec::new("secret".to_owned(), 86_400);
    assert_eq!(ban_entry("test_token", &long_lived).ttl_seconds, 86_400);
}

#[test]
fn cache_replies_map_to_ban_results() {
    assert_eq!(ban_result(true), Ok(()));
    assert_eq!(ban_result(false), Err(BannedTokenStoreError::UnexpectedError));
    assert_eq!(is_banned_result(Some(true)), Ok(true));
    assert_eq!(is_banned_result(Some(false)), Ok(false));
    assert_eq!(is_banned_result(None), Err(BannedTokenStoreError::UnexpectedError));
}

#[test]
fn challenge_key_has_its_prefix() {
    let email = Email::parse("test@example.org".to_owned()).unwrap();
    assert_eq!(TWO_FA_CODE_PREFIX, "two_fa_code:");
    assert_eq!(redis_two_fa_code_store::get_key(&email), "two_fa_code:test@example.org");
}

#[test]
fn challenge_entry_writes_the_pair_as_json() {
    let email = Email::parse("test@example.org".to_owned()).unwrap();
    let id = LoginAttemptId::parse("d498ab94-f157-453f-a6e2-da196ae3e713".to_owned()).unwrap();
    let code = TwoFACode::parse("012345").unwrap();
    let entry = challenge_entry(&email, &id, &code).expect("written");
    assert_eq!(entry.key, "two_fa_code:test@example.org");
    assert_eq!(entry.value, r#"["d498ab94-f157-453f-a6e2-da196ae3e713","012345"]"#);
    assert_eq!(entry.ttl_seconds, 600);
    assert_eq!(TEN_MINUTES_IN_SECONDS, 600);
}

#[test]
fn challenge_from_reply_reads_what_challenge_entry_writes() {
    let email = Email::parse("test@example.org".to_owned()).unwrap();
    let id = LoginAttemptId::default();
    let code = TwoFACode::default();
    let entry = challenge_entry(&email, &id, &code).expect("written");
    assert_eq!(challenge_from_reply(Some(entry.value)), Ok((id, code)));
}

#[test]
fn challenge_from_reply_without_value_is_not_found() {
    assert_eq!(challenge_from_reply(None), Err(TwoFACodeStoreError::LoginAttemptIdNotFound));
}

#[test]
fn challenge_from_reply_rejects_other_values() {
    let cases = [
        "",
        "not json",
        r#"["d498ab94-f157-453f-a6e2-da196ae3e713"]"#,
        r#"["d498ab94-f157-453f-a6e2-da196ae3e713","123456","more"]"#,
        r#"["d498ab94-f157-453f-a6e2-da196ae3e713",123456]"#,
        r#"["valid-id","123456"]"#,
        r#"["d498ab94-f157-453f-a6e2-da196ae3e713","12345"]"#,
        r#"{"0":"d498ab94-f157-453f-a6e2-da196ae3e713","1":"123456"}"#,
    ];
    for value in cases {
        assert_eq!(
            challenge_from_reply(Some(value.to_owned())),
            Err(TwoFACodeStoreError::UnexpectedError),
            "{}",
            value
        );
    }
}

#[test]
fn challenge_from_pair_checks_both_parts() {
    let id = "d498ab94-f157-453f-a6e2-da196ae3e713";
    let challenge = challenge_from_pair(Some((id.to_owned(), "123456".to_owned()))).unwrap();
    assert_eq!(challenge.0.as_ref(), id);
    assert_eq!(challenge.1.as_ref(), "123456");
    assert_eq!(
        challenge_from_pair(Some((id.to_owned(), "1234567".to_owned()))),
        Err(TwoFACodeStoreError::UnexpectedError)
    );
    assert_eq!(
        challenge_from_pair(Some(("".to_owned(), "123456".to_owned()))),
        Err(TwoFACodeStoreError::UnexpectedError)
    );
    assert_eq!(challenge_from_pair(None), Err(TwoFACodeStoreError::UnexpectedError));
}

#[test]
fn new_user_row_holds_a_hash_of_the_password() {
    let row = new_user_row(&sample_user(true)).expect("hashed");
    assert_eq!(row.email, "a@x.com");
    assert!(row.requires_2fa);
    assert_ne!(row.password_hash, "password123");
    assert!(row.password_hash.starts_with(STANDARD_HEADER));
    assert_eq!(verify_password_hash(&row.password_hash, "password123"), Ok(true));
}

#[test]
fn new_row_validates_once_fetched() {
    let user = sample_user(true);
    let row = new_user_row(&user).expect("hashed");
    let found = validate_row(Some(row), &user.password).expect("validates");
    assert_eq!(found.email, user.email);
    assert!(found.requires_2fa);
    assert_ne!(found.password, user.password);
}

#[test]
fn row_from_hash_for_each_hashing_result() {
    let user = sample_user(false);
    let row = row_from_hash(&user, Ok("some hash".to_owned())).expect("a row");
    assert_eq!(row.email, "a@x.com");
    assert_eq!(row.password_hash, "some hash");
    assert!(!row.requires_2fa);
    assert_eq!(
        row_from_hash(&user, Err(PasswordHashError::HashingFailed)).map(|_| ()),
        Err(UserStoreError::UnexpectedError)
    );
}

#[test]
fn insert_error_tells_duplicates_from_the_rest() {
    assert_eq!(insert_error(InsertFailure::UniqueViolation), UserStoreError::UserAlreadyExists);
    assert_eq!(insert_error(InsertFailure::Other), UserStoreError::UnexpectedError);
}

#[test]
fn user_from_row_for_each_row() {
    let user = user_from_row(Some(known_row())).expect("usable");
    assert_eq!(user.email.as_ref(), "a@x.com");
    assert_eq!(user.password.as_ref(), KNOWN_HASH);
    assert!(user.requires_2fa);
    assert_eq!(user_from_row(None).map(|_| ()), Err(UserStoreError::UserNotFound));
    let no_email = UserRow { email: "nobody".to_owned(), ..known_row() };
    assert_eq!(user_from_row(Some(no_email)).map(|_| ()), Err(UserStoreError::UnexpectedError));
    let no_hash = UserRow { password_hash: "short".to_owned(), ..known_row() };
    assert_eq!(user_from_row(Some(no_hash)).map(|_| ()), Err(UserStoreError::UnexpectedError));
}

#[test]
fn validate_row_for_each_row_and_password() {
    let right = Password::parse("password".to_owned()).unwrap();
    let wrong = Password::parse("password123".to_owned()).unwrap();
    let user = validate_row(Some(known_row()), &right).expect("validates");
    assert_eq!(user.email.as_ref(), "a@x.com");
    assert_eq!(
        validate_row(Some(known_row()), &wrong).map(|_| ()),
        Err(UserStoreError::InvalidCredentials)
    );
    assert_eq!(validate_row(None, &right).map(|_| ()), Err(UserStoreError::UserNotFound));
    let unreadable = UserRow { password_hash: "not-a-real-hash".to_owned(), ..known_row() };
    assert_eq!(
        validate_row(Some(unreadable), &right).map(|_| ()),
        Err(UserStoreError::UnexpectedError)
    );
}
