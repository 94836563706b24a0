use auth_service::domain::{AuthAPIError, Email, LoginAttemptId, Password, TwoFACode, User};

#[test]
fn email_parse_accepts_addresses() {
    for text in ["a@x.com", "test@example.org", "weirder-email@here.and.there.com", "abc@bar"] {
        let email = Email::parse(text.to_owned()).expect("a valid address");
        assert_eq!(email.as_ref(), text);
    }
}

#[test]
fn email_parse_rejects_with_message() {
    for text in ["", "abc", "abc@", "not-an-email", "a @x.cz", "something@@somewhere.com"] {
        let message = Email::parse(text.to_owned()).expect_err("no address");
        assert_eq!(message, format!("{} is not a valid email", text));
    }
}

#[test]
fn email_equality_is_by_text() {
    let a = Email::parse("a@x.com".to_owned()).unwrap();
    let b = Email::parse("a@x.com".to_owned()).unwrap();
    let c = Email::parse("b@x.com".to_owned()).unwrap();
    assert_eq!(a, b);
    assert_ne!(a, c);
    assert_eq!(a.clone(), a);
}

#[test]
fn password_parse_accepts_eight_characters() {
    let password = Password::parse("12345678".to_owned()).expect("long enough");
    assert_eq!(password.as_ref(), "12345678");
    assert!(Password::parse("password123".to_owned()).is_ok());
}

#[test]
fn password_parse_rejects_seven_characters() {
    let message = Password::parse("1234567".to_owned()).expect_err("too short");
    assert_eq!(message, "Password must be at least 8 characters long");
    assert!(Password::parse(String::new()).is_err());
    assert!(Password::parse("short".to_owned()).is_err());
}

#[test]
fn password_length_counts_characters() {
    // Seven characters, fourteen bytes.
    assert!(Password::parse("ууууууу".to_owned()).is_err());
    assert!(Password::parse("уууууууу".to_owned()).is_ok());
}

#[test]
fn login_attempt_id_parse_accepts_uuid() {
    let text = "d498ab94-f157-453f-a6e2-da196ae3e713";
    let id = LoginAttemptId::parse(text.to_owned()).expect("a UUID");
    assert_eq!(id.as_ref(), text);
    assert!(LoginAttemptId::parse("d498ab94f157453fa6e2da196ae3e713".to_owned()).is_ok());
}

#[test]
fn login_attempt_id_parse_rejects_with_message() {
    assert_eq!(
        LoginAttemptId::parse(String::new()).expect_err("empty"),
        "Invalid UUID format: invalid length: found 0"
    );
    assert_eq!(
        LoginAttemptId::parse("valid-id".to_owned()).expect_err("no UUID"),
        "Invalid UUID format: invalid character: found `v` at 0"
    );
}

#[test]
fn login_attempt_id_default_is_fresh_and_parses() {
    let a = LoginAttemptId::default();
    let b = LoginAttemptId::default();
    assert_ne!(a, b);
    assert_eq!(a.as_ref().len(), 36);
    let again = LoginAttemptId::parse(a.as_ref().to_owned()).expect("parses back");
    assert_eq!(again, a);
}

#[test]
fn two_fa_code_parse_accepts_six_digits() {
    for text in ["123456", "000000", "999999", "000042"] {
        let code = TwoFACode::parse(text).expect("six digits");
        assert_eq!(code.as_ref(), text);
    }
}

#[test]
fn two_fa_code_parse_rejects_other_shapes() {
    for text in ["", "12", "12345", "1234567", "12345a", "12 456", "-12345", "١٢٣٤٥٦"] {
        let message = TwoFACode::parse(text).expect_err("not six digits");
        assert_eq!(message, "Invalid 2FA code");
    }
}

#[test]
fn two_fa_code_from_number_pads_and_wraps() {
    assert_eq!(TwoFACode::from_number(0).as_ref(), "000000");
    assert_eq!(TwoFACode::from_number(42).as_ref(), "000042");
    assert_eq!(TwoFACode::from_number(123_456).as_ref(), "123456");
    assert_eq!(TwoFACode::from_number(999_999).as_ref(), "999999");
    assert_eq!(TwoFACode::from_number(1_000_000).as_ref(), "000000");
    assert_eq!(TwoFACode::from_number(4_294_967_295).as_ref(), "967295");
}

#[test]
fn two_fa_code_default_is_six_digits() {
    for _ in 0..50 {
        let code = TwoFACode::default();
        assert_eq!(code.as_ref().len(), 6);
        assert!(code.as_ref().chars().all(|c| c.is_ascii_digit()));
        assert_eq!(TwoFACode::parse(code.as_ref()).expect("parses back"), code);
    }
}

#[test]
fn user_new_keeps_its_parts() {
    let email = Email::parse("a@x.com".to_owned()).unwrap();
    let password = Password::parse("password123".to_owned()).unwrap();
    let user = User::new(email.clone(), password.clone(), true);
    assert_eq!(user.email, email);
    assert_eq!(user.password, password);
    assert!(user.requires_2fa);
    let copy = user.clone();
    assert_eq!(copy.email, email);
    assert_eq!(copy.password, password);
    assert!(copy.requires_2fa);
}

#[test]
fn api_errors_map_to_status_and_message() {
    let table = [
        (AuthAPIError::UserAlreadyExists, 409, "User already exists"),
        (AuthAPIError::InvalidCredentials, 400, "Invalid credentials"),
        (AuthAPIError::IncorrectCredentials, 401, "Incorrect credentials"),
        (AuthAPIError::UnexpectedError, 500, "Internal server error"),
        (AuthAPIError::InvalidToken, 401, "Invalid token"),
        (AuthAPIError::MissingToken, 400, "Missing token"),
        (AuthAPIError::Invalid2FACodeRequest, 400, "Invalid 2FA code"),
    ];
    for (error, status, message) in table {
        assert_eq!(error.status_code(), status);
        assert_eq!(error.message(), message);
        assert_eq!(error.response().error, message);
    }
}
