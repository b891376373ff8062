use url_shortener::auth::authenticate;
use url_shortener::config::Secrets;
use url_shortener::login::{self, login_handler, LoginUserInput};
use url_shortener::me::{me_handler, ApiError as MeError};
use url_shortener::register::{register_handler, ApiError as RegisterError, RegisterUserInput};
use url_shortener::response::{ApiResponseData, ApiResponseError};
use url_shortener::store::{Account, Provider, Store};

const NOW: i64 = 1_700_000_000;

fn secrets() -> Secrets {
    Secrets {
        hash_secret: String::from("hash_secret"),
        jwt_secret: String::from("jwt_secret"),
    }
}

fn register_input(username: &str, email: &str, password: &str) -> RegisterUserInput {
    RegisterUserInput {
        username: String::from(username),
        email: String::from(email),
        password: String::from(password),
    }
}

#[test]
fn register_then_login_succeeds_and_token_resolves_back() {
    let mut store = Store::new();
    let s = secrets();
    let input = register_input("alice_01", "alice@example.com", "secret123");
    let token = register_handler(&mut store, &s, &input, NOW).unwrap().token;

    // The registration token resolves to the created account.
    let header = format!("Bearer {}", token);
    let id = authenticate(&store, "jwt_secret", Some(header.as_str()), NOW).unwrap();
    assert_eq!(id, 1);
    assert_eq!(store.accounts[0].id, 1);
    assert_eq!(store.accounts[0].username, "alice_01");

    // A later login under the same credentials succeeds, and its token
    // resolves to the same account.
    let login_input = LoginUserInput {
        username: String::from("alice_01"),
        password: String::from("secret123"),
    };
    let token2 = login_handler(&store, &s, &login_input, NOW + 60).unwrap().token;
    let header2 = format!("Bearer {}", token2);
    let id2 = authenticate(&store, "jwt_secret", Some(header2.as_str()), NOW + 60).unwrap();
    assert_eq!(id2, id);
}

#[test]
fn register_rejects_bad_fields_with_violations() {
    let mut store = Store::new();
    let s = secrets();
    let input = register_input("abc", "not-an-email", "1234");
    let err = register_handler(&mut store, &s, &input, NOW).unwrap_err();
    match err {
        RegisterError::BadClientData(e) => {
            let fields = e.fields.unwrap();
            assert_eq!(fields.len(), 3);
            assert_eq!(fields[0].field, "username");
            assert_eq!(fields[0].message, "invalid length");
            assert_eq!(fields[1].field, "email");
            assert_eq!(fields[1].message, "invalid email");
            assert_eq!(fields[2].field, "password");
            assert_eq!(fields[2].message, "invalid length");
        },
        _ => panic!("expected BadClientData"),
    }
    assert_eq!(store.accounts.len(), 0);
}

#[test]
fn register_duplicate_username_or_email_is_refused() {
    let mut store = Store::new();
    let s = secrets();
    let input = register_input("alice_01", "alice@example.com", "secret123");
    register_handler(&mut store, &s, &input, NOW).unwrap();

    // Same username, different email.
    let dup1 = register_input("alice_01", "other@example.com", "secret123");
    assert!(matches!(
        register_handler(&mut store, &s, &dup1, NOW).unwrap_err(),
        RegisterError::UserAlreadyRegistered
    ));
    // Same email, different username.
    let dup2 = register_input("alice_two", "alice@example.com", "secret123");
    assert!(matches!(
        register_handler(&mut store, &s, &dup2, NOW).unwrap_err(),
        RegisterError::UserAlreadyRegistered
    ));
    assert_eq!(store.accounts.len(), 1);
}

#[test]
fn register_error_responses_carry_status() {
    let err = RegisterError::UserAlreadyRegistered;
    match err.into_response_data() {
        ApiResponseData::Error { error, status } => {
            assert_eq!(status, 403);
            match error {
                ApiResponseError::Simple(m) => assert_eq!(m, "user already registered"),
                _ => panic!("expected a simple error"),
            }
        },
        _ => panic!("expected an error response"),
    }
}

#[test]
fn login_unknown_user_not_found() {
    let store = Store::new();
    let s = secrets();
    let input = LoginUserInput {
        username: String::from("missing_user"),
        password: String::from("whatever"),
    };
    let err = login_handler(&store, &s, &input, NOW).unwrap_err();
    assert_eq!(err, login::ApiError::UserNotFound);
    match err.into_response_data() {
        ApiResponseData::Error { error, status } => {
            assert_eq!(status, 406);
            match error {
                ApiResponseError::Simple(m) => assert_eq!(m, "user not found"),
                _ => panic!("expected a simple error"),
            }
        },
        _ => panic!("expected an error response"),
    }
}

#[test]
fn login_wrong_password_bad_credentials() {
    let mut store = Store::new();
    let s = secrets();
    let input = register_input("alice_01", "alice@example.com", "secret123");
    register_handler(&mut store, &s, &input, NOW).unwrap();
    let login_input = LoginUserInput {
        username: String::from("alice_01"),
        password: String::from("wrong_password"),
    };
    let err = login_handler(&store, &s, &login_input, NOW).unwrap_err();
    assert_eq!(err, login::ApiError::BadCredentials);
    assert!(matches!(
        err.into_response_data(),
        ApiResponseData::StatusCode(403)
    ));
}

#[test]
fn login_external_provider_rejected_whatever_the_password() {
    let mut store = Store::new();
    store.accounts.push(Account {
        id: 1,
        username: String::from("google_user"),
        email: String::from("g@example.com"),
        password_hash: None,
        provider: Provider::Google,
        created_at: NOW,
        updated_at: None,
    });
    store.next_account_id = 2;
    let s = secrets();
    for password in ["", "secret123", "anything_at_all"] {
        let input = LoginUserInput {
            username: String::from("google_user"),
            password: String::from(password),
        };
        let err = login_handler(&store, &s, &input, NOW).unwrap_err();
        assert_eq!(err, login::ApiError::UserProviderNotValid);
    }
}

#[test]
fn register_near_the_end_of_time_fails_token_encoding() {
    let mut store = Store::new();
    let s = secrets();
    let input = register_input("alice_01", "alice@example.com", "secret123");
    // The account is persisted, then the expiry computation overflows.
    let err = register_handler(&mut store, &s, &input, i64::MAX - 100).unwrap_err();
    assert!(matches!(err, RegisterError::JWTEncodingError));
    assert_eq!(store.accounts.len(), 1);
}

#[test]
fn register_before_the_epoch_fails_token_encoding() {
    let mut store = Store::new();
    let s = secrets();
    let input = register_input("alice_01", "alice@example.com", "secret123");
    let err = register_handler(&mut store, &s, &input, -10).unwrap_err();
    assert!(matches!(err, RegisterError::JWTEncodingError));
}

#[test]
fn register_with_exhausted_id_space_is_internal() {
    let mut store = Store::new();
    store.next_account_id = u64::MAX;
    let s = secrets();
    let input = register_input("alice_01", "alice@example.com", "secret123");
    let err = register_handler(&mut store, &s, &input, NOW).unwrap_err();
    assert!(matches!(err, RegisterError::DbInternalError));
    assert_eq!(store.accounts.len(), 0);
}

#[test]
fn me_returns_the_callers_view_without_hash() {
    let mut store = Store::new();
    let s = secrets();
    let input = register_input("alice_01", "alice@example.com", "secret123");
    let token = register_handler(&mut store, &s, &input, NOW).unwrap().token;
    let header = format!("Bearer {}", token);
    let me = me_handler(&store, &s, Some(header.as_str()), NOW).unwrap();
    assert_eq!(me.user.id, 1);
    assert_eq!(me.user.username, "alice_01");
    assert_eq!(me.user.email, "alice@example.com");
    assert_eq!(me.user.provider, Provider::Local);
    assert_eq!(me.user.created_at, NOW);
    assert_eq!(me.user.updated_at, None);
}

#[test]
fn me_with_bad_token_is_invalid_jwt() {
    let store = Store::new();
    let s = secrets();
    let err = me_handler(&store, &s, Some("Bearer garbage"), NOW).unwrap_err();
    assert_eq!(err, MeError::InvalidJwtToken);
    assert!(matches!(
        err.into_response_data(),
        ApiResponseData::StatusCode(406)
    ));
}

#[test]
fn me_with_expired_token_is_invalid_jwt() {
    let mut store = Store::new();
    let s = secrets();
    let input = register_input("alice_01", "alice@example.com", "secret123");
    let token = register_handler(&mut store, &s, &input, NOW).unwrap().token;
    let header = format!("Bearer {}", token);
    let err = me_handler(&store, &s, Some(header.as_str()), NOW + 14401).unwrap_err();
    assert_eq!(err, MeError::InvalidJwtToken);
}
