//! Password login: look the account up by username, refuse externally
//! authenticated accounts, verify the password under the hashing secret,
//! and issue a token.

use vstd::prelude::*;

use crate::config::Secrets;
use crate::hash::{password_matches, phc_parses, verify_password, MAX_HASH_INPUT_BYTES};
use crate::jwt::{decoded_claims, encode_jwt, TOKEN_LIFETIME_SECONDS};
use crate::response::{
    ApiResponseData, ApiResponseError, STATUS_BAD_REQUEST, STATUS_FORBIDDEN,
    STATUS_INTERNAL_SERVER_ERROR, STATUS_NOT_ACCEPTABLE,
};
use crate::store::{Provider, Store};
use crate::text::dec_str;

verus! {

/// Client data to log in.
#[derive(Debug)]
pub struct LoginUserInput {
    pub username: String,
    pub password: String,
}

/// The success payload: the issued token.
#[derive(Debug)]
pub struct LoginResponseObject {
    pub token: String,
}

/// Why login failed.
#[derive(Clone, Copy, Debug, PartialEq, Eq, Structural)]
pub enum ApiError {
    UserNotFound,
    BadCredentials,
    UserProviderNotValid,
    InternalError,
    JWTEncodingError,
}

impl ApiError {
    /// The response each failure maps to.
    pub fn into_response_data(self) -> (r: ApiResponseData<()>)
        ensures
            self == ApiError::UserNotFound ==> (r matches ApiResponseData::Error { error: e, status }
                && status == STATUS_NOT_ACCEPTABLE && (e matches ApiResponseError::Simple(m) && m@
                == "user not found"@)),
            self == ApiError::BadCredentials ==> r == ApiResponseData::<()>::StatusCode(
                STATUS_FORBIDDEN,
            ),
            self == ApiError::UserProviderNotValid ==> (r matches ApiResponseData::Error {
                error: e,
                status,
            } && status == STATUS_BAD_REQUEST && (e matches ApiResponseError::Simple(m) && m@
                == "bad provider"@)),
            self == ApiError::InternalError || self == ApiError::JWTEncodingError ==> r
                == ApiResponseData::<()>::StatusCode(STATUS_INTERNAL_SERVER_ERROR),
    {
        match self {
            ApiError::UserNotFound => ApiResponseData::error(
                None,
                "user not found",
                STATUS_NOT_ACCEPTABLE,
            ),
            ApiError::BadCredentials => ApiResponseData::status_code(STATUS_FORBIDDEN),
            ApiError::UserProviderNotValid => ApiResponseData::error(
                None,
                "bad provider",
                STATUS_BAD_REQUEST,
            ),
            ApiError::InternalError | ApiError::JWTEncodingError => ApiResponseData::status_code(
                STATUS_INTERNAL_SERVER_ERROR,
            ),
        }
    }
}

/// What a login attempt resolves to, before any token is issued.
pub enum LoginOutcome {
    NotFound,
    ProviderNotValid,
    BadCredentials,
    Success(u64),
}

/// The outcome a login attempt resolves to: no account under the
/// username, an externally-authenticated account, a password that does
/// not verify, or the account's id.
pub open spec fn login_outcome(
    store: Store,
    hash_secret: Seq<char>,
    username: Seq<char>,
    password: Seq<char>,
) -> LoginOutcome {
    if !store.has_account_with_username(username) {
        LoginOutcome::NotFound
    } else {
        let a = store.account_by_username(username);
        if a.provider == Provider::Google {
            LoginOutcome::ProviderNotValid
        } else if !(a.password_hash matches Some(h) && password_matches(
            hash_secret,
            password,
            h@,
        )) {
            LoginOutcome::BadCredentials
        } else {
            LoginOutcome::Success(a.id)
        }
    }
}

/// Logs an account in and issues a token.
///
/// The outcome follows `login_outcome` exactly; a verifier-subsystem
/// failure surfaces as `InternalError` in place of `BadCredentials`, and
/// only there — never when the stored hash is a parseable PHC string and
/// the hashing secret fits argon2's byte bound, so on well-kept stores a
/// wrong password answers exactly the bare 403.
pub fn login_handler(store: &Store, secrets: &Secrets, input: &LoginUserInput, now: i64) -> (r:
    Result<LoginResponseObject, ApiError>)
    requires
        store.wf(),
    ensures
        login_outcome(*store, secrets.hash_secret@, input.username@, input.password@) matches
            LoginOutcome::NotFound ==> r == Err::<LoginResponseObject, ApiError>(
            ApiError::UserNotFound,
        ),
        login_outcome(*store, secrets.hash_secret@, input.username@, input.password@) matches
            LoginOutcome::ProviderNotValid ==> r == Err::<LoginResponseObject, ApiError>(
            ApiError::UserProviderNotValid,
        ),
        login_outcome(*store, secrets.hash_secret@, input.username@, input.password@) matches
            LoginOutcome::BadCredentials ==> (r == Err::<LoginResponseObject, ApiError>(
            ApiError::BadCredentials,
        ) || r == Err::<LoginResponseObject, ApiError>(ApiError::InternalError)),
        (login_outcome(*store, secrets.hash_secret@, input.username@, input.password@) matches
            LoginOutcome::BadCredentials && vstd::utf8::encode_utf8(secrets.hash_secret@).len()
            <= MAX_HASH_INPUT_BYTES && (store.account_by_username(
            input.username@,
        ).password_hash matches Some(h) && phc_parses(h@))) ==> r == Err::<
            LoginResponseObject,
            ApiError,
        >(ApiError::BadCredentials),
        login_outcome(*store, secrets.hash_secret@, input.username@, input.password@) matches
            LoginOutcome::Success(id) ==> (if 0 <= now && now + TOKEN_LIFETIME_SECONDS
            <= i64::MAX {
            r matches Ok(o) && decoded_claims(secrets.jwt_secret@, o.token@) == Some(
                (dec_str(id as nat), now as int, now + TOKEN_LIFETIME_SECONDS),
            )
        } else {
            r == Err::<LoginResponseObject, ApiError>(ApiError::JWTEncodingError)
        }),
{
    let idx = match store.find_account_by_username(&input.username) {
        Some(i) => i,
        None => return Err(ApiError::UserNotFound),
    };
    let account = &store.accounts[idx];
    let password = match account.provider {
        Provider::Google => {
            return Err(ApiError::UserProviderNotValid);
        },
        Provider::Local => &account.password_hash,
    };
    let hashed = match password {
        Some(h) => h,
        None => {
            proof {
                assert(false);
            }
            return Err(ApiError::InternalError);
        },
    };
    let is_match = match verify_password(
        secrets.hash_secret.as_str(),
        input.password.as_str(),
        hashed.as_str(),
    ) {
        Ok(b) => b,
        Err(_) => return Err(ApiError::InternalError),
    };
    if !is_match {
        return Err(ApiError::BadCredentials);
    }
    let token = match encode_jwt(secrets.jwt_secret.as_str(), account.id, now) {
        Some(t) => t,
        None => return Err(ApiError::JWTEncodingError),
    };
    Ok(LoginResponseObject { token })
}

} // verus!
