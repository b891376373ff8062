//! The authenticated caller's own account: resolve the bearer identity,
//! then project the account to its public view.

use vstd::prelude::*;

use crate::auth::{auth_outcome, authenticate, AuthError};
use crate::config::Secrets;
use crate::response::{
    ApiResponseData, STATUS_BAD_REQUEST, STATUS_INTERNAL_SERVER_ERROR, STATUS_NOT_ACCEPTABLE,
};
use crate::store::{Account, Provider, Store};

verus! {

/// The public view of an account: every stored field but the password
/// hash.
#[derive(Debug)]
pub struct User {
    pub id: u64,
    pub username: String,
    pub email: String,
    pub provider: Provider,
    pub created_at: i64,
    pub updated_at: Option<i64>,
}

/// Whether `u` is the public projection of `a`.
pub open spec fn projects_account(u: User, a: Account) -> bool {
    &&& u.id == a.id
    &&& u.username@ == a.username@
    &&& u.email@ == a.email@
    &&& u.provider == a.provider
    &&& u.created_at == a.created_at
    &&& u.updated_at == a.updated_at
}

impl User {
    /// Projects an account to its public view, dropping the password hash.
    pub fn from_account(a: &Account) -> (u: User)
        ensures
            projects_account(u, *a),
    {
        User {
            id: a.id,
            username: a.username.clone(),
            email: a.email.clone(),
            provider: a.provider,
            created_at: a.created_at,
            updated_at: a.updated_at,
        }
    }
}

/// The success payload: the caller's account view.
#[derive(Debug)]
pub struct MeResponse {
    pub user: User,
}

/// Why the lookup of the caller's own account failed.
#[derive(Clone, Copy, Debug, PartialEq, Eq, Structural)]
pub enum ApiError {
    InvalidJwtToken,
    InvalidIdFormat,
    DbInternalError,
    UserNotFound,
}

impl ApiError {
    /// The response each failure maps to: all bare status codes.
    pub fn into_response_data(self) -> (r: ApiResponseData<()>)
        ensures
            self == ApiError::InvalidJwtToken || self == ApiError::InvalidIdFormat ==> r
                == ApiResponseData::<()>::StatusCode(STATUS_NOT_ACCEPTABLE),
            self == ApiError::DbInternalError ==> r == ApiResponseData::<()>::StatusCode(
                STATUS_INTERNAL_SERVER_ERROR,
            ),
            self == ApiError::UserNotFound ==> r == ApiResponseData::<()>::StatusCode(
                STATUS_BAD_REQUEST,
            ),
    {
        match self {
            ApiError::InvalidJwtToken | ApiError::InvalidIdFormat => ApiResponseData::status_code(
                STATUS_NOT_ACCEPTABLE,
            ),
            ApiError::DbInternalError => ApiResponseData::status_code(
                STATUS_INTERNAL_SERVER_ERROR,
            ),
            ApiError::UserNotFound => ApiResponseData::status_code(STATUS_BAD_REQUEST),
        }
    }
}

/// Resolves the caller from the Authorization header and returns the
/// account's public view.
pub fn me_handler(store: &Store, secrets: &Secrets, auth_header: Option<&str>, now: i64) -> (r:
    Result<MeResponse, ApiError>)
    requires
        store.wf(),
    ensures
        ({
            let o = auth_outcome(
                *store,
                secrets.jwt_secret@,
                match auth_header {
                    Some(h) => Some(h@),
                    None => None,
                },
                now as int,
            );
            &&& (o == Err::<u64, AuthError>(AuthError::MissingCredentials) || o == Err::<
                u64,
                AuthError,
            >(AuthError::InvalidToken)) ==> r == Err::<MeResponse, ApiError>(
                ApiError::InvalidJwtToken,
            )
            &&& o == Err::<u64, AuthError>(AuthError::WrongCredentials) ==> r == Err::<
                MeResponse,
                ApiError,
            >(ApiError::UserNotFound)
            &&& o matches Ok(id) ==> (r matches Ok(m) && projects_account(
                m.user,
                store.account_by_id(id),
            ))
        }),
{
    let id = match authenticate(store, secrets.jwt_secret.as_str(), auth_header, now) {
        Ok(id) => id,
        Err(AuthError::WrongCredentials) => {
            return Err(ApiError::UserNotFound);
        },
        Err(AuthError::MissingCredentials) | Err(AuthError::InvalidToken) => {
            return Err(ApiError::InvalidJwtToken);
        },
        Err(AuthError::TokenCreation) | Err(AuthError::InternalError) => {
            return Err(ApiError::DbInternalError);
        },
    };
    let idx = match store.find_account_by_id(id) {
        Some(i) => i,
        None => {
            proof {
                assert(false);
            }
            return Err(ApiError::UserNotFound);
        },
    };
    Ok(MeResponse { user: User::from_account(&store.accounts[idx]) })
}

} // verus!
