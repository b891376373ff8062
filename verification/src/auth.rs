//! Bearer authentication: extract the token from the Authorization header,
//! validate it, parse its subject, and resolve it to a live account.

use vstd::prelude::*;

use crate::jwt::{decoded_claims, validate_token};
use crate::response::{
    STATUS_BAD_REQUEST, STATUS_FORBIDDEN, STATUS_INTERNAL_SERVER_ERROR, STATUS_UNAUTHORIZED,
};
use crate::store::Store;
use crate::text::{all_digits, dec_val, parse_u64};

verus! {

/// The authenticated caller's account id, as resolved from the request.
#[derive(Clone, Copy, Debug, PartialEq, Eq, Structural)]
pub struct UserId(pub u64);

/// Why a request failed to authenticate.
#[derive(Clone, Copy, Debug, PartialEq, Eq, Structural)]
pub enum AuthError {
    WrongCredentials,
    MissingCredentials,
    TokenCreation,
    InvalidToken,
    InternalError,
}

impl AuthError {
    /// The HTTP status each authentication failure maps to.
    pub fn status_code(&self) -> (s: u16)
        ensures
            *self == AuthError::WrongCredentials ==> s == STATUS_UNAUTHORIZED,
            *self == AuthError::MissingCredentials ==> s == STATUS_BAD_REQUEST,
            *self == AuthError::InvalidToken ==> s == STATUS_FORBIDDEN,
            *self == AuthError::TokenCreation || *self == AuthError::InternalError ==> s
                == STATUS_INTERNAL_SERVER_ERROR,
    {
        match self {
            AuthError::WrongCredentials => STATUS_UNAUTHORIZED,
            AuthError::MissingCredentials => STATUS_BAD_REQUEST,
            AuthError::TokenCreation | AuthError::InternalError => STATUS_INTERNAL_SERVER_ERROR,
            AuthError::InvalidToken => STATUS_FORBIDDEN,
        }
    }
}

/// Whether the header value has the `Bearer <token>` shape.
pub open spec fn has_bearer_shape(h: Seq<char>) -> bool {
    h.len() >= 7 && h.subrange(0, 7) == "Bearer "@
}

/// The token part of a bearer header value.
pub open spec fn bearer_token_of(h: Seq<char>) -> Seq<char> {
    h.subrange(7, h.len() as int)
}

/// Strips the `Bearer ` scheme off an Authorization header value.
pub fn extract_bearer<'a>(header: &'a str) -> (r: Option<&'a str>)
    ensures
        r is Some <==> has_bearer_shape(header@),
        r matches Some(t) ==> t@ == bearer_token_of(header@),
{
    proof {
        reveal_strlit("Bearer ");
    }
    let len = header.unicode_len();
    if len < 7 {
        return None;
    }
    let prefix = "Bearer ";
    let mut i: usize = 0;
    while i < 7
        invariant
            0 <= i <= 7,
            len == header@.len(),
            len >= 7,
            prefix@ == "Bearer "@,
            prefix@.len() == 7,
            forall|j: int| 0 <= j < i ==> header@[j] == prefix@[j],
        decreases 7 - i,
    {
        if header.get_char(i) != prefix.get_char(i) {
            proof {
                assert(header@.subrange(0, 7)[i as int] != "Bearer "@[i as int]);
            }
            return None;
        }
        i = i + 1;
    }
    proof {
        assert(header@.subrange(0, 7) =~= "Bearer "@);
    }
    Some(header.substring_char(7, len))
}

/// What authenticating a request resolves to: the caller's account id, or
/// the failure the original header/token/lookup produced.  Deterministic
/// over the store and the decoded claims.
pub open spec fn auth_outcome(
    store: Store,
    secret: Seq<char>,
    header: Option<Seq<char>>,
    now: int,
) -> Result<u64, AuthError> {
    match header {
        None => Err(AuthError::MissingCredentials),
        Some(h) => {
            if !has_bearer_shape(h) {
                Err(AuthError::MissingCredentials)
            } else {
                match decoded_claims(secret, bearer_token_of(h)) {
                    None => Err(AuthError::InvalidToken),
                    Some((sub, iat, exp)) => {
                        if now > exp {
                            Err(AuthError::InvalidToken)
                        } else if !(sub.len() > 0 && all_digits(sub) && dec_val(sub)
                            <= u64::MAX) {
                            Err(AuthError::InvalidToken)
                        } else {
                            let id = dec_val(sub) as u64;
                            if store.has_account_with_id(id) {
                                Ok(id)
                            } else {
                                Err(AuthError::WrongCredentials)
                            }
                        }
                    },
                }
            }
        },
    }
}

/// Resolves the caller's identity from the Authorization header: bearer
/// extraction, token validation at `now`, subject parsing, and account
/// lookup.
pub fn authenticate(store: &Store, secret: &str, header: Option<&str>, now: i64) -> (r: Result<
    u64,
    AuthError,
>)
    requires
        store.wf(),
    ensures
        r == auth_outcome(
            *store,
            secret@,
            match header {
                Some(h) => Some(h@),
                None => None,
            },
            now as int,
        ),
{
    let h = match header {
        Some(h) => h,
        None => return Err(AuthError::MissingCredentials),
    };
    let token = match extract_bearer(h) {
        Some(t) => t,
        None => return Err(AuthError::MissingCredentials),
    };
    let claims = match validate_token(secret, token, now) {
        Ok(c) => c,
        Err(_) => return Err(AuthError::InvalidToken),
    };
    let id = match parse_u64(claims.sub.as_str()) {
        Some(id) => id,
        None => return Err(AuthError::InvalidToken),
    };
    match store.find_account_by_id(id) {
        Some(_) => Ok(id),
        None => Err(AuthError::WrongCredentials),
    }
}

} // verus!
