//! Account registration: validate the input shape, refuse a username or
//! email already taken, hash the password under the server secret, persist
//! the account, and issue a token for it.

use vstd::prelude::*;

use crate::config::Secrets;
use crate::hash::{hash_password, password_matches, phc_parses};
use crate::jwt::{decoded_claims, encode_jwt, TOKEN_LIFETIME_SECONDS};
use crate::response::{
    ApiResponseData, ApiResponseError, STATUS_BAD_REQUEST, STATUS_FORBIDDEN,
    STATUS_INTERNAL_SERVER_ERROR,
};
use crate::store::{Account, Provider, Store};
use crate::text::dec_str;
use crate::validate::{
    char_len_between, is_valid_email, mk_violation, response_error_matches, validate_email,
    FieldViolation, ResponseError,
};

verus! {

/// Client data to create an account.
#[derive(Debug)]
pub struct RegisterUserInput {
    pub username: String,
    pub email: String,
    pub password: String,
}

/// The success payload: the issued token.
#[derive(Debug)]
pub struct RegisterResponseObject {
    pub token: String,
}

/// Why registration failed.
#[derive(Debug)]
pub enum ApiError {
    BadClientData(ResponseError),
    UserAlreadyRegistered,
    DbInternalError,
    HashingError,
    JWTEncodingError,
}

impl ApiError {
    /// The response each failure maps to: field detail for bad input,
    /// a message for a taken identity, a bare 500 otherwise.
    pub fn into_response_data(self) -> (r: ApiResponseData<ResponseError>)
        ensures
            self matches ApiError::BadClientData(err) ==> (r matches ApiResponseData::Error {
                error: e,
                status,
            } && status == STATUS_BAD_REQUEST && (e matches ApiResponseError::Complicated {
                message,
                error: d,
            } && message@ == "invalid data from client"@ && d == err)),
            self matches ApiError::UserAlreadyRegistered ==> (r matches ApiResponseData::Error {
                error: e,
                status,
            } && status == STATUS_FORBIDDEN && (e matches ApiResponseError::Simple(m) && m@
                == "user already registered"@)),
            (self matches ApiError::DbInternalError || self matches ApiError::HashingError
                || self matches ApiError::JWTEncodingError) ==> r
                == ApiResponseData::<ResponseError>::StatusCode(STATUS_INTERNAL_SERVER_ERROR),
    {
        match self {
            ApiError::BadClientData(err) => ApiResponseData::error(
                Some(err),
                "invalid data from client",
                STATUS_BAD_REQUEST,
            ),
            ApiError::UserAlreadyRegistered => ApiResponseData::error(
                None,
                "user already registered",
                STATUS_FORBIDDEN,
            ),
            ApiError::DbInternalError | ApiError::HashingError | ApiError::JWTEncodingError => {
                ApiResponseData::status_code(STATUS_INTERNAL_SERVER_ERROR)
            },
        }
    }
}

/// Whether the registration input has a valid shape: username 6 to 20
/// characters, syntactically valid email, password 5 to 25 characters.
pub open spec fn register_input_valid(username: Seq<char>, email: Seq<char>, password: Seq<char>) -> bool {
    &&& 6 <= username.len() <= 20
    &&& is_valid_email(email)
    &&& 5 <= password.len() <= 25
}

/// The field violations invalid registration input reports, in field
/// order.
pub open spec fn register_expected_violations(
    username: Seq<char>,
    email: Seq<char>,
    password: Seq<char>,
) -> Seq<(Seq<char>, Seq<char>)> {
    (if !(6 <= username.len() <= 20) {
        seq![("username"@, "invalid length"@)]
    } else {
        Seq::<(Seq<char>, Seq<char>)>::empty()
    }) + (if !is_valid_email(email) {
        seq![("email"@, "invalid email"@)]
    } else {
        Seq::<(Seq<char>, Seq<char>)>::empty()
    }) + (if !(5 <= password.len() <= 25) {
        seq![("password"@, "invalid length"@)]
    } else {
        Seq::<(Seq<char>, Seq<char>)>::empty()
    })
}

/// Checks the registration input shape, reporting every broken field.
pub fn check_register_input(input: &RegisterUserInput) -> (r: Option<ResponseError>)
    ensures
        r is None <==> register_input_valid(input.username@, input.email@, input.password@),
        r matches Some(e) ==> response_error_matches(
            e,
            register_expected_violations(input.username@, input.email@, input.password@),
        ),
{
    let mut v: Vec<FieldViolation> = Vec::new();
    let username_ok = char_len_between(&input.username, 6, 20);
    if !username_ok {
        v.push(mk_violation("username", "invalid length"));
    }
    let email_ok = validate_email(input.email.as_str());
    if !email_ok {
        v.push(mk_violation("email", "invalid email"));
    }
    let password_ok = char_len_between(&input.password, 5, 25);
    if !password_ok {
        v.push(mk_violation("password", "invalid length"));
    }
    if username_ok && email_ok && password_ok {
        None
    } else {
        proof {
            let exp = register_expected_violations(
                input.username@,
                input.email@,
                input.password@,
            );
            assert(crate::validate::field_violations_match(v@, exp));
        }
        Some(ResponseError { fields: Some(v) })
    }
}

/// The account a successful registration appends: a fresh id, the given
/// identity, a password hash that verifies under the hashing secret, local
/// provider, created now.
pub open spec fn registered_account(
    acc: Account,
    store0: Store,
    username: Seq<char>,
    email: Seq<char>,
    password: Seq<char>,
    hash_secret: Seq<char>,
    now: int,
) -> bool {
    &&& acc.id == store0.next_account_id
    &&& acc.username@ == username
    &&& acc.email@ == email
    &&& acc.provider == Provider::Local
    &&& acc.password_hash matches Some(h) && password_matches(hash_secret, password, h@)
        && phc_parses(h@)
    &&& acc.created_at == now
    &&& acc.updated_at is None
}

/// The store change a successful registration makes: the one account
/// appended, links untouched, the account id counter advanced.
pub open spec fn register_store_change(store0: Store, store1: Store, acc: Account) -> bool {
    &&& store1.accounts@ == store0.accounts@.push(acc)
    &&& store1.links@ == store0.links@
    &&& store1.next_account_id == store0.next_account_id + 1
    &&& store1.next_link_id == store0.next_link_id
}

/// Registers an account and issues its first token.
///
/// Invalid input reports every broken field; a taken username or email
/// (either one, checked together) is refused; otherwise the account is
/// persisted with a hash of the password and a token for the new id is
/// returned.
pub fn register_handler(
    store: &mut Store,
    secrets: &Secrets,
    input: &RegisterUserInput,
    now: i64,
) -> (r: Result<RegisterResponseObject, ApiError>)
    requires
        old(store).wf(),
    ensures
        final(store).wf(),
        !register_input_valid(input.username@, input.email@, input.password@) ==> (r matches Err(
            ApiError::BadClientData(e),
        ) && response_error_matches(
            e,
            register_expected_violations(input.username@, input.email@, input.password@),
        ) && *final(store) == *old(store)),
        register_input_valid(input.username@, input.email@, input.password@) && old(
            store,
        ).has_account_with_username_or_email(input.username@, input.email@) ==> (r matches Err(
            ApiError::UserAlreadyRegistered,
        ) && *final(store) == *old(store)),
        register_input_valid(input.username@, input.email@, input.password@) && !old(
            store,
        ).has_account_with_username_or_email(input.username@, input.email@) && !crate::hash::hash_inputs_ok(
            secrets.hash_secret@,
            input.password@,
        ) ==> (r matches Err(ApiError::HashingError) && *final(store) == *old(store)),
        register_input_valid(input.username@, input.email@, input.password@) && !old(
            store,
        ).has_account_with_username_or_email(input.username@, input.email@)
            && crate::hash::hash_inputs_ok(secrets.hash_secret@, input.password@) && old(
            store,
        ).next_account_id == u64::MAX ==> (r matches Err(ApiError::DbInternalError) && *final(store)
            == *old(store)),
        register_input_valid(input.username@, input.email@, input.password@) && !old(
            store,
        ).has_account_with_username_or_email(input.username@, input.email@)
            && crate::hash::hash_inputs_ok(secrets.hash_secret@, input.password@) && old(
            store,
        ).next_account_id < u64::MAX ==> (exists|acc: Account|
            registered_account(
                acc,
                *old(store),
                input.username@,
                input.email@,
                input.password@,
                secrets.hash_secret@,
                now as int,
            ) && #[trigger] register_store_change(*old(store), *final(store), acc)),
        register_input_valid(input.username@, input.email@, input.password@) && !old(
            store,
        ).has_account_with_username_or_email(input.username@, input.email@)
            && crate::hash::hash_inputs_ok(secrets.hash_secret@, input.password@) && old(
            store,
        ).next_account_id < u64::MAX && 0 <= now && now + TOKEN_LIFETIME_SECONDS <= i64::MAX ==> (r matches Ok(
            o,
        ) && decoded_claims(secrets.jwt_secret@, o.token@) == Some(
            (
                dec_str(old(store).next_account_id as nat),
                now as int,
                now + TOKEN_LIFETIME_SECONDS,
            ),
        )),
        register_input_valid(input.username@, input.email@, input.password@) && !old(
            store,
        ).has_account_with_username_or_email(input.username@, input.email@)
            && crate::hash::hash_inputs_ok(secrets.hash_secret@, input.password@) && old(
            store,
        ).next_account_id < u64::MAX && (now < 0 || now + TOKEN_LIFETIME_SECONDS > i64::MAX) ==> r matches
            Err(ApiError::JWTEncodingError),
{
    if let Some(e) = check_register_input(input) {
        return Err(ApiError::BadClientData(e));
    }
    if store.exists_account_with_username_or_email(&input.username, &input.email) {
        return Err(ApiError::UserAlreadyRegistered);
    }
    let hashed = match hash_password(secrets.hash_secret.as_str(), input.password.as_str()) {
        Ok(h) => h,
        Err(_) => return Err(ApiError::HashingError),
    };
    if store.next_account_id == u64::MAX {
        return Err(ApiError::DbInternalError);
    }
    let id = store.next_account_id;
    let account = Account {
        id,
        username: input.username.clone(),
        email: input.email.clone(),
        password_hash: Some(hashed),
        provider: Provider::Local,
        created_at: now,
        updated_at: None,
    };
    let ghost store0 = *store;
    let ghost acc = account;
    store.accounts.push(account);
    store.next_account_id = id + 1;
    proof {
        assert(store.accounts@ == store0.accounts@.push(acc));
        assert forall|i: int|
            0 <= i < store.accounts@.len() implies ((#[trigger] store.accounts@[i]).wf()
            && store.accounts@[i].id < store.next_account_id) by {
            if i < store0.accounts@.len() {
                assert(store.accounts@[i] == store0.accounts@[i]);
            }
        }
        assert(registered_account(
            acc,
            store0,
            input.username@,
            input.email@,
            input.password@,
            secrets.hash_secret@,
            now as int,
        ));
        assert(register_store_change(store0, *store, acc));
    }
    let token = match encode_jwt(secrets.jwt_secret.as_str(), id, now) {
        Some(t) => t,
        None => return Err(ApiError::JWTEncodingError),
    };
    Ok(RegisterResponseObject { token })
}

} // verus!
