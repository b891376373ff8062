//! Creating a link: validate the shape, refuse a name or slug already
//! taken by a live link, strip spaces from the slug, and persist the row
//! under the caller's ownership.
//!
//! The duplicate pre-check runs on the slug as given; the row is stored
//! with the stripped slug.  When stripping makes the slug collide with a
//! live row after all, the store's unique index rejects the insert, which
//! surfaces as an internal error — mirroring the backing table's
//! conditional unique constraint.

use vstd::prelude::*;

use crate::response::{
    ApiResponseData, ApiResponseError, STATUS_BAD_REQUEST, STATUS_INTERNAL_SERVER_ERROR,
};
use crate::store::{copy_link, Link, Store};
use crate::text::{strip_spaces, strip_spaces_spec};
use crate::validate::{
    char_len_between, is_valid_url, mk_violation, response_error_matches, validate_url,
    FieldViolation, ResponseError,
};

verus! {

/// Client data to create a link.
#[derive(Debug)]
pub struct CreateLinkInput {
    pub name: String,
    pub slug: String,
    pub redirect_to: String,
}

/// The success payload: the created link.
#[derive(Debug)]
pub struct CreateLinkResponse {
    pub link: Link,
}

/// Why creating a link failed.
#[derive(Debug)]
pub enum ApiError {
    BadClientData(ResponseError),
    DBInternalError,
    LinkExist,
}

impl ApiError {
    /// The response each failure maps to.
    pub fn into_api_response(self) -> (r: ApiResponseData<ResponseError>)
        ensures
            self matches ApiError::BadClientData(err) ==> (r matches ApiResponseData::Error {
                error: e,
                status,
            } && status == STATUS_BAD_REQUEST && (e matches ApiResponseError::Complicated {
                message,
                error: d,
            } && message@ == "invalid data from client"@ && d == err)),
            self matches ApiError::DBInternalError ==> r
                == ApiResponseData::<ResponseError>::StatusCode(STATUS_INTERNAL_SERVER_ERROR),
            self matches ApiError::LinkExist ==> (r matches ApiResponseData::Error {
                error: e,
                status,
            } && status == STATUS_BAD_REQUEST && (e matches ApiResponseError::Simple(m) && m@
                == "link with the name or slug provided already exists"@)),
    {
        match self {
            ApiError::BadClientData(err) => ApiResponseData::error(
                Some(err),
                "invalid data from client",
                STATUS_BAD_REQUEST,
            ),
            ApiError::DBInternalError => ApiResponseData::status_code(
                STATUS_INTERNAL_SERVER_ERROR,
            ),
            ApiError::LinkExist => ApiResponseData::error(
                None,
                "link with the name or slug provided already exists",
                STATUS_BAD_REQUEST,
            ),
        }
    }
}

/// Whether the creation input has a valid shape: name 4 to 20 characters,
/// slug 5 to 20 characters, redirect target syntactically a URL.
pub open spec fn create_input_valid(name: Seq<char>, slug: Seq<char>, redirect_to: Seq<char>) -> bool {
    &&& 4 <= name.len() <= 20
    &&& 5 <= slug.len() <= 20
    &&& is_valid_url(redirect_to)
}

/// The field violations invalid creation input reports, in field order.
pub open spec fn create_expected_violations(
    name: Seq<char>,
    slug: Seq<char>,
    redirect_to: Seq<char>,
) -> Seq<(Seq<char>, Seq<char>)> {
    (if !(4 <= name.len() <= 20) {
        seq![("name"@, "invalid length"@)]
    } else {
        Seq::<(Seq<char>, Seq<char>)>::empty()
    }) + (if !(5 <= slug.len() <= 20) {
        seq![("slug"@, "invalid length"@)]
    } else {
        Seq::<(Seq<char>, Seq<char>)>::empty()
    }) + (if !is_valid_url(redirect_to) {
        seq![("redirect_to"@, "invalid url"@)]
    } else {
        Seq::<(Seq<char>, Seq<char>)>::empty()
    })
}

/// Checks the creation input shape, reporting every broken field.
pub fn check_create_input(input: &CreateLinkInput) -> (r: Option<ResponseError>)
    ensures
        r is None <==> create_input_valid(input.name@, input.slug@, input.redirect_to@),
        r matches Some(e) ==> response_error_matches(
            e,
            create_expected_violations(input.name@, input.slug@, input.redirect_to@),
        ),
{
    let mut v: Vec<FieldViolation> = Vec::new();
    let name_ok = char_len_between(&input.name, 4, 20);
    if !name_ok {
        v.push(mk_violation("name", "invalid length"));
    }
    let slug_ok = char_len_between(&input.slug, 5, 20);
    if !slug_ok {
        v.push(mk_violation("slug", "invalid length"));
    }
    let url_ok = validate_url(input.redirect_to.as_str());
    if !url_ok {
        v.push(mk_violation("redirect_to", "invalid url"));
    }
    if name_ok && slug_ok && url_ok {
        None
    } else {
        proof {
            assert(crate::validate::field_violations_match(
                v@,
                create_expected_violations(input.name@, input.slug@, input.redirect_to@),
            ));
        }
        Some(ResponseError { fields: Some(v) })
    }
}

/// The link a successful creation appends: a fresh id, the given name,
/// the space-stripped slug, the caller as owner, created now, live.
pub open spec fn created_link(
    l: Link,
    store0: Store,
    owner_id: u64,
    name: Seq<char>,
    slug: Seq<char>,
    redirect_to: Seq<char>,
    now: int,
) -> bool {
    &&& l.id == store0.next_link_id
    &&& l.name@ == name
    &&& l.slug@ == strip_spaces_spec(slug)
    &&& l.redirect_to@ == redirect_to
    &&& l.owner_id == owner_id
    &&& l.created_at == now
    &&& l.updated_at is None
    &&& l.deleted_at is None
}

/// The store change a successful creation makes: the one link appended,
/// accounts untouched, the link id counter advanced.
pub open spec fn create_store_change(store0: Store, store1: Store, l: Link) -> bool {
    &&& store1.links@ == store0.links@.push(l)
    &&& store1.accounts@ == store0.accounts@
    &&& store1.next_account_id == store0.next_account_id
    &&& store1.next_link_id == store0.next_link_id + 1
}

/// Creates a link owned by the caller.
///
/// The duplicate check runs against live links on the name and the slug
/// as given; the persisted slug has its spaces stripped, and a collision
/// the stripping itself introduces is rejected by the store's unique
/// index as an internal error.
pub fn create_url_handler(
    store: &mut Store,
    owner_id: u64,
    input: &CreateLinkInput,
    now: i64,
) -> (r: Result<CreateLinkResponse, ApiError>)
    requires
        old(store).wf(),
    ensures
        final(store).wf(),
        !create_input_valid(input.name@, input.slug@, input.redirect_to@) ==> (r matches Err(
            ApiError::BadClientData(e),
        ) && response_error_matches(
            e,
            create_expected_violations(input.name@, input.slug@, input.redirect_to@),
        ) && *final(store) == *old(store)),
        create_input_valid(input.name@, input.slug@, input.redirect_to@) && old(
            store,
        ).has_active_conflict(input.name@, input.slug@) ==> (r matches Err(ApiError::LinkExist)
            && *final(store) == *old(store)),
        create_input_valid(input.name@, input.slug@, input.redirect_to@) && !old(
            store,
        ).has_active_conflict(input.name@, input.slug@) && old(store).next_link_id == u64::MAX ==> (
        r matches Err(ApiError::DBInternalError) && *final(store) == *old(store)),
        create_input_valid(input.name@, input.slug@, input.redirect_to@) && !old(
            store,
        ).has_active_conflict(input.name@, input.slug@) && old(store).next_link_id < u64::MAX
            && old(store).has_active_slug(strip_spaces_spec(input.slug@)) ==> (r matches Err(
            ApiError::DBInternalError,
        ) && *final(store) == *old(store)),
        create_input_valid(input.name@, input.slug@, input.redirect_to@) && !old(
            store,
        ).has_active_conflict(input.name@, input.slug@) && old(store).next_link_id < u64::MAX
            && !old(store).has_active_slug(strip_spaces_spec(input.slug@)) ==> (r matches Ok(resp)
            && created_link(
            resp.link,
            *old(store),
            owner_id,
            input.name@,
            input.slug@,
            input.redirect_to@,
            now as int,
        ) && create_store_change(*old(store), *final(store), resp.link)),
{
    if let Some(e) = check_create_input(input) {
        return Err(ApiError::BadClientData(e));
    }
    if store.exists_active_conflict(&input.name, &input.slug) {
        return Err(ApiError::LinkExist);
    }
    if store.next_link_id == u64::MAX {
        return Err(ApiError::DBInternalError);
    }
    let stripped = strip_spaces(input.slug.as_str());
    if store.exists_active_slug(&stripped) {
        return Err(ApiError::DBInternalError);
    }
    let id = store.next_link_id;
    let link = Link {
        id,
        name: input.name.clone(),
        slug: stripped,
        redirect_to: input.redirect_to.clone(),
        owner_id,
        created_at: now,
        updated_at: None,
        deleted_at: None,
    };
    let resp = CreateLinkResponse { link: copy_link(&link) };
    let ghost store0 = *store;
    let ghost l = link;
    store.links.push(link);
    store.next_link_id = id + 1;
    proof {
        assert(store.links@ == store0.links@.push(l));
        assert forall|i: int|
            0 <= i < store.links@.len() implies (#[trigger] store.links@[i]).id
            < store.next_link_id by {
            if i < store0.links@.len() {
                assert(store.links@[i] == store0.links@[i]);
            }
        }
        assert(created_link(
            l,
            store0,
            owner_id,
            input.name@,
            input.slug@,
            input.redirect_to@,
            now as int,
        ));
        assert(create_store_change(store0, *store, l));
    }
    Ok(resp)
}

} // verus!
