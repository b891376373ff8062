//! Updating a link: validate whichever fields are present, fetch the live
//! row, check ownership, apply only the given fields, and stamp the
//! update time.
//!
//! No duplicate pre-check runs here; a new name or slug that collides
//! with another live row is rejected by the store's unique index, which
//! surfaces as an internal error.

use vstd::prelude::*;

use crate::get_url::has_active_link_with_id;
use crate::response::{
    ApiResponseData, ApiResponseError, STATUS_BAD_REQUEST, STATUS_FORBIDDEN,
    STATUS_INTERNAL_SERVER_ERROR, STATUS_NOT_FOUND,
};
use crate::store::{copy_link, Link, Store};
use crate::validate::{
    char_len_between, is_valid_url, mk_violation, response_error_matches, validate_url,
    FieldViolation, ResponseError,
};

verus! {

/// Client data to update a link: absent fields stay as they are.
#[derive(Debug)]
pub struct UpdateLinkInput {
    pub name: Option<String>,
    pub slug: Option<String>,
    pub redirect_to: Option<String>,
}

/// The success payload: the updated link.
#[derive(Debug)]
pub struct UpdateLinkResponse {
    pub link: Link,
}

/// Why updating a link failed.
#[derive(Debug)]
pub enum ApiError {
    BadClientData(ResponseError),
    LinkNotFound,
    ForbiddenUpdate,
    DBInternalError,
}

impl ApiError {
    /// The response each failure maps to.
    pub fn into_response_data(self) -> (r: ApiResponseData<ResponseError>)
        ensures
            self matches ApiError::BadClientData(err) ==> (r matches ApiResponseData::Error {
                error: e,
                status,
            } && status == STATUS_BAD_REQUEST && (e matches ApiResponseError::Complicated {
                message,
                error: d,
            } && message@ == "invalid data from client"@ && d == err)),
            self matches ApiError::LinkNotFound ==> (r matches ApiResponseData::Error {
                error: e,
                status,
            } && status == STATUS_NOT_FOUND && (e matches ApiResponseError::Simple(m) && m@
                == "link not found"@)),
            self matches ApiError::ForbiddenUpdate ==> r
                == ApiResponseData::<ResponseError>::StatusCode(STATUS_FORBIDDEN),
            self matches ApiError::DBInternalError ==> r
                == ApiResponseData::<ResponseError>::StatusCode(STATUS_INTERNAL_SERVER_ERROR),
    {
        match self {
            ApiError::BadClientData(err) => ApiResponseData::error(
                Some(err),
                "invalid data from client",
                STATUS_BAD_REQUEST,
            ),
            ApiError::LinkNotFound => ApiResponseData::error(
                None,
                "link not found",
                STATUS_NOT_FOUND,
            ),
            ApiError::ForbiddenUpdate => ApiResponseData::status_code(STATUS_FORBIDDEN),
            ApiError::DBInternalError => ApiResponseData::status_code(
                STATUS_INTERNAL_SERVER_ERROR,
            ),
        }
    }
}

/// Whether every present field has a valid shape: name 4 to 20
/// characters, slug 5 to 20 characters, redirect target syntactically a
/// URL.
pub open spec fn update_input_valid(input: UpdateLinkInput) -> bool {
    &&& input.name matches Some(n) ==> 4 <= n@.len() <= 20
    &&& input.slug matches Some(s) ==> 5 <= s@.len() <= 20
    &&& input.redirect_to matches Some(u) ==> is_valid_url(u@)
}

/// The field violations invalid update input reports, in field order.
pub open spec fn update_expected_violations(input: UpdateLinkInput) -> Seq<
    (Seq<char>, Seq<char>),
> {
    (if input.name matches Some(n) && !(4 <= n@.len() <= 20) {
        seq![("name"@, "invalid length"@)]
    } else {
        Seq::<(Seq<char>, Seq<char>)>::empty()
    }) + (if input.slug matches Some(s) && !(5 <= s@.len() <= 20) {
        seq![("slug"@, "invalid length"@)]
    } else {
        Seq::<(Seq<char>, Seq<char>)>::empty()
    }) + (if input.redirect_to matches Some(u) && !is_valid_url(u@) {
        seq![("redirect_to"@, "invalid url"@)]
    } else {
        Seq::<(Seq<char>, Seq<char>)>::empty()
    })
}

/// Checks the update input shape, reporting every broken present field.
pub fn check_update_input(input: &UpdateLinkInput) -> (r: Option<ResponseError>)
    ensures
        r is None <==> update_input_valid(*input),
        r matches Some(e) ==> response_error_matches(e, update_expected_violations(*input)),
{
    let mut v: Vec<FieldViolation> = Vec::new();
    let name_ok = match &input.name {
        Some(n) => char_len_between(n, 4, 20),
        None => true,
    };
    if !name_ok {
        v.push(mk_violation("name", "invalid length"));
    }
    let slug_ok = match &input.slug {
        Some(s) => char_len_between(s, 5, 20),
        None => true,
    };
    if !slug_ok {
        v.push(mk_violation("slug", "invalid length"));
    }
    let url_ok = match &input.redirect_to {
        Some(u) => validate_url(u.as_str()),
        None => true,
    };
    if !url_ok {
        v.push(mk_violation("redirect_to", "invalid url"));
    }
    if name_ok && slug_ok && url_ok {
        None
    } else {
        proof {
            assert(crate::validate::field_violations_match(
                v@,
                update_expected_violations(*input),
            ));
        }
        Some(ResponseError { fields: Some(v) })
    }
}

/// The name the updated row carries: the given one, or the stored one.
pub open spec fn updated_name(input: UpdateLinkInput, l: Link) -> Seq<char> {
    match input.name {
        Some(n) => n@,
        None => l.name@,
    }
}

/// The slug the updated row carries, as given, spaces kept.
pub open spec fn updated_slug(input: UpdateLinkInput, l: Link) -> Seq<char> {
    match input.slug {
        Some(s) => s@,
        None => l.slug@,
    }
}

/// The redirect target the updated row carries.
pub open spec fn updated_redirect(input: UpdateLinkInput, l: Link) -> Seq<char> {
    match input.redirect_to {
        Some(u) => u@,
        None => l.redirect_to@,
    }
}

/// The store change a successful update makes: the one row rewritten with
/// the merged fields and a fresh update stamp, everything else untouched.
pub open spec fn update_store_change(
    store0: Store,
    store1: Store,
    i: int,
    input: UpdateLinkInput,
    now: int,
) -> bool {
    &&& 0 <= i < store0.links@.len()
    &&& store1.links@.len() == store0.links@.len()
    &&& store1.links@[i].id == store0.links@[i].id
    &&& store1.links@[i].name@ == updated_name(input, store0.links@[i])
    &&& store1.links@[i].slug@ == updated_slug(input, store0.links@[i])
    &&& store1.links@[i].redirect_to@ == updated_redirect(input, store0.links@[i])
    &&& store1.links@[i].owner_id == store0.links@[i].owner_id
    &&& store1.links@[i].created_at == store0.links@[i].created_at
    &&& store1.links@[i].updated_at == Some(now as i64)
    &&& store1.links@[i].deleted_at == store0.links@[i].deleted_at
    &&& forall|j: int| 0 <= j < store0.links@.len() && j != i ==> store1.links@[j]
        == store0.links@[j]
    &&& store1.accounts@ == store0.accounts@
    &&& store1.next_account_id == store0.next_account_id
    &&& store1.next_link_id == store0.next_link_id
}

/// Updates a live link owned by the caller, applying only the fields the
/// input carries and stamping the update time.
pub fn update_url_handler(
    store: &mut Store,
    owner_id: u64,
    link_id: u64,
    input: &UpdateLinkInput,
    now: i64,
) -> (r: Result<UpdateLinkResponse, ApiError>)
    requires
        old(store).wf(),
    ensures
        final(store).wf(),
        !update_input_valid(*input) ==> (r matches Err(ApiError::BadClientData(e))
            && response_error_matches(e, update_expected_violations(*input)) && *final(store)
            == *old(store)),
        update_input_valid(*input) && !has_active_link_with_id(*old(store), link_id) ==> (r matches
            Err(ApiError::LinkNotFound) && *final(store) == *old(store)),
        update_input_valid(*input) && has_active_link_with_id(*old(store), link_id) && old(
            store,
        ).link_by_id(link_id).owner_id != owner_id ==> (r matches Err(ApiError::ForbiddenUpdate)
            && *final(store) == *old(store)),
        update_input_valid(*input) && has_active_link_with_id(*old(store), link_id) && old(
            store,
        ).link_by_id(link_id).owner_id == owner_id && old(store).has_other_active_conflict(
            link_id,
            updated_name(*input, old(store).link_by_id(link_id)),
            updated_slug(*input, old(store).link_by_id(link_id)),
        ) ==> (r matches Err(ApiError::DBInternalError) && *final(store) == *old(store)),
        update_input_valid(*input) && has_active_link_with_id(*old(store), link_id) && old(
            store,
        ).link_by_id(link_id).owner_id == owner_id && !old(store).has_other_active_conflict(
            link_id,
            updated_name(*input, old(store).link_by_id(link_id)),
            updated_slug(*input, old(store).link_by_id(link_id)),
        ) ==> (r matches Ok(resp) && exists|i: int|
            #[trigger] update_store_change(*old(store), *final(store), i, *input, now as int)
                && old(store).links@[i].id == link_id && resp.link == final(store).links@[i]),
{
    if let Some(e) = check_update_input(input) {
        return Err(ApiError::BadClientData(e));
    }
    let idx = match store.find_link_by_id(link_id) {
        Some(i) => i,
        None => {
            return Err(ApiError::LinkNotFound);
        },
    };
    if store.links[idx].deleted_at.is_some() {
        proof {
            assert(!has_active_link_with_id(*store, link_id)) by {
                assert(forall|i: int|
                    0 <= i < store.links@.len() && (#[trigger] store.links@[i]).id == link_id
                        ==> i == idx);
            }
        }
        return Err(ApiError::LinkNotFound);
    }
    if store.links[idx].owner_id != owner_id {
        return Err(ApiError::ForbiddenUpdate);
    }
    let old_link = copy_link(&store.links[idx]);
    let new_name = match &input.name {
        Some(n) => n.clone(),
        None => old_link.name,
    };
    let new_slug = match &input.slug {
        Some(s) => s.clone(),
        None => old_link.slug,
    };
    let new_redirect = match &input.redirect_to {
        Some(u) => u.clone(),
        None => old_link.redirect_to,
    };
    if store.exists_other_active_conflict(link_id, &new_name, &new_slug) {
        return Err(ApiError::DBInternalError);
    }
    let updated = Link {
        id: old_link.id,
        name: new_name,
        slug: new_slug,
        redirect_to: new_redirect,
        owner_id: old_link.owner_id,
        created_at: old_link.created_at,
        updated_at: Some(now),
        deleted_at: old_link.deleted_at,
    };
    let resp = UpdateLinkResponse { link: copy_link(&updated) };
    let ghost store0 = *store;
    store.links[idx] = updated;
    proof {
        assert(update_store_change(store0, *store, idx as int, *input, now as int));
        assert forall|i: int, j: int|
            0 <= i < j < store.links@.len() && (#[trigger] store.links@[i]).is_active() && (
        #[trigger] store.links@[j]).is_active() implies store.links@[i].name@
            != store.links@[j].name@ && store.links@[i].slug@ != store.links@[j].slug@ by {
            if i != idx as int && j != idx as int {
                assert(store.links@[i] == store0.links@[i]);
                assert(store.links@[j] == store0.links@[j]);
            }
        }
    }
    Ok(resp)
}

} // verus!
