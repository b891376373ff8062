//! Fetching one link: by id, excluding soft-deleted rows, owner only.

use vstd::prelude::*;

use crate::response::{
    ApiResponseData, ApiResponseError, STATUS_FORBIDDEN, STATUS_INTERNAL_SERVER_ERROR,
    STATUS_NOT_FOUND, STATUS_OK,
};
use crate::store::{copy_link, Link, Store};

verus! {

/// Why fetching a link failed.
#[derive(Clone, Copy, Debug, PartialEq, Eq, Structural)]
pub enum ApiError {
    LinkNotFound,
    ForbiddenRequest,
    DBInternalError,
}

impl ApiError {
    /// The response each failure maps to.
    pub fn into_response_data(self) -> (r: ApiResponseData<()>)
        ensures
            self == ApiError::LinkNotFound ==> (r matches ApiResponseData::Error { error: e, status }
                && status == STATUS_NOT_FOUND && (e matches ApiResponseError::Simple(m) && m@
                == "link not found"@)),
            self == ApiError::ForbiddenRequest ==> r == ApiResponseData::<()>::StatusCode(
                STATUS_FORBIDDEN,
            ),
            self == ApiError::DBInternalError ==> r == ApiResponseData::<()>::StatusCode(
                STATUS_INTERNAL_SERVER_ERROR,
            ),
    {
        match self {
            ApiError::LinkNotFound => ApiResponseData::error(
                None,
                "link not found",
                STATUS_NOT_FOUND,
            ),
            ApiError::ForbiddenRequest => ApiResponseData::status_code(STATUS_FORBIDDEN),
            ApiError::DBInternalError => ApiResponseData::status_code(
                STATUS_INTERNAL_SERVER_ERROR,
            ),
        }
    }
}

/// The success payload: the fetched link.
#[derive(Debug)]
pub struct GetLinkResponse {
    pub link: Link,
}

/// Whether the store holds a non-deleted link under this id.
pub open spec fn has_active_link_with_id(store: Store, id: u64) -> bool {
    exists|i: int|
        0 <= i < store.links@.len() && (#[trigger] store.links@[i]).id == id
            && store.links@[i].is_active()
}

/// Fetches a non-deleted link by id.  A missing or soft-deleted id is not
/// found; a live link of another owner is forbidden.
pub fn get_url_handler(store: &Store, owner_id: u64, link_id: u64) -> (r: Result<
    GetLinkResponse,
    ApiError,
>)
    requires
        store.wf(),
    ensures
        !has_active_link_with_id(*store, link_id) ==> r == Err::<GetLinkResponse, ApiError>(
            ApiError::LinkNotFound,
        ),
        has_active_link_with_id(*store, link_id) && store.link_by_id(link_id).owner_id != owner_id
            ==> r == Err::<GetLinkResponse, ApiError>(ApiError::ForbiddenRequest),
        has_active_link_with_id(*store, link_id) && store.link_by_id(link_id).owner_id == owner_id
            ==> (r matches Ok(resp) && resp.link == store.link_by_id(link_id)),
{
    let idx = match store.find_link_by_id(link_id) {
        Some(i) => i,
        None => {
            return Err(ApiError::LinkNotFound);
        },
    };
    let link = &store.links[idx];
    if link.deleted_at.is_some() {
        proof {
            assert(!has_active_link_with_id(*store, link_id)) by {
                assert(forall|i: int|
                    0 <= i < store.links@.len() && (#[trigger] store.links@[i]).id == link_id
                        ==> i == idx);
            }
        }
        return Err(ApiError::LinkNotFound);
    }
    if link.owner_id != owner_id {
        return Err(ApiError::ForbiddenRequest);
    }
    Ok(GetLinkResponse { link: copy_link(link) })
}

} // verus!
