//! Soft-deleting a link: fetched by id whether or not already deleted (so
//! deletion is idempotent), owner only; the row stays, with `deleted_at`
//! set to the time of this call.

use vstd::prelude::*;

use crate::response::{
    ApiResponseData, ApiResponseError, STATUS_FORBIDDEN, STATUS_INTERNAL_SERVER_ERROR,
    STATUS_NOT_FOUND,
};
use crate::store::{Link, Store};

verus! {

/// Why deleting a link failed.
#[derive(Clone, Copy, Debug, PartialEq, Eq, Structural)]
pub enum ApiError {
    LinkNotFound,
    ForbiddenDelete,
    DBInternalError,
}

impl ApiError {
    /// The response each failure maps to.
    pub fn into_response_data(self) -> (r: ApiResponseData<()>)
        ensures
            self == ApiError::LinkNotFound ==> (r matches ApiResponseData::Error { error: e, status }
                && status == STATUS_NOT_FOUND && (e matches ApiResponseError::Simple(m) && m@
                == "link not found"@)),
            self == ApiError::ForbiddenDelete ==> r == ApiResponseData::<()>::StatusCode(
                STATUS_FORBIDDEN,
            ),
            self == ApiError::DBInternalError ==> r == ApiResponseData::<()>::StatusCode(
                STATUS_INTERNAL_SERVER_ERROR,
            ),
    {
        match self {
            ApiError::LinkNotFound => ApiResponseData::error(
                None,
                "link not found",
                STATUS_NOT_FOUND,
            ),
            ApiError::ForbiddenDelete => ApiResponseData::status_code(STATUS_FORBIDDEN),
            ApiError::DBInternalError => ApiResponseData::status_code(
                STATUS_INTERNAL_SERVER_ERROR,
            ),
        }
    }
}

/// The store change a deletion makes: the one row's `deleted_at` set to
/// `now`, everything else untouched.
pub open spec fn delete_store_change(store0: Store, store1: Store, i: int, now: int) -> bool {
    &&& 0 <= i < store0.links@.len()
    &&& store1.links@ == store0.links@.update(
        i,
        Link { deleted_at: Some(now as i64), ..store0.links@[i] },
    )
    &&& store1.accounts@ == store0.accounts@
    &&& store1.next_account_id == store0.next_account_id
    &&& store1.next_link_id == store0.next_link_id
}

/// Soft-deletes a link by id.  The lookup does not filter soft-deleted
/// rows, so deleting an already-deleted link succeeds again and refreshes
/// its deletion time.
pub fn delete_url_handler(store: &mut Store, owner_id: u64, link_id: u64, now: i64) -> (r: Result<
    (),
    ApiError,
>)
    requires
        old(store).wf(),
    ensures
        final(store).wf(),
        !old(store).has_link_with_id(link_id) ==> (r == Err::<(), ApiError>(ApiError::LinkNotFound)
            && *final(store) == *old(store)),
        old(store).has_link_with_id(link_id) && old(store).link_by_id(link_id).owner_id != owner_id
            ==> (r == Err::<(), ApiError>(ApiError::ForbiddenDelete) && *final(store) == *old(
            store,
        )),
        old(store).has_link_with_id(link_id) && old(store).link_by_id(link_id).owner_id == owner_id
            ==> (r is Ok && exists|i: int|
            #[trigger] delete_store_change(*old(store), *final(store), i, now as int) && old(
                store,
            ).links@[i].id == link_id),
{
    let idx = match store.find_link_by_id(link_id) {
        Some(i) => i,
        None => {
            return Err(ApiError::LinkNotFound);
        },
    };
    if store.links[idx].owner_id != owner_id {
        return Err(ApiError::ForbiddenDelete);
    }
    let ghost store0 = *store;
    let updated = Link { deleted_at: Some(now), ..crate::store::copy_link(&store.links[idx]) };
    store.links[idx] = updated;
    proof {
        assert(store.links@ == store0.links@.update(
            idx as int,
            Link { deleted_at: Some(now), ..store0.links@[idx as int] },
        ));
        assert(delete_store_change(store0, *store, idx as int, now as int));
        assert forall|i: int, j: int|
            0 <= i < j < store.links@.len() && (#[trigger] store.links@[i]).is_active() && (
        #[trigger] store.links@[j]).is_active() implies store.links@[i].name@
            != store.links@[j].name@ && store.links@[i].slug@ != store.links@[j].slug@ by {
            assert(store0.links@[i].is_active() && store0.links@[j].is_active());
        }
    }
    Ok(())
}

} // verus!
