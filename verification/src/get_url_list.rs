//! Listing links: the caller's live links, newest first, paginated.

use vstd::multiset::Multiset;
use vstd::prelude::*;

use crate::response::{ApiResponseData, STATUS_INTERNAL_SERVER_ERROR};
use crate::store::{copy_link, Link, Store};

verus! {

/// Why listing links failed.
#[derive(Clone, Copy, Debug, PartialEq, Eq, Structural)]
pub enum ApiError {
    DBInternalError,
}

impl ApiError {
    /// The response the failure maps to.
    pub fn into_response_data(self) -> (r: ApiResponseData<()>)
        ensures
            r == ApiResponseData::<()>::StatusCode(STATUS_INTERNAL_SERVER_ERROR),
    {
        match self {
            ApiError::DBInternalError => ApiResponseData::status_code(
                STATUS_INTERNAL_SERVER_ERROR,
            ),
        }
    }
}

/// The success payload: the caller's page of links.
#[derive(Debug)]
pub struct GetLinkListResponse {
    pub links: Vec<Link>,
}

/// Page selection: both bounds optional, offset defaulting to zero and
/// limit to ten when the query carries no parameters at all.
#[derive(Clone, Copy, Debug)]
pub struct Pagination {
    pub offset: Option<u64>,
    pub limit: Option<u64>,
}

impl Default for Pagination {
    fn default() -> (r: Self)
        ensures
            r.offset == Some(0u64),
            r.limit == Some(10u64),
    {
        Pagination { offset: Some(0), limit: Some(10) }
    }
}

/// Whether `a` is listed strictly before `b`: created later, or at the
/// same instant with the larger id.
pub open spec fn listed_before(a: Link, b: Link) -> bool {
    a.created_at > b.created_at || (a.created_at == b.created_at && a.id > b.id)
}

/// Whether the sequence is in listing order: no element is listed before
/// an earlier one.
pub open spec fn sorted_desc(s: Seq<Link>) -> bool {
    forall|i: int, j: int| 0 <= i < j < s.len() ==> !listed_before(#[trigger] s[j], #[trigger] s[i])
}

/// The live links owned by `owner_id`, in store order.
pub open spec fn owned_active(links: Seq<Link>, owner_id: u64) -> Seq<Link>
    decreases links.len(),
{
    if links.len() == 0 {
        Seq::empty()
    } else {
        let rest = owned_active(links.drop_last(), owner_id);
        if links.last().is_active() && links.last().owner_id == owner_id {
            rest.push(links.last())
        } else {
            rest
        }
    }
}

/// The offset the query resolves to: the given one, or zero when no
/// query was sent.
pub open spec fn effective_offset(params: Option<Pagination>) -> Option<u64> {
    match params {
        None => Some(0u64),
        Some(p) => p.offset,
    }
}

/// The limit the query resolves to: the given one, or ten when no query
/// was sent.  `None` means unbounded.
pub open spec fn effective_limit(params: Option<Pagination>) -> Option<u64> {
    match params {
        None => Some(10u64),
        Some(p) => p.limit,
    }
}

/// Where the page starts in a listing of length `len`.
pub open spec fn page_start(len: int, offset: Option<u64>) -> int {
    match offset {
        Some(o) => if o <= len {
            o as int
        } else {
            len
        },
        None => 0,
    }
}

/// Where the page ends in a listing of length `len`.
pub open spec fn page_end(len: int, start: int, limit: Option<u64>) -> int {
    match limit {
        Some(l) => if start + l <= len {
            start + l
        } else {
            len
        },
        None => len,
    }
}

/// The index of an element no other element is listed before.
fn find_first_listed(v: &Vec<Link>) -> (mi: usize)
    requires
        v@.len() > 0,
    ensures
        mi < v@.len(),
        forall|k: int| 0 <= k < v@.len() ==> !listed_before(#[trigger] v@[k], v@[mi as int]),
{
    let mut mi: usize = 0;
    let mut k: usize = 1;
    while k < v.len()
        invariant
            1 <= k <= v@.len(),
            mi < k,
            forall|t: int| 0 <= t < k ==> !listed_before(#[trigger] v@[t], v@[mi as int]),
        decreases v@.len() - k,
    {
        let a = &v[k];
        let b = &v[mi];
        if a.created_at > b.created_at || (a.created_at == b.created_at && a.id > b.id) {
            mi = k;
        }
        k = k + 1;
    }
    mi
}

/// Lists the caller's live links, newest first (ties broken toward the
/// larger id), windowed by the query's offset and limit.
pub fn get_url_list_handler(store: &Store, owner_id: u64, params: Option<Pagination>) -> (r:
    Result<GetLinkListResponse, ApiError>)
    requires
        store.wf(),
    ensures
        r matches Ok(resp) && exists|all: Seq<Link>|
            {
                &&& #[trigger] all.to_multiset() == owned_active(
                    store.links@,
                    owner_id,
                ).to_multiset()
                &&& sorted_desc(all)
                &&& resp.links@ == all.subrange(
                    page_start(all.len() as int, effective_offset(params)),
                    page_end(
                        all.len() as int,
                        page_start(all.len() as int, effective_offset(params)),
                        effective_limit(params),
                    ),
                )
            },
{
    broadcast use vstd::seq_lib::group_to_multiset_ensures;

    let n = store.links.len();
    let mut filtered: Vec<Link> = Vec::new();
    let mut i: usize = 0;
    while i < n
        invariant
            0 <= i <= n,
            n == store.links@.len(),
            filtered@ == owned_active(store.links@.subrange(0, i as int), owner_id),
        decreases n - i,
    {
        proof {
            assert(store.links@.subrange(0, i + 1).drop_last() =~= store.links@.subrange(
                0,
                i as int,
            ));
            assert(store.links@.subrange(0, i + 1).last() == store.links@[i as int]);
        }
        let l = &store.links[i];
        if l.deleted_at.is_none() && l.owner_id == owner_id {
            filtered.push(copy_link(l));
        }
        i = i + 1;
    }
    proof {
        assert(store.links@.subrange(0, n as int) =~= store.links@);
    }
    let ghost orig = filtered@;
    let mut work = filtered;
    let mut sorted: Vec<Link> = Vec::new();
    while work.len() > 0
        invariant
            sorted@.to_multiset().add(work@.to_multiset()) == orig.to_multiset(),
            sorted_desc(sorted@),
            forall|a: int, b: int|
                0 <= a < sorted@.len() && 0 <= b < work@.len() ==> !listed_before(
                    #[trigger] work@[b],
                    #[trigger] sorted@[a],
                ),
        decreases work@.len(),
    {
        let mi = find_first_listed(&work);
        let ghost work0 = work@;
        let x = work.remove(mi);
        proof {
            work0.to_multiset_ensures();
            assert(work@ == work0.remove(mi as int));
            assert(work0.remove(mi as int).to_multiset() =~= work0.to_multiset().remove(
                work0[mi as int],
            ));
            assert(work@.to_multiset() == work0.to_multiset().remove(x));
            assert(work0.contains(x));
            assert(work0.to_multiset().count(x) > 0);
        }
        let ghost sorted0 = sorted@;
        sorted.push(x);
        proof {
            sorted0.to_multiset_ensures();
            assert(sorted@ == sorted0.push(x));
            assert(sorted0.push(x).to_multiset() =~= sorted0.to_multiset().insert(x));
            assert(sorted@.to_multiset() == sorted0.to_multiset().insert(x));
            assert(sorted@.to_multiset().add(work@.to_multiset()) =~= sorted0.to_multiset().add(
                work0.to_multiset(),
            ));
            assert forall|a: int, b: int|
                0 <= a < sorted@.len() && 0 <= b < work@.len() implies !listed_before(
                #[trigger] work@[b],
                #[trigger] sorted@[a],
            ) by {
                assert(work@[b] == if b < mi as int {
                    work0[b]
                } else {
                    work0[b + 1]
                });
                if a < sorted0.len() {
                    assert(sorted@[a] == sorted0[a]);
                } else {
                    assert(sorted@[a] == x);
                }
            }
        }
    }
    proof {
        assert(work@.to_multiset() =~= Multiset::<Link>::empty());
        assert(sorted@.to_multiset() =~= orig.to_multiset());
        assert(sorted@.len() == orig.len()) by {
            assert(sorted@.to_multiset().len() == sorted@.len());
            assert(orig.to_multiset().len() == orig.len());
        }
    }
    let len = sorted.len();
    let (off_opt, lim_opt): (Option<u64>, Option<u64>) = match params {
        None => (Some(0), Some(10)),
        Some(p) => (p.offset, p.limit),
    };
    let start: usize = match off_opt {
        Some(o) => {
            if o <= len as u64 {
                o as usize
            } else {
                len
            }
        },
        None => 0,
    };
    let end: usize = match lim_opt {
        Some(l) => {
            if l <= (len - start) as u64 {
                start + l as usize
            } else {
                len
            }
        },
        None => len,
    };
    proof {
        assert(start as int == page_start(sorted@.len() as int, effective_offset(params)));
        assert(end as int == page_end(
            sorted@.len() as int,
            start as int,
            effective_limit(params),
        ));
    }
    let mut out: Vec<Link> = Vec::new();
    let mut j: usize = start;
    while j < end
        invariant
            start <= j <= end,
            end <= sorted@.len(),
            out@ == sorted@.subrange(start as int, j as int),
        decreases end - j,
    {
        out.push(copy_link(&sorted[j]));
        proof {
            assert(sorted@.subrange(start as int, j + 1) =~= sorted@.subrange(
                start as int,
                j as int,
            ).push(sorted@[j as int]));
        }
        j = j + 1;
    }
    let ghost all = sorted@;
    proof {
        assert(out@ == all.subrange(
            page_start(all.len() as int, effective_offset(params)),
            page_end(
                all.len() as int,
                page_start(all.len() as int, effective_offset(params)),
                effective_limit(params),
            ),
        ));
    }
    Ok(GetLinkListResponse { links: out })
}

} // verus!
