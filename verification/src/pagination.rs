use vstd::prelude::*;
use crate::object_id::Oid;
use crate::response::{json_reply, Body, Response, Status};
use crate::serializers::{Meta, PaginatedResponse, PaginationPayload};

verus! {

/// One stage of a product aggregation, as the listings build them.
pub enum Stage {
    /// `{"$match": {"category": id}}`
    MatchCategory(Oid),
    /// `{"$match": {"_id": {"$in": ids}}}`; an absent list stands for BSON null.
    MatchIdIn(Option<Vec<Oid>>),
    /// `{"_id": {"$in": ids}}` written as a stage of its own, with no `$match` around it.
    IdIn(Option<Vec<Oid>>),
    /// `{"$sort": {"created_at": -1}}`
    SortNewestFirst,
    /// `{"$skip": n}`
    Skip(u16),
    /// `{"$limit": n}`
    Limit(u16),
}

/// The pagination arithmetic stays within `u16`: the page is at least 1 and
/// `page * limit` fits.
pub open spec fn window_fits(q: PaginationPayload) -> bool {
    &&& q.page >= 1
    &&& q.page * q.limit <= u16::MAX
}

/// First item of the page: `(page - 1) * limit`.
pub open spec fn window_start(q: PaginationPayload) -> int {
    (q.page - 1) * q.limit
}

/// What the listing hands to `$limit`: `start + limit`, that is `page * limit`.
pub open spec fn window_end(q: PaginationPayload) -> int {
    window_start(q) + q.limit
}

/// The skip and the limit of a page: `start = (page - 1) * limit` and `end = start + limit`.
pub fn page_window(q: &PaginationPayload) -> (r: (u16, u16))
    requires
        window_fits(*q),
    ensures
        r.0 == window_start(*q),
        r.1 == window_end(*q),
        r.0 == (q.page - 1) * q.limit,
        r.1 == q.page * q.limit,
{
    proof {
        lemma_window_arithmetic(*q);
    }
    let page = q.page as u32;
    let limit = q.limit as u32;
    assert((page - 1) * limit <= page * limit <= 65535) by (nonlinear_arith)
        requires
            1 <= page,
            page * limit <= 65535,
    ;
    assert((page - 1) * limit + limit == page * limit) by (nonlinear_arith);
    let start = (page - 1) * limit;
    let end = start + limit;
    (start as u16, end as u16)
}

/// The window of a page where its arithmetic stays within `u16`; `None` where it does not.
pub fn checked_page_window(q: &PaginationPayload) -> (r: Option<(u16, u16)>)
    ensures
        r is Some <==> window_fits(*q),
        r matches Some(w) ==> w.0 == window_start(*q) && w.1 == window_end(*q),
        r matches Some(w) ==> w.0 == (q.page - 1) * q.limit && w.1 == q.page * q.limit,
        r is Some <==> (q.page >= 1 && q.page * q.limit <= 65535),
{
    let page = q.page as u32;
    let limit = q.limit as u32;
    assert(page * limit <= 65535 * 65535) by (nonlinear_arith)
        requires
            page <= 65535,
            limit <= 65535,
    ;
    if page >= 1 && page * limit <= 65535 {
        Some(page_window(q))
    } else {
        None
    }
}

/// Metadata of a listing of `len` items; the total is the count cut to 16 bits.
pub fn page_meta(len: usize, page: u16, limit: u16) -> (m: Meta)
    ensures
        m.total == len % 65536,
        m.page == page,
        m.limit == limit,
{
    Meta { total: (len % 65536) as u16, page, limit }
}

/// A listing of `data` for the page and page size given.
pub fn paginated<T>(data: Vec<T>, page: u16, limit: u16) -> (r: PaginatedResponse<T>)
    ensures
        r.data@ == data@,
        r.meta.total == data@.len() % 65536,
        r.meta.page == page,
        r.meta.limit == limit,
{
    let meta = page_meta(data.len(), page, limit);
    PaginatedResponse { data, meta }
}

/// A listing that is not paged: page and page size are reported as 0.
pub fn unpaged<T>(data: Vec<T>) -> (r: PaginatedResponse<T>)
    ensures
        r.data@ == data@,
        r.meta.total == data@.len() % 65536,
        r.meta.page == 0,
        r.meta.limit == 0,
{
    paginated(data, 0, 0)
}

/// The answer to a listing that is not paged: 200 with the items, page and page size 0.
pub fn unpaged_reply<T>(items: Vec<T>) -> (r: Response<PaginatedResponse<T>>)
    ensures
        r.status == Status::Success,
        r.body matches Body::Json(page) && page.data@ == items@ && page.meta.total
            == items@.len() % 65536 && page.meta.page == 0 && page.meta.limit == 0,
{
    json_reply(Status::Success, unpaged(items))
}

/// The answer to a paged listing: 200 with the items and the page and page size asked for.
pub fn page_reply<T>(items: Vec<T>, q: &PaginationPayload) -> (r: Response<PaginatedResponse<T>>)
    ensures
        r.status == Status::Success,
        r.body matches Body::Json(page) && page.data@ == items@ && page.meta.total
            == items@.len() % 65536 && page.meta.page == q.page && page.meta.limit == q.limit,
{
    json_reply(Status::Success, paginated(items, q.page, q.limit))
}

/// The window of a page, in terms of the page and page size asked for: it skips
/// `(page - 1) * limit` items and hands `page * limit` to `$limit`; and a window exists exactly
/// for pages from 1 on whose `page * limit` fits in 16 bits.
pub proof fn lemma_window_arithmetic(q: PaginationPayload)
    ensures
        window_start(q) == (q.page - 1) * q.limit,
        window_end(q) == q.page * q.limit,
        window_fits(q) <==> (q.page >= 1 && q.page * q.limit <= 65535),
{
    assert((q.page - 1) * q.limit + q.limit == q.page * q.limit) by (nonlinear_arith);
}

/// The number that page `p` hands to `$limit` is the number that page `p + 1` hands to
/// `$skip`. Since `$limit` counts from the start of the list here rather than from the
/// page's first item, page `p` reaches up to that number and so overlaps page `p + 1` from
/// the second page on.
pub proof fn lemma_limit_is_next_skip(q: PaginationPayload, next: PaginationPayload)
    requires
        next.page == q.page + 1,
        next.limit == q.limit,
        q.page >= 1,
    ensures
        window_start(next) == window_end(q),
{
    assert((next.page - 1) * next.limit == (q.page - 1) * q.limit + q.limit) by (nonlinear_arith)
        requires
            next.page == q.page + 1,
            next.limit == q.limit,
    ;
}

} // verus!
