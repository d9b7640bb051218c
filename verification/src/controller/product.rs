use vstd::prelude::*;
use crate::object_id::{is_oid_text, oid_bytes_of_text, Oid};
use crate::pagination::{lemma_window_arithmetic, page_window, window_end, window_fits, window_start, Stage};
use crate::response::{is_text_reply, text_reply, Response, Status};
use crate::serializers::{PaginatedResponse, PaginationPayload};

verus! {

/// The aggregation of the product listing: newest first, then the page's window.
pub fn products_pipeline(q: &PaginationPayload) -> (r: Vec<Stage>)
    requires
        window_fits(*q),
    ensures
        r@.len() == 3,
        r@[0] is SortNewestFirst,
        r@[1] == Stage::Skip(window_start(*q) as u16),
        r@[2] == Stage::Limit(window_end(*q) as u16),
        r@[1] == Stage::Skip(((q.page - 1) * q.limit) as u16),
        r@[2] == Stage::Limit((q.page * q.limit) as u16),
{
    proof {
        lemma_window_arithmetic(*q);
    }
    let (start, end) = page_window(q);
    let mut r: Vec<Stage> = Vec::new();
    r.push(Stage::SortNewestFirst);
    r.push(Stage::Skip(start));
    r.push(Stage::Limit(end));
    r
}

/// A listing either answers at once or runs an aggregation first.
pub enum ListingPlan<T> {
    Reply(Response<PaginatedResponse<T>>),
    Aggregate(Vec<Stage>),
}

/// The plan of the listing of one category's products: an empty category id answers 400
/// "Invalid request"; otherwise the products of the category, newest first, in the page's
/// window.
pub fn category_products_plan<T>(id: &str, q: &PaginationPayload) -> (r: ListingPlan<T>)
    requires
        id@.len() > 0 ==> window_fits(*q) && is_oid_text(id@),
    ensures
        id@.len() == 0 ==> (r matches ListingPlan::Reply(resp) && is_text_reply(
            resp,
            Status::BadRequest,
            "Invalid request"@,
        )),
        id@.len() > 0 ==> (r matches ListingPlan::Aggregate(stages) && {
            &&& stages@.len() == 4
            &&& stages@[0] matches Stage::MatchCategory(c) && c.bytes@ == oid_bytes_of_text(id@)
            &&& stages@[1] is SortNewestFirst
            &&& stages@[2] == Stage::Skip(window_start(*q) as u16)
            &&& stages@[3] == Stage::Limit(window_end(*q) as u16)
            &&& stages@[2] == Stage::Skip(((q.page - 1) * q.limit) as u16)
            &&& stages@[3] == Stage::Limit((q.page * q.limit) as u16)
        }),
{
    proof {
        lemma_window_arithmetic(*q);
    }
    if id.is_empty() {
        return ListingPlan::Reply(text_reply(Status::BadRequest, "Invalid request"));
    }
    let (start, end) = page_window(q);
    let category = Oid::parse(id).unwrap();
    let mut stages: Vec<Stage> = Vec::new();
    stages.push(Stage::MatchCategory(category));
    stages.push(Stage::SortNewestFirst);
    stages.push(Stage::Skip(start));
    stages.push(Stage::Limit(end));
    ListingPlan::Aggregate(stages)
}

} // verus!
