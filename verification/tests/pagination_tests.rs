use ecom_api::controller::product::{category_products_plan, products_pipeline, ListingPlan};
use ecom_api::pagination::{
    checked_page_window, page_meta, page_reply, page_window, paginated, unpaged, unpaged_reply,
    Stage,
};
use ecom_api::response::{Body, Status};
use ecom_api::serializers::PaginationPayload;

fn q(page: u16, limit: u16) -> PaginationPayload {
    PaginationPayload { page, limit }
}

#[test]
fn window_of_second_page() {
    assert_eq!(page_window(&q(2, 10)), (10, 20));
    assert_eq!(page_window(&q(1, 5)), (0, 5));
}

#[test]
fn consecutive_pages_adjoin() {
    let (_, end) = page_window(&q(3, 7));
    let (start, _) = page_window(&q(4, 7));
    assert_eq!(end, start);
}

#[test]
fn checked_window_refuses_page_zero() {
    assert_eq!(checked_page_window(&q(0, 10)), None);
}

#[test]
fn checked_window_refuses_overflow() {
    assert_eq!(checked_page_window(&q(1000, 100)), None);
    assert_eq!(checked_page_window(&q(65535, 1)), Some((65534, 65535)));
}

#[test]
fn meta_total_wraps_at_sixteen_bits() {
    let m = page_meta(70000, 2, 3);
    assert_eq!(m.total, 4464);
    assert_eq!(m.page, 2);
    assert_eq!(m.limit, 3);
}

#[test]
fn paginated_keeps_items() {
    let p = paginated(vec!["a", "b", "c"], 4, 3);
    assert_eq!(p.data, vec!["a", "b", "c"]);
    assert_eq!(p.meta.total, 3);
    assert_eq!(p.meta.page, 4);
    assert_eq!(p.meta.limit, 3);
    let u = unpaged(vec![1, 2]);
    assert_eq!((u.meta.total, u.meta.page, u.meta.limit), (2, 0, 0));
}

#[test]
fn replies_are_ok_json() {
    let r = unpaged_reply(vec![7u8]);
    assert!(r.status == Status::Success);
    match r.body {
        Body::Json(p) => assert_eq!((p.data, p.meta.total, p.meta.page), (vec![7u8], 1, 0)),
        Body::Text(_) => panic!("expected json"),
    }
    let r = page_reply(vec![1u8, 2], &q(2, 2));
    match r.body {
        Body::Json(p) => assert_eq!((p.meta.total, p.meta.page, p.meta.limit), (2, 2, 2)),
        Body::Text(_) => panic!("expected json"),
    }
}

#[test]
fn product_pipeline_stages() {
    let stages = products_pipeline(&q(3, 10));
    assert_eq!(stages.len(), 3);
    assert!(matches!(stages[0], Stage::SortNewestFirst));
    assert!(matches!(stages[1], Stage::Skip(20)));
    assert!(matches!(stages[2], Stage::Limit(30)));
}

#[test]
fn category_plan_refuses_empty_id() {
    let plan = category_products_plan::<u8>("", &q(0, 0));
    match plan {
        ListingPlan::Reply(r) => {
            assert!(r.status == Status::BadRequest);
            assert!(matches!(r.body, Body::Text(ref t) if t == "Invalid request"));
        },
        ListingPlan::Aggregate(_) => panic!("expected a reply"),
    }
}

#[test]
fn category_plan_builds_pipeline() {
    let plan = category_products_plan::<u8>("65f1a2b3c4d5e6f708192a3b", &q(1, 4));
    match plan {
        ListingPlan::Aggregate(stages) => {
            assert_eq!(stages.len(), 4);
            match &stages[0] {
                Stage::MatchCategory(c) => assert_eq!(c.bytes[0], 0x65),
                _ => panic!("expected a category match"),
            }
            assert!(matches!(stages[1], Stage::SortNewestFirst));
            assert!(matches!(stages[2], Stage::Skip(0)));
            assert!(matches!(stages[3], Stage::Limit(4)));
        },
        ListingPlan::Reply(_) => panic!("expected a pipeline"),
    }
}
