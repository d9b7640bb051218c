use ecom_api::controller::cart::{
    add_to_cart_new_line, add_to_cart_on_lookup, add_to_cart_start, cart_owner, CartAction,
};
use ecom_api::object_id::Oid;
use ecom_api::response::{Body, Status};
use ecom_api::serializers::SCart;

fn line(quantity: f32) -> SCart {
    SCart { id: None, product_id: Oid { bytes: [4; 12] }, quantity: quantity.to_bits(), user: None }
}

fn json_text(a: &CartAction) -> (Status, String) {
    let r = match a {
        CartAction::Reply(r) => r,
        CartAction::SetQuantity { reply, .. } => reply,
        CartAction::InsertLine { reply, .. } => reply,
        CartAction::FindLine { .. } | CartAction::CreateLine => panic!("expected an answer"),
    };
    match &r.body {
        Body::Json(t) => (r.status, t.clone()),
        Body::Text(_) => panic!("expected json"),
    }
}

#[test]
fn cart_refuses_zero_quantity() {
    let a = add_to_cart_start(&line(0.5), 0.5f32 as u32, Some(Oid { bytes: [1; 12] }));
    let (status, text) = json_text(&a);
    assert!(status == Status::BadRequest);
    assert_eq!(text, "Invalid product id or quantity");
}

#[test]
fn cart_looks_line_up() {
    let user = Some(Oid { bytes: [1; 12] });
    match add_to_cart_start(&line(2.0), 2, user) {
        CartAction::FindLine { user, product } => {
            assert_eq!(user.unwrap().bytes, [1; 12]);
            assert_eq!(product.bytes, [4; 12]);
        },
        _ => panic!("expected a lookup"),
    }
}

#[test]
fn cart_updates_existing_line() {
    let existing = SCart { id: Some(Oid { bytes: [8; 12] }), ..line(1.0) };
    let a = add_to_cart_on_lookup(&line(3.0), Some(existing));
    let (status, text) = json_text(&a);
    assert!(status == Status::Success);
    assert_eq!(text, "Cart updated");
    match a {
        CartAction::SetQuantity { line_id, quantity, .. } => {
            assert_eq!(line_id.unwrap().bytes, [8; 12]);
            assert_eq!(f32::from_bits(quantity), 3.0);
        },
        _ => panic!("expected an update"),
    }
}

#[test]
fn cart_inserts_new_line() {
    let user = Some(Oid { bytes: [1; 12] });
    assert!(matches!(add_to_cart_on_lookup(&line(2.5), None), CartAction::CreateLine));
    let mut body = line(2.5);
    body.id = Some(Oid { bytes: [6; 12] });
    let a = add_to_cart_new_line(&body, user, Oid { bytes: [5; 12] });
    let (status, text) = json_text(&a);
    assert!(status == Status::Success);
    assert_eq!(text, "Added to cart");
    match a {
        CartAction::InsertLine { line, .. } => {
            assert_eq!(line.id.unwrap().bytes, [5; 12]);
            assert_eq!(line.user.unwrap().bytes, [1; 12]);
            assert_eq!(line.product_id.bytes, [4; 12]);
            assert_eq!(f32::from_bits(line.quantity), 2.5);
        },
        _ => panic!("expected an insert"),
    }
}

#[test]
fn cart_owner_reads_header_id() {
    assert_eq!(cart_owner("0000000000000000000000ff").bytes[11], 0xff);
}

#[test]
fn repeated_addition_sets_same_quantity() {
    let user = Some(Oid { bytes: [1; 12] });
    let first = match add_to_cart_new_line(&line(2.0), user, Oid { bytes: [5; 12] }) {
        CartAction::InsertLine { line, .. } => line,
        _ => panic!("expected an insert"),
    };
    match add_to_cart_on_lookup(&line(2.0), Some(first)) {
        CartAction::SetQuantity { line_id, quantity, .. } => {
            assert_eq!(line_id.unwrap().bytes, [5; 12]);
            assert_eq!(quantity, first.quantity);
        },
        _ => panic!("expected an update"),
    }
}
