use vstd::prelude::*;
use crate::object_id::{is_oid_text, lemma_hex_round_trip, oid_bytes_of_text, Oid};
use crate::response::{json_reply, Body, Response, Status};
use crate::serializers::SCart;

verus! {

/// The next thing to do in an addition to the cart.
pub enum CartAction {
    /// Answer the request.
    Reply(Response<String>),
    /// Look up the cart line of user `user` for product `product`.
    FindLine { user: Option<Oid>, product: Oid },
    /// Set the quantity of the line with id `line_id` to `quantity`, then answer `reply`.
    SetQuantity { line_id: Option<Oid>, quantity: u32, reply: Response<String> },
    /// Draw a fresh id for a new line.
    CreateLine,
    /// Store the new line `line`, then answer `reply`.
    InsertLine { line: SCart, reply: Response<String> },
}

/// `r` has status `status` and the JSON string `msg` as body.
pub open spec fn is_json_text(r: Response<String>, status: Status, msg: Seq<char>) -> bool {
    &&& r.status == status
    &&& r.body matches Body::Json(t) && t@ == msg
}

fn json_text(status: Status, msg: &str) -> (r: Response<String>)
    ensures
        is_json_text(r, status, msg@),
{
    json_reply(status, msg.to_string())
}

/// The owner of a cart, read from the `userid` header that the guard set.
pub fn cart_owner(user_id: &str) -> (r: Oid)
    requires
        is_oid_text(user_id@),
    ensures
        r.bytes@ == oid_bytes_of_text(user_id@),
{
    Oid::parse(user_id).unwrap()
}

/// The product id as the request names it, read back from its own text.
fn product_of(body: &SCart) -> (r: Oid)
    ensures
        r == body.product_id,
{
    let text = body.product_id.to_hex();
    proof {
        lemma_hex_round_trip(body.product_id);
    }
    let id = Oid::parse(text.as_str()).unwrap();
    assert(id.bytes =~= body.product_id.bytes);
    id
}

/// First step of an addition to the cart, once the user is known: a product id with empty text
/// or a quantity that is 0 as a whole number answers 400 with the JSON string "Invalid product
/// id or quantity"; otherwise the user's line for the product is looked up.
/// `whole_quantity` is the requested quantity converted to an unsigned whole number.
pub fn add_to_cart_start(body: &SCart, whole_quantity: u32, user: Option<Oid>) -> (r: CartAction)
    ensures
        whole_quantity == 0 ==> (r matches CartAction::Reply(resp) && is_json_text(
            resp,
            Status::BadRequest,
            "Invalid product id or quantity"@,
        )),
        whole_quantity != 0 ==> r == (CartAction::FindLine { user, product: body.product_id }),
{
    let text = body.product_id.to_hex();
    if text.as_str().is_empty() || whole_quantity == 0 {
        CartAction::Reply(json_text(Status::BadRequest, "Invalid product id or quantity"))
    } else {
        CartAction::FindLine { user, product: product_of(body) }
    }
}

/// After the lookup: an existing line gets the requested quantity and the answer is 200 "Cart
/// updated"; otherwise a new line is to be made.
pub fn add_to_cart_on_lookup(body: &SCart, existing: Option<SCart>) -> (r: CartAction)
    ensures
        existing matches Some(line) ==> (r matches CartAction::SetQuantity {
            line_id,
            quantity,
            reply,
        } && line_id == line.id && quantity == body.quantity && is_json_text(
            reply,
            Status::Success,
            "Cart updated"@,
        )),
        existing is None ==> r is CreateLine,
{
    match existing {
        Some(line) => CartAction::SetQuantity {
            line_id: line.id,
            quantity: body.quantity,
            reply: json_text(Status::Success, "Cart updated"),
        },
        None => CartAction::CreateLine,
    }
}

/// The new line, under the freshly drawn id `fresh`: the user's line for the requested product
/// and quantity, stored before the answer 200 "Added to cart".
pub fn add_to_cart_new_line(body: &SCart, user: Option<Oid>, fresh: Oid) -> (r: CartAction)
    ensures
        r matches CartAction::InsertLine { line, reply } && line == (SCart {
            id: Some(fresh),
            user,
            product_id: body.product_id,
            quantity: body.quantity,
        }) && is_json_text(reply, Status::Success, "Added to cart"@),
{
    let line = SCart { id: Some(fresh), user, product_id: product_of(body), quantity: body.quantity };
    CartAction::InsertLine { line, reply: json_text(Status::Success, "Added to cart") }
}

/// No two cart lines belong to the same user for the same product.
pub open spec fn line_keys_distinct(lines: Seq<SCart>) -> bool {
    forall|i: int, j: int|
        0 <= i < lines.len() && 0 <= j < lines.len() && i != j ==> !(lines[i].user == lines[j].user
            && lines[i].product_id == lines[j].product_id)
}

/// Some cart line belongs to `user` for `product`.
pub open spec fn has_line(lines: Seq<SCart>, user: Option<Oid>, product: Oid) -> bool {
    exists|i: int| 0 <= i < lines.len() && #[trigger] lines[i].user == user && lines[i].product_id
        == product
}

/// The lines after setting the quantity of the line with id `id`.
pub open spec fn with_quantity(lines: Seq<SCart>, id: Option<Oid>, quantity: u32) -> Seq<SCart> {
    Seq::new(
        lines.len(),
        |i: int|
            if lines[i].id == id {
                SCart { quantity, ..lines[i] }
            } else {
                lines[i]
            },
    )
}

/// Adding to the cart never makes a second line for a user and a product: a new line is made
/// only where the lookup truly found none for that user and product.
pub proof fn lemma_new_line_keeps_keys_distinct(lines: Seq<SCart>, body: SCart, user: Option<Oid>, fresh: Oid)
    requires
        line_keys_distinct(lines),
        !has_line(lines, user, body.product_id),
    ensures
        line_keys_distinct(
            lines.push(
                SCart { id: Some(fresh), user, product_id: body.product_id, quantity: body.quantity },
            ),
        ),
{
    let line = SCart { id: Some(fresh), user, product_id: body.product_id, quantity: body.quantity };
    let all = lines.push(line);
    assert forall|i: int, j: int| 0 <= i < all.len() && 0 <= j < all.len() && i != j implies !(
    all[i].user == all[j].user && all[i].product_id == all[j].product_id) by {
        if i == lines.len() {
            assert(all[j] == lines[j]);
        } else if j == lines.len() {
            assert(all[i] == lines[i]);
        } else {
            assert(all[i] == lines[i] && all[j] == lines[j]);
        }
    }
}

/// Repeating an addition changes nothing: once the line holds the quantity asked for, the
/// second addition finds it and sets that same quantity again.
pub proof fn lemma_repeat_add_changes_nothing(lines: Seq<SCart>, k: int, quantity: u32)
    requires
        0 <= k < lines.len(),
        lines[k].quantity == quantity,
        forall|i: int| 0 <= i < lines.len() && lines[i].id == lines[k].id ==> i == k,
    ensures
        with_quantity(lines, lines[k].id, quantity) == lines,
{
    assert(with_quantity(lines, lines[k].id, quantity) =~= lines);
}

} // verus!
