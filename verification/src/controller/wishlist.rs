use vstd::prelude::*;
use crate::object_id::{contains_oid, is_oid_text, oid_bytes_of_text, Oid};
use crate::pagination::Stage;
use crate::response::{is_text_reply, json_reply, text_reply, Body, Response, Status};
use crate::serializers::{copy_ids, IDReq, MinRes, SUser};

verus! {

/// The next thing to do in a change of a wishlist.
pub enum WishlistAction {
    /// Answer the request.
    Reply(Response<MinRes>),
    /// Load the requesting user (and, for an addition, look the product up), then decide about
    /// the product with this id.
    Load(Oid),
    /// Store `wishlist` as the wishlist of the user with id `user`, then answer `reply`.
    Save { user: Option<Oid>, wishlist: Vec<Oid>, reply: Response<MinRes> },
}

/// `r` is 200 with `{"status": true, "message": msg}`.
pub open spec fn is_min_reply(r: Response<MinRes>, msg: Seq<char>) -> bool {
    &&& r.status == Status::Success
    &&& r.body matches Body::Json(m) && m.status && m.message@ == msg
}

/// No id occurs twice.
pub open spec fn no_duplicates(s: Seq<Oid>) -> bool {
    forall|i: int, j: int| 0 <= i < s.len() && 0 <= j < s.len() && i != j ==> s[i] != s[j]
}

/// The wishlist after adding `id` in front.
pub open spec fn with_added(wishlist: Seq<Oid>, id: Oid) -> Seq<Oid> {
    seq![id] + wishlist
}

/// The wishlist after removing `id`: taking the ids off its end one by one and keeping each
/// one that is not `id`, so the ids kept come in reverse order.
pub open spec fn with_removed(wishlist: Seq<Oid>, id: Oid) -> Seq<Oid>
    decreases wishlist.len(),
{
    if wishlist.len() == 0 {
        Seq::empty()
    } else {
        let last = wishlist.last();
        let rest = with_removed(wishlist.drop_last(), id);
        if last == id {
            rest
        } else {
            seq![last] + rest
        }
    }
}

fn min_reply(msg: &str) -> (r: Response<MinRes>)
    ensures
        is_min_reply(r, msg@),
{
    json_reply(Status::Success, MinRes { status: true, message: msg.to_string() })
}

/// First step of an addition: an empty id answers 400 "Invaild id"; otherwise the id is read
/// and the user and the product are loaded.
pub fn add_to_wishlist_start(body: &IDReq) -> (r: WishlistAction)
    requires
        body.id@.len() == 0 || is_oid_text(body.id@),
    ensures
        body.id@.len() == 0 ==> (r matches WishlistAction::Reply(resp) && is_text_reply(
            resp,
            Status::BadRequest,
            "Invaild id"@,
        )),
        body.id@.len() > 0 ==> (r matches WishlistAction::Load(id) && id.bytes@ == oid_bytes_of_text(
            body.id@,
        )),
{
    if body.id.as_str().is_empty() {
        return WishlistAction::Reply(text_reply(Status::BadRequest, "Invaild id"));
    }
    WishlistAction::Load(Oid::parse(body.id.as_str()).unwrap())
}

/// The decision of an addition: an unknown product answers 403 "product not found"; a product
/// already on the wishlist answers 400 "product already exits"; otherwise the product goes in
/// front of the wishlist, which is saved, and the answer is 200 "product added to wishlist".
pub fn add_to_wishlist_decide(user: &SUser, product: Oid, product_found: bool) -> (r: WishlistAction)
    requires
        product_found ==> user.wishlist is Some,
    ensures
        !product_found ==> (r matches WishlistAction::Reply(resp) && is_text_reply(
            resp,
            Status::Forbidden,
            "product not found"@,
        )),
        product_found && user.wishlist->0@.contains(product) ==> (r matches WishlistAction::Reply(
            resp,
        ) && is_text_reply(resp, Status::BadRequest, "product already exits"@)),
        product_found && !user.wishlist->0@.contains(product) ==> (r matches WishlistAction::Save {
            user: owner,
            wishlist,
            reply,
        } && owner == user.id && wishlist@ == with_added(user.wishlist->0@, product) && is_min_reply(
            reply,
            "product added to wishlist"@,
        )),
{
    if !product_found {
        return WishlistAction::Reply(text_reply(Status::Forbidden, "product not found"));
    }
    let current = match &user.wishlist {
        Some(w) => w,
        None => {
            assert(false);
            return WishlistAction::Reply(text_reply(Status::Forbidden, "product not found"));
        },
    };
    if contains_oid(current, &product) {
        return WishlistAction::Reply(text_reply(Status::BadRequest, "product already exits"));
    }
    let mut wishlist: Vec<Oid> = Vec::new();
    wishlist.push(product);
    let mut rest = copy_ids(current);
    wishlist.append(&mut rest);
    assert(wishlist@ =~= with_added(current@, product));
    WishlistAction::Save {
        user: user.id,
        wishlist,
        reply: min_reply("product added to wishlist"),
    }
}

/// First step of a removal: an empty id answers 400 "Invalid id"; otherwise the id is read and
/// the user is loaded.
pub fn delete_from_wishlist_start(body: &IDReq) -> (r: WishlistAction)
    requires
        body.id@.len() == 0 || is_oid_text(body.id@),
    ensures
        body.id@.len() == 0 ==> (r matches WishlistAction::Reply(resp) && is_text_reply(
            resp,
            Status::BadRequest,
            "Invalid id"@,
        )),
        body.id@.len() > 0 ==> (r matches WishlistAction::Load(id) && id.bytes@ == oid_bytes_of_text(
            body.id@,
        )),
{
    if body.id.as_str().is_empty() {
        return WishlistAction::Reply(text_reply(Status::BadRequest, "Invalid id"));
    }
    WishlistAction::Load(Oid::parse(body.id.as_str()).unwrap())
}

/// The wishlist without `id`: the ids are popped off the end of a copy, and each that is not
/// `id` is kept.
pub fn remove_from_wishlist(wishlist: &Vec<Oid>, id: &Oid) -> (r: Vec<Oid>)
    ensures
        r@ == with_removed(wishlist@, *id),
{
    let mut pending = copy_ids(wishlist);
    let mut kept: Vec<Oid> = Vec::new();
    while pending.len() > 0
        invariant
            kept@ + with_removed(pending@, *id) == with_removed(wishlist@, *id),
        decreases pending.len(),
    {
        let ghost before = pending@;
        let last = pending.pop().unwrap();
        assert(before.drop_last() =~= pending@);
        if !last.same_as(id) {
            let ghost kept_before = kept@;
            kept.push(last);
            assert(kept@ + with_removed(pending@, *id) =~= kept_before + (seq![last]
                + with_removed(pending@, *id)));
        }
    }
    assert(kept@ + Seq::<Oid>::empty() =~= kept@);
    kept
}

/// The decision of a removal: an id not on the wishlist answers 400 "product not found in
/// wishlist"; otherwise the wishlist without it is saved and the answer is 200 "product deleted
/// from wishlist".
pub fn delete_from_wishlist_decide(user: &SUser, product: Oid) -> (r: WishlistAction)
    requires
        user.wishlist is Some,
    ensures
        !user.wishlist->0@.contains(product) ==> (r matches WishlistAction::Reply(resp)
            && is_text_reply(resp, Status::BadRequest, "product not found in wishlist"@)),
        user.wishlist->0@.contains(product) ==> (r matches WishlistAction::Save {
            user: owner,
            wishlist,
            reply,
        } && owner == user.id && wishlist@ == with_removed(user.wishlist->0@, product)
            && is_min_reply(reply, "product deleted from wishlist"@)),
{
    let current = match &user.wishlist {
        Some(w) => w,
        None => {
            assert(false);
            return WishlistAction::Reply(
                text_reply(Status::BadRequest, "product not found in wishlist"),
            );
        },
    };
    if !contains_oid(current, &product) {
        return WishlistAction::Reply(
            text_reply(Status::BadRequest, "product not found in wishlist"),
        );
    }
    let wishlist = remove_from_wishlist(current, &product);
    WishlistAction::Save {
        user: user.id,
        wishlist,
        reply: min_reply("product deleted from wishlist"),
    }
}

/// The aggregation that the wishlist routes' own listing builds: a single stage
/// `{"_id": {"$in": wishlist}}`.
pub fn wishlist_id_pipeline(user: &SUser) -> (r: Vec<Stage>)
    ensures
        r@.len() == 1,
        r@[0] matches Stage::IdIn(ids) && (ids is Some <==> user.wishlist is Some) && (
        ids matches Some(v) ==> v@ == user.wishlist->0@),
{
    let ids = match &user.wishlist {
        Some(w) => Some(copy_ids(w)),
        None => None,
    };
    let mut r: Vec<Stage> = Vec::new();
    r.push(Stage::IdIn(ids));
    r
}

/// An id is on the wishlist after removal exactly where it was before and is not the one
/// removed.
pub proof fn lemma_removed_members(wishlist: Seq<Oid>, id: Oid, x: Oid)
    ensures
        with_removed(wishlist, id).contains(x) <==> (wishlist.contains(x) && x != id),
    decreases wishlist.len(),
{
    if wishlist.len() > 0 {
        let rest = wishlist.drop_last();
        lemma_removed_members(rest, id, x);
        let last = wishlist.last();
        assert(wishlist =~= rest.push(last));
        if wishlist.contains(x) && x != id {
            let k = choose|k: int| 0 <= k < wishlist.len() && wishlist[k] == x;
            if k < rest.len() {
                assert(rest[k] == x);
            }
        }
        if last != id {
            assert((seq![last] + with_removed(rest, id))[0] == last);
            if with_removed(rest, id).contains(x) {
                let k = choose|k: int| 0 <= k < with_removed(rest, id).len() && with_removed(rest, id)[k] == x;
                assert((seq![last] + with_removed(rest, id))[k + 1] == x);
            }
            if (seq![last] + with_removed(rest, id)).contains(x) {
                let k = choose|k: int| 0 <= k < (seq![last] + with_removed(rest, id)).len() && (seq![last] + with_removed(rest, id))[k] == x;
                if k > 0 {
                    assert(with_removed(rest, id)[k - 1] == x);
                }
            }
        }
        if rest.contains(x) {
            let k = choose|k: int| 0 <= k < rest.len() && rest[k] == x;
            assert(wishlist[k] == x);
        }
    }
}

/// An addition puts the product on the wishlist, and keeps a wishlist free of repeated ids.
pub proof fn lemma_add_keeps_unique(wishlist: Seq<Oid>, id: Oid)
    requires
        no_duplicates(wishlist),
        !wishlist.contains(id),
    ensures
        with_added(wishlist, id).contains(id),
        no_duplicates(with_added(wishlist, id)),
{
    let w = with_added(wishlist, id);
    assert(w[0] == id);
    assert forall|i: int, j: int| 0 <= i < w.len() && 0 <= j < w.len() && i != j implies w[i]
        != w[j] by {
        if i == 0 && j > 0 {
            assert(wishlist[j - 1] == w[j]);
        } else if j == 0 && i > 0 {
            assert(wishlist[i - 1] == w[i]);
        } else if i > 0 && j > 0 {
            assert(w[i] == wishlist[i - 1] && w[j] == wishlist[j - 1]);
        }
    }
}

/// A removal takes the product off the wishlist, and keeps a wishlist free of repeated ids.
pub proof fn lemma_remove_keeps_unique(wishlist: Seq<Oid>, id: Oid)
    requires
        no_duplicates(wishlist),
    ensures
        !with_removed(wishlist, id).contains(id),
        no_duplicates(with_removed(wishlist, id)),
    decreases wishlist.len(),
{
    lemma_removed_members(wishlist, id, id);
    if wishlist.len() > 0 {
        let rest = wishlist.drop_last();
        let last = wishlist.last();
        assert(no_duplicates(rest)) by {
            assert forall|i: int, j: int| 0 <= i < rest.len() && 0 <= j < rest.len() && i != j
                implies rest[i] != rest[j] by {
                assert(rest[i] == wishlist[i] && rest[j] == wishlist[j]);
            }
        }
        lemma_remove_keeps_unique(rest, id);
        if last != id {
            let r = with_removed(rest, id);
            let w = seq![last] + r;
            lemma_removed_members(rest, id, last);
            assert(!rest.contains(last)) by {
                if rest.contains(last) {
                    let k = choose|k: int| 0 <= k < rest.len() && rest[k] == last;
                    assert(wishlist[k] == wishlist[wishlist.len() - 1]);
                }
            }
            assert forall|i: int, j: int| 0 <= i < w.len() && 0 <= j < w.len() && i != j implies w[i]
                != w[j] by {
                if i == 0 && j > 0 {
                    assert(w[j] == r[j - 1]);
                    assert(r.contains(r[j - 1]));
                } else if j == 0 && i > 0 {
                    assert(w[i] == r[i - 1]);
                    assert(r.contains(r[i - 1]));
                } else if i > 0 && j > 0 {
                    assert(w[i] == r[i - 1] && w[j] == r[j - 1]);
                }
            }
        }
    }
}

/// Removing a product just added gives back a wishlist with the same ids as before.
pub proof fn lemma_add_then_remove(wishlist: Seq<Oid>, id: Oid, x: Oid)
    requires
        !wishlist.contains(id),
    ensures
        with_removed(with_added(wishlist, id), id).contains(x) <==> wishlist.contains(x),
{
    let added = with_added(wishlist, id);
    lemma_removed_members(added, id, x);
    if wishlist.contains(x) {
        let k = choose|k: int| 0 <= k < wishlist.len() && wishlist[k] == x;
        assert(added[k + 1] == x);
    }
    if added.contains(x) && x != id {
        let k = choose|k: int| 0 <= k < added.len() && added[k] == x;
        assert(k > 0);
        assert(wishlist[k - 1] == x);
    }
}

} // verus!
