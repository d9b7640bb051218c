use vstd::prelude::*;
use crate::object_id::Oid;

verus! {

/// A registered user, as stored in the `user` collection.
pub struct SUser {
    pub id: Option<Oid>,
    pub name: String,
    pub email: String,
    pub phone: String,
    pub profile_pic: String,
    /// The bcrypt hash of the password, never the password itself once stored.
    pub password: String,
    pub active: Option<bool>,
    /// Ids of the products on the user's wishlist.
    pub wishlist: Option<Vec<Oid>>,
    pub create_at: Option<String>,
}

/// The mathematical model of a user: its strings as character sequences.
pub struct UserView {
    pub id: Option<Oid>,
    pub name: Seq<char>,
    pub email: Seq<char>,
    pub phone: Seq<char>,
    pub profile_pic: Seq<char>,
    pub password: Seq<char>,
    pub active: Option<bool>,
    pub wishlist: Option<Seq<Oid>>,
    pub create_at: Option<Seq<char>>,
}

impl View for SUser {
    type V = UserView;

    open spec fn view(&self) -> UserView {
        UserView {
            id: self.id,
            name: self.name@,
            email: self.email@,
            phone: self.phone@,
            profile_pic: self.profile_pic@,
            password: self.password@,
            active: self.active,
            wishlist: match &self.wishlist {
                Some(w) => Some(w@),
                None => None,
            },
            create_at: match &self.create_at {
                Some(c) => Some(c@),
                None => None,
            },
        }
    }
}

/// A copy of a list of ids, element for element.
pub fn copy_ids(ids: &Vec<Oid>) -> (r: Vec<Oid>)
    ensures
        r@ == ids@,
{
    let mut r: Vec<Oid> = Vec::new();
    let mut i: usize = 0;
    while i < ids.len()
        invariant
            i <= ids.len(),
            r@ == ids@.take(i as int),
        decreases ids.len() - i,
    {
        r.push(ids[i]);
        i = i + 1;
        assert(r@ =~= ids@.take(i as int));
    }
    assert(ids@.take(ids.len() as int) =~= ids@);
    r
}

/// A copy of an optional string.
pub fn copy_opt_string(s: &Option<String>) -> (r: Option<String>)
    ensures
        r is Some <==> s is Some,
        r matches Some(c) ==> c@ == s->0@,
{
    match s {
        Some(c) => Some(c.clone()),
        None => None,
    }
}

impl SUser {
    /// A field-for-field copy of the user.
    pub fn duplicate(&self) -> (r: SUser)
        ensures
            r@ == self@,
    {
        let wishlist = match &self.wishlist {
            Some(w) => Some(copy_ids(w)),
            None => None,
        };
        SUser {
            id: self.id,
            name: self.name.clone(),
            email: self.email.clone(),
            phone: self.phone.clone(),
            profile_pic: self.profile_pic.clone(),
            password: self.password.clone(),
            active: self.active,
            wishlist,
            create_at: copy_opt_string(&self.create_at),
        }
    }
}

/// A line of a user's cart, as stored in the `cart` collection.
///
/// The quantity is a 32-bit float in the stored document; the library carries its IEEE-754
/// bit pattern, which converts to and from the float without loss.
#[derive(Clone, Copy)]
pub struct SCart {
    pub id: Option<Oid>,
    pub product_id: Oid,
    pub quantity: u32,
    pub user: Option<Oid>,
}

/// Credentials sent to log in.
pub struct SLogin {
    pub email: String,
    pub password: String,
}

/// The page (counted from 1) and page size asked for in a listing.
#[derive(Clone, Copy)]
pub struct PaginationPayload {
    pub page: u16,
    pub limit: u16,
}

/// What a listing reports beside its items.
#[derive(Clone, Copy)]
pub struct Meta {
    pub total: u16,
    pub page: u16,
    pub limit: u16,
}

/// A listing: its items and their metadata.
pub struct PaginatedResponse<T> {
    pub data: Vec<T>,
    pub meta: Meta,
}

/// The answer to a successful signup or login.
pub struct LoginRes {
    pub token: String,
    pub user: SUser,
}

/// A request naming one id.
pub struct IDReq {
    pub id: String,
}

/// A short answer: a flag and a message.
pub struct MinRes {
    pub status: bool,
    pub message: String,
}

} // verus!
