use vstd::prelude::*;
use crate::object_id::{lower_hex, Oid};
use crate::pagination::Stage;
use crate::response::{is_text_reply, json_reply, text_reply, Body, Response, Status};
use crate::serializers::{copy_ids, LoginRes, SLogin, SUser, UserView};
use crate::password::{
    bcrypt_hash_shape, bcrypt_verifies, bcrypt_verify_panics, breaks_salt_decoding,
    check_password, is_bcrypt64_char,
};
use crate::utilities::{
    claims_entries, generate_jwt, hour_later, hs256_token, hs256_verified_claims,
};

verus! {

/// The text of a time in UTC as chrono displays it: the date and time, then " UTC".
pub open spec fn is_utc_time_text(t: Seq<char>) -> bool {
    t.len() >= 4 && t.subrange(t.len() - 4, t.len() as int) == " UTC"@
}

/// `chrono::Utc::now().to_string()`: the current time as text. Which time it is depends on the
/// clock; it is stated that the text ends in " UTC", as the `Display` of a `DateTime<Utc>`
/// writes the date and time, a space, and the offset `Utc`, which displays as "UTC".
#[verifier::external_body]
fn now_text() -> (t: String)
    ensures
        is_utc_time_text(t@),
{
    chrono::Utc::now().to_string()
}

/// The current time as text, to be stored as an account's creation time.
pub fn creation_time() -> (t: String)
    ensures
        is_utc_time_text(t@),
{
    now_text()
}

/// What a lookup of one document gave.
#[derive(Clone, Copy, PartialEq, Eq, Structural)]
pub enum Lookup {
    Found,
    Missing,
    Failed,
}

/// The next thing to do in a signup or a login.
pub enum AccountAction {
    /// Answer the request.
    Reply(Response<LoginRes>),
    /// Look up a user by email.
    FindByEmail(String),
    /// Look up a user by phone number.
    FindByPhone(String),
    /// Build the new account: draw its id, hash its password and read the clock.
    CreateAccount,
    /// Store this new user.
    Insert(SUser),
    /// Read back the user stored under this id.
    FindById(Oid),
    /// Open a session for this user.
    IssueSession(SUser),
}

/// The fields a signup must fill: name, email, phone and password.
pub open spec fn signup_fields_valid(body: UserView) -> bool {
    &&& body.name.len() > 0
    &&& body.email.len() > 0
    &&& body.phone.len() > 0
    &&& body.password.len() > 0
}

/// A signup body is accepted exactly where its name, email, phone and password are all
/// non-empty; its picture, id, flag, wishlist and creation time play no part.
pub proof fn lemma_signup_fields(body: UserView)
    ensures
        signup_fields_valid(body) <==> (body.name.len() > 0 && body.email.len() > 0
            && body.phone.len() > 0 && body.password.len() > 0),
        forall|other: UserView|
            other.name == body.name && other.email == body.email && other.phone == body.phone
                && other.password == body.password ==> (#[trigger] signup_fields_valid(other)
                <==> signup_fields_valid(body)),
{
}

/// `u` is the account that a signup with `body` stores: a fresh id, the body's name, email,
/// phone and picture, a bcrypt hash of the body's password, active, an empty wishlist and a
/// creation time.
pub open spec fn is_new_account(u: UserView, body: UserView) -> bool {
    &&& u.id is Some
    &&& u.name == body.name
    &&& u.email == body.email
    &&& u.phone == body.phone
    &&& u.profile_pic == body.profile_pic
    &&& bcrypt_verifies(body.password, u.password)
    &&& bcrypt_hash_shape(u.password)
    &&& u.active == Some(true)
    &&& u.wishlist == Some(Seq::<Oid>::empty())
    &&& u.create_at is Some
}

/// The password given at login matches the stored account.
pub open spec fn credentials_accepted(password: Seq<char>, stored: UserView) -> bool {
    bcrypt_verifies(password, stored.password)
}

/// First step of a signup: refuse a body with an empty name, email, phone or password, else
/// look the email up.
pub fn signup_start(body: &SUser) -> (r: AccountAction)
    ensures
        !signup_fields_valid(body@) ==> (r matches AccountAction::Reply(resp) && is_text_reply(
            resp,
            Status::BadRequest,
            "Invalid fields"@,
        )),
        signup_fields_valid(body@) ==> (r matches AccountAction::FindByEmail(e) && e@
            == body.email@),
        (body.name@.len() > 0 && body.email@.len() > 0 && body.phone@.len() > 0
            && body.password@.len() > 0) ==> (r matches AccountAction::FindByEmail(e) && e@
            == body.email@),
        (body.name@.len() == 0 || body.email@.len() == 0 || body.phone@.len() == 0
            || body.password@.len() == 0) ==> (r matches AccountAction::Reply(resp)
            && is_text_reply(resp, Status::BadRequest, "Invalid fields"@)),
{
    if body.name.as_str().is_empty() || body.email.as_str().is_empty()
        || body.phone.as_str().is_empty() || body.password.as_str().is_empty() {
        AccountAction::Reply(text_reply(Status::BadRequest, "Invalid fields"))
    } else {
        AccountAction::FindByEmail(body.email.clone())
    }
}

/// After the email lookup: an email already taken is refused; otherwise (also where the lookup
/// failed) the phone number is looked up.
pub fn signup_on_email_lookup(body: &SUser, lookup: Lookup) -> (r: AccountAction)
    ensures
        lookup == Lookup::Found ==> (r matches AccountAction::Reply(resp) && is_text_reply(
            resp,
            Status::BadRequest,
            "Email already exists"@,
        )),
        lookup != Lookup::Found ==> (r matches AccountAction::FindByPhone(p) && p@
            == body.phone@),
{
    match lookup {
        Lookup::Found => AccountAction::Reply(
            text_reply(Status::BadRequest, "Email already exists"),
        ),
        _ => AccountAction::FindByPhone(body.phone.clone()),
    }
}

/// After the phone lookup: a phone number already taken is refused; otherwise (also where the
/// lookup failed) the new account is built.
pub fn signup_on_phone_lookup(body: &SUser, lookup: Lookup) -> (r: AccountAction)
    ensures
        lookup == Lookup::Found ==> (r matches AccountAction::Reply(resp) && is_text_reply(
            resp,
            Status::BadRequest,
            "Phone number already exists"@,
        )),
        lookup != Lookup::Found ==> r is CreateAccount,
{
    match lookup {
        Lookup::Found => AccountAction::Reply(
            text_reply(Status::BadRequest, "Phone number already exists"),
        ),
        _ => AccountAction::CreateAccount,
    }
}

/// The account that a signup with `body` stores, given its freshly drawn id, the hash of the
/// body's password and the creation time: the body's name, email, phone and picture, active,
/// with an empty wishlist. Nothing else of the body is taken.
pub fn new_account(body: &SUser, id: Oid, hash: String, created: String) -> (u: SUser)
    ensures
        u.id == Some(id),
        u.name@ == body.name@,
        u.email@ == body.email@,
        u.phone@ == body.phone@,
        u.profile_pic@ == body.profile_pic@,
        u.password@ == hash@,
        u.active == Some(true),
        u@.wishlist == Some(Seq::<Oid>::empty()),
        u@.create_at == Some(created@),
        bcrypt_verifies(body.password@, hash@) && bcrypt_hash_shape(hash@) ==> is_new_account(
            u@,
            body@,
        ),
{
    let user = SUser {
        id: Some(id),
        name: body.name.clone(),
        email: body.email.clone(),
        phone: body.phone.clone(),
        profile_pic: body.profile_pic.clone(),
        password: hash,
        active: Some(true),
        wishlist: Some(Vec::new()),
        create_at: Some(created),
    };
    assert(user@.wishlist->0 =~= Seq::<Oid>::empty());
    user
}

/// After the insert: read the stored user back by the id it was stored under, or answer 500
/// where the insert failed.
pub fn signup_on_insert(inserted: Option<Oid>) -> (r: AccountAction)
    ensures
        inserted matches Some(id) ==> r == AccountAction::FindById(id),
        inserted is None ==> (r matches AccountAction::Reply(resp) && is_text_reply(
            resp,
            Status::InternalServerError,
            "Internal server error"@,
        )),
{
    match inserted {
        Some(id) => AccountAction::FindById(id),
        None => AccountAction::Reply(
            text_reply(Status::InternalServerError, "Internal server error"),
        ),
    }
}

/// Answers 200 with a session token for the user and the user.
pub fn issue_session(user: SUser) -> (r: Response<LoginRes>)
    requires
        user.id is Some,
    ensures
        r.status == Status::Success,
        r.body matches Body::Json(res) && res.user@ == user@ && exists|exp: usize|
            res.token@ == hs256_token(lower_hex(user.id->0.bytes@), "user"@, exp, "secret"@)
                && hs256_verified_claims(res.token@, "secret"@) == Some(
                claims_entries(lower_hex(user.id->0.bytes@), "user"@, exp),
            ),
        r.body matches Body::Json(res) && exists|now: i64|
            0 <= now && res.token@ == hs256_token(
                lower_hex(user.id->0.bytes@),
                "user"@,
                #[trigger] hour_later(now),
                "secret"@,
            ),
{
    let copy = user.duplicate();
    let token = generate_jwt(user);
    json_reply(Status::Success, LoginRes { token, user: copy })
}

/// First step of a login: refuse an empty email or password, else look the email up.
pub fn login_start(body: &SLogin) -> (r: AccountAction)
    ensures
        (body.email@.len() == 0 || body.password@.len() == 0) ==> (r matches AccountAction::Reply(
            resp,
        ) && is_text_reply(resp, Status::BadRequest, "Invalid Request"@)),
        (body.email@.len() > 0 && body.password@.len() > 0) ==> (r matches AccountAction::FindByEmail(
            e,
        ) && e@ == body.email@),
{
    if body.email.as_str().is_empty() || body.password.as_str().is_empty() {
        AccountAction::Reply(text_reply(Status::BadRequest, "Invalid Request"))
    } else {
        AccountAction::FindByEmail(body.email.clone())
    }
}

/// After the email lookup of a login: a failed lookup answers 500; an unknown email or a
/// password that does not check against the stored hash answers 400 "Invalid credentials";
/// otherwise a session is opened for the stored user. A stored hash on which the check would
/// panic is left out.
pub fn login_on_lookup(body: &SLogin, found: Result<Option<SUser>, ()>) -> (r: AccountAction)
    requires
        found matches Ok(Some(u)) ==> !bcrypt_verify_panics(u.password@),
    ensures
        found is Err ==> (r matches AccountAction::Reply(resp) && is_text_reply(
            resp,
            Status::InternalServerError,
            "Internal server error"@,
        )),
        found matches Ok(None) ==> (r matches AccountAction::Reply(resp) && is_text_reply(
            resp,
            Status::BadRequest,
            "Invalid credentials"@,
        )),
        found matches Ok(Some(u)) ==> {
            &&& credentials_accepted(body.password@, u@) ==> (r matches AccountAction::IssueSession(
                v,
            ) && v@ == u@)
            &&& !credentials_accepted(body.password@, u@) ==> (r matches AccountAction::Reply(
                resp,
            ) && is_text_reply(resp, Status::BadRequest, "Invalid credentials"@))
        },
{
    match found {
        Ok(Some(user)) => {
            if check_password(body.password.as_str(), user.password.as_str()) {
                AccountAction::IssueSession(user)
            } else {
                AccountAction::Reply(text_reply(Status::BadRequest, "Invalid credentials"))
            }
        },
        Ok(None) => AccountAction::Reply(text_reply(Status::BadRequest, "Invalid credentials")),
        Err(_) => AccountAction::Reply(
            text_reply(Status::InternalServerError, "Internal server error"),
        ),
    }
}

/// An account that a signup stores can log in with the password it signed up with, and the
/// check of its stored hash does not panic.
pub proof fn lemma_signup_then_login(body: UserView, stored: UserView)
    requires
        is_new_account(stored, body),
    ensures
        credentials_accepted(body.password, stored),
        !bcrypt_verify_panics(stored.password),
{
    let h = stored.password;
    assert forall|j: int| 7 <= j < 29 && j < h.len() implies !breaks_salt_decoding(
        #[trigger] h[j],
    ) by {
        assert(is_bcrypt64_char(h[j]));
    }
}

/// No two stored users share an email, and no two share a phone number.
pub open spec fn contacts_distinct(users: Seq<UserView>) -> bool {
    forall|i: int, j: int|
        0 <= i < users.len() && 0 <= j < users.len() && i != j ==> users[i].email != users[j].email
            && users[i].phone != users[j].phone
}

/// Some stored user has this email.
pub open spec fn email_taken(users: Seq<UserView>, email: Seq<char>) -> bool {
    exists|i: int| 0 <= i < users.len() && #[trigger] users[i].email == email
}

/// Some stored user has this phone number.
pub open spec fn phone_taken(users: Seq<UserView>, phone: Seq<char>) -> bool {
    exists|i: int| 0 <= i < users.len() && #[trigger] users[i].phone == phone
}

/// Signing up keeps emails and phone numbers unique: where both lookups truly found nothing
/// (so that the steps go on to store the account) and nothing else is written in between,
/// the users with the new account added still share no email and no phone number.
pub proof fn lemma_signup_keeps_contacts_unique(users: Seq<UserView>, body: UserView, stored: UserView)
    requires
        contacts_distinct(users),
        !email_taken(users, body.email),
        !phone_taken(users, body.phone),
        is_new_account(stored, body),
    ensures
        contacts_distinct(users.push(stored)),
{
    let all = users.push(stored);
    assert forall|i: int, j: int| 0 <= i < all.len() && 0 <= j < all.len() && i != j implies all[i].email
        != all[j].email && all[i].phone != all[j].phone by {
        if i == users.len() {
            assert(users[j].email == all[j].email);
            assert(users[j].phone == all[j].phone);
        } else if j == users.len() {
            assert(users[i].email == all[i].email);
            assert(users[i].phone == all[i].phone);
        } else {
            assert(all[i] == users[i] && all[j] == users[j]);
        }
    }
}

/// The aggregation that lists a user's wishlist: the products whose id is on the wishlist,
/// newest first.
pub fn wishlist_products_pipeline(user: &SUser) -> (r: Vec<Stage>)
    ensures
        r@.len() == 2,
        r@[0] matches Stage::MatchIdIn(ids) && (ids is Some <==> user.wishlist is Some) && (
        ids matches Some(v) ==> v@ == user.wishlist->0@),
        r@[1] is SortNewestFirst,
{
    let ids = match &user.wishlist {
        Some(w) => Some(copy_ids(w)),
        None => None,
    };
    let mut r: Vec<Stage> = Vec::new();
    r.push(Stage::MatchIdIn(ids));
    r.push(Stage::SortNewestFirst);
    r
}

} // verus!
