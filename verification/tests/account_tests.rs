use ecom_api::controller::user::{
    creation_time, issue_session, login_on_lookup, login_start, new_account,
    signup_on_email_lookup, signup_on_insert, signup_on_phone_lookup, signup_start,
    wishlist_products_pipeline, AccountAction, Lookup,
};
use ecom_api::password::{bcrypt_verify_would_panic, check_password, hash_password};
use ecom_api::object_id::Oid;
use ecom_api::pagination::Stage;
use ecom_api::response::{Body, Response, Status};
use ecom_api::serializers::{LoginRes, SLogin, SUser};
use ecom_api::utilities::verify_jwt;

fn body(name: &str, email: &str, phone: &str, password: &str) -> SUser {
    SUser {
        id: None,
        name: name.to_string(),
        email: email.to_string(),
        phone: phone.to_string(),
        profile_pic: "pic.png".to_string(),
        password: password.to_string(),
        active: None,
        wishlist: None,
        create_at: None,
    }
}

fn text_of(r: &Response<LoginRes>) -> &str {
    match &r.body {
        Body::Text(t) => t.as_str(),
        Body::Json(_) => panic!("expected text"),
    }
}

fn expect_reply(a: AccountAction, status: Status, msg: &str) {
    match a {
        AccountAction::Reply(r) => {
            assert!(r.status == status);
            assert_eq!(text_of(&r), msg);
        },
        _ => panic!("expected a reply"),
    }
}

#[test]
fn signup_refuses_empty_fields() {
    expect_reply(signup_start(&body("", "a@b", "1", "pw")), Status::BadRequest, "Invalid fields");
    expect_reply(signup_start(&body("A", "", "1", "pw")), Status::BadRequest, "Invalid fields");
    expect_reply(signup_start(&body("A", "a@b", "", "pw")), Status::BadRequest, "Invalid fields");
    expect_reply(signup_start(&body("A", "a@b", "1", "")), Status::BadRequest, "Invalid fields");
}

#[test]
fn signup_looks_up_email_first() {
    match signup_start(&body("A", "a@b", "1", "pw")) {
        AccountAction::FindByEmail(e) => assert_eq!(e, "a@b"),
        _ => panic!("expected an email lookup"),
    }
}

#[test]
fn signup_refuses_taken_email() {
    let b = body("A", "a@b", "1", "pw");
    expect_reply(signup_on_email_lookup(&b, Lookup::Found), Status::BadRequest, "Email already exists");
    assert!(matches!(signup_on_email_lookup(&b, Lookup::Missing), AccountAction::FindByPhone(ref p) if p == "1"));
    assert!(matches!(signup_on_email_lookup(&b, Lookup::Failed), AccountAction::FindByPhone(_)));
}

#[test]
fn signup_refuses_taken_phone() {
    let b = body("A", "a@b", "1", "pw");
    expect_reply(
        signup_on_phone_lookup(&b, Lookup::Found),
        Status::BadRequest,
        "Phone number already exists",
    );
}

fn create(b: &SUser) -> SUser {
    new_account(b, Oid::generate(), hash_password(&b.password), creation_time())
}

#[test]
fn signup_goes_on_to_create_account() {
    let b = body("A", "a@b", "1", "secret-pw");
    assert!(matches!(signup_on_phone_lookup(&b, Lookup::Failed), AccountAction::CreateAccount));
    assert!(matches!(signup_on_phone_lookup(&b, Lookup::Missing), AccountAction::CreateAccount));
}

#[test]
fn signup_builds_new_account() {
    let b = body("A", "a@b", "1", "secret-pw");
    let u = create(&b);
    assert!(u.id.is_some());
    assert_eq!((u.name.as_str(), u.email.as_str(), u.phone.as_str()), ("A", "a@b", "1"));
    assert_eq!(u.profile_pic, "pic.png");
    assert_ne!(u.password, "secret-pw");
    assert!(u.password.starts_with("$2b$10$"));
    assert_eq!(u.password.len(), 60);
    assert!(pwhash::bcrypt::verify("secret-pw", &u.password));
    assert_eq!(u.active, Some(true));
    assert_eq!(u.wishlist.map(|w| w.len()), Some(0));
    assert!(u.create_at.is_some());
}

#[test]
fn new_account_ignores_body_id_and_time() {
    let mut b = body("A", "a@b", "1", "pw");
    b.id = Some(Oid { bytes: [7; 12] });
    b.create_at = Some("yesterday".to_string());
    b.active = Some(false);
    b.wishlist = Some(vec![Oid { bytes: [3; 12] }]);
    let u = new_account(&b, Oid { bytes: [1; 12] }, "HASH".to_string(), "now".to_string());
    assert_eq!(u.id.unwrap().bytes, [1; 12]);
    assert_eq!(u.password, "HASH");
    assert_eq!(u.create_at.as_deref(), Some("now"));
    assert_eq!(u.active, Some(true));
    assert_eq!(u.wishlist.map(|w| w.len()), Some(0));
}

#[test]
fn hash_shape_and_check() {
    let h = hash_password("pw");
    assert!(h.starts_with("$2b$10$"));
    assert_eq!(h.len(), 60);
    assert!(!bcrypt_verify_would_panic(&h));
    assert!(check_password("pw", &h));
    assert!(!check_password("other", &h));
}

#[test]
fn hashes_whose_check_would_panic() {
    let salt_tail = "a".repeat(21);
    assert!(bcrypt_verify_would_panic(&format!("$2b$10$\u{80}{}", salt_tail)));
    assert!(bcrypt_verify_would_panic(&format!("$2b$10$\u{1}{}", salt_tail)));
    assert!(bcrypt_verify_would_panic(&format!("$2y$04$abc\u{1f}{}", "a".repeat(18))));
    // A character the alphabet lacks stops the decoding before the bad one.
    assert!(!bcrypt_verify_would_panic(&format!("$2b$10$!\u{1}{}", "a".repeat(20))));
    // A cost outside 4..=31 is refused before the salt is read.
    assert!(!bcrypt_verify_would_panic(&format!("$2b$03$\u{1}{}", salt_tail)));
    assert!(!bcrypt_verify_would_panic(&format!("$2b$32$\u{1}{}", salt_tail)));
    // Too short to hold a salt.
    assert!(!bcrypt_verify_would_panic("$2b$10$\u{1}"));
    // Not a bcrypt hash at all.
    assert!(!bcrypt_verify_would_panic("plain"));
    // The 22 salt bytes end inside a character.
    assert!(!bcrypt_verify_would_panic(&format!("$2b$10${}\u{80}x", "a".repeat(21))));
    // Beyond the salt a bad character is only compared.
    assert!(!bcrypt_verify_would_panic(&format!("$2b$10${}\u{1}", "a".repeat(22))));
}

#[test]
fn check_refuses_bad_hash_beyond_salt() {
    let h = format!("$2b$10${}\u{1}", "a".repeat(22));
    assert!(!check_password("pw", &h));
}

#[test]
fn signup_reads_back_inserted_user() {
    let id = Oid { bytes: [1; 12] };
    assert!(matches!(signup_on_insert(Some(id)), AccountAction::FindById(i) if i.bytes == [1; 12]));
    expect_reply(signup_on_insert(None), Status::InternalServerError, "Internal server error");
}

#[test]
fn session_answer_carries_token_and_user() {
    let mut u = body("A", "a@b", "1", "hash");
    u.id = Some(Oid { bytes: [0xab; 12] });
    let r = issue_session(u);
    assert!(r.status == Status::Success);
    match r.body {
        Body::Json(res) => {
            assert_eq!(res.user.email, "a@b");
            assert_eq!(verify_jwt(res.token), "abababababababababababab");
        },
        Body::Text(_) => panic!("expected json"),
    }
}

fn login(email: &str, password: &str) -> SLogin {
    SLogin { email: email.to_string(), password: password.to_string() }
}

#[test]
fn login_refuses_empty_fields() {
    expect_reply(login_start(&login("", "pw")), Status::BadRequest, "Invalid Request");
    expect_reply(login_start(&login("a@b", "")), Status::BadRequest, "Invalid Request");
    assert!(matches!(login_start(&login("a@b", "pw")), AccountAction::FindByEmail(ref e) if e == "a@b"));
}

#[test]
fn login_outcomes() {
    let l = login("a@b", "pw");
    expect_reply(login_on_lookup(&l, Err(())), Status::InternalServerError, "Internal server error");
    expect_reply(login_on_lookup(&l, Ok(None)), Status::BadRequest, "Invalid credentials");
    let mut stored = body("A", "a@b", "1", "");
    stored.password = pwhash::bcrypt::hash("other").unwrap();
    expect_reply(login_on_lookup(&l, Ok(Some(stored))), Status::BadRequest, "Invalid credentials");
}

#[test]
fn signed_up_account_can_log_in() {
    let b = body("A", "a@b", "1", "pw");
    let stored = create(&b);
    match login_on_lookup(&login("a@b", "pw"), Ok(Some(stored))) {
        AccountAction::IssueSession(u) => assert_eq!(u.email, "a@b"),
        _ => panic!("expected a session"),
    }
}

#[test]
fn wishlist_listing_pipeline() {
    let mut u = body("A", "a@b", "1", "pw");
    u.wishlist = Some(vec![Oid { bytes: [2; 12] }]);
    let stages = wishlist_products_pipeline(&u);
    assert_eq!(stages.len(), 2);
    match &stages[0] {
        Stage::MatchIdIn(Some(ids)) => assert_eq!(ids[0].bytes, [2; 12]),
        _ => panic!("expected a match on ids"),
    }
    assert!(matches!(stages[1], Stage::SortNewestFirst));
}

#[test]
fn creation_time_is_utc_text() {
    let t = creation_time();
    assert!(t.ends_with(" UTC"));
    assert!(t.len() > 4);
}
