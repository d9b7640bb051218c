use ecom_api::middleware::{admit_user, AuthOutcome, PermissionCheck};
use ecom_api::object_id::Oid;
use ecom_api::serializers::SUser;
use ecom_api::utilities::{
    generate_jwt, session_claims, session_expiry, session_token, subject_or_invalid, verify_jwt,
    ClaimValue,
};

fn user_with_id(bytes: [u8; 12]) -> SUser {
    SUser {
        id: Some(Oid { bytes }),
        name: "Ann".to_string(),
        email: "ann@example.com".to_string(),
        phone: "555".to_string(),
        profile_pic: String::new(),
        password: String::new(),
        active: Some(true),
        wishlist: Some(vec![]),
        create_at: None,
    }
}

const ID: [u8; 12] = [0x65, 0xf1, 0xa2, 0xb3, 0xc4, 0xd5, 0xe6, 0xf7, 0x08, 0x19, 0x2a, 0x3b];

#[test]
fn token_verifies_to_user_id() {
    let token = generate_jwt(user_with_id(ID));
    assert_eq!(token.split('.').count(), 3);
    assert_eq!(verify_jwt(token), "65f1a2b3c4d5e6f708192a3b");
}

#[test]
fn garbage_token_is_invalid() {
    assert_eq!(verify_jwt("not.a.token".to_string()), "Invalid token");
    assert_eq!(verify_jwt(String::new()), "Invalid token");
}

#[test]
fn tampered_token_is_invalid() {
    let mut token = generate_jwt(user_with_id(ID));
    token.push('x');
    assert_eq!(verify_jwt(token), "Invalid token");
}

#[test]
fn session_claims_fields() {
    let c = session_claims("abc".to_string(), 42);
    assert_eq!(c.sub, "abc");
    assert_eq!(c.role, "user");
    assert_eq!(c.exp, 42);
}

fn field(k: &str, v: ClaimValue) -> (String, ClaimValue) {
    (k.to_string(), v)
}

#[test]
fn subject_of_well_formed_claims() {
    let claims = vec![
        field("sub", ClaimValue::Text("u1".to_string())),
        field("role", ClaimValue::Text("user".to_string())),
        field("exp", ClaimValue::Unsigned(10)),
    ];
    assert_eq!(subject_or_invalid(Some(claims)), "u1");
}

#[test]
fn subject_needs_every_claim() {
    let missing_role = vec![
        field("sub", ClaimValue::Text("u1".to_string())),
        field("exp", ClaimValue::Unsigned(10)),
    ];
    assert_eq!(subject_or_invalid(Some(missing_role)), "Invalid token");
    let numeric_sub = vec![
        field("sub", ClaimValue::Unsigned(1)),
        field("role", ClaimValue::Text("user".to_string())),
        field("exp", ClaimValue::Unsigned(10)),
    ];
    assert_eq!(subject_or_invalid(Some(numeric_sub)), "Invalid token");
    let bad_exp = vec![
        field("sub", ClaimValue::Text("u1".to_string())),
        field("role", ClaimValue::Text("user".to_string())),
        field("exp", ClaimValue::Other),
    ];
    assert_eq!(subject_or_invalid(Some(bad_exp)), "Invalid token");
    assert_eq!(subject_or_invalid(None), "Invalid token");
}

#[test]
fn guard_refuses_missing_header() {
    let guard = PermissionCheck.new_transform(());
    assert!(matches!(guard.call(None), AuthOutcome::Unauthorized));
}

#[test]
fn guard_refuses_bad_token() {
    let guard = PermissionCheck.new_transform(());
    assert!(matches!(guard.call(Some("Bearer junk".to_string())), AuthOutcome::Unauthorized));
}

#[test]
fn guard_forwards_valid_token() {
    let guard = PermissionCheck.new_transform(());
    let token = generate_jwt(user_with_id(ID));
    match guard.call(Some(format!("Bearer {}", token))) {
        AuthOutcome::Forward(id) => assert_eq!(id, "65f1a2b3c4d5e6f708192a3b"),
        AuthOutcome::Unauthorized => panic!("expected the request to pass"),
    }
}

#[test]
fn admit_refuses_invalid_in_any_case() {
    assert!(matches!(admit_user("Invalid token".to_string()), AuthOutcome::Unauthorized));
    assert!(matches!(admit_user("INVALID TOKEN".to_string()), AuthOutcome::Unauthorized));
    assert!(matches!(admit_user("abc".to_string()), AuthOutcome::Forward(ref s) if s == "abc"));
}

#[test]
fn session_token_depends_on_id_and_expiry_only() {
    let exp = 4_000_000_000usize;
    let a = session_token(Oid { bytes: ID }, exp);
    let b = session_token(Oid { bytes: ID }, exp);
    assert_eq!(a, b);
    assert_ne!(a, session_token(Oid { bytes: ID }, exp + 1));
    assert_ne!(a, session_token(Oid { bytes: [0; 12] }, exp));
}

#[test]
fn session_token_round_trip() {
    let token = session_token(Oid { bytes: ID }, 4_000_000_000usize);
    assert_eq!(verify_jwt(token), "65f1a2b3c4d5e6f708192a3b");
    let expired = session_token(Oid { bytes: ID }, 1_000);
    assert_eq!(verify_jwt(expired), "Invalid token");
}

#[test]
fn token_without_separators_is_invalid() {
    assert_eq!(verify_jwt("abc".to_string()), "Invalid token");
    assert_eq!(verify_jwt("abc.def".to_string()), "Invalid token");
}

#[test]
fn session_lasts_an_hour() {
    assert_eq!(session_expiry(1_700_000_000), 1_700_003_600);
    assert_eq!(session_expiry(0), 3600);
}
