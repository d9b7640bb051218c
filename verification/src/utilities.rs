use vstd::prelude::*;
use jsonwebtoken::{Algorithm, DecodingKey, EncodingKey, Header, Validation};
use serde_json::Value;
use crate::object_id::{lower_hex, Oid};
use crate::serializers::SUser;

verus! {

/// The claims that a session token carries.
pub struct Claims {
    pub sub: String,
    pub role: String,
    pub exp: usize,
}

/// A claim of a decoded token, by its JSON type.
pub enum ClaimValue {
    /// A JSON string.
    Text(String),
    /// A JSON number that is a non-negative integer.
    Unsigned(u64),
    /// Any other JSON value.
    Other,
}

/// The mathematical model of a claim: its text as a character sequence.
pub enum ClaimView {
    Text(Seq<char>),
    Unsigned(u64),
    Other,
}

impl View for ClaimValue {
    type V = ClaimView;

    open spec fn view(&self) -> ClaimView {
        match self {
            ClaimValue::Text(s) => ClaimView::Text(s@),
            ClaimValue::Unsigned(u) => ClaimView::Unsigned(*u),
            ClaimValue::Other => ClaimView::Other,
        }
    }
}

/// The claims of a decoded token, each name and value by its view.
pub open spec fn claims_view(fields: Seq<(String, ClaimValue)>) -> Seq<(Seq<char>, ClaimView)> {
    Seq::new(fields.len(), |i: int| (fields[i].0@, fields[i].1@))
}

/// The claims that a token carries, where its header names HS256 and its signature checks
/// under `secret` and its payload is a JSON object: the object's entries in order (a repeated
/// key keeps its first place and its last value), each value by its JSON type. `None` for any
/// other token. This does not depend on the clock.
pub uninterp spec fn hs256_verified_claims(token: Seq<char>, secret: Seq<char>) -> Option<Seq<(Seq<char>, ClaimView)>>;

/// The secret that signs and checks session tokens.
pub fn jwt_secret() -> (s: &'static str)
    ensures
        s@ == "secret"@,
{
    "secret"
}

/// The role written into every session token.
pub fn user_role() -> (s: &'static str)
    ensures
        s@ == "user"@,
{
    "user"
}

/// The token that `jsonwebtoken::encode` makes of the claims `{"sub", "role", "exp"}`, in that
/// order, under an HS256 header, signed with `secret`.
pub uninterp spec fn hs256_token(sub: Seq<char>, role: Seq<char>, exp: usize, secret: Seq<char>) -> Seq<char>;

/// Text in which '.' occurs at most once: too few separators for the three parts of a token.
pub open spec fn at_most_one_dot(s: Seq<char>) -> bool {
    forall|i: int, j: int|
        0 <= i < s.len() && 0 <= j < s.len() && #[trigger] s[i] == '.' && #[trigger] s[j] == '.'
            ==> i == j
}

/// The claims `{"sub": sub, "role": role, "exp": exp}`, in that order, each by its JSON type.
pub open spec fn claims_entries(sub: Seq<char>, role: Seq<char>, exp: usize) -> Seq<(Seq<char>, ClaimView)> {
    seq![
        ("sub"@, ClaimView::Text(sub)),
        ("role"@, ClaimView::Text(role)),
        ("exp"@, ClaimView::Unsigned(exp as u64)),
    ]
}

/// `jsonwebtoken::encode` with `Header::new(Algorithm::HS256)` and
/// `EncodingKey::from_secret`. The claims go in as a JSON object with the fields `sub`, `role`
/// and `exp` in that order, the same JSON that a struct with those fields serialises to. The
/// result is named by `hs256_token`. The call cannot fail here: the key and the header are of
/// the HMAC family, the JSON object always serialises, and HMAC signing returns no error.
#[verifier::external_body]
fn encode_hs256(claims: &Claims, secret: &str) -> (token: String)
    ensures
        token@ == hs256_token(claims.sub@, claims.role@, claims.exp, secret@),
        hs256_verified_claims(token@, secret@) == Some(
            claims_entries(claims.sub@, claims.role@, claims.exp),
        ),
{
    let mut map = serde_json::Map::new();
    map.insert("sub".to_string(), Value::from(claims.sub.as_str()));
    map.insert("role".to_string(), Value::from(claims.role.as_str()));
    map.insert("exp".to_string(), Value::from(claims.exp));
    let key = EncodingKey::from_secret(secret.as_bytes());
    jsonwebtoken::encode(&Header::new(Algorithm::HS256), &map, &key).unwrap()
}

/// `jsonwebtoken::decode` with `DecodingKey::from_secret` and
/// `Validation::new(Algorithm::HS256)`: checks the signature and the `exp` claim against the
/// clock, and hands back the token's claims, each JSON value by its type (a key that occurs
/// twice in the claims keeps its last value). `None` where the token is refused. Whether it
/// is refused depends on the time of the call, so that is left unstated; what is stated is
/// that claims come back only from a token whose signature checks, and are the claims that
/// the token carries, as `hs256_verified_claims` names them; and that a token with fewer than
/// two '.' separators is refused, since the signature check splits the token into its three
/// parts before anything else.
#[verifier::external_body]
fn decode_hs256(token: &str, secret: &str) -> (r: Option<Vec<(String, ClaimValue)>>)
    ensures
        at_most_one_dot(token@) ==> r is None,
        r matches Some(fields) ==> hs256_verified_claims(token@, secret@) == Some(
            claims_view(fields@),
        ),
{
    let key = DecodingKey::from_secret(secret.as_bytes());
    let validation = Validation::new(Algorithm::HS256);
    match jsonwebtoken::decode::<serde_json::Map<String, Value>>(token, &key, &validation) {
        Ok(data) => Some(data.claims.into_iter().map(|(k, v)| (k, match v {
            Value::String(s) => ClaimValue::Text(s),
            Value::Number(n) => match n.as_u64() {
                Some(u) => ClaimValue::Unsigned(u),
                None => ClaimValue::Other,
            },
            _ => ClaimValue::Other,
        })).collect()),
        Err(_) => None,
    }
}

/// `chrono::Utc::now().timestamp()`: the Unix time now, in whole seconds. Which second it is
/// depends on the clock; it is stated only that it lies within the range of chrono's
/// `DateTime` (years up to 262142, below 2^43 seconds) and not before 1970, since `now`
/// panics on a clock set before the Unix epoch.
#[verifier::external_body]
fn unix_now() -> (t: i64)
    ensures
        0 <= t < 8_796_093_022_208,
{
    chrono::Utc::now().timestamp()
}

/// An hour after Unix time `now`, as a `usize`.
pub open spec fn hour_later(now: i64) -> usize {
    (now + 3600) as usize
}

/// The expiry of a session opened at Unix time `now`: an hour later, as a `usize`.
pub fn session_expiry(now: i64) -> (exp: usize)
    requires
        now <= i64::MAX - 3600,
    ensures
        exp == hour_later(now),
{
    (now + 3600) as usize
}

/// The value of the first claim named `key`.
pub open spec fn claim_of(fields: Seq<(Seq<char>, ClaimView)>, key: Seq<char>) -> Option<ClaimView>
    decreases fields.len(),
{
    if fields.len() == 0 {
        None
    } else if fields[0].0 == key {
        Some(fields[0].1)
    } else {
        claim_of(fields.drop_first(), key)
    }
}

/// The subject of a token's claims, where they hold a textual `sub`, a textual `role` and an
/// `exp` that is an unsigned integer within `usize`; `None` otherwise.
pub open spec fn claims_subject(fields: Seq<(Seq<char>, ClaimView)>) -> Option<Seq<char>> {
    match (claim_of(fields, "sub"@), claim_of(fields, "role"@), claim_of(fields, "exp"@)) {
        (Some(ClaimView::Text(sub)), Some(ClaimView::Text(_)), Some(ClaimView::Unsigned(exp))) => {
            if exp <= usize::MAX {
                Some(sub)
            } else {
                None
            }
        },
        _ => None,
    }
}

/// What a decoded token yields: its subject, or the text "Invalid token".
pub open spec fn subject_or_invalid_spec(decoded: Option<Seq<(Seq<char>, ClaimView)>>) -> Seq<char> {
    match decoded {
        Some(fields) => match claims_subject(fields) {
            Some(sub) => sub,
            None => "Invalid token"@,
        },
        None => "Invalid token"@,
    }
}

/// The first claim named `key`.
fn find_claim<'a>(fields: &'a Vec<(String, ClaimValue)>, key: &str) -> (r: Option<&'a ClaimValue>)
    ensures
        match claim_of(claims_view(fields@), key@) {
            Some(v) => r matches Some(c) && c@ == v,
            None => r is None,
        },
{
    let key_string = String::from_str(key);
    let mut i: usize = 0;
    assert(claims_view(fields@.skip(0)) =~= claims_view(fields@));
    while i < fields.len()
        invariant
            i <= fields.len(),
            key_string@ == key@,
            claim_of(claims_view(fields@), key@) == claim_of(claims_view(fields@.skip(i as int)), key@),
        decreases fields.len() - i,
    {
        assert(claims_view(fields@.skip(i as int)).drop_first() =~= claims_view(fields@.skip(i + 1)));
        assert(claims_view(fields@.skip(i as int))[0] == (fields@[i as int].0@, fields@[i as int].1@));
        if fields[i].0 == key_string {
            return Some(&fields[i].1);
        }
        i = i + 1;
    }
    None
}

/// The subject of decoded claims, or "Invalid token" where there are none or they do not have
/// the shape of a session token's claims.
pub fn subject_or_invalid(decoded: Option<Vec<(String, ClaimValue)>>) -> (r: String)
    ensures
        r@ == subject_or_invalid_spec(
            match decoded {
                Some(f) => Some(claims_view(f@)),
                None => None,
            },
        ),
{
    match decoded {
        Some(fields) => {
            let sub = find_claim(&fields, "sub");
            let role = find_claim(&fields, "role");
            let exp = find_claim(&fields, "exp");
            match (sub, role, exp) {
                (Some(ClaimValue::Text(s)), Some(ClaimValue::Text(_)), Some(ClaimValue::Unsigned(e))) => {
                    if *e <= usize::MAX as u64 {
                        s.clone()
                    } else {
                        "Invalid token".to_string()
                    }
                },
                _ => "Invalid token".to_string(),
            }
        },
        None => "Invalid token".to_string(),
    }
}

/// Whether the check of `token` may answer `r`: "Invalid token", or the subject of the claims
/// that the token carries, where its signature checks under the secret.
pub open spec fn token_check_allows(token: Seq<char>, r: Seq<char>) -> bool {
    ||| r == "Invalid token"@
    ||| hs256_verified_claims(token, "secret"@) matches Some(claims) && claims_subject(claims)
        == Some(r)
}

/// Checks a session token: its subject (the user's id) where the token is signed with the
/// secret, unexpired, and carries the claims of a session token; "Invalid token" otherwise.
/// Whether an expired token is refused depends on the clock; a token whose signature does not
/// check, whose claims have not the shape of a session's, or that has fewer than two '.'
/// separators, always gives "Invalid token".
pub fn verify_jwt(token: String) -> (r: String)
    ensures
        token_check_allows(token@, r@),
        (hs256_verified_claims(token@, "secret"@) matches Some(claims) ==> claims_subject(claims)
            is None) ==> r@ == "Invalid token"@,
        at_most_one_dot(token@) ==> r@ == "Invalid token"@,
        exists|decoded: Option<Seq<(Seq<char>, ClaimView)>>|
            (decoded matches Some(c) ==> hs256_verified_claims(token@, "secret"@) == Some(c)) && (
            at_most_one_dot(token@) ==> decoded is None) && r@ == #[trigger] subject_or_invalid_spec(
                decoded,
            ),
{
    let decoded = decode_hs256(token.as_str(), jwt_secret());
    let ghost seen = match &decoded {
        Some(f) => Some(claims_view(f@)),
        None => None,
    };
    let r = subject_or_invalid(decoded);
    assert(r@ == subject_or_invalid_spec(seen));
    r
}

/// The claims of a session for the user with id `id`, expiring at `exp`.
pub fn session_claims(id_hex: String, exp: usize) -> (c: Claims)
    ensures
        c.sub@ == id_hex@,
        c.role@ == "user"@,
        c.exp == exp,
{
    Claims { sub: id_hex, role: user_role().to_string(), exp }
}

/// The session token of the user with id `id`, expiring at `exp`: it depends on nothing else.
/// Its subject is the id in hexadecimal and its role "user"; it is signed with HS256 and the
/// secret, and checking its signature gives back these claims.
pub fn session_token(id: Oid, exp: usize) -> (token: String)
    ensures
        token@ == hs256_token(lower_hex(id.bytes@), "user"@, exp, "secret"@),
        hs256_verified_claims(token@, "secret"@) == Some(
            claims_entries(lower_hex(id.bytes@), "user"@, exp),
        ),
{
    let claims = session_claims(id.to_hex(), exp);
    encode_hs256(&claims, jwt_secret())
}

/// A session token for the user: subject the user's id in hexadecimal, role "user", expiring
/// an hour after the current second of the clock, signed with HS256 and the secret.
pub fn generate_jwt(user: SUser) -> (token: String)
    requires
        user.id is Some,
    ensures
        exists|now: i64|
            0 <= now && token@ == hs256_token(
                lower_hex(user.id->0.bytes@),
                "user"@,
                #[trigger] hour_later(now),
                "secret"@,
            ) && hs256_verified_claims(token@, "secret"@) == Some(
                claims_entries(lower_hex(user.id->0.bytes@), "user"@, hour_later(now)),
            ),
{
    let id = user.id.unwrap();
    let now = unix_now();
    let exp = session_expiry(now);
    let token = session_token(id, exp);
    assert(token@ == hs256_token(lower_hex(user.id->0.bytes@), "user"@, hour_later(now), "secret"@));
    token
}

/// The claims of a session token give back its subject: for every subject, role and expiry
/// within `usize`, the claims `{"sub", "role", "exp"}` have the session's shape and read as
/// that subject, not as "Invalid token".
pub proof fn lemma_session_claims_subject(sub: Seq<char>, role: Seq<char>, exp: usize)
    ensures
        claims_subject(claims_entries(sub, role, exp)) == Some(sub),
        subject_or_invalid_spec(Some(claims_entries(sub, role, exp))) == sub,
{
    let c = claims_entries(sub, role, exp);
    reveal_strlit("sub");
    reveal_strlit("role");
    reveal_strlit("exp");
    assert("sub"@ != "role"@) by {
        assert("sub"@[0] != "role"@[0]);
    }
    assert("sub"@ != "exp"@) by {
        assert("sub"@[0] != "exp"@[0]);
    }
    assert("role"@ != "exp"@) by {
        assert("role"@[0] != "exp"@[0]);
    }
    reveal_with_fuel(claim_of, 3);
    assert(c.drop_first()[0] == c[1]);
    assert(c.drop_first().drop_first()[0] == c[2]);
    assert(claim_of(c, "sub"@) == Some(ClaimView::Text(sub)));
    assert(claim_of(c, "role"@) == Some(ClaimView::Text(role)));
    assert(claim_of(c, "exp"@) == Some(ClaimView::Unsigned(exp as u64)));
}

/// A session token checks to its own subject: the check of a token that `session_token` made
/// for an id gives back that id in hexadecimal, or "Invalid token" (once it has expired).
pub proof fn lemma_session_token_round_trip(token: Seq<char>, id_hex: Seq<char>, exp: usize, r: Seq<char>)
    requires
        hs256_verified_claims(token, "secret"@) == Some(claims_entries(id_hex, "user"@, exp)),
        token_check_allows(token, r),
    ensures
        r == "Invalid token"@ || r == id_hex,
{
    lemma_session_claims_subject(id_hex, "user"@, exp);
}

/// Where the check of a session token's claims goes through (the signature checks and the
/// token has not expired), its answer is the user id the token was made for, whatever that id
/// is: the answer depends on the decoded claims alone.
pub proof fn lemma_decoded_session_gives_id(id: Oid, exp: usize)
    ensures
        subject_or_invalid_spec(Some(claims_entries(lower_hex(id.bytes@), "user"@, exp)))
            == lower_hex(id.bytes@),
{
    lemma_session_claims_subject(lower_hex(id.bytes@), "user"@, exp);
}

} // verus!
