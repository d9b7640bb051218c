use vstd::prelude::*;
use crate::text::{is_ascii_text, lowercase, remove_all, remove_occurrences, unicode_lowercase};
use crate::utilities::{at_most_one_dot, claims_subject, hs256_verified_claims, verify_jwt};

verus! {

/// The guard put in front of the routes that need a logged-in user.
pub struct PermissionCheck;

/// The guard wrapped around a service: it admits a request only with a valid session token.
pub struct AuthMiddleware<S> {
    pub service: S,
}

/// What the guard decides about a request.
pub enum AuthOutcome {
    /// Refused with 401 "Unauthorized".
    Unauthorized,
    /// Passed on to the service, with this user id set in the `userid` header.
    Forward(String),
}

impl PermissionCheck {
    /// Wraps a service in the guard.
    pub fn new_transform<S>(&self, service: S) -> (r: AuthMiddleware<S>)
        ensures
            r.service == service,
    {
        AuthMiddleware { service }
    }
}

/// The token in an `authorization` header: the header with every "Bearer " taken out.
pub open spec fn bearer_token_of(header: Seq<char>) -> Seq<char> {
    remove_all(header, "Bearer "@)
}

/// The token carried by an `authorization` header.
pub fn bearer_token(header: &str) -> (r: String)
    ensures
        r@ == bearer_token_of(header@),
{
    remove_occurrences(header, "Bearer ")
}

/// The guard's decision once the token has been checked: a result that reads "invalid token"
/// in lower case is refused, any other is the user id to pass on.
pub fn admit_user(user_id: String) -> (r: AuthOutcome)
    ensures
        unicode_lowercase(user_id@) == "invalid token"@ ==> r is Unauthorized,
        user_id@ == "Invalid token"@ ==> r is Unauthorized,
        unicode_lowercase(user_id@) != "invalid token"@ ==> (r matches AuthOutcome::Forward(id)
            && id@ == user_id@),
{
    let lower = lowercase(user_id.as_str());
    let refused = "invalid token".to_string();
    proof {
        reveal_strlit("Invalid token");
        reveal_strlit("invalid token");
        if user_id@ == "Invalid token"@ {
            assert(is_ascii_text(user_id@));
            assert(lower@ =~= "invalid token"@);
        }
    }
    if lower == refused {
        AuthOutcome::Unauthorized
    } else {
        AuthOutcome::Forward(user_id)
    }
}

impl<S> AuthMiddleware<S> {
    /// Decides about a request from its `authorization` header: without one it is refused;
    /// with one, the bearer token is checked, and the request is refused or passed on as
    /// `admit_user` says of the check's result. A token that is not signed with the secret, or
    /// whose claims have not the shape of a session's, is always refused; a request passed on
    /// carries the subject of its token. Whether an expired token is refused depends on the
    /// clock, so no request is promised to pass.
    pub fn call(&self, authorization: Option<String>) -> (r: AuthOutcome)
        ensures
            authorization is None ==> r is Unauthorized,
            authorization matches Some(h) && (hs256_verified_claims(bearer_token_of(h@), "secret"@) matches Some(
                claims,
            ) ==> claims_subject(claims) is None) ==> r is Unauthorized,
            authorization matches Some(h) && at_most_one_dot(bearer_token_of(h@)) ==> r is Unauthorized,
            r matches AuthOutcome::Forward(id) ==> {
                &&& unicode_lowercase(id@) != "invalid token"@
                &&& authorization matches Some(h) && hs256_verified_claims(
                    bearer_token_of(h@),
                    "secret"@,
                ) matches Some(claims) && claims_subject(claims) == Some(id@)
            },
    {
        match authorization {
            None => AuthOutcome::Unauthorized,
            Some(header) => {
                let token = bearer_token(header.as_str());
                let user_id = verify_jwt(token);
                admit_user(user_id)
            },
        }
    }
}

} // verus!
