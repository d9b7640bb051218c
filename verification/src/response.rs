use vstd::prelude::*;

verus! {

/// The HTTP status of an answer.
#[derive(Clone, Copy, PartialEq, Eq, Structural)]
pub enum Status {
    Success,
    BadRequest,
    Unauthorized,
    Forbidden,
    InternalServerError,
}

/// The body of an answer: plain text, or a value sent as JSON.
pub enum Body<J> {
    Text(String),
    Json(J),
}

/// An answer to a request.
pub struct Response<J> {
    pub status: Status,
    pub body: Body<J>,
}

/// `r` has status `status` and the plain-text body `msg`.
pub open spec fn is_text_reply<J>(r: Response<J>, status: Status, msg: Seq<char>) -> bool {
    &&& r.status == status
    &&& r.body matches Body::Text(t) && t@ == msg
}

/// An answer with a plain-text body.
pub fn text_reply<J>(status: Status, msg: &str) -> (r: Response<J>)
    ensures
        is_text_reply(r, status, msg@),
{
    Response { status, body: Body::Text(msg.to_string()) }
}

/// An answer with a JSON body.
pub fn json_reply<J>(status: Status, value: J) -> (r: Response<J>)
    ensures
        r.status == status,
        r.body == Body::Json(value),
{
    Response { status, body: Body::Json(value) }
}

} // verus!
