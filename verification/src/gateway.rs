//! The HTTP face of the gateway: routing a request path, deriving the
//! backend key from it, and rendering a lookup result as a plain
//! status-and-body reply.
//!
//! The root path is the health route and always answers `200 OK`,
//! whatever the backends' state.  Every other path names an object: its
//! leading separator is stripped to form the backend key, and the
//! resolution's answer is rendered as `200` with the object bytes or
//! `404` with a plain `Not Found` body.

use vstd::prelude::*;

use crate::lookup::LookupModel;
use crate::lookup::LookupResult;
use crate::lookup::OutcomeModel;
use crate::resolver::no_hit_in;
use crate::resolver::resolve_model;

verus! {

/// Where a request path leads: the fixed health answer, or a lookup of
/// the named object key.
#[derive(Debug)]
pub enum Route {
    /// The root path: answer with the fixed health reply.
    Health,
    /// Any other path: resolve this key across the backends.
    Object(String),
}

/// A rendered HTTP reply, as plain values: a status code and the body
/// bytes.
#[derive(Debug)]
pub struct HttpReply {
    pub status: u16,
    pub body: Vec<u8>,
}

/// Mathematical value of an [`HttpReply`].
pub struct ReplyModel {
    pub status: int,
    pub body: Seq<u8>,
}

impl View for HttpReply {
    type V = ReplyModel;

    open spec fn view(&self) -> ReplyModel {
        ReplyModel { status: self.status as int, body: self.body@ }
    }
}

/// The health body, the two bytes of `OK`.
pub open spec fn ok_body() -> Seq<u8> {
    seq![79u8, 75u8]
}

/// The miss body, the nine bytes of `Not Found`.
pub open spec fn not_found_body() -> Seq<u8> {
    seq![78u8, 111u8, 116u8, 32u8, 70u8, 111u8, 117u8, 110u8, 100u8]
}

/// How a lookup result is rendered: a hit becomes `200` with the object
/// bytes, a miss becomes `404` with the fixed `Not Found` body.
pub open spec fn reply_model(result: LookupModel) -> ReplyModel {
    match result {
        LookupModel::Found(bytes) => ReplyModel { status: 200, body: bytes },
        LookupModel::Miss => ReplyModel { status: 404, body: not_found_body() },
    }
}

/// The fixed health reply: `200 OK`, whatever the backends' state — it
/// consults none of them.
pub fn health_reply() -> (reply: HttpReply)
    ensures
        reply@.status == 200,
        reply@.body == ok_body(),
{
    HttpReply { status: 200, body: vec![79u8, 75u8] }
}

/// Render a lookup result as the client-visible reply.
pub fn reply_of_lookup(result: LookupResult) -> (reply: HttpReply)
    ensures
        reply@ == reply_model(result@),
{
    match result {
        LookupResult::Found(bytes) => HttpReply { status: 200, body: bytes },
        LookupResult::Miss => HttpReply {
            status: 404,
            body: vec![78u8, 111u8, 116u8, 32u8, 70u8, 111u8, 117u8, 110u8, 100u8],
        },
    }
}

/// Route a request path: the root path is the health route and never
/// reaches key derivation; any longer path has its single leading
/// separator stripped to form the backend key, used verbatim.
pub fn route_of_path(path: &str) -> (route: Route)
    requires
        path@.len() >= 1,
        path@[0] == '/',
    ensures
        path@.len() == 1 ==> route is Health,
        path@.len() > 1 ==> (route matches Route::Object(key) && key@ == path@.subrange(
            1,
            path@.len() as int,
        )),
{
    let length = path.unicode_len();
    if length == 1 {
        Route::Health
    } else {
        let key = path.substring_char(1, length);
        Route::Object(key.to_owned())
    }
}

/// Round trip: when the first backend to hold the object is backend `j`
/// with bytes `bytes`, the rendered reply to the request is `200` and
/// its body is byte-identical to the stored object, length included.
pub proof fn lemma_round_trip(avail: Seq<OutcomeModel>, j: int, bytes: Seq<u8>)
    requires
        0 <= j < avail.len(),
        avail[j] == OutcomeModel::Found(bytes),
        no_hit_in(avail, j),
    ensures
        reply_model(resolve_model(avail)).status == 200,
        reply_model(resolve_model(avail)).body == bytes,
        reply_model(resolve_model(avail)).body.len() == bytes.len(),
{
    crate::resolver::lemma_first_match(avail, j, bytes);
}

} // verus!
