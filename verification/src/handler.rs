use vstd::prelude::*;
use vstd::string::StringExecFns;

use crate::json::{json_accepts, parse_body, render_json, BadJson};
use crate::route::{route_of, dispatch, Method, Route};

verus! {

/// A response about to be written back: a status code and a text body.
pub struct Response {
    pub status: u16,
    pub body: String,
}

/// A structured log record: the path of the request it speaks of and
/// the rendered payload. The record is handed to whoever owns the
/// sinks; the library itself persists nothing.
pub struct LogRecord {
    pub path: Vec<u8>,
    pub payload: String,
}

/// What a handler produced: the response, and at most one log record.
pub struct Reply {
    pub response: Response,
    pub log: Option<LogRecord>,
}

/// The outcome of dispatching one request through the route table.
pub enum Handled {
    /// A handler ran and produced a reply.
    Replied(Reply),
    /// No route matched: the default not-found reply is owed.
    NotRouted,
    /// The JSON-ingest handler refused the body; that one request
    /// aborts, the serve loop goes on.
    Aborted(BadJson),
}

/// The fixed body of the health check.
pub open spec fn hello_body() -> Seq<char> {
    "Hello World"@
}

/// The status code of every successful reply here.
pub const STATUS_OK: u16 = 200;

/// The health-check handler: no input, no side effect, always the same
/// reply.
pub fn ping_reply() -> (r: Reply)
    ensures
        r.response.status == STATUS_OK,
        r.response.body@ == hello_body(),
        r.log is None,
{
    Reply {
        response: Response { status: STATUS_OK, body: String::from_str("Hello World") },
        log: None,
    }
}

/// The JSON-ingest handler: parses the body as an untyped JSON value;
/// on success it owes an empty reply and one log record naming the
/// request path, on any other body it refuses.
pub fn json_reply(path: &Vec<u8>, body: &Vec<u8>) -> (r: Result<Reply, BadJson>)
    ensures
        r is Ok <==> json_accepts(body@),
        r matches Ok(reply) ==> {
            &&& reply.response.status == STATUS_OK
            &&& reply.response.body@ == Seq::<char>::empty()
            &&& reply.log matches Some(rec) && rec.path@ == path@
        },
{
    match parse_body(body) {
        Ok(value) => {
            let payload = render_json(&value);
            Ok(
                Reply {
                    response: Response { status: STATUS_OK, body: String::new() },
                    log: Some(LogRecord { path: copy_bytes(path), payload }),
                },
            )
        },
        Err(e) => Err(e),
    }
}

/// Dispatches one request: the route table decides, the matched handler
/// answers, and an unmatched request is left to the default reply.
///
/// The path is the URI path alone — the query string and the headers
/// play no part — and the health check's reply is the same whatever
/// the body holds.
pub fn handle_request(method: Method, path: &Vec<u8>, body: &Vec<u8>) -> (r: Handled)
    ensures
        route_of(method, path@) is Ping ==> (r matches Handled::Replied(reply) && {
            &&& reply.response.status == STATUS_OK
            &&& reply.response.body@ == hello_body()
            &&& reply.log is None
        }),
        route_of(method, path@) is JsonIngest && json_accepts(body@) ==> (r matches Handled::Replied(
            reply,
        ) && {
            &&& reply.response.status == STATUS_OK
            &&& reply.response.body@ == Seq::<char>::empty()
            &&& reply.log matches Some(rec) && rec.path@ == path@
        }),
        route_of(method, path@) is JsonIngest && !json_accepts(body@) ==> r is Aborted,
        route_of(method, path@) is NoMatch ==> r is NotRouted,
{
    match dispatch(method, path) {
        Route::Ping => Handled::Replied(ping_reply()),
        Route::JsonIngest => match json_reply(path, body) {
            Ok(reply) => Handled::Replied(reply),
            Err(e) => Handled::Aborted(e),
        },
        Route::NoMatch => Handled::NotRouted,
    }
}

/// An element-for-element copy of the bytes.
fn copy_bytes(v: &Vec<u8>) -> (r: Vec<u8>)
    ensures
        r@ == v@,
{
    let mut r: Vec<u8> = Vec::new();
    let mut i: usize = 0;
    while i < v.len()
        invariant
            i <= v.len(),
            r@ =~= v@.subrange(0, i as int),
        decreases v.len() - i,
    {
        r.push(v[i]);
        i = i + 1;
    }
    proof {
        assert(r@ =~= v@);
    }
    r
}

} // verus!
