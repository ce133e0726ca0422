use vstd::prelude::*;

verus! {

/// The request methods the route table distinguishes. Anything beyond
/// GET and POST matches no route, so a single tag stands for the rest.
#[derive(Clone, Copy, Debug, PartialEq, Eq, Structural)]
pub enum Method {
    Get,
    Post,
    Other,
}

/// The closed set of routes: the health check, the JSON-ingesting
/// catch-all, or no match (left to the default not-found reply).
#[derive(Clone, Copy, Debug, PartialEq, Eq, Structural)]
pub enum Route {
    Ping,
    JsonIngest,
    NoMatch,
}

/// The bytes of the health-check path, "/ping".
pub open spec fn ping_path() -> Seq<u8> {
    seq![47u8, 112u8, 105u8, 110u8, 103u8]
}

/// The bytes of the prefix under which JSON is ingested, "/json/".
pub open spec fn json_prefix() -> Seq<u8> {
    seq![47u8, 106u8, 115u8, 111u8, 110u8, 47u8]
}

/// A path reaches the JSON-ingest handler when it lies under "/json/"
/// with at least one further character: the wildcard suffix must be
/// non-empty, though it may span several segments.
pub open spec fn is_json_path(path: Seq<u8>) -> bool {
    path.len() > json_prefix().len() && path.subrange(0, json_prefix().len() as int)
        == json_prefix()
}

/// The route table: exact match on "/ping" for GET, prefix match under
/// "/json/" for POST, and no match otherwise.
pub open spec fn route_of(method: Method, path: Seq<u8>) -> Route {
    if method is Get && path == ping_path() {
        Route::Ping
    } else if method is Post && is_json_path(path) {
        Route::JsonIngest
    } else {
        Route::NoMatch
    }
}

/// Dispatches a request line to its route, as `route_of` says.
pub fn dispatch(method: Method, path: &Vec<u8>) -> (r: Route)
    ensures
        r == route_of(method, path@),
{
    match method {
        Method::Get => {
            if is_ping(path) {
                Route::Ping
            } else {
                Route::NoMatch
            }
        },
        Method::Post => {
            if has_json_prefix(path) {
                Route::JsonIngest
            } else {
                Route::NoMatch
            }
        },
        Method::Other => Route::NoMatch,
    }
}

/// The wildcard suffix spans segments: a POST whose path extends
/// "/json/" by any non-empty remainder reaches the JSON-ingest route,
/// slashes inside the remainder included.
pub proof fn lemma_wildcard_spans_segments(rest: Seq<u8>)
    requires
        rest.len() > 0,
    ensures
        route_of(Method::Post, json_prefix() + rest) is JsonIngest,
{
    assert((json_prefix() + rest).subrange(0, json_prefix().len() as int) =~= json_prefix());
}

/// Whether the path is exactly "/ping".
pub fn is_ping(path: &Vec<u8>) -> (r: bool)
    ensures
        r == (path@ == ping_path()),
{
    let r = path.len() == 5 && path[0] == 47 && path[1] == 112 && path[2] == 105 && path[3]
        == 110 && path[4] == 103;
    proof {
        if r {
            assert(path@ =~= ping_path());
        }
        if path@ == ping_path() {
            assert(path@.len() == 5);
            assert(path@[0] == 47 && path@[1] == 112 && path@[2] == 105 && path@[3] == 110
                && path@[4] == 103);
        }
    }
    r
}

/// Whether the path lies strictly under "/json/".
pub fn has_json_prefix(path: &Vec<u8>) -> (r: bool)
    ensures
        r == is_json_path(path@),
{
    let r = path.len() > 6 && path[0] == 47 && path[1] == 106 && path[2] == 115 && path[3]
        == 111 && path[4] == 110 && path[5] == 47;
    proof {
        if r {
            assert(path@.subrange(0, 6) =~= json_prefix());
        }
        if is_json_path(path@) {
            assert(path@.subrange(0, 6) == json_prefix());
            assert(path@[0] == json_prefix()[0] && path@[1] == json_prefix()[1] && path@[2]
                == json_prefix()[2] && path@[3] == json_prefix()[3] && path@[4]
                == json_prefix()[4] && path@[5] == json_prefix()[5]) by {
                assert(forall|i: int| 0 <= i < 6 ==> path@.subrange(0, 6)[i] == path@[i]);
            }
        }
    }
    r
}

} // verus!
