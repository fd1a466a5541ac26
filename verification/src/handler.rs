//! The request handlers: a routed variant with a not-found fallback, and an
//! unconditional variant that returns the greeting for every request.

use vstd::prelude::*;
use crate::http::{Method, Request, RequestModel, Response, ResponseModel};

verus! {

/// The one matched route: method `GET` and path exactly `/`.
pub open spec fn is_hello_route(method: Method, path: Seq<char>) -> bool {
    method == Method::Get && path == "/"@
}

/// The response for the matched route: `200`, plain text, `Hello World!`.
pub open spec fn hello_response() -> ResponseModel {
    ResponseModel { status: 200, content_type: "text/plain"@, body: "Hello World!"@ }
}

/// The fallback response: `404`, plain text, `Not Found`.
pub open spec fn not_found_response() -> ResponseModel {
    ResponseModel { status: 404, content_type: "text/plain"@, body: "Not Found"@ }
}

/// What the routed handler returns for a given request: the greeting on the
/// matched route, the fallback on everything else.
pub open spec fn dispatch(req: RequestModel) -> ResponseModel {
    if is_hello_route(req.method, req.path) {
        hello_response()
    } else {
        not_found_response()
    }
}

/// The routed handler. On `GET /` it returns `200` with body `Hello World!`;
/// on any other method or path it returns `404` with body `Not Found`. Both
/// responses carry the content type `text/plain`.
pub fn handle(req: &Request) -> (resp: Response)
    ensures
        resp@ == dispatch(req@),
        is_hello_route(req@.method, req@.path) ==> resp@ == hello_response(),
        !is_hello_route(req@.method, req@.path) ==> resp@ == not_found_response(),
{
    let root: String = "/".to_owned();
    if req.method == Method::Get && req.path == root {
        Response {
            status: 200,
            content_type: "text/plain".to_owned(),
            body: "Hello World!".to_owned(),
        }
    } else {
        Response {
            status: 404,
            content_type: "text/plain".to_owned(),
            body: "Not Found".to_owned(),
        }
    }
}

/// The unrouted handler: it returns the greeting for every request,
/// ignoring method and path.
pub fn handle_unconditional(_req: &Request) -> (resp: Response)
    ensures
        resp@ == hello_response(),
{
    Response {
        status: 200,
        content_type: "text/plain".to_owned(),
        body: "Hello World!".to_owned(),
    }
}

/// The handlers hold no state: the response is a function of the request
/// alone, so two responses to equal requests are equal, byte for byte.
pub proof fn lemma_dispatch_idempotent(r1: RequestModel, r2: RequestModel)
    requires
        r1 == r2,
    ensures
        dispatch(r1) == dispatch(r2),
{
}

} // verus!
