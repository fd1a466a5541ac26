//! Request and response values, with their mathematical models.

use vstd::prelude::*;

verus! {

/// An HTTP request method. Only `Get` is ever matched by the handlers;
/// every other method is kept so that a request can record what was asked.
/// `Other` stands for any method outside the standard set.
#[derive(Clone, Copy, PartialEq, Eq, Structural, Debug)]
pub enum Method {
    Get,
    Head,
    Post,
    Put,
    Delete,
    Connect,
    Options,
    Trace,
    Patch,
    Other,
}

/// A transient, per-request value: the method and the path asked for.
pub struct Request {
    pub method: Method,
    pub path: String,
}

/// The model of a request: the method and the path as a character sequence.
#[verifier::ext_equal]
pub struct RequestModel {
    pub method: Method,
    pub path: Seq<char>,
}

impl View for Request {
    type V = RequestModel;

    open spec fn view(&self) -> RequestModel {
        RequestModel { method: self.method, path: self.path@ }
    }
}

/// A response: a status code, a single content-type header and a body.
pub struct Response {
    pub status: u16,
    pub content_type: String,
    pub body: String,
}

/// The model of a response, over character sequences.
#[verifier::ext_equal]
pub struct ResponseModel {
    pub status: int,
    pub content_type: Seq<char>,
    pub body: Seq<char>,
}

impl View for Response {
    type V = ResponseModel;

    open spec fn view(&self) -> ResponseModel {
        ResponseModel {
            status: self.status as int,
            content_type: self.content_type@,
            body: self.body@,
        }
    }
}

} // verus!
