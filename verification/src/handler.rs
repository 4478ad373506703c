//! The request handler and its model.
//!
//! Every request, whatever its method, path, headers or body, is answered
//! with the canned response: status 200, a single `Content-Type: text/plain`
//! header, and the body `Hello, World!\n`.

use vstd::prelude::*;

verus! {

/// Model of an incoming HTTP request: the parts a handler could read.
/// This handler reads none of them.
pub struct RequestModel {
    pub method: Seq<char>,
    pub path: Seq<char>,
    pub headers: Seq<(Seq<char>, Seq<char>)>,
    pub body: Seq<char>,
}

/// Model of an HTTP response: a status code, one header, and a body.
#[verifier::ext_equal]
pub struct ResponseModel {
    pub status: int,
    pub header_name: Seq<char>,
    pub header_value: Seq<char>,
    pub body: Seq<char>,
}

/// An incoming HTTP request, as plain values.
pub struct HttpRequest {
    pub method: String,
    pub path: String,
    pub headers: Vec<(String, String)>,
    pub body: String,
}

impl View for HttpRequest {
    type V = RequestModel;

    open spec fn view(&self) -> RequestModel {
        RequestModel {
            method: self.method@,
            path: self.path@,
            headers: self.headers@.map_values(|h: (String, String)| (h.0@, h.1@)),
            body: self.body@,
        }
    }
}

/// An HTTP response, as plain values.
pub struct HttpResponse {
    pub status: u16,
    pub header_name: String,
    pub header_value: String,
    pub body: String,
}

impl View for HttpResponse {
    type V = ResponseModel;

    open spec fn view(&self) -> ResponseModel {
        ResponseModel {
            status: self.status as int,
            header_name: self.header_name@,
            header_value: self.header_value@,
            body: self.body@,
        }
    }
}

/// The one header the server sends.
pub open spec fn content_type_name() -> Seq<char> {
    "Content-Type"@
}

/// The value of that header.
pub open spec fn content_type_value() -> Seq<char> {
    "text/plain"@
}

/// The body of every response.
pub open spec fn hello_body() -> Seq<char> {
    "Hello, World!\n"@
}

/// The canned response: the one value the server ever sends.
pub open spec fn canned_response() -> ResponseModel {
    ResponseModel {
        status: 200,
        header_name: content_type_name(),
        header_value: content_type_value(),
        body: hello_body(),
    }
}

/// What the handler owes a request: the canned response, for every request.
pub open spec fn response_for(req: RequestModel) -> ResponseModel {
    canned_response()
}

/// Builds the canned response.
pub fn hello_response() -> (r: HttpResponse)
    ensures
        r@ == canned_response(),
{
    let r = HttpResponse {
        status: 200,
        header_name: "Content-Type".to_owned(),
        header_value: "text/plain".to_owned(),
        body: "Hello, World!\n".to_owned(),
    };
    proof {
        assert(r@ =~= canned_response());
    }
    r
}

/// The request handler: answers any request with the canned response.
/// The request is ignored in full; no input is rejected.
pub fn handle_request(_req: &HttpRequest) -> (r: HttpResponse)
    ensures
        r@ == response_for(_req@),
        r.status == 200,
        r.header_name@ == content_type_name(),
        r.header_value@ == content_type_value(),
        r.body@ == hello_body(),
{
    hello_response()
}

/// The canned body is exactly 14 characters, the trailing newline included.
pub proof fn lemma_hello_body_len()
    ensures
        hello_body().len() == 14,
{
    reveal_strlit("Hello, World!\n");
}

/// No cross-request interference: any two requests, concurrent or not, are
/// owed the identical response.
pub proof fn lemma_uniform_response(a: RequestModel, b: RequestModel)
    ensures
        response_for(a) == response_for(b),
{
}

} // verus!
