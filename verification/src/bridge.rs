//! The hyper-facing edge of the library.
//!
//! The listener hands each incoming request to [`serve_request`], which drops
//! the request unread, builds the verified canned response, and converts it
//! to the `hyper` value the runtime writes to the socket. Only the conversion
//! itself is trusted; which status, header and body are sent is proved in
//! [`crate::handler`], and [`built_response_of`] ties the `hyper` value that
//! leaves the library to exactly those canned parts.

use crate::handler::{content_type_name, content_type_value, hello_body, hello_response};
use vstd::prelude::*;

verus! {

#[verifier::external_type_specification]
#[verifier::external_body]
#[verifier::reject_recursive_types(T)]
pub struct ExResponse<T>(hyper::Response<T>);

#[verifier::external_type_specification]
#[verifier::external_body]
#[verifier::reject_recursive_types(T)]
pub struct ExRequest<T>(hyper::Request<T>);

#[verifier::external_type_specification]
#[verifier::external_body]
pub struct ExBody(hyper::Body);

/// The fixed listen address: the four loopback octets and the port.
pub struct BindAddr {
    pub octets: [u8; 4],
    pub port: u16,
}

/// The address the listener binds: loopback 127.0.0.1, port 8080.
pub fn listen_addr() -> (r: BindAddr)
    ensures
        r.octets@ =~= seq![127u8, 0u8, 0u8, 1u8],
        r.port == 8080,
{
    BindAddr { octets: [127, 0, 0, 1], port: 8080 }
}

/// The response that hyper's re-exported builder assembles from a status, one
/// header and a body: a function of those arguments alone.
pub uninterp spec fn built_response_of(
    status: int,
    header_name: Seq<char>,
    header_value: Seq<char>,
    body: Seq<char>,
) -> hyper::Response<hyper::Body>;

/// Relies on hyper's re-exported `Response` builder: `status` accepts any
/// code in 100..=999, `header` accepts the name `Content-Type` and the value
/// `text/plain` (both well-formed by its header parsing), and `body` then
/// returns `Ok` of the response assembled from exactly those parts, a
/// function of the arguments alone; converting a `String` into a
/// `hyper::Body` cannot fail.
#[verifier::external_body]
fn build_hyper_response(
    status: u16,
    header_name: &str,
    header_value: &str,
    body: String,
) -> (r: Option<hyper::Response<hyper::Body>>)
    ensures
        (status == 200 && header_name@ == content_type_name() && header_value@
            == content_type_value()) ==> r == Some(
            built_response_of(status as int, header_name@, header_value@, body@),
        ),
{
    hyper::Response::builder()
        .status(status)
        .header(header_name, header_value)
        .body(hyper::Body::from(body))
        .ok()
}

/// Serves one request as the listener sees it: the request is dropped unread
/// and the canned response comes back as the `hyper` value assembled from
/// exactly the canned parts. Construction cannot fail for those parts, so
/// the result is always `Some`.
pub fn serve_request(_req: hyper::Request<hyper::Body>) -> (r: Option<
    hyper::Response<hyper::Body>,
>)
    ensures
        r == Some(
            built_response_of(200, content_type_name(), content_type_value(), hello_body()),
        ),
        r.is_some(),
{
    let resp = hello_response();
    build_hyper_response(
        resp.status,
        resp.header_name.as_str(),
        resp.header_value.as_str(),
        resp.body,
    )
}

} // verus!
