//! The HTTP-client boundary and the two entry points: beginning a span
//! for an outbound hyper request and completing it for the response.

use vstd::prelude::*;
use opentelemetry::global::{BoxedSpan, BoxedTracer};
use crate::otel::{set_error_status, set_string_attribute, start_span};
use crate::request::{request_attributes, span_name, HttpVersion, RequestDesc};
use crate::response::{response_attributes, status_error_description};

verus! {

#[verifier::external_type_specification]
#[verifier::external_body]
#[verifier::reject_recursive_types(T)]
pub struct ExRequest<T>(hyper::Request<T>);

#[verifier::external_type_specification]
#[verifier::external_body]
#[verifier::reject_recursive_types(T)]
pub struct ExResponse<T>(hyper::Response<T>);

#[verifier::external_type_specification]
#[verifier::external_body]
pub struct ExUri(hyper::Uri);

/// Relies on hyper's (http's) `Request::uri`: the request's target URI.
#[verifier::external_body]
fn request_uri<'a, T>(req: &'a hyper::Request<T>) -> (r: &'a hyper::Uri) {
    req.uri()
}

/// Relies on hyper's (http's) `Request::method` and `Method::as_str`: the
/// method token in its canonical textual form, such as `GET`.
#[verifier::external_body]
fn request_method_token<T>(req: &hyper::Request<T>) -> (r: String) {
    req.method().as_str().to_owned()
}

/// Relies on hyper's (http's) `Request::version`, told apart against the
/// four named `Version` constants; every other version becomes `Other`.
#[verifier::external_body]
fn request_version<T>(req: &hyper::Request<T>) -> (r: HttpVersion) {
    match req.version() {
        hyper::Version::HTTP_10 => HttpVersion::V10,
        hyper::Version::HTTP_11 => HttpVersion::V11,
        hyper::Version::HTTP_2 => HttpVersion::V2,
        hyper::Version::HTTP_3 => HttpVersion::V3,
        _ => HttpVersion::Other,
    }
}

/// Relies on hyper's (http's) `Uri` `Display` implementation: the full
/// serialized URI.
#[verifier::external_body]
fn uri_string(uri: &hyper::Uri) -> (r: String) {
    uri.to_string()
}

/// Relies on hyper's (http's) `Uri::host`: the host component, when the
/// URI has one.
#[verifier::external_body]
fn uri_host(uri: &hyper::Uri) -> (r: Option<String>) {
    uri.host().map(|h| h.to_owned())
}

/// Relies on hyper's (http's) `Uri::path_and_query` and
/// `PathAndQuery::as_str`: the path together with the query string, when
/// the URI has them.
#[verifier::external_body]
fn uri_path_and_query(uri: &hyper::Uri) -> (r: Option<String>) {
    uri.path_and_query().map(|p| p.as_str().to_owned())
}

/// Relies on hyper's (http's) `Uri::scheme_str`: the scheme component,
/// when the URI has one.
#[verifier::external_body]
fn uri_scheme(uri: &hyper::Uri) -> (r: Option<String>) {
    uri.scheme_str().map(|s| s.to_owned())
}

/// Relies on hyper's (http's) `Response::status` and `StatusCode::as_u16`:
/// a status code lies in 100..=999, the only range `StatusCode::from_u16`
/// accepts.
#[verifier::external_body]
fn response_status_code<T>(response: &hyper::Response<T>) -> (r: u16)
    ensures
        100 <= r <= 999,
{
    response.status().as_u16()
}

/// Reads off `req` everything the annotation uses: the method token, the
/// serialized URI and its components, and the protocol version.
pub fn describe_request<T>(req: &hyper::Request<T>) -> RequestDesc {
    let uri = request_uri(req);
    RequestDesc {
        method: request_method_token(req),
        url: uri_string(uri),
        host: uri_host(uri),
        path_and_query: uri_path_and_query(uri),
        scheme: uri_scheme(uri),
        version: request_version(req),
    }
}

fn set_attributes(span: &mut BoxedSpan, attrs: &Vec<(String, String)>) {
    let mut i: usize = 0;
    while i < attrs.len()
        decreases attrs.len() - i,
    {
        set_string_attribute(span, attrs[i].0.as_str(), attrs[i].1.as_str());
        i = i + 1;
    }
}

/// Begins a client span for the outbound request `req`: starts a span
/// named as `span_name_spec` describes and attaches exactly the
/// attributes of `request_attrs_spec`, then hands the populated span back
/// for the caller to pass into `annotate_span_for_response` once the
/// response has arrived.
pub fn span_for_request<T>(tracer: &BoxedTracer, req: &hyper::Request<T>) -> (r: BoxedSpan) {
    let desc = describe_request(req);
    let name = span_name(&desc);
    let mut span = start_span(tracer, name);
    let attrs = request_attributes(&desc);
    set_attributes(&mut span, &attrs);
    span
}

/// Completes the span begun by `span_for_request`, which must have been
/// created for the request this response answers: attaches exactly the
/// attributes of `response_attrs_spec` and, for every status but 200,
/// marks the span's terminal status as an error described by the code's
/// decimal form, as `error_description_spec` describes.
pub fn annotate_span_for_response<T>(span: &mut BoxedSpan, response: &hyper::Response<T>) {
    let status = response_status_code(response);
    let attrs = response_attributes(status);
    set_attributes(span, &attrs);
    match status_error_description(status) {
        Option::Some(description) => set_error_status(span, description),
        Option::None => (),
    }
}

} // verus!
