//! The tracing-subsystem boundary: opentelemetry's boxed tracer and span
//! handles, and the three capabilities the annotation uses on them —
//! starting a named span, attaching a string attribute, and setting an
//! error status.

use vstd::prelude::*;
use opentelemetry::global::{BoxedSpan, BoxedTracer};
use opentelemetry::trace::{Span, Status, Tracer};
use opentelemetry::KeyValue;

verus! {

#[verifier::external_type_specification]
#[verifier::external_body]
pub struct ExBoxedTracer(BoxedTracer);

#[verifier::external_type_specification]
#[verifier::external_body]
pub struct ExBoxedSpan(BoxedSpan);

/// Relies on opentelemetry's `Tracer::start` for the global boxed tracer:
/// begins a new span with the given name.
#[verifier::external_body]
pub(crate) fn start_span(tracer: &BoxedTracer, name: String) -> (r: BoxedSpan) {
    tracer.start(name)
}

/// Relies on opentelemetry's `Span::set_attribute`: attaches the given
/// key/value pair to the span as a string-valued attribute.
#[verifier::external_body]
pub(crate) fn set_string_attribute(span: &mut BoxedSpan, key: &str, value: &str) {
    span.set_attribute(KeyValue::new(key.to_owned(), value.to_owned()));
}

/// Relies on opentelemetry's `Span::set_status` with `Status::error`:
/// marks the span's terminal status as an error carrying the given
/// description.
#[verifier::external_body]
pub(crate) fn set_error_status(span: &mut BoxedSpan, description: String) {
    span.set_status(Status::error(description));
}

} // verus!
