//! Maps the lifecycle of one outbound HTTP request/response pair onto a
//! distributed-tracing span: a span name and a fixed vocabulary of string
//! attributes are computed from the request before dispatch, and a status
//! code annotation plus a terminal error status are computed from the
//! response after completion.

pub mod hyper_wrapper;
pub mod otel;
pub mod request;
pub mod response;
pub mod text;
