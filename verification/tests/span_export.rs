//! Runs the annotation against a real tracer pipeline: spans are exported
//! into memory and their recorded name, attributes and status are checked.

use opentelemetry::global::BoxedTracer;
use opentelemetry::trace::{Span, Status, TracerProvider};
use opentelemetry_sdk::trace::{InMemorySpanExporter, InMemorySpanExporterBuilder, SdkTracerProvider, SpanData};
use otel_http_span::hyper_wrapper::{annotate_span_for_response, span_for_request};

fn pipeline() -> (InMemorySpanExporter, SdkTracerProvider, BoxedTracer) {
    let exporter = InMemorySpanExporterBuilder::new().build();
    let provider = SdkTracerProvider::builder()
        .with_simple_exporter(exporter.clone())
        .build();
    let tracer = BoxedTracer::new(Box::new(provider.tracer("span_export")));
    (exporter, provider, tracer)
}

fn attr(data: &SpanData, key: &str) -> Option<String> {
    data.attributes
        .iter()
        .find(|kv| kv.key.as_str() == key)
        .map(|kv| kv.value.as_str().into_owned())
}

fn finished_span(
    exporter: &InMemorySpanExporter,
    provider: &SdkTracerProvider,
) -> SpanData {
    provider.force_flush().unwrap();
    let spans = exporter.get_finished_spans().unwrap();
    assert_eq!(spans.len(), 1);
    spans.into_iter().next().unwrap()
}

#[test]
fn exported_span_for_success_response() {
    let (exporter, provider, tracer) = pipeline();
    let req = hyper::Request::builder()
        .method("GET")
        .uri("https://api.example.com/v1/users?id=5")
        .version(hyper::Version::HTTP_11)
        .body(())
        .unwrap();
    let mut span = span_for_request(&tracer, &req);
    let resp = hyper::Response::builder().status(200).body(()).unwrap();
    annotate_span_for_response(&mut span, &resp);
    span.end();
    let data = finished_span(&exporter, &provider);
    assert_eq!(data.name.as_ref(), "HTTP GET api.example.com");
    assert_eq!(attr(&data, "span.kind").as_deref(), Some("client"));
    assert_eq!(attr(&data, "http.method").as_deref(), Some("GET"));
    assert_eq!(
        attr(&data, "http.url").as_deref(),
        Some("https://api.example.com/v1/users?id=5")
    );
    assert_eq!(attr(&data, "http.target").as_deref(), Some("/v1/users?id=5"));
    assert_eq!(attr(&data, "http.host").as_deref(), Some("api.example.com"));
    assert_eq!(attr(&data, "http.scheme").as_deref(), Some("https"));
    assert_eq!(attr(&data, "http.flavor").as_deref(), Some("1.1"));
    assert_eq!(attr(&data, "http.status_code").as_deref(), Some("200"));
    assert_eq!(attr(&data, "http.status_text").as_deref(), Some("OK"));
    assert_eq!(data.status, Status::Unset);
}

#[test]
fn exported_span_for_error_response() {
    let (exporter, provider, tracer) = pipeline();
    let req = hyper::Request::builder()
        .method("GET")
        .uri("https://api.example.com/v1/users?id=5")
        .version(hyper::Version::HTTP_11)
        .body(())
        .unwrap();
    let mut span = span_for_request(&tracer, &req);
    let resp = hyper::Response::builder().status(503).body(()).unwrap();
    annotate_span_for_response(&mut span, &resp);
    span.end();
    let data = finished_span(&exporter, &provider);
    assert_eq!(attr(&data, "http.status_code").as_deref(), Some("503"));
    assert_eq!(
        attr(&data, "http.status_text").as_deref(),
        Some("Service Unavailable")
    );
    assert_eq!(data.status, Status::error("503"));
}

#[test]
fn exported_span_without_host_or_reason() {
    let (exporter, provider, tracer) = pipeline();
    let req = hyper::Request::builder()
        .method("OPTIONS")
        .uri("/healthz")
        .body(())
        .unwrap();
    let mut span = span_for_request(&tracer, &req);
    let resp = hyper::Response::builder().status(599).body(()).unwrap();
    annotate_span_for_response(&mut span, &resp);
    span.end();
    let data = finished_span(&exporter, &provider);
    assert_eq!(data.name.as_ref(), "HTTP OPTIONS <unknown>");
    assert_eq!(attr(&data, "http.target").as_deref(), Some("/healthz"));
    assert_eq!(attr(&data, "http.host"), None);
    assert_eq!(attr(&data, "http.scheme"), None);
    assert_eq!(attr(&data, "http.flavor").as_deref(), Some("1.1"));
    assert_eq!(attr(&data, "http.status_code").as_deref(), Some("599"));
    assert_eq!(attr(&data, "http.status_text"), None);
    assert_eq!(data.status, Status::error("599"));
}
