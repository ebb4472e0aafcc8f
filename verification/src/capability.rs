//! The outside capabilities the composite context is built on.
//!
//! The trace capability is opentelemetry: span creation, annotation and
//! finalisation, and the propagable span descriptor. The cancellation
//! capability is tokio_context: a scope with a shared observer and a unique
//! trigger handle. Both are consumed through the trusted declarations and
//! wrappers below; everything said about them here is taken on trust from
//! those crates' sources.

use vstd::prelude::*;

use opentelemetry::baggage::BaggageExt;
use opentelemetry::trace::TraceContextExt;
use opentelemetry::trace::Tracer;

verus! {

#[verifier::external_type_specification]
#[verifier::external_body]
pub struct ExOtelContext(opentelemetry::Context);

#[verifier::external_type_specification]
#[verifier::external_body]
pub struct ExSpanContext(opentelemetry::trace::SpanContext);

#[verifier::external_type_specification]
#[verifier::external_body]
pub struct ExSpanRef<'a>(opentelemetry::trace::SpanRef<'a>);

#[verifier::external_type_specification]
#[verifier::external_body]
pub struct ExRefContext(tokio_context::context::RefContext);

#[verifier::external_type_specification]
#[verifier::external_body]
pub struct ExHandle(tokio_context::context::Handle);

/// Relies on the derived `Clone` of opentelemetry's `Context`: the context is
/// an immutable value whose clone carries the same span and entries.
pub assume_specification[ <opentelemetry::Context as Clone>::clone ](
    cx: &opentelemetry::Context,
) -> (r: opentelemetry::Context)
    ensures
        r == *cx,
;

/// Relies on the derived `Clone` of tokio_context's `RefContext`: the clone
/// is another handle to the same cancellation scope.
pub assume_specification[ <tokio_context::context::RefContext as Clone>::clone ](
    c: &tokio_context::context::RefContext,
) -> (r: tokio_context::context::RefContext)
    ensures
        r == *c,
;

/// Relies on tokio_context's `RefContext::new`: allocates a fresh
/// cancellation scope and returns its shared observer together with the
/// unique trigger handle.
pub assume_specification[ tokio_context::context::RefContext::new ]() -> (r: (
    tokio_context::context::RefContext,
    tokio_context::context::Handle,
));

/// Relies on tokio_context's `Handle::cancel`: consumes the trigger handle,
/// which cancels its scope, so every observer's wait completes.
pub assume_specification[ tokio_context::context::Handle::cancel ](
    h: tokio_context::context::Handle,
);

/// Relies on opentelemetry's `Context::current`: the ambient context of the
/// calling thread.
#[verifier::external_body]
pub(crate) fn current_otel_context() -> opentelemetry::Context {
    opentelemetry::Context::current()
}

/// Relies on `TraceContextExt::with_remote_span_context`: a fresh context
/// whose span is the remote span that `sc` describes.
#[verifier::external_body]
pub(crate) fn remote_otel_context(sc: opentelemetry::trace::SpanContext) -> opentelemetry::Context {
    opentelemetry::Context::new().with_remote_span_context(sc)
}

/// Relies on `global::tracer`, `Tracer::start_with_context` and
/// `Context::current_with_span`: starts a span named `name` as a child of
/// `parent`'s span and returns the ambient context carrying the new span.
#[verifier::external_body]
pub(crate) fn child_span_context(
    parent: &opentelemetry::Context,
    name: &str,
) -> opentelemetry::Context {
    let tracer = opentelemetry::global::tracer("unified_context_tracer");
    let span = tracer.start_with_context(name.to_owned(), parent);
    opentelemetry::Context::current_with_span(span)
}

/// Relies on `TraceContextExt::span`: a read-only reference to the span
/// that `cx` carries.
#[verifier::external_body]
pub(crate) fn span_of<'a>(cx: &'a opentelemetry::Context) -> opentelemetry::trace::SpanRef<'a> {
    cx.span()
}

/// Relies on `TraceContextExt::has_active_span`: whether `cx` carries a span.
#[verifier::external_body]
pub(crate) fn has_active_span_in(cx: &opentelemetry::Context) -> bool {
    cx.has_active_span()
}

/// Relies on `TraceContextExt::span` and `SpanRef::span_context`: the
/// immutable descriptor of the span that `cx` carries.
#[verifier::external_body]
pub(crate) fn span_context_of(cx: &opentelemetry::Context) -> opentelemetry::trace::SpanContext {
    cx.span().span_context().clone()
}

/// Relies on `SpanRef::set_attribute`: annotates the span that `cx` carries.
#[verifier::external_body]
pub(crate) fn set_attribute_on(cx: &opentelemetry::Context, key: &str, value: &str) {
    cx.span().set_attribute(opentelemetry::KeyValue::new(key.to_owned(), value.to_owned()));
}

/// Relies on `TraceContextExt::span` and `SpanRef::end`: signals that the
/// operation described by the span that `cx` carries has ended.
#[verifier::external_body]
pub(crate) fn end_span_of(cx: &opentelemetry::Context)
    opens_invariants none
    no_unwind
{
    cx.span().end();
}

/// Relies on baggage iteration (`BaggageExt::baggage`, `Baggage::iter`):
/// every baggage entry of `cx`, each as its key and its value rendered as
/// text, in no promised order.
#[verifier::external_body]
pub(crate) fn baggage_pairs(cx: &opentelemetry::Context) -> Vec<(String, String)> {
    cx.baggage().iter().map(|(k, (v, _))| (k.as_str().to_owned(), v.to_string())).collect()
}

} // verus!
