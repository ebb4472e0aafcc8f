use std::sync::Arc;
use std::sync::Mutex;

use opentelemetry::global;
use opentelemetry::trace::TraceContextExt;
use opentelemetry::trace::TraceResult;
use opentelemetry::trace::Tracer;
use opentelemetry::Context;
use opentelemetry_sdk::export::trace::SpanData;
use opentelemetry_sdk::trace::SpanProcessor;
use opentelemetry_sdk::trace::TracerProvider;

use myotel::CancellationPolicy;
use myotel::UnifiedContext;

/// A trace capability fake that counts how often a span end is reported.
#[derive(Debug)]
struct EndCounter(Arc<Mutex<usize>>);

impl SpanProcessor for EndCounter {
    fn on_start(&self, _span: &mut opentelemetry_sdk::trace::Span, _cx: &Context) {}

    fn on_end(&self, _span: SpanData) {
        *self.0.lock().unwrap() += 1;
    }

    fn force_flush(&self) -> TraceResult<()> {
        Ok(())
    }

    fn shutdown(&self) -> TraceResult<()> {
        Ok(())
    }
}

/// A trace capability fake that keeps every span end reported to it.
#[derive(Debug)]
struct Collector(Arc<Mutex<Vec<SpanData>>>);

impl SpanProcessor for Collector {
    fn on_start(&self, _span: &mut opentelemetry_sdk::trace::Span, _cx: &Context) {}

    fn on_end(&self, span: SpanData) {
        self.0.lock().unwrap().push(span);
    }

    fn force_flush(&self) -> TraceResult<()> {
        Ok(())
    }

    fn shutdown(&self) -> TraceResult<()> {
        Ok(())
    }
}

fn install_counting_provider() -> Arc<Mutex<usize>> {
    let counter = Arc::new(Mutex::new(0usize));
    let provider =
        TracerProvider::builder().with_span_processor(EndCounter(counter.clone())).build();
    global::set_tracer_provider(provider);
    counter
}

#[test]
fn scenario_child_span_shares_trace_id() {
    let _counter = install_counting_provider();
    let tracer = global::tracer("test");
    let parent_span = tracer.start("parent");
    let parent_cx = Context::current_with_span(parent_span);
    let (parent, _parent_guard) = UnifiedContext::new(parent_cx, CancellationPolicy::NoScope);
    let (child, _child_guard) = parent.spwan_child("child-a", CancellationPolicy::Inherit);

    let parent_descriptor = parent.span_context();
    let child_descriptor = child.span_context();
    assert_eq!(child_descriptor.trace_id(), parent_descriptor.trace_id());
    assert_ne!(child_descriptor.span_id(), parent_descriptor.span_id());
}

#[test]
fn scenario_guard_finalises_span_exactly_once() {
    let counter = install_counting_provider();
    let tracer = global::tracer("test");
    let span = tracer.start("guarded");
    let cx = Context::current_with_span(span);
    let (ctx, guard) = UnifiedContext::new(cx, CancellationPolicy::NoScope);

    assert_eq!(*counter.lock().unwrap(), 0);
    // End explicitly, then let everything go out of scope: the span must be
    // finalised exactly once, not twice.
    guard.end();
    assert_eq!(*counter.lock().unwrap(), 1);
    drop(ctx);
    assert_eq!(*counter.lock().unwrap(), 1);
}

#[test]
fn has_active_span_reflects_the_trace_source() {
    let _counter = install_counting_provider();
    let (bare, _g1) = UnifiedContext::current();
    assert!(!bare.has_active_span());

    let tracer = global::tracer("test");
    let span = tracer.start("active");
    let cx = Context::current_with_span(span);
    let (traced, _g2) = UnifiedContext::new(cx, CancellationPolicy::NoScope);
    assert!(traced.has_active_span());
    assert!(traced.ref_span().span_context().is_valid());
}

#[test]
fn remote_descriptor_backs_the_context() {
    let descriptor = opentelemetry::trace::SpanContext::new(
        opentelemetry::trace::TraceId::from_hex("58406520a006649127e371903a2de979").unwrap(),
        opentelemetry::trace::SpanId::from_hex("b6d7d7f6d7d6d7f6").unwrap(),
        opentelemetry::trace::TraceFlags::default(),
        true,
        opentelemetry::trace::TraceState::default(),
    );

    let (continued, _guard) = UnifiedContext::new(descriptor.clone(), CancellationPolicy::NoScope);
    assert_eq!(continued.span_context().trace_id(), descriptor.trace_id());
    assert_eq!(continued.span_context().span_id(), descriptor.span_id());
    assert!(continued.span_context().is_remote());
}

#[test]
fn set_span_attribute_reaches_the_exported_span() {
    let exported: Arc<Mutex<Vec<SpanData>>> = Arc::new(Mutex::new(Vec::new()));
    let provider =
        TracerProvider::builder().with_span_processor(Collector(exported.clone())).build();
    global::set_tracer_provider(provider);

    let tracer = global::tracer("test");
    let span = tracer.start("annotated");
    let cx = Context::current_with_span(span);
    let (ctx, guard) = UnifiedContext::new(cx, CancellationPolicy::NoScope);
    ctx.set_span_attribute("example_key", "example_value");
    guard.end();

    let spans = exported.lock().unwrap();
    assert_eq!(spans.len(), 1);
    let found = spans[0]
        .attributes
        .iter()
        .any(|kv| kv.key.as_str() == "example_key" && kv.value.as_str() == "example_value");
    assert!(found, "the attribute must reach the exported span");
}
