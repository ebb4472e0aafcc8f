//! The composite request context and its scope guard.
//!
//! A [`UnifiedContext`] bundles one shared business-data store handle, an
//! optional cancellation observer and one owned trace-context node. Deriving
//! a child context shares the store, attaches the cancellation observer that
//! the chosen policy selects, and always creates a new child span. Every
//! context-creating call also returns a [`ContextGuard`] that finalises the
//! new span exactly once and, when a fresh cancellation scope was created,
//! owns that scope's unique trigger handle.

use crate::capability::child_span_context;
use crate::capability::current_otel_context;
use crate::capability::end_span_of;
use crate::capability::has_active_span_in;
use crate::capability::remote_otel_context;
use crate::capability::set_attribute_on;
use crate::capability::span_context_of;
use crate::capability::span_of;
use crate::store::DataKind;
use crate::store::DataValue;
use crate::store::SharedStore;
use opentelemetry::trace::SpanContext;
pub use opentelemetry::Context as OtelContext;
pub use tokio_context::context::Handle as TaskHandle;
pub use tokio_context::context::RefContext as TaskContext;
use vstd::prelude::*;

verus! {

/// How a context-creating call attaches a cancellation scope.
#[derive(Clone, Copy, PartialEq, Eq, Structural, Debug)]
pub enum CancellationPolicy {
    /// Allocate a fresh cancellation scope; the paired guard becomes the
    /// unique owner of the scope's trigger handle.
    NewScope,
    /// Attach no scope: this context can never observe a cancellation.
    NoScope,
    /// Reuse the deriving context's observer verbatim; the paired guard owns
    /// no trigger handle. At a lineage root there is nothing to inherit, so
    /// no scope is attached.
    Inherit,
}

/// A unified context management struct that holds tracing spans, cancellation
/// context, and business data.
pub struct UnifiedContext {
    /// The store for business-related data, shared across the whole lineage.
    business_data: SharedStore,
    /// Cancellation observer shared with every context that inherited it.
    task_context: Option<TaskContext>,
    /// OpenTelemetry tracing context, owned by this context alone.
    trace_context: OtelContext,
}

impl UnifiedContext {
    /// The business-data store handle shared by this context's lineage.
    pub closed spec fn store(self) -> SharedStore {
        self.business_data
    }

    /// The cancellation observer attached to this context, if any.
    pub closed spec fn scope(self) -> Option<TaskContext> {
        self.task_context
    }

    /// The trace-context node owned by this context.
    pub closed spec fn trace(self) -> OtelContext {
        self.trace_context
    }

    /// Creates a new `UnifiedContext` instance with the current trace context
    /// but without a cancellation scope.
    pub fn current() -> (r: (UnifiedContext, ContextGuard))
        ensures
            r.0.scope() is None,
            !r.1.owns_trigger(),
            r.1.context() == r.0,
    {
        Self::new(CurrentOtelContext, CancellationPolicy::NoScope)
    }

    /// Creates a new `UnifiedContext` instance from the given trace source,
    /// attaching a cancellation scope as `policy` directs. A fresh lineage
    /// store is allocated; the returned guard snapshots the new context and
    /// owns the trigger handle exactly when a fresh scope was created.
    pub fn new<C: IntoOtelContext>(trace_context: C, policy: CancellationPolicy) -> (r: (
        UnifiedContext,
        ContextGuard,
    ))
        ensures
            (r.0.scope() is Some) == (policy == CancellationPolicy::NewScope),
            r.1.owns_trigger() == (policy == CancellationPolicy::NewScope),
            r.1.context() == r.0,
    {
        let (task_context, task_handle) = attach_scope(policy, &None);
        let context = UnifiedContext {
            business_data: SharedStore::new(),
            task_context,
            trace_context: trace_context.into_otel_context(),
        };
        let guard = ContextGuard { unified_context: context.clone(), task_handle };
        (context, guard)
    }

    /// Inserts a value into the business data of this context's lineage,
    /// under the value's own kind, replacing any earlier value of that kind
    /// (last write wins). The new value is visible from every context that
    /// shares this lineage's store.
    pub fn insert_business_data(&self, value: DataValue) {
        self.business_data.insert(value);
    }

    /// Retrieves the value last stored under `kind` in this lineage's
    /// business data, or nothing if no value of that kind was ever inserted;
    /// a returned value always has exactly the requested kind.
    pub fn get_business_data(&self, kind: DataKind) -> (r: Option<DataValue>)
        ensures
            r matches Some(v) ==> v.kind() == kind,
    {
        self.business_data.get(kind)
    }

    /// An object that is passed around to asynchronous functions that may be
    /// used to check if the function it was passed into should perform a
    /// graceful termination: another handle to this context's observer.
    pub fn task_context(&self) -> (r: Option<TaskContext>)
        ensures
            r == self.scope(),
    {
        clone_scope(&self.task_context)
    }

    /// Returns the current span.
    pub fn ref_span(&self) -> opentelemetry::trace::SpanRef<'_> {
        span_of(&self.trace_context)
    }

    /// Whether the current span is active.
    pub fn has_active_span(&self) -> bool {
        has_active_span_in(&self.trace_context)
    }

    /// Get the `SpanContext` clone: the immutable propagable descriptor
    /// (trace id, span id, flags, remote flag, trace state) of this
    /// context's span.
    pub fn span_context(&self) -> SpanContext {
        span_context_of(&self.trace_context)
    }

    /// Starts a child context and returns it with its guard.
    ///
    /// The child span is started as a child of this context's span; the
    /// child context shares this lineage's business-data store and attaches
    /// a cancellation observer as `policy` directs. The guard snapshots the
    /// child context and owns a trigger handle exactly when a fresh scope
    /// was created.
    pub fn spwan_child(&self, span_name: &str, policy: CancellationPolicy) -> (r: (
        UnifiedContext,
        ContextGuard,
    ))
        ensures
            r.0.store() == self.store(),
            policy == CancellationPolicy::Inherit ==> r.0.scope() == self.scope(),
            policy == CancellationPolicy::NoScope ==> r.0.scope() is None,
            policy == CancellationPolicy::NewScope ==> r.0.scope() is Some,
            r.1.owns_trigger() == (policy == CancellationPolicy::NewScope),
            r.1.context() == r.0,
    {
        let child_trace = child_span_context(&self.trace_context, span_name);
        let (task_context, task_handle) = attach_scope(policy, &self.task_context);
        let child = UnifiedContext {
            business_data: self.business_data.clone(),
            task_context,
            trace_context: child_trace,
        };
        let guard = ContextGuard { unified_context: child.clone(), task_handle };
        (child, guard)
    }

    /// Ends the current span.
    fn end_span(&self)
        opens_invariants none
        no_unwind
    {
        end_span_of(&self.trace_context);
    }

    /// Sets an attribute for the current span.
    pub fn set_span_attribute(&self, key: &str, value: &str) {
        set_attribute_on(&self.trace_context, key, value);
    }
}

impl Clone for UnifiedContext {
    /// The clone shares the lineage's store, observes the same cancellation
    /// scope and carries the same trace-context node.
    fn clone(&self) -> (r: Self)
        ensures
            r == *self,
    {
        UnifiedContext {
            business_data: self.business_data.clone(),
            task_context: clone_scope(&self.task_context),
            trace_context: self.trace_context.clone(),
        }
    }
}

/// Another handle to the same observer, if one is attached.
fn clone_scope(s: &Option<TaskContext>) -> (r: Option<TaskContext>)
    ensures
        r == *s,
{
    match s {
        Some(c) => Some(c.clone()),
        None => None,
    }
}

/// The observer and trigger handle that `policy` selects: a fresh pair for a
/// new scope, nothing for no scope, and another handle to `inherited` (with
/// no trigger) when inheriting.
fn attach_scope(policy: CancellationPolicy, inherited: &Option<TaskContext>) -> (r: (
    Option<TaskContext>,
    Option<TaskHandle>,
))
    ensures
        policy == CancellationPolicy::NewScope ==> r.0 is Some && r.1 is Some,
        policy == CancellationPolicy::NoScope ==> r.0 is None && r.1 is None,
        policy == CancellationPolicy::Inherit ==> r.0 == *inherited && r.1 is None,
{
    match policy {
        CancellationPolicy::NewScope => {
            let (observer, handle) = TaskContext::new();
            (Some(observer), Some(handle))
        }
        CancellationPolicy::NoScope => (None, None),
        CancellationPolicy::Inherit => (clone_scope(inherited), None),
    }
}

/// A guard that ends a span when it is dropped.
///
/// The guard snapshots the context it guards and, only when it created a new
/// cancellation scope, holds that scope's unique trigger handle. Whichever
/// comes first of the explicit [`end`](ContextGuard::end) call and the guard
/// going out of scope finalises the span; both consume the guard, so the
/// span is ended exactly once.
pub struct ContextGuard {
    unified_context: UnifiedContext,
    /// The trigger handle for cancellation, owned only by the guard whose
    /// context-creating call established the scope.
    task_handle: Option<TaskHandle>,
}

impl ContextGuard {
    /// The snapshot of the context this guard finalises.
    pub closed spec fn context(self) -> UnifiedContext {
        self.unified_context
    }

    /// Whether this guard owns the trigger handle of a cancellation scope.
    pub closed spec fn owns_trigger(self) -> bool {
        self.task_handle is Some
    }

    /// Signals that the operation described by this span has now ended, by
    /// consuming the guard. Releasing the guard's trigger handle, if it owns
    /// one, also cancels the scope the guard created.
    pub fn end(self) {
        // Dropping the guard finalises the span.
    }

    /// Cancels the scope this guard created, if it owns the trigger handle;
    /// with no handle this changes nothing. The guarded span stays open.
    pub fn cancel(&mut self)
        ensures
            !final(self).owns_trigger(),
            final(self).context() == old(self).context(),
    {
        match self.task_handle.take() {
            Some(handle) => TaskHandle::cancel(handle),
            None => (),
        }
    }
}

impl Drop for ContextGuard {
    /// Signals that the operation described by this span has now ended, and
    /// releases the trigger handle if this guard owns one, which cancels the
    /// scope this guard created.
    fn drop(&mut self)
        opens_invariants none
        no_unwind
    {
        self.unified_context.end_span();
    }
}

/// A source for the trace-context node of a new `UnifiedContext`.
pub trait IntoOtelContext {
    /// Converts to an OpenTelemetry `Context`.
    fn into_otel_context(self) -> OtelContext;
}

impl IntoOtelContext for OtelContext {
    /// An already-built trace context backs the new context unchanged.
    fn into_otel_context(self) -> (r: OtelContext)
        ensures
            r == self,
    {
        self
    }
}

impl IntoOtelContext for SpanContext {
    /// A remote span descriptor becomes a fresh context carrying it, for
    /// cross-process continuation.
    fn into_otel_context(self) -> OtelContext {
        remote_otel_context(self)
    }
}

/// The trace source that selects the ambient active trace context.
pub struct CurrentOtelContext;

impl IntoOtelContext for CurrentOtelContext {
    fn into_otel_context(self) -> OtelContext {
        current_otel_context()
    }
}

} // verus!
