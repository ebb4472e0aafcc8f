//! A composite request context for instrumented applications.
//!
//! One value bundles a distributed-trace context node, an optional
//! cooperative cancellation observer, and a type-indexed store for
//! request-scoped business data, so that unrelated subsystems can share a
//! single handle while work fans out into concurrent tasks.

pub mod baggage;
pub mod capability;
pub mod context;
pub mod init;
pub mod store;

pub use baggage::extract_baggage;
pub use baggage::select_known_baggage;
pub use context::CancellationPolicy;
pub use context::ContextGuard;
pub use context::CurrentOtelContext;
pub use context::IntoOtelContext;
pub use context::OtelContext;
pub use context::TaskContext;
pub use context::TaskHandle;
pub use context::UnifiedContext;
pub use init::BatchExportConfig;
pub use init::InitConfig;
pub use store::DataKind;
pub use store::DataValue;
pub use store::SharedStore;
pub use store::StoreMap;
