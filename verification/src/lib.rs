//! Trace-context propagation for a distributed-tracing SDK: an immutable,
//! type-keyed value carrier that threads the currently-active span and an
//! optional remotely-received span identity through a call graph, plus the
//! pure part of environment-driven exporter configuration.

pub mod context;
pub mod exporter_env;
pub mod span;
pub mod span_ext;
