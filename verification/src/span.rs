//! Span identity and the no-op span.
//!
//! A [`SpanContext`] is the plain identity of a span (trace id, span id,
//! trace flags, remote-ness); it carries no live behavior. A [`NoopSpan`] is
//! the safe default span returned whenever no span has been attached to a
//! context: all of its operations do nothing, and its identity is the empty
//! span context. A [`SpanObject`] is the form in which a span is stored in a
//! context cell: either the no-op span or a recording span known by its
//! identity.

use vstd::prelude::*;

verus! {

/// The identity of a span: trace id, span id, trace flags and whether the
/// identity was propagated in from another process.
#[derive(Clone, Copy, PartialEq, Eq, Structural, Debug)]
pub struct SpanContext {
    pub trace_id: u128,
    pub span_id: u64,
    pub trace_flags: u8,
    pub is_remote: bool,
}

impl SpanContext {
    /// The empty span context: all-zero identity, no flags, not remote.
    pub open spec fn spec_empty() -> SpanContext {
        SpanContext { trace_id: 0, span_id: 0, trace_flags: 0, is_remote: false }
    }

    pub fn new(trace_id: u128, span_id: u64, trace_flags: u8, is_remote: bool) -> (r:
        SpanContext)
        ensures
            r == (SpanContext { trace_id, span_id, trace_flags, is_remote }),
    {
        SpanContext { trace_id, span_id, trace_flags, is_remote }
    }

    /// The sentinel identity used by the no-op span.
    pub fn empty_context() -> (r: SpanContext)
        ensures
            r == SpanContext::spec_empty(),
    {
        SpanContext { trace_id: 0, span_id: 0, trace_flags: 0, is_remote: false }
    }
}

/// The default span used whenever no span is active. It is logically
/// immutable: every operation on it does nothing, and its identity is the
/// empty span context.
#[derive(Clone, Copy, PartialEq, Eq, Structural, Debug)]
pub struct NoopSpan {}

impl NoopSpan {
    pub fn new() -> (r: NoopSpan)
        ensures
            r == (NoopSpan {  }),
    {
        NoopSpan {  }
    }

    /// The no-op span's identity is the empty span context.
    pub fn span_context(&self) -> (r: SpanContext)
        ensures
            r == SpanContext::spec_empty(),
    {
        SpanContext::empty_context()
    }

    /// Recording an event on the no-op span does nothing.
    pub fn record_event(&self, _name: &str) {
    }

    /// Setting a status on the no-op span does nothing.
    pub fn set_status(&self, _description: &str) {
    }

    /// Ending the no-op span does nothing.
    pub fn end(&self) {
    }
}

/// A span as stored in a context cell: the polymorphic span capability,
/// represented as a tagged union so that lookup can never confuse it with
/// another kind of attached value.
#[derive(Clone, Copy, PartialEq, Eq, Structural, Debug)]
pub enum SpanObject {
    /// The no-op span.
    Noop(NoopSpan),
    /// A recording span created by a tracer, known here by its identity.
    Recording(SpanContext),
}

impl SpanObject {
    /// The identity this span reports: its own span context for a recording
    /// span, the empty span context for the no-op span.
    pub open spec fn identity(self) -> SpanContext {
        match self {
            SpanObject::Noop(_) => SpanContext::spec_empty(),
            SpanObject::Recording(sc) => sc,
        }
    }

    /// Fetch this span's identity.
    pub fn span_context(&self) -> (r: SpanContext)
        ensures
            r == self.identity(),
    {
        match self {
            SpanObject::Noop(noop) => noop.span_context(),
            SpanObject::Recording(sc) => *sc,
        }
    }

    /// Whether this span records anything at all.
    pub fn is_recording(&self) -> (r: bool)
        ensures
            r == (self matches SpanObject::Recording(_)),
    {
        match self {
            SpanObject::Noop(_) => false,
            SpanObject::Recording(_) => true,
        }
    }
}

} // verus!
