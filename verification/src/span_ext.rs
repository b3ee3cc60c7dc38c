//! The span accessor extension: a typed convenience layer over [`Context`]
//! for attaching and reading back the active span and the remote span
//! identity.
//!
//! The load-bearing guarantee is [`TraceContextExt::span`]: it never fails.
//! When no span has been attached it returns the no-op span, whose identity
//! is the empty span context, so calling code never needs to null-check the
//! active span. A remote span context, by contrast, is a plain identity
//! propagated in from another process; its absence is a normal state, so it
//! is read back as an option and never confused with a live span.

use vstd::prelude::*;

use crate::context::Context;
use crate::context::ContextValue;
use crate::context::CurrentContextRegister;
use crate::context::ValueKind;
use crate::context::lemma_entries_kind_consistent;
use crate::span::NoopSpan;
use crate::span::SpanContext;
use crate::span::SpanObject;

verus! {

/// The remote span identity a plain context carries, if any. This free
/// function mirrors [`TraceContextExt::attached_remote`] for [`Context`]
/// itself, so that the trait's own contracts can speak of the current
/// snapshot without referring back to the trait.
pub open spec fn spec_remote_of(c: Context) -> Option<SpanContext> {
    match c.spec_get(ValueKind::RemoteSpanContext) {
        Some(ContextValue::RemoteSpanContext(sc)) => Some(sc),
        _ => None,
    }
}

/// Methods for storing and retrieving trace data in a context.
pub trait TraceContextExt: Sized {
    /// The span attached to this context, if one has ever been attached.
    spec fn attached_span(self) -> Option<SpanObject>;

    /// The remote span identity attached to this context, if any.
    spec fn attached_remote(self) -> Option<SpanContext>;

    /// The span this context makes active: the attached span, or the no-op
    /// span when none has been attached.
    open spec fn active_span(self) -> SpanObject {
        match self.attached_span() {
            Some(span) => span,
            None => SpanObject::Noop(NoopSpan {  }),
        }
    }

    /// Returns a copy of the current context with the included span.
    ///
    /// This is useful for building tracers.
    fn current_with_span(register: &CurrentContextRegister, span: SpanObject) -> (r: Self)
        ensures
            r.attached_span() == Some(span),
            r.attached_remote() == spec_remote_of(register.spec_current()),
    ;

    /// Returns a copy of this context with the included span. The span
    /// shadows any previously attached span; this context itself is left
    /// untouched and keeps reporting the old one.
    ///
    /// This is useful for building tracers.
    fn with_span(&self, span: SpanObject) -> (r: Self)
        ensures
            r.attached_span() == Some(span),
            r.attached_remote() == self.attached_remote(),
    ;

    /// Returns this context's span, or the no-op span if none has been set.
    fn span(&self) -> (r: SpanObject)
        ensures
            r == self.active_span(),
    ;

    /// Returns a copy of this context with the span context included as a
    /// remote span identity, never confused with a live span.
    ///
    /// This is useful for building propagators.
    fn with_remote_span_context(&self, span_context: SpanContext) -> (r: Self)
        ensures
            r.attached_remote() == Some(span_context),
            r.attached_span() == self.attached_span(),
    ;

    /// Returns the remote span identity stored in this context, or none if
    /// no remote span context has been set.
    ///
    /// This is useful for building tracers.
    fn remote_span_context(&self) -> (r: Option<SpanContext>)
        ensures
            r == self.attached_remote(),
    ;
}

impl TraceContextExt for Context {
    open spec fn attached_span(self) -> Option<SpanObject> {
        match self.spec_get(ValueKind::Span) {
            Some(ContextValue::Span(span)) => Some(span),
            _ => None,
        }
    }

    open spec fn attached_remote(self) -> Option<SpanContext> {
        spec_remote_of(self)
    }

    fn current_with_span(register: &CurrentContextRegister, span: SpanObject) -> (r: Self) {
        Context::current_with_value(register, ContextValue::Span(span))
    }

    fn with_span(&self, span: SpanObject) -> (r: Self) {
        self.with_value(ContextValue::Span(span))
    }

    fn span(&self) -> (r: SpanObject) {
        proof {
            lemma_entries_kind_consistent(*self);
        }
        match self.get(ValueKind::Span) {
            Some(ContextValue::Span(span)) => span,
            _ => SpanObject::Noop(NoopSpan {  }),
        }
    }

    fn with_remote_span_context(&self, span_context: SpanContext) -> (r: Self) {
        self.with_value(ContextValue::RemoteSpanContext(span_context))
    }

    fn remote_span_context(&self) -> (r: Option<SpanContext>) {
        proof {
            lemma_entries_kind_consistent(*self);
        }
        match self.get(ValueKind::RemoteSpanContext) {
            Some(ContextValue::RemoteSpanContext(sc)) => Some(sc),
            _ => None,
        }
    }
}

/// On a freshly initialized register — nothing ever entered — the current
/// context is the root context, its active span is the no-op span, and that
/// span's identity is the empty span context.
pub proof fn lemma_fresh_register_active_span_is_noop(register: CurrentContextRegister)
    requires
        register@.len() == 0,
    ensures
        register.spec_current().active_span() == SpanObject::Noop(NoopSpan {  }),
        register.spec_current().active_span().identity() == SpanContext::spec_empty(),
{
}

/// Reading back the remote span identity just attached finds exactly it: for
/// all contexts `c` and identities `rsc`, the context derived from `c` by
/// attaching `rsc` as remote span context reports `Some(rsc)`.
pub proof fn lemma_remote_round_trip(c: Context, rsc: SpanContext)
    ensures
        c.spec_with_value(ContextValue::RemoteSpanContext(rsc)).attached_remote() == Some(rsc),
{
}

/// A context never given a remote span identity reports none: the root
/// context has no remote span context, and attaching a span preserves that
/// absence — so, by induction, any context built only by attaching spans
/// still reports no remote span context.
pub proof fn lemma_remote_absent_unless_attached(c: Context, span: SpanObject)
    ensures
        Context::Empty.attached_remote() is None,
        c.attached_remote() is None ==> c.spec_with_value(
            ContextValue::Span(span),
        ).attached_remote() is None,
{
}

/// Derivation never mutates the parent: after attaching a new span, a
/// previously captured context still shows its old active span, while the
/// derived context shows the new one.
pub proof fn lemma_derivation_preserves_captured_span(c: Context, span: SpanObject)
    ensures
        c.spec_with_value(ContextValue::Span(span)).active_span() == span,
        c.spec_with_value(ContextValue::Span(span)).attached_remote() == c.attached_remote(),
{
}

} // verus!
