use trace_context::context::Context;
use trace_context::context::CurrentContextRegister;
use trace_context::span::NoopSpan;
use trace_context::span::SpanContext;
use trace_context::span::SpanObject;
use trace_context::span_ext::TraceContextExt;

#[test]
fn span_on_a_fresh_process_is_the_noop_span() {
    // freshly initialized: nothing was ever entered
    let reg = CurrentContextRegister::new();
    let current = Context::current(&reg);
    let span = current.span();
    assert_eq!(span.span_context(), SpanContext::empty_context());
    assert!(!span.is_recording());
}

#[test]
fn span_returns_the_attached_span() {
    let sc = SpanContext::new(11, 22, 1, false);
    let span = SpanObject::Recording(sc);
    let c = Context::empty().with_span(span);
    assert_eq!(c.span(), span);
    assert_eq!(c.span().span_context(), sc);
}

#[test]
fn attaching_a_span_shadows_the_previous_one() {
    let first = SpanObject::Recording(SpanContext::new(1, 2, 0, false));
    let second = SpanObject::Recording(SpanContext::new(3, 4, 0, false));
    let c = Context::empty().with_span(first).with_span(second);
    assert_eq!(c.span(), second);
}

#[test]
fn captured_context_still_shows_its_old_span_after_derivation() {
    let old_span = SpanObject::Recording(SpanContext::new(1, 2, 0, false));
    let new_span = SpanObject::Recording(SpanContext::new(3, 4, 0, false));
    let captured = Context::empty().with_span(old_span);
    let derived = captured.with_span(new_span);
    assert_eq!(captured.span(), old_span);
    assert_eq!(derived.span(), new_span);
}

#[test]
fn remote_span_context_round_trips() {
    let rsc = SpanContext::new(5, 6, 1, true);
    let c = Context::empty();
    assert_eq!(c.with_remote_span_context(rsc).remote_span_context(), Some(rsc));
    // also on a context that already carries a span
    let with_span = c.with_span(SpanObject::Recording(SpanContext::new(1, 2, 0, false)));
    assert_eq!(with_span.with_remote_span_context(rsc).remote_span_context(), Some(rsc));
}

#[test]
fn remote_span_context_is_absent_unless_attached() {
    let c = Context::empty();
    assert_eq!(c.remote_span_context(), None);
    let with_span = c.with_span(SpanObject::Recording(SpanContext::new(1, 2, 0, false)));
    assert_eq!(with_span.remote_span_context(), None);
}

#[test]
fn remote_span_context_is_distinct_from_the_active_span() {
    let rsc = SpanContext::new(5, 6, 1, true);
    let c = Context::empty().with_remote_span_context(rsc);
    // attaching a remote identity fabricates no local span
    assert_eq!(c.span(), SpanObject::Noop(NoopSpan::new()));
    assert_eq!(c.remote_span_context(), Some(rsc));
}

#[test]
fn current_with_span_derives_from_the_current_snapshot() {
    let mut reg = CurrentContextRegister::new();
    let rsc = SpanContext::new(5, 6, 1, true);
    reg.enter(Context::empty().with_remote_span_context(rsc));
    let span = SpanObject::Recording(SpanContext::new(1, 2, 0, false));
    let derived: Context = TraceContextExt::current_with_span(&reg, span);
    assert_eq!(derived.span(), span);
    // the remote identity of the current snapshot is carried over
    assert_eq!(derived.remote_span_context(), Some(rsc));
    // the register itself was not changed
    assert_eq!(reg.current().span(), SpanObject::Noop(NoopSpan::new()));
}

#[test]
fn newer_remote_span_context_shadows_the_older() {
    let first = SpanContext::new(1, 2, 1, true);
    let second = SpanContext::new(3, 4, 1, true);
    let c = Context::empty().with_remote_span_context(first).with_remote_span_context(second);
    assert_eq!(c.remote_span_context(), Some(second));
}
