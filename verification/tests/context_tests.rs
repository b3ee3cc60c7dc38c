use trace_context::context::Context;
use trace_context::context::ContextValue;
use trace_context::context::CurrentContextRegister;
use trace_context::context::ValueKind;
use trace_context::span::NoopSpan;
use trace_context::span::SpanContext;
use trace_context::span::SpanObject;

fn span_value(trace_id: u128, span_id: u64) -> ContextValue {
    ContextValue::Span(SpanObject::Recording(SpanContext::new(trace_id, span_id, 0, false)))
}

#[test]
fn empty_context_has_nothing_attached() {
    let c = Context::empty();
    assert_eq!(c.get(ValueKind::Span), None);
    assert_eq!(c.get(ValueKind::RemoteSpanContext), None);
}

#[test]
fn lookup_finds_the_value_just_attached() {
    let c = Context::empty();
    let v = span_value(1, 2);
    let derived = c.with_value(v);
    assert_eq!(derived.get(ValueKind::Span), Some(v));
}

#[test]
fn lookup_finds_value_attached_deeper_in_the_chain() {
    let c = Context::empty();
    let v = span_value(1, 2);
    let rsc = ContextValue::RemoteSpanContext(SpanContext::new(3, 4, 1, true));
    let derived = c.with_value(v).with_value(rsc);
    assert_eq!(derived.get(ValueKind::Span), Some(v));
    assert_eq!(derived.get(ValueKind::RemoteSpanContext), Some(rsc));
}

#[test]
fn newest_attachment_of_a_kind_shadows_the_older() {
    let c = Context::empty();
    let v1 = span_value(1, 2);
    let v2 = span_value(3, 4);
    let derived = c.with_value(v1).with_value(v2);
    assert_eq!(derived.get(ValueKind::Span), Some(v2));
}

#[test]
fn derivation_never_mutates_the_parent() {
    let v1 = span_value(1, 2);
    let v2 = span_value(3, 4);
    let captured = Context::empty().with_value(v1);
    let derived = captured.with_value(v2);
    // the previously captured context still shows the old value
    assert_eq!(captured.get(ValueKind::Span), Some(v1));
    assert_eq!(derived.get(ValueKind::Span), Some(v2));
}

#[test]
fn attaching_one_kind_leaves_the_other_kind_as_it_was() {
    let v = span_value(1, 2);
    let rsc = ContextValue::RemoteSpanContext(SpanContext::new(3, 4, 1, true));
    let with_span = Context::empty().with_value(v);
    let also_remote = with_span.with_value(rsc);
    assert_eq!(also_remote.get(ValueKind::Span), Some(v));
    assert_eq!(with_span.get(ValueKind::RemoteSpanContext), None);
}

#[test]
fn fresh_register_reports_the_empty_context() {
    let reg = CurrentContextRegister::new();
    let current = reg.current();
    assert_eq!(current.get(ValueKind::Span), None);
    assert_eq!(current.get(ValueKind::RemoteSpanContext), None);
}

#[test]
fn register_reports_most_recently_entered_snapshot() {
    let mut reg = CurrentContextRegister::new();
    let v1 = span_value(1, 2);
    let v2 = span_value(3, 4);
    let c1 = Context::current_with_value(&reg, v1);
    reg.enter(c1);
    assert_eq!(reg.current().get(ValueKind::Span), Some(v1));
    let c2 = Context::current_with_value(&reg, v2);
    reg.enter(c2);
    assert_eq!(reg.current().get(ValueKind::Span), Some(v2));
}

#[test]
fn exit_restores_the_prior_snapshot() {
    let mut reg = CurrentContextRegister::new();
    let v1 = span_value(1, 2);
    let v2 = span_value(3, 4);
    reg.enter(Context::empty().with_value(v1));
    reg.enter(Context::empty().with_value(v2));
    let exited = reg.exit();
    assert_eq!(exited.unwrap().get(ValueKind::Span), Some(v2));
    assert_eq!(reg.current().get(ValueKind::Span), Some(v1));
    let exited = reg.exit();
    assert_eq!(exited.unwrap().get(ValueKind::Span), Some(v1));
    assert_eq!(reg.current().get(ValueKind::Span), None);
}

#[test]
fn exit_on_a_fresh_register_reports_nothing() {
    let mut reg = CurrentContextRegister::new();
    assert!(reg.exit().is_none());
}

#[test]
fn cloned_context_resolves_like_the_original() {
    let v = span_value(1, 2);
    let c = Context::empty().with_value(v);
    let copy = c.clone();
    assert_eq!(copy.get(ValueKind::Span), Some(v));
    assert_eq!(copy.get(ValueKind::RemoteSpanContext), None);
}

#[test]
fn noop_span_operations_do_nothing_and_identity_is_empty() {
    let noop = NoopSpan::new();
    noop.record_event("an event");
    noop.set_status("ok");
    noop.end();
    assert_eq!(noop.span_context(), SpanContext::empty_context());
}

#[test]
fn span_object_reports_its_identity() {
    let sc = SpanContext::new(7, 9, 1, false);
    let recording = SpanObject::Recording(sc);
    assert_eq!(recording.span_context(), sc);
    assert!(recording.is_recording());
    let noop = SpanObject::Noop(NoopSpan::new());
    assert_eq!(noop.span_context(), SpanContext::empty_context());
    assert!(!noop.is_recording());
}
