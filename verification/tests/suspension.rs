use async_bridge::{
    terminate_runtime, ConnectError, Context, EventBridge, EventSource, RuntimeRegistry,
    SuspendCell, Value,
};

fn source_with(names: &[&str], accepting: bool) -> EventSource {
    let events: Vec<String> = names.iter().map(|n| n.to_string()).collect();
    EventSource::new(events, accepting)
}

#[test]
fn cell_yields_nothing_before_resolution() {
    let mut cell: SuspendCell<i64> = SuspendCell::new();
    assert!(cell.is_pending());
    assert_eq!(cell.poll(), None);
    assert!(cell.is_pending());
}

#[test]
fn cell_single_resolution() {
    let mut cell: SuspendCell<i64> = SuspendCell::new();
    cell.resolve(1);
    cell.resolve(2);
    assert_eq!(cell.poll(), Some(1));
}

#[test]
fn cell_yields_value_exactly_once() {
    let mut cell: SuspendCell<i64> = SuspendCell::new();
    cell.resolve(7);
    assert_eq!(cell.poll(), Some(7));
    assert_eq!(cell.poll(), None);
}

#[test]
fn spent_cell_ignores_writes() {
    let mut cell: SuspendCell<i64> = SuspendCell::spent();
    assert!(!cell.is_pending());
    cell.resolve(5);
    assert_eq!(cell.poll(), None);
}

#[test]
fn until_resume_yields_resumed_value() {
    let mut ctx = Context::new();
    let armed = ctx.until_resume();
    assert!(ctx.is_resumable());
    ctx.resolve(Value::Int(42));
    assert!(!ctx.is_resumable());
    assert_eq!(ctx.poll_value(armed.ticket), Some(Value::Int(42)));
    assert_eq!(ctx.poll_value(armed.ticket), None);
}

#[test]
fn poll_is_pending_before_resolution() {
    let mut ctx = Context::new();
    let armed = ctx.until_resume();
    assert_eq!(ctx.poll_value(armed.ticket), None);
    ctx.resolve(Value::Bool(true));
    assert_eq!(ctx.poll_value(armed.ticket), Some(Value::Bool(true)));
}

#[test]
fn most_recent_suspension_wins() {
    let mut ctx = Context::new();
    let first = ctx.until_resume();
    let second = ctx.until_resume();
    ctx.resolve(Value::Int(9));
    assert_eq!(ctx.poll_value(first.ticket), None);
    assert_eq!(ctx.poll_value(second.ticket), Some(Value::Int(9)));
    assert_eq!(ctx.poll_value(first.ticket), None);
}

#[test]
fn rearming_does_not_renotify_until_consumed() {
    let mut ctx = Context::new();
    let first = ctx.until_resume();
    assert!(first.notify);
    let second = ctx.until_resume();
    assert!(!second.notify);
    ctx.resolve(Value::Nil);
    let third = ctx.until_resume();
    assert!(third.notify);
}

#[test]
fn resolving_unarmed_context_is_a_no_op() {
    let mut ctx = Context::new();
    ctx.resolve(Value::Int(1));
    assert!(!ctx.is_resumable());
    let armed = ctx.until_resume();
    assert_eq!(ctx.poll_value(armed.ticket), None);
    ctx.resolve(Value::Int(2));
    assert_eq!(ctx.poll_value(armed.ticket), Some(Value::Int(2)));
}

#[test]
fn signal_forwards_event_payload() {
    let registry = RuntimeRegistry::new();
    let source = source_with(&["finished"], true);
    let mut ctx = Context::new();
    let name = "finished".to_string();
    let mut signal = ctx.signal(&registry, &source, &name).unwrap();
    assert!(signal.bridge.is_subscribed());
    let payload = vec![Value::Str("ok".to_string()), Value::Int(7)];
    signal.bridge.fire(&registry, &mut ctx, payload.clone());
    assert_eq!(ctx.poll_payload(signal.armed.ticket), Some(payload));
}

#[test]
fn bridge_fires_only_once() {
    let registry = RuntimeRegistry::new();
    let source = source_with(&["finished"], true);
    let mut ctx = Context::new();
    let name = "finished".to_string();
    let mut signal = ctx.signal(&registry, &source, &name).unwrap();
    signal.bridge.fire(&registry, &mut ctx, vec![Value::Int(1)]);
    assert!(!signal.bridge.is_subscribed());
    signal.bridge.fire(&registry, &mut ctx, vec![Value::Int(2)]);
    assert_eq!(ctx.poll_payload(signal.armed.ticket), Some(vec![Value::Int(1)]));
    assert_eq!(ctx.poll_payload(signal.armed.ticket), None);
}

#[test]
fn empty_event_payload_resumes_with_nil() {
    let registry = RuntimeRegistry::new();
    let source = source_with(&["done"], true);
    let mut ctx = Context::new();
    let name = "done".to_string();
    let mut signal = ctx.signal(&registry, &source, &name).unwrap();
    signal.bridge.fire(&registry, &mut ctx, Vec::new());
    assert_eq!(ctx.poll_value(signal.armed.ticket), Some(Value::Nil));
}

#[test]
fn connect_failure_leaves_no_suspension() {
    let registry = RuntimeRegistry::new();
    let source = source_with(&["finished"], true);
    let mut ctx = Context::new();
    let name = "missing".to_string();
    let err = ctx.signal(&registry, &source, &name).unwrap_err();
    assert_eq!(err, ConnectError::NoSuchEvent);
    assert!(!ctx.is_resumable());
    let armed = ctx.until_resume();
    ctx.resolve(Value::Int(3));
    assert_eq!(ctx.poll_value(armed.ticket), Some(Value::Int(3)));
}

#[test]
fn rejecting_source_reports_rejection() {
    let registry = RuntimeRegistry::new();
    let source = source_with(&["finished"], false);
    let mut ctx = Context::new();
    let name = "finished".to_string();
    let err = ctx.signal(&registry, &source, &name).unwrap_err();
    assert_eq!(err, ConnectError::Rejected);
    assert!(!ctx.is_resumable());
}

#[test]
fn superseded_bridge_firing_dangles_safely() {
    let registry = RuntimeRegistry::new();
    let source = source_with(&["finished"], true);
    let mut ctx = Context::new();
    let name = "finished".to_string();
    let mut signal = ctx.signal(&registry, &source, &name).unwrap();
    let newer = ctx.until_resume();
    signal.bridge.fire(&registry, &mut ctx, vec![Value::Int(5)]);
    assert_eq!(ctx.poll_payload(signal.armed.ticket), None);
    assert_eq!(ctx.poll_value(newer.ticket), None);
    ctx.resolve(Value::Int(6));
    assert_eq!(ctx.poll_value(newer.ticket), Some(Value::Int(6)));
}

#[test]
fn disconnected_bridge_never_fires() {
    let registry = RuntimeRegistry::new();
    let source = source_with(&["finished"], true);
    let mut ctx = Context::new();
    let name = "finished".to_string();
    let mut signal = ctx.signal(&registry, &source, &name).unwrap();
    signal.bridge.disconnect();
    assert!(!signal.bridge.is_subscribed());
    signal.bridge.fire(&registry, &mut ctx, vec![Value::Int(8)]);
    assert_eq!(ctx.poll_payload(signal.armed.ticket), None);
    assert!(ctx.is_resumable());
}

#[test]
fn direct_connect_mirrors_subscription_outcome() {
    let registry = RuntimeRegistry::new();
    let source = source_with(&["finished"], true);
    let mut ctx = Context::new();
    let armed = ctx.until_resume();
    let name = "finished".to_string();
    let mut bridge = EventBridge::connect(&registry, &source, &name, armed.ticket).unwrap();
    assert!(bridge.is_subscribed());
    bridge.fire(&registry, &mut ctx, vec![Value::Int(4)]);
    assert_eq!(ctx.poll_value(armed.ticket), Some(Value::Int(4)));
    let missing = "missing".to_string();
    let err = EventBridge::connect(&registry, &source, &missing, armed.ticket).unwrap_err();
    assert_eq!(err, ConnectError::NoSuchEvent);
}

#[test]
fn signal_after_teardown_is_refused() {
    let mut registry = RuntimeRegistry::new();
    terminate_runtime(&mut registry);
    let source = source_with(&["finished"], true);
    let mut ctx = Context::new();
    let name = "finished".to_string();
    let err = ctx.signal(&registry, &source, &name).unwrap_err();
    assert_eq!(err, ConnectError::Terminated);
    assert!(!ctx.is_resumable());
    let armed = ctx.until_resume();
    ctx.resolve(Value::Int(11));
    assert_eq!(ctx.poll_value(armed.ticket), Some(Value::Int(11)));
}

#[test]
fn connect_after_teardown_is_refused() {
    let mut registry = RuntimeRegistry::new();
    let mut ctx = Context::new();
    let armed = ctx.until_resume();
    terminate_runtime(&mut registry);
    let source = source_with(&["finished"], true);
    let name = "finished".to_string();
    let err = EventBridge::connect(&registry, &source, &name, armed.ticket).unwrap_err();
    assert_eq!(err, ConnectError::Terminated);
}

#[test]
fn outstanding_bridge_is_swept_after_teardown() {
    let mut registry = RuntimeRegistry::new();
    let source = source_with(&["finished"], true);
    let mut ctx = Context::new();
    let name = "finished".to_string();
    let mut signal = ctx.signal(&registry, &source, &name).unwrap();
    terminate_runtime(&mut registry);
    signal.bridge.fire(&registry, &mut ctx, vec![Value::Int(13)]);
    assert!(!signal.bridge.is_subscribed());
    assert_eq!(ctx.poll_payload(signal.armed.ticket), None);
    assert!(ctx.is_resumable());
    ctx.resolve(Value::Int(14));
    assert_eq!(ctx.poll_value(signal.armed.ticket), Some(Value::Int(14)));
}

#[test]
fn connect_error_messages_name_the_cause() {
    assert_eq!(ConnectError::NoSuchEvent.message(), "no such event on the source");
    assert_eq!(
        ConnectError::Rejected.message(),
        "the source rejected the subscription"
    );
    assert_eq!(
        ConnectError::Terminated.message(),
        "the async runtime has been torn down"
    );
}

#[test]
fn fresh_context_can_arm() {
    let ctx = Context::new();
    assert!(ctx.can_arm());
}
