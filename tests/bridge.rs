use pryx_host::event_bus::{
    create_event_router, DeliveryGuarantee, ErrorHandler, EventBusConfig, EventBusError,
    EventBusType, EventRouter, SystemEventKind, SystemLoggerHandler,
};
use pryx_host::permissions::{
    PermissionDecision, PermissionDialogConfig, PermissionError, PermissionManager,
};
use pryx_host::rpc::{CallTable, RpcResponse};
use pryx_host::types::SidecarError;
use serde_json::Value;

fn response(id: u64) -> RpcResponse {
    RpcResponse { jsonrpc: "2.0".to_string(), result: Value::Null, id }
}

#[test]
fn test_permission_manager_initial_state() {
    let config = PermissionDialogConfig::default();
    let manager = PermissionManager::new(config);

    let pending = manager.list_pending();
    assert!(pending.is_empty());
}

#[test]
fn permission_request_then_resolve() {
    let mut m = PermissionManager::new(PermissionDialogConfig::default());
    let id = m.request("fs.write".into(), "engine".into(), 10).unwrap();
    let pending = m.list_pending();
    assert_eq!(pending.len(), 1);
    assert_eq!(pending[0].id, id);
    assert_eq!(pending[0].capability, "fs.write");
    assert!(m.resolve(id, PermissionDecision::Approved).is_ok());
    assert!(m.list_pending().is_empty());
    assert_eq!(m.resolve(id, PermissionDecision::Denied), Err(PermissionError::NotFound { id }));
    assert_eq!(m.decision(id), Some(PermissionDecision::Approved));
}

#[test]
fn permission_requests_deduplicate() {
    let mut m = PermissionManager::new(PermissionDialogConfig::default());
    let a = m.request("net".into(), "engine".into(), 1).unwrap();
    let b = m.request("net".into(), "engine".into(), 2).unwrap();
    let c = m.request("net".into(), "host".into(), 3).unwrap();
    assert_eq!(a, b);
    assert_ne!(a, c);
    assert_eq!(m.list_pending().len(), 2);

    let mut plain = PermissionManager::new(PermissionDialogConfig { deduplicate: false, timeout_ms: 5 });
    let x = plain.request("net".into(), "engine".into(), 1).unwrap();
    let y = plain.request("net".into(), "engine".into(), 1).unwrap();
    assert_ne!(x, y);
    assert_eq!(plain.list_pending().len(), 2);
}

#[test]
fn permission_timeout_denies() {
    let mut m = PermissionManager::new(PermissionDialogConfig::default());
    let id = m.request("exec".into(), "engine".into(), 1).unwrap();
    assert_eq!(m.expire(id), PermissionDecision::Denied);
    assert!(!m.is_pending(id));
    assert_eq!(m.decision(id), Some(PermissionDecision::Denied));
    assert_eq!(m.expire(999), PermissionDecision::Denied);
    let other = m.request("read".into(), "engine".into(), 2).unwrap();
    m.resolve(other, PermissionDecision::Approved).unwrap();
    assert_eq!(m.expire(other), PermissionDecision::Approved);
}

#[test]
fn resolve_unknown_permission_is_not_found() {
    let mut m = PermissionManager::new(PermissionDialogConfig::default());
    assert_eq!(m.resolve(3, PermissionDecision::Approved), Err(PermissionError::NotFound { id: 3 }));
}

#[test]
fn calls_fail_without_endpoint() {
    let mut t = CallTable::new();
    let r = t.begin_call("ping".into(), Value::Null);
    assert!(matches!(r, Err(SidecarError::ProcessNotRunning(_))));
}

#[test]
fn responses_match_their_own_call() {
    let mut t = CallTable::new();
    t.connect();
    let a = t.begin_call("a".into(), Value::Null).unwrap();
    let b = t.begin_call("b".into(), Value::Bool(true)).unwrap();
    assert_eq!(a.jsonrpc, "2.0");
    assert_eq!(a.method, "a");
    assert_ne!(a.id, b.id);
    assert!(matches!(t.accept_response(&response(999)), Err(SidecarError::Serialization(_))));
    assert!(t.is_pending(a.id) && t.is_pending(b.id));
    assert_eq!(t.accept_response(&response(b.id)).unwrap(), b.id);
    assert!(t.is_pending(a.id));
    assert!(!t.is_pending(b.id));
    assert!(t.accept_response(&response(b.id)).is_err());
    let wrong_tag = RpcResponse { jsonrpc: "1.0".into(), result: Value::Null, id: a.id };
    assert!(t.accept_response(&wrong_tag).is_err());
    assert!(t.is_pending(a.id));
    assert!(t.abandon(a.id));
    assert!(!t.abandon(a.id));
}

#[test]
fn disconnect_fails_every_outstanding_call() {
    let mut t = CallTable::new();
    t.connect();
    let ids: Vec<u64> = (0..3).map(|_| t.begin_call("m".into(), Value::Null).unwrap().id).collect();
    let mut lost = t.disconnect();
    lost.sort();
    assert_eq!(lost, ids);
    assert!(ids.iter().all(|id| !t.is_pending(*id)));
    assert!(!t.is_connected());
    assert!(matches!(t.begin_call("m".into(), Value::Null), Err(SidecarError::ProcessNotRunning(_))));
    t.connect();
    let next = t.begin_call("m".into(), Value::Null).unwrap();
    assert!(!ids.contains(&next.id));
}

#[test]
fn test_config_default_values() {
    let config = EventBusConfig::default();
    assert_eq!(config.bus_type, EventBusType::InMemory);
    assert_eq!(config.buffer_size, 100);
    assert_eq!(config.delivery_guarantee, DeliveryGuarantee::AtMostOnce);
}

#[test]
fn test_event_bus_subscribe_to_specific_topics() {
    let mut r = EventRouter::new();
    r.subscribe_to_topics(vec!["specific_topic".to_string()], 1);
    assert_eq!(r.publish("specific_topic"), vec![1]);
    assert!(r.publish("other_topic").is_empty());
}

#[test]
fn test_event_bus_publish_subscribe() {
    let mut r = EventRouter::new();
    r.subscribe(4);
    assert_eq!(r.publish("test_topic"), vec![4]);
}

#[test]
fn router_orders_topic_subscribers_before_wildcard() {
    let mut r = EventRouter::new();
    r.subscribe(1);
    r.subscribe_to_topics(vec!["a".into(), "b".into()], 2);
    r.subscribe_to_topics(vec!["a".into()], 3);
    assert_eq!(r.publish("a"), vec![2, 3, 1]);
    assert_eq!(r.publish("b"), vec![2, 1]);
    assert_eq!(r.publish("c"), vec![1]);
    let stats = r.stats();
    assert_eq!(stats.total_events_published, 3);
    assert_eq!(stats.total_events_delivered, 6);
    assert_eq!(stats.active_handlers, 3);
    assert_eq!(stats.queued_events, 0);
}

#[test]
fn factory_router_delivery() {
    let plain = create_event_router(&EventBusConfig {
        bus_type: EventBusType::InMemory,
        delivery_guarantee: DeliveryGuarantee::ExactlyOnce,
        ..EventBusConfig::default()
    });
    assert_eq!(plain.delivery_guarantee(), DeliveryGuarantee::AtMostOnce);
    let enhanced = create_event_router(&EventBusConfig {
        bus_type: EventBusType::Enhanced,
        delivery_guarantee: DeliveryGuarantee::AtLeastOnce,
        ..EventBusConfig::default()
    });
    assert_eq!(enhanced.delivery_guarantee(), DeliveryGuarantee::AtLeastOnce);
}

#[test]
fn logger_classifies_topics() {
    let h = SystemLoggerHandler;
    assert_eq!(h.classify("agent.start"), SystemEventKind::AgentStart);
    assert_eq!(h.classify("memory.recall"), SystemEventKind::MemoryRecall);
    assert_eq!(h.classify("agent.other"), SystemEventKind::Other);
    assert!(ErrorHandler.is_system_error("system.error"));
    assert!(!ErrorHandler.is_system_error("system.errors"));
}

#[test]
fn event_bus_error_messages() {
    assert_eq!(EventBusError::InvalidTopic("x".into()).message(), "Invalid topic: x");
    assert_eq!(EventBusError::PublishError("p".into()).message(), "Publish error: p");
}

#[test]
fn cancel_fails_outstanding_calls_but_keeps_endpoint() {
    let mut t = CallTable::new();
    t.connect();
    let a = t.begin_call("m".into(), Value::Null).unwrap().id;
    assert_eq!(t.cancel_all(), vec![a]);
    assert!(!t.is_pending(a));
    assert!(t.is_connected());
    assert!(t.begin_call("m".into(), Value::Null).is_ok());
}
