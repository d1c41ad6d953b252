use zsession::options::OptName;
use zsession::options::OptValue;
use zsession::options::Options;
use zsession::options::OverlayError;
use zsession::session::Publisher;
use zsession::session::Session;
use zsession::types::CongestionControl;
use zsession::types::ConsolidationMode;
use zsession::types::KeyExpr;
use zsession::types::Priority;
use zsession::types::QueryTarget;
use zsession::types::Reliability;
use zsession::types::SampleKind;
use zsession::types::Selector;
use zsession::types::Value;
use zsession::types::ZenohId;

fn session() -> Session {
    Session::new(ZenohId { bytes: vec![1, 2, 3, 4] })
}

fn key(text: &str) -> KeyExpr {
    KeyExpr::new(text.to_string())
}

fn value(payload: &[u8]) -> Value {
    Value {
        payload: payload.to_vec(),
        encoding: "text/plain".to_string(),
    }
}

#[test]
fn session_keeps_its_identifier() {
    let s = session();
    assert_eq!(s.zid().bytes, vec![1, 2, 3, 4]);
}

#[test]
fn peer_enumeration_wraps_each_identifier_in_order() {
    let s = session();
    let raw = vec![vec![0xA0, 0xA1], vec![0xB0], vec![]];
    let routers = s.routers_zid(&raw);
    assert_eq!(routers.len(), 3);
    assert_eq!(routers[0].bytes, vec![0xA0, 0xA1]);
    assert_eq!(routers[1].bytes, vec![0xB0]);
    assert!(routers[2].bytes.is_empty());
    let peers = s.peers_zid(&Vec::new());
    assert!(peers.is_empty());
}

#[test]
fn key_expr_clone_preserves_the_text() {
    let k = key("demo/**");
    assert_eq!(k.clone(), k);
}

#[test]
fn put_defaults_to_put_kind() {
    let s = session();
    let req = s.put(&key("demo/a"), value(b"hi"), &Options::new()).unwrap();
    assert_eq!(req.key_expr.text, "demo/a".to_string());
    assert_eq!(req.value.payload, b"hi".to_vec());
    assert_eq!(req.kind, SampleKind::Put);
    assert_eq!(req.congestion_control, None);
    assert_eq!(req.priority, None);
    assert_eq!(req.local_routing, None);
}

#[test]
fn put_applies_overrides() {
    let s = session();
    let mut opts = Options::new();
    opts.set("kind".to_string(), OptValue::Kind(SampleKind::Delete));
    opts.set(
        "congestion_control".to_string(),
        OptValue::Congestion(CongestionControl::Block),
    );
    let req = s.put(&key("demo/a"), value(b"hi"), &opts).unwrap();
    assert_eq!(req.kind, SampleKind::Delete);
    assert_eq!(req.congestion_control, Some(CongestionControl::Block));
}

#[test]
fn put_with_ill_typed_override_builds_no_request() {
    let s = session();
    let mut opts = Options::new();
    opts.set("local_routing".to_string(), OptValue::Foreign);
    assert_eq!(
        s.put(&key("demo/a"), value(b"hi"), &opts),
        Err(OverlayError::WrongType(OptName::LocalRouting))
    );
}

#[test]
fn delete_defaults_to_delete_kind_and_empty_payload() {
    let s = session();
    let req = s.delete(&key("demo/a"), &Options::new()).unwrap();
    assert_eq!(req.kind, SampleKind::Delete);
    assert!(req.value.payload.is_empty());
    assert!(req.value.encoding.is_empty());
}

#[test]
fn get_carries_selector_and_overrides() {
    let s = session();
    let selector = Selector {
        key_expr: key("demo/**"),
        parameters: "arg=1".to_string(),
    };
    let mut opts = Options::new();
    opts.set(
        "consolidation".to_string(),
        OptValue::Consolidation(ConsolidationMode::Monotonic),
    );
    opts.set(
        "target".to_string(),
        OptValue::Target(QueryTarget::BestMatching),
    );
    let req = s.get(&selector, &opts).unwrap();
    assert_eq!(req.selector, selector);
    assert_eq!(req.consolidation, Some(ConsolidationMode::Monotonic));
    assert_eq!(req.target, Some(QueryTarget::BestMatching));
    assert_eq!(req.local_routing, None);
}

#[test]
fn get_with_ill_typed_override_registers_nothing() {
    let s = session();
    let selector = Selector {
        key_expr: key("demo/**"),
        parameters: String::new(),
    };
    let mut opts = Options::new();
    opts.set("consolidation".to_string(), OptValue::Flag(true));
    assert_eq!(
        s.get(&selector, &opts),
        Err(OverlayError::WrongType(OptName::Consolidation))
    );
}

#[test]
fn declare_keyexpr_denotes_the_same_expression() {
    let s = session();
    let optimized = s.declare_keyexpr(&key("demo/a"));
    assert_eq!(optimized.text, "demo/a".to_string());
}

#[test]
fn declare_queryable_carries_complete() {
    let s = session();
    let mut opts = Options::new();
    opts.set("complete".to_string(), OptValue::Flag(true));
    let q = s.declare_queryable(key("demo/q"), &opts).unwrap();
    assert_eq!(q.key_expr.text, "demo/q".to_string());
    assert_eq!(q.complete, Some(true));
}

#[test]
fn declare_publisher_and_reuse_its_key() {
    let s = session();
    let mut opts = Options::new();
    opts.set("priority".to_string(), OptValue::Prio(Priority::DataLow));
    let p = s.declare_publisher(key("demo/p"), &opts).unwrap();
    assert_eq!(p.key_expr.text, "demo/p".to_string());
    assert_eq!(p.priority, Some(Priority::DataLow));

    let req = p.put(value(b"x"));
    assert_eq!(req.key_expr.text, "demo/p".to_string());
    assert_eq!(req.kind, SampleKind::Put);
    assert_eq!(req.priority, Some(Priority::DataLow));

    let del = p.delete();
    assert_eq!(del.key_expr.text, "demo/p".to_string());
    assert_eq!(del.kind, SampleKind::Delete);
    assert!(del.value.payload.is_empty());
}

#[test]
fn publisher_pynew_is_identity() {
    let s = session();
    let p = s.declare_publisher(key("demo/p"), &Options::new()).unwrap();
    let q = Publisher::pynew(p);
    assert_eq!(q.key_expr(), key("demo/p"));
}

#[test]
fn declare_subscriber_carries_its_configuration() {
    let s = session();
    let mut opts = Options::new();
    opts.set("local".to_string(), OptValue::Flag(true));
    opts.set(
        "reliability".to_string(),
        OptValue::Rely(Reliability::BestEffort),
    );
    let sub = s.declare_subscriber(&key("demo/s"), &opts).unwrap();
    assert_eq!(sub.key_expr.text, "demo/s".to_string());
    assert!(sub.local);
    assert_eq!(sub.reliability, Some(Reliability::BestEffort));
}

#[test]
fn declare_subscriber_rejects_ill_typed_reliability() {
    let s = session();
    let mut opts = Options::new();
    opts.set("reliability".to_string(), OptValue::Foreign);
    assert_eq!(
        s.declare_subscriber(&key("demo/s"), &opts),
        Err(OverlayError::WrongType(OptName::Reliability))
    );
}
