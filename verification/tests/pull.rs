use zsession::options::OptValue;
use zsession::options::Options;
use zsession::session::Session;
use zsession::types::KeyExpr;
use zsession::types::Reliability;
use zsession::types::Sample;
use zsession::types::SampleKind;
use zsession::types::Value;
use zsession::types::ZenohId;

fn sample(text: &str, payload: u8) -> Sample {
    Sample {
        key_expr: KeyExpr::new(text.to_string()),
        value: Value {
            payload: vec![payload],
            encoding: String::new(),
        },
        kind: SampleKind::Put,
    }
}

#[test]
fn fresh_pull_subscriber_delivers_nothing() {
    let s = Session::new(ZenohId { bytes: vec![7] });
    let mut sub = s
        .declare_pull_subscriber(&KeyExpr::new("demo/**".to_string()), &Options::new())
        .unwrap();
    assert!(sub.pull().is_empty());
}

#[test]
fn pull_delivers_buffered_samples_in_arrival_order_then_nothing() {
    let s = Session::new(ZenohId { bytes: vec![7] });
    let mut sub = s
        .declare_pull_subscriber(&KeyExpr::new("demo/**".to_string()), &Options::new())
        .unwrap();

    // Samples arrive while no pull has been called: none is delivered,
    // since only `pull` ever hands a batch to the handler.
    sub.buffer_sample(sample("demo/a", 1));
    sub.buffer_sample(sample("demo/b", 2));
    sub.buffer_sample(sample("demo/c", 3));

    let batch = sub.pull();
    assert_eq!(
        batch,
        vec![
            sample("demo/a", 1),
            sample("demo/b", 2),
            sample("demo/c", 3),
        ]
    );

    // Nothing new buffered: the next pull delivers nothing.
    assert!(sub.pull().is_empty());
}

#[test]
fn pull_keeps_the_subscription_binding() {
    let s = Session::new(ZenohId { bytes: vec![7] });
    let mut opts = Options::new();
    opts.set(
        "reliability".to_string(),
        OptValue::Rely(Reliability::Reliable),
    );
    let mut sub = s
        .declare_pull_subscriber(&KeyExpr::new("demo/x".to_string()), &opts)
        .unwrap();
    sub.buffer_sample(sample("demo/x", 9));
    let _ = sub.pull();
    assert_eq!(sub.key_expr.text, "demo/x".to_string());
    assert_eq!(sub.reliability, Some(Reliability::Reliable));
    assert!(!sub.local);
}
