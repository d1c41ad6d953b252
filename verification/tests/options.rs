use zsession::options::OptName;
use zsession::options::OptValue;
use zsession::options::Options;
use zsession::options::OverlayError;
use zsession::options::get_overlay;
use zsession::options::publisher_overlay;
use zsession::options::put_overlay;
use zsession::options::queryable_overlay;
use zsession::options::subscriber_overlay;
use zsession::types::CongestionControl;
use zsession::types::ConsolidationMode;
use zsession::types::Priority;
use zsession::types::QueryTarget;
use zsession::types::Reliability;
use zsession::types::SampleKind;

#[test]
fn put_overlay_empty_mapping_inherits_base() {
    let opts = Options::new();
    let o = put_overlay(&opts).unwrap();
    assert_eq!(o.kind, None);
    assert_eq!(o.congestion_control, None);
    assert_eq!(o.priority, None);
    assert_eq!(o.local_routing, None);
}

#[test]
fn put_overlay_applies_each_recognized_option() {
    let mut opts = Options::new();
    opts.set("kind".to_string(), OptValue::Kind(SampleKind::Delete));
    opts.set(
        "congestion_control".to_string(),
        OptValue::Congestion(CongestionControl::Block),
    );
    opts.set("priority".to_string(), OptValue::Prio(Priority::RealTime));
    opts.set("local_routing".to_string(), OptValue::Flag(true));
    let o = put_overlay(&opts).unwrap();
    assert_eq!(o.kind, Some(SampleKind::Delete));
    assert_eq!(o.congestion_control, Some(CongestionControl::Block));
    assert_eq!(o.priority, Some(Priority::RealTime));
    assert_eq!(o.local_routing, Some(true));
}

#[test]
fn put_overlay_wrong_type_fails() {
    let mut opts = Options::new();
    opts.set("kind".to_string(), OptValue::Flag(true));
    assert_eq!(
        put_overlay(&opts),
        Err(OverlayError::WrongType(OptName::Kind))
    );
}

#[test]
fn put_overlay_foreign_value_fails() {
    let mut opts = Options::new();
    opts.set("priority".to_string(), OptValue::Foreign);
    assert_eq!(
        put_overlay(&opts),
        Err(OverlayError::WrongType(OptName::Priority))
    );
}

#[test]
fn put_overlay_reports_first_invalid_in_fixed_order() {
    // The mapping lists the ill-typed priority before the ill-typed
    // congestion control, but the overlay checks its options in a fixed
    // order, so congestion control is reported.
    let mut opts = Options::new();
    opts.set("priority".to_string(), OptValue::Foreign);
    opts.set("congestion_control".to_string(), OptValue::Foreign);
    assert_eq!(
        put_overlay(&opts),
        Err(OverlayError::WrongType(OptName::CongestionControl))
    );
}

#[test]
fn put_overlay_ignores_unrecognized_names() {
    let mut with_extra = Options::new();
    with_extra.set("kind".to_string(), OptValue::Kind(SampleKind::Put));
    with_extra.set("frobnicate".to_string(), OptValue::Foreign);
    with_extra.set("complete".to_string(), OptValue::Flag(true));
    let mut without = Options::new();
    without.set("kind".to_string(), OptValue::Kind(SampleKind::Put));
    assert_eq!(put_overlay(&with_extra), put_overlay(&without));
}

#[test]
fn overlay_entry_order_does_not_matter() {
    let mut forward = Options::new();
    forward.set("priority".to_string(), OptValue::Prio(Priority::Background));
    forward.set("local_routing".to_string(), OptValue::Flag(false));
    let mut backward = Options::new();
    backward.set("local_routing".to_string(), OptValue::Flag(false));
    backward.set("priority".to_string(), OptValue::Prio(Priority::Background));
    assert_eq!(put_overlay(&forward), put_overlay(&backward));
}

#[test]
fn lookup_takes_first_occurrence() {
    let mut opts = Options::new();
    opts.set("kind".to_string(), OptValue::Kind(SampleKind::Delete));
    opts.set("kind".to_string(), OptValue::Kind(SampleKind::Put));
    assert_eq!(
        opts.lookup("kind"),
        Some(OptValue::Kind(SampleKind::Delete))
    );
    assert_eq!(opts.lookup("priority"), None);
}

#[test]
fn get_overlay_applies_recognized_options() {
    let mut opts = Options::new();
    opts.set(
        "consolidation".to_string(),
        OptValue::Consolidation(ConsolidationMode::Latest),
    );
    opts.set("target".to_string(), OptValue::Target(QueryTarget::All));
    opts.set("local_routing".to_string(), OptValue::Flag(false));
    let o = get_overlay(&opts).unwrap();
    assert_eq!(o.consolidation, Some(ConsolidationMode::Latest));
    assert_eq!(o.target, Some(QueryTarget::All));
    assert_eq!(o.local_routing, Some(false));
}

#[test]
fn get_overlay_wrong_target_fails() {
    let mut opts = Options::new();
    opts.set("target".to_string(), OptValue::Flag(true));
    assert_eq!(
        get_overlay(&opts),
        Err(OverlayError::WrongType(OptName::Target))
    );
}

#[test]
fn get_overlay_ignores_put_only_names() {
    let mut opts = Options::new();
    opts.set("kind".to_string(), OptValue::Foreign);
    let o = get_overlay(&opts).unwrap();
    assert_eq!(o.local_routing, None);
    assert_eq!(o.consolidation, None);
    assert_eq!(o.target, None);
}

#[test]
fn queryable_overlay_applies_complete() {
    let mut opts = Options::new();
    opts.set("complete".to_string(), OptValue::Flag(true));
    let o = queryable_overlay(&opts).unwrap();
    assert_eq!(o.complete, Some(true));
}

#[test]
fn queryable_overlay_wrong_complete_fails() {
    let mut opts = Options::new();
    opts.set("complete".to_string(), OptValue::Prio(Priority::Data));
    assert_eq!(
        queryable_overlay(&opts),
        Err(OverlayError::WrongType(OptName::Complete))
    );
}

#[test]
fn publisher_overlay_applies_recognized_options() {
    let mut opts = Options::new();
    opts.set("local_routing".to_string(), OptValue::Flag(true));
    opts.set("priority".to_string(), OptValue::Prio(Priority::DataHigh));
    opts.set(
        "congestion_control".to_string(),
        OptValue::Congestion(CongestionControl::Drop),
    );
    let o = publisher_overlay(&opts).unwrap();
    assert_eq!(o.local_routing, Some(true));
    assert_eq!(o.priority, Some(Priority::DataHigh));
    assert_eq!(o.congestion_control, Some(CongestionControl::Drop));
}

#[test]
fn publisher_overlay_wrong_priority_fails() {
    let mut opts = Options::new();
    opts.set("priority".to_string(), OptValue::Flag(true));
    assert_eq!(
        publisher_overlay(&opts),
        Err(OverlayError::WrongType(OptName::Priority))
    );
}

#[test]
fn subscriber_overlay_applies_recognized_options() {
    let mut opts = Options::new();
    opts.set("local".to_string(), OptValue::Flag(true));
    opts.set(
        "reliability".to_string(),
        OptValue::Rely(Reliability::Reliable),
    );
    let o = subscriber_overlay(&opts).unwrap();
    assert!(o.local);
    assert_eq!(o.reliability, Some(Reliability::Reliable));
}

#[test]
fn subscriber_overlay_local_false_is_like_absent() {
    let mut with_false = Options::new();
    with_false.set("local".to_string(), OptValue::Flag(false));
    let absent = Options::new();
    assert_eq!(subscriber_overlay(&with_false), subscriber_overlay(&absent));
}

#[test]
fn subscriber_overlay_wrong_local_fails() {
    let mut opts = Options::new();
    opts.set("local".to_string(), OptValue::Foreign);
    assert_eq!(
        subscriber_overlay(&opts),
        Err(OverlayError::WrongType(OptName::Local))
    );
}

#[test]
fn subscriber_overlay_wrong_reliability_fails() {
    let mut opts = Options::new();
    opts.set("reliability".to_string(), OptValue::Flag(true));
    assert_eq!(
        subscriber_overlay(&opts),
        Err(OverlayError::WrongType(OptName::Reliability))
    );
}
