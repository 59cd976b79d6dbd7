use haproxy_otel::cache::CorrelationCache;
use haproxy_otel::span::{Attr, AttrValue, SpanKind, SpanRecord, SpanStatus, TraceContext};

fn sample_context(tag: i64) -> TraceContext {
    TraceContext {
        trace_id: vec![7u8; 16],
        sampled: true,
        active: SpanRecord {
            kind: SpanKind::Server,
            name: "GET example".to_string(),
            trace_id: vec![7u8; 16],
            span_id: 42,
            parent_span_id: None,
            start_time: 100,
            end_time: None,
            attrs: vec![Attr { key: "tag".to_string(), value: AttrValue::Int(tag) }],
            events: vec![],
            status: SpanStatus::Unset,
        },
    }
}

#[test]
fn store_then_get_round_trips() {
    let mut cache = CorrelationCache::new();
    let ctx = sample_context(1);
    cache.store("k1".to_string(), ctx.clone());
    assert_eq!(cache.get("k1"), Some(ctx.clone()));
    assert_eq!(cache.remove("k1"), Some(ctx));
    assert_eq!(cache.get("k1"), None);
}

#[test]
fn remove_is_idempotent() {
    let mut cache = CorrelationCache::new();
    cache.store("k".to_string(), sample_context(2));
    assert!(cache.remove("k").is_some());
    assert!(cache.remove("k").is_none());
    assert!(cache.remove("never-stored").is_none());
}

#[test]
fn store_is_last_write_wins() {
    let mut cache = CorrelationCache::new();
    cache.store("k".to_string(), sample_context(1));
    cache.store("k".to_string(), sample_context(2));
    let got = cache.get("k").expect("entry must be present");
    assert_eq!(got.active.attrs[0].value, AttrValue::Int(2));
}

#[test]
fn get_of_absent_key_is_none() {
    let cache = CorrelationCache::new();
    assert_eq!(cache.get("missing"), None);
}

#[test]
fn unrelated_keys_do_not_interfere() {
    let mut cache = CorrelationCache::new();
    cache.store("a".to_string(), sample_context(1));
    cache.store("b".to_string(), sample_context(2));
    assert!(cache.remove("a").is_some());
    let b = cache.get("b").expect("other entry must survive");
    assert_eq!(b.active.attrs[0].value, AttrValue::Int(2));
}
