use haproxy_otel::cache::CorrelationCache;
use haproxy_otel::config::SamplerKind;
use haproxy_otel::hex::trace_key;
use haproxy_otel::lifecycle::{
    complete_client_span, complete_server_span, run_lifecycle, set_span_attribute,
    start_client_span, start_server_span, RequestScratch,
};
use haproxy_otel::span::{
    Attr, AttrValue, ParentContext, RequestInfo, SpanKind, SpanStatus,
};

fn sample_request() -> RequestInfo {
    RequestInfo {
        method: "GET".to_string(),
        path_and_query: "/shop/cart?item=3".to_string(),
        host: "shop.example".to_string(),
        peer_addr: "192.0.2.7".to_string(),
    }
}

fn fresh_id() -> Vec<u8> {
    (0u8..16u8).collect()
}

fn attr<'a>(attrs: &'a [Attr], key: &str) -> Option<&'a AttrValue> {
    attrs.iter().find(|a| a.key == key).map(|a| &a.value)
}

#[test]
fn trace_key_is_lowercase_hex() {
    assert_eq!(trace_key(&fresh_id()), "000102030405060708090a0b0c0d0e0f");
    assert_eq!(trace_key(&vec![0xabu8; 16]), "ab".repeat(16));
}

#[test]
fn full_lifecycle_produces_two_linked_spans() {
    let (spans, injected) = run_lifecycle(
        SamplerKind::ParentBased,
        true,
        &sample_request(),
        None,
        fresh_id(),
        11,
        22,
        200,
        "OK",
        "srv1",
        200,
        "fe_main",
        "be_shop",
        "----",
        10,
        11,
        12,
        13,
    );
    assert!(injected);
    assert_eq!(spans.len(), 2);
    let client = &spans[0];
    let server = &spans[1];
    assert_eq!(client.kind, SpanKind::Client);
    assert_eq!(server.kind, SpanKind::Server);
    assert_eq!(client.parent_span_id, Some(server.span_id));
    assert_eq!(client.trace_id, server.trace_id);
    assert_eq!(server.name, "GET shop.example");
    assert_eq!(client.name, "upstream");
    assert_eq!(server.start_time, 10);
    assert_eq!(server.end_time, Some(13));
    assert_eq!(client.start_time, 11);
    assert_eq!(client.end_time, Some(12));
    assert_eq!(client.events, vec!["received response headers".to_string()]);
    assert_eq!(client.status, SpanStatus::Okay);
    assert_eq!(server.status, SpanStatus::Okay);
    assert_eq!(attr(&server.attrs, "url.path"), Some(&AttrValue::Text("/shop/cart".to_string())));
    assert_eq!(attr(&server.attrs, "url.query"), Some(&AttrValue::Text("item=3".to_string())));
    assert_eq!(
        attr(&server.attrs, "network.peer.address"),
        Some(&AttrValue::Text("192.0.2.7".to_string()))
    );
    assert_eq!(
        attr(&server.attrs, "haproxy.frontend.name"),
        Some(&AttrValue::Text("fe_main".to_string()))
    );
    assert_eq!(
        attr(&server.attrs, "haproxy.backend.name"),
        Some(&AttrValue::Text("be_shop".to_string()))
    );
    assert_eq!(
        attr(&server.attrs, "haproxy.termination_state"),
        Some(&AttrValue::Text("----".to_string()))
    );
    assert_eq!(attr(&server.attrs, "http.response.status_code"), Some(&AttrValue::Int(200)));
    assert_eq!(attr(&client.attrs, "http.response.status_code"), Some(&AttrValue::Int(200)));
    assert_eq!(attr(&client.attrs, "haproxy.server.name"), Some(&AttrValue::Text("srv1".to_string())));
}

#[test]
fn full_lifecycle_under_a_remote_parent_keeps_its_trace() {
    let parent = ParentContext { trace_id: vec![0xccu8; 16], span_id: 77, sampled: true };
    let (spans, _) = run_lifecycle(
        SamplerKind::ParentBased,
        true,
        &sample_request(),
        Some(parent),
        fresh_id(),
        11,
        22,
        200,
        "OK",
        "srv1",
        200,
        "fe",
        "be",
        "----",
        10,
        11,
        12,
        13,
    );
    assert_eq!(spans.len(), 2);
    assert_eq!(spans[0].trace_id, vec![0xccu8; 16]);
    assert_eq!(spans[1].trace_id, vec![0xccu8; 16]);
    assert_eq!(spans[1].parent_span_id, Some(77));
    assert_eq!(spans[0].parent_span_id, Some(11));
}

#[test]
fn disabled_client_span_yields_one_span_and_no_injection() {
    let (spans, injected) = run_lifecycle(
        SamplerKind::ParentBased,
        false,
        &sample_request(),
        None,
        fresh_id(),
        11,
        22,
        200,
        "OK",
        "srv1",
        200,
        "fe_main",
        "be_shop",
        "----",
        10,
        11,
        12,
        13,
    );
    assert!(!injected);
    assert_eq!(spans.len(), 1);
    assert_eq!(spans[0].kind, SpanKind::Server);
}

#[test]
fn upstream_5xx_marks_client_span_failed() {
    let (spans, _) = run_lifecycle(
        SamplerKind::AlwaysOn,
        true,
        &sample_request(),
        None,
        fresh_id(),
        1,
        2,
        503,
        "Service Unavailable",
        "srv1",
        500,
        "fe",
        "be",
        "SH--",
        1,
        2,
        3,
        4,
    );
    assert_eq!(spans[0].status, SpanStatus::Failed("Service Unavailable".to_string()));
    assert_eq!(spans[1].status, SpanStatus::Failed("5xx status code".to_string()));
}

#[test]
fn remote_parent_continues_its_trace() {
    let mut cache = CorrelationCache::new();
    let mut scratch = RequestScratch::new();
    let parent = ParentContext { trace_id: vec![0xaau8; 16], span_id: 77, sampled: false };
    start_server_span(
        &mut cache,
        &mut scratch,
        SamplerKind::ParentBased,
        &sample_request(),
        Some(parent),
        fresh_id(),
        5,
        100,
    );
    assert!(scratch.owns_server_span);
    assert_eq!(scratch.trace_key.as_deref(), Some("aa".repeat(16).as_str()));
    let ctx = cache.get(&"aa".repeat(16)).expect("context must be cached");
    assert_eq!(ctx.trace_id, vec![0xaau8; 16]);
    assert!(!ctx.sampled);
    assert_eq!(ctx.active.parent_span_id, Some(77));
    let client = start_client_span(&cache, &scratch, true, &sample_request(), 6, 101)
        .expect("client span must attach");
    assert_eq!(client.active.parent_span_id, Some(5));
    assert_eq!(client.active.trace_id, vec![0xaau8; 16]);
}

#[test]
fn client_span_skipped_without_cached_context() {
    let cache = CorrelationCache::new();
    let scratch = RequestScratch::new();
    let client = start_client_span(&cache, &scratch, true, &sample_request(), 6, 101);
    assert!(client.is_none());
    assert!(complete_client_span(client, 200, "OK", "srv", 102).is_none());
}

#[test]
fn server_completion_is_a_no_op_without_ownership_and_idempotent() {
    let mut cache = CorrelationCache::new();
    let mut scratch = RequestScratch::new();
    assert!(complete_server_span(&mut cache, &scratch, 200, "fe", "be", "--", 9).is_none());
    start_server_span(
        &mut cache,
        &mut scratch,
        SamplerKind::AlwaysOn,
        &sample_request(),
        None,
        fresh_id(),
        5,
        100,
    );
    let first = complete_server_span(&mut cache, &scratch, 200, "fe", "be", "--", 110);
    assert!(first.is_some());
    let second = complete_server_span(&mut cache, &scratch, 200, "fe", "be", "--", 111);
    assert!(second.is_none());
}

#[test]
fn set_span_attribute_updates_cached_context() {
    let mut cache = CorrelationCache::new();
    let mut scratch = RequestScratch::new();
    start_server_span(
        &mut cache,
        &mut scratch,
        SamplerKind::AlwaysOn,
        &sample_request(),
        None,
        fresh_id(),
        5,
        100,
    );
    assert!(set_span_attribute(&mut cache, &scratch, "shop.tier", Some("gold".to_string())));
    assert!(!set_span_attribute(&mut cache, &scratch, "shop.tier", None));
    let key = scratch.trace_key.clone().unwrap();
    let ctx = cache.get(&key).expect("context must still be cached");
    let last = ctx.active.attrs.last().expect("attribute must be appended");
    assert_eq!(last.key, "shop.tier");
    assert_eq!(last.value, AttrValue::Text("gold".to_string()));
}

#[test]
fn second_server_span_start_overwrites_the_cached_context() {
    let mut cache = CorrelationCache::new();
    let mut scratch = RequestScratch::new();
    let id = vec![0x11u8; 16];
    start_server_span(
        &mut cache,
        &mut scratch,
        SamplerKind::AlwaysOn,
        &sample_request(),
        None,
        id.clone(),
        1,
        100,
    );
    start_server_span(
        &mut cache,
        &mut scratch,
        SamplerKind::AlwaysOn,
        &sample_request(),
        None,
        id,
        2,
        105,
    );
    let ctx = cache.get(&"11".repeat(16)).expect("context must be cached");
    assert_eq!(ctx.active.span_id, 2);
    assert_eq!(ctx.active.start_time, 105);
}

#[test]
fn always_off_sampler_marks_trace_unsampled() {
    let mut cache = CorrelationCache::new();
    let mut scratch = RequestScratch::new();
    start_server_span(
        &mut cache,
        &mut scratch,
        SamplerKind::AlwaysOff,
        &sample_request(),
        None,
        fresh_id(),
        5,
        100,
    );
    let key = scratch.trace_key.clone().unwrap();
    assert!(!cache.get(&key).unwrap().sampled);
}
