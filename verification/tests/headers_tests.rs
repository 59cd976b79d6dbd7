use haproxy_otel::headers::{
    filter_injected_headers, filter_tracing_headers, propagation_header, should_inject,
};

fn pairs(names: &[&str]) -> Vec<(String, String)> {
    names.iter().map(|n| (n.to_string(), format!("value-of-{n}"))).collect()
}

fn names(headers: &[(String, String)]) -> Vec<String> {
    headers.iter().map(|(n, _)| n.clone()).collect()
}

#[test]
fn silent_sampler_suppresses_only_the_sampling_header() {
    let b3 = pairs(&["x-b3-traceid", "x-b3-spanid", "x-b3-sampled"]);
    let silent = filter_injected_headers(&b3, true);
    assert_eq!(names(&silent), vec!["x-b3-traceid", "x-b3-spanid"]);
    let loud = filter_injected_headers(&b3, false);
    assert_eq!(loud, b3);
}

#[test]
fn sampling_header_suppression_is_case_insensitive() {
    let b3 = pairs(&["X-B3-Sampled", "x-b3-traceid"]);
    let silent = filter_injected_headers(&b3, true);
    assert_eq!(names(&silent), vec!["x-b3-traceid"]);
}

#[test]
fn should_inject_basic() {
    assert!(should_inject("x-b3-sampled", false));
    assert!(!should_inject("x-b3-sampled", true));
    assert!(should_inject("traceparent", true));
    assert!(should_inject("x-b3-traceid", true));
}

#[test]
fn extraction_sees_only_the_allow_list() {
    let headers = pairs(&[
        "host",
        "cookie",
        "traceparent",
        "tracestate",
        "authorization",
        "b3",
        "x-b3-traceid",
        "uber-trace-id",
        "x-forwarded-for",
    ]);
    let kept = filter_tracing_headers(&headers);
    assert_eq!(
        names(&kept),
        vec!["host", "traceparent", "tracestate", "b3", "x-b3-traceid", "uber-trace-id"]
    );
    for (name, value) in &kept {
        assert_eq!(value, &format!("value-of-{name}"));
    }
}

#[test]
fn propagation_header_prefixes() {
    assert!(propagation_header("x-b3-parentspanid"));
    assert!(propagation_header("uberctx-tenant"));
    assert!(!propagation_header("x-request-id"));
    assert!(!propagation_header("traceparent2"));
    assert!(!propagation_header("accept"));
}
