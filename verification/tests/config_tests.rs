use haproxy_otel::config::{
    parse_filter_args, parse_level_str, parse_protocol_str, parse_sampler_str, resolve_config,
    resolve_endpoint, resolve_level, resolve_propagator, resolve_protocol, resolve_sampler,
    resolve_service_name, startup_summary, ExplicitConfig, LogLevel, OverrideSource, Protocol,
    PropagatorKind, Provenance, SamplerKind,
};

fn s(v: &str) -> Option<String> {
    Some(v.to_string())
}

fn empty_overrides() -> OverrideSource {
    OverrideSource {
        signal_protocol: None,
        general_protocol: None,
        signal_endpoint: None,
        general_endpoint: None,
        signal_sampler: None,
        general_sampler: None,
        signal_propagator: None,
        general_propagator: None,
        signal_level: None,
        general_level: None,
    }
}

#[test]
fn protocol_signal_override_beats_general() {
    let (p, prov) = resolve_protocol(&None, &s("http/json"), &s("grpc"));
    assert_eq!(p, Protocol::HttpJson);
    assert_eq!(prov, Provenance::SignalOverride);
}

#[test]
fn protocol_explicit_beats_overrides() {
    let (p, prov) = resolve_protocol(&s("grpc"), &s("http/json"), &s("http/protobuf"));
    assert_eq!(p, Protocol::Grpc);
    assert_eq!(prov, Provenance::Explicit);
}

#[test]
fn protocol_parsing_is_case_insensitive_with_legacy_names() {
    assert_eq!(parse_protocol_str("GRPC"), Some(Protocol::Grpc));
    assert_eq!(parse_protocol_str("HTTP/Protobuf"), Some(Protocol::HttpProtobuf));
    assert_eq!(parse_protocol_str("binary"), Some(Protocol::HttpProtobuf));
    assert_eq!(parse_protocol_str("JSON"), Some(Protocol::HttpJson));
    assert_eq!(parse_protocol_str("carrier-pigeon"), None);
}

#[test]
fn unknown_protocol_falls_through_to_default() {
    let (p, prov) = resolve_protocol(&s("carrier-pigeon"), &None, &None);
    assert_eq!(p, Protocol::HttpProtobuf);
    assert_eq!(prov, Provenance::Defaulted);
}

#[test]
fn empty_protocol_is_treated_as_absent() {
    let (p, prov) = resolve_protocol(&s(""), &s("grpc"), &None);
    assert_eq!(p, Protocol::Grpc);
    assert_eq!(prov, Provenance::SignalOverride);
}

#[test]
fn endpoint_http_base_gets_suffix() {
    let (e, prov) = resolve_endpoint(Protocol::HttpProtobuf, &s("http://collector:4318/"), &None, &None);
    assert_eq!(e, "http://collector:4318/v1/traces");
    assert_eq!(prov, Provenance::Explicit);
}

#[test]
fn endpoint_grpc_base_is_verbatim() {
    let (e, prov) = resolve_endpoint(Protocol::Grpc, &s("http://collector:4317"), &None, &None);
    assert_eq!(e, "http://collector:4317");
    assert_eq!(prov, Provenance::Explicit);
}

#[test]
fn endpoint_signal_override_is_byte_for_byte() {
    let (e, prov) = resolve_endpoint(Protocol::HttpProtobuf, &None, &s("http://x:1/custom"), &None);
    assert_eq!(e, "http://x:1/custom");
    assert_eq!(prov, Provenance::SignalOverride);
}

#[test]
fn endpoint_defaults_per_protocol() {
    let (e, prov) = resolve_endpoint(Protocol::HttpJson, &None, &None, &None);
    assert_eq!(e, "http://localhost:4318/v1/traces");
    assert_eq!(prov, Provenance::Defaulted);
    let (e, prov) = resolve_endpoint(Protocol::Grpc, &None, &s(""), &None);
    assert_eq!(e, "http://localhost:4317");
    assert_eq!(prov, Provenance::Defaulted);
}

#[test]
fn sampler_names_are_exact() {
    assert_eq!(parse_sampler_str("SilentOn"), Some(SamplerKind::SilentOn));
    assert_eq!(parse_sampler_str("silenton"), None);
    let (k, prov) = resolve_sampler(&s("silenton"), &None, &None);
    assert_eq!(k, SamplerKind::ParentBased);
    assert_eq!(prov, Provenance::Defaulted);
}

#[test]
fn propagator_resolution() {
    let (k, prov) = resolve_propagator(&None, &None, &s("zipkin"));
    assert_eq!(k, PropagatorKind::Zipkin);
    assert_eq!(prov, Provenance::GeneralOverride);
    let (k, prov) = resolve_propagator(&s("smoke-signal"), &None, &None);
    assert_eq!(k, PropagatorKind::W3c);
    assert_eq!(prov, Provenance::Defaulted);
}

#[test]
fn level_synonyms_and_case() {
    assert_eq!(parse_level_str("WARNING"), Some(LogLevel::Warn));
    assert_eq!(parse_level_str("TRACE"), Some(LogLevel::Debug));
    assert_eq!(parse_level_str("none"), Some(LogLevel::Error));
    assert_eq!(parse_level_str("Fatal"), Some(LogLevel::Error));
    assert_eq!(parse_level_str("Info"), Some(LogLevel::Info));
    assert_eq!(parse_level_str("verbose"), None);
}

#[test]
fn unknown_level_falls_back_to_default_with_warning() {
    let (l, prov, warned) = resolve_level(&None, &s("verbose"), &None);
    assert_eq!(l, LogLevel::Info);
    assert_eq!(prov, Provenance::Defaulted);
    assert!(warned);
}

#[test]
fn recognized_level_does_not_warn() {
    let (l, prov, warned) = resolve_level(&s("debug"), &s("verbose"), &None);
    assert_eq!(l, LogLevel::Debug);
    assert_eq!(prov, Provenance::Explicit);
    assert!(!warned);
}

#[test]
fn service_name_defaults() {
    assert_eq!(resolve_service_name(&None), "haproxy");
    assert_eq!(resolve_service_name(&s("")), "haproxy");
    assert_eq!(resolve_service_name(&s("edge")), "edge");
}

#[test]
fn resolve_config_snapshot_and_summary() {
    let explicit = ExplicitConfig {
        service_name: s("edge"),
        sampler: s("SilentOn"),
        propagator: s("jaeger"),
        endpoint: None,
        protocol: s("http/json"),
        log_level: None,
    };
    let mut ov = empty_overrides();
    ov.signal_endpoint = s("http://collector:9/v2");
    let cfg = resolve_config(&explicit, &ov);
    assert_eq!(cfg.service_name, "edge");
    assert_eq!(cfg.protocol, Protocol::HttpJson);
    assert_eq!(cfg.protocol_source, Provenance::Explicit);
    assert_eq!(cfg.endpoint, "http://collector:9/v2");
    assert_eq!(cfg.endpoint_source, Provenance::SignalOverride);
    assert_eq!(cfg.sampler, SamplerKind::SilentOn);
    assert_eq!(cfg.propagator, PropagatorKind::Jaeger);
    assert_eq!(cfg.log_level, LogLevel::Info);
    assert_eq!(cfg.log_level_source, Provenance::Defaulted);
    assert!(!cfg.log_level_warning);
    assert_eq!(
        startup_summary(&cfg),
        "service=edge protocol=http/json (explicit) endpoint=http://collector:9/v2 \
         (signal-override) propagator=jaeger sampler=SilentOn log_level=info"
    );
}

#[test]
fn filter_args_flag_parsing() {
    assert_eq!(parse_filter_args(""), None);
    assert_eq!(parse_filter_args("start_client_span=false"), Some(false));
    assert_eq!(parse_filter_args("start_client_span=true"), Some(true));
    assert_eq!(parse_filter_args("start_client_span=bogus"), Some(true));
    assert_eq!(parse_filter_args("a=b;start_client_span=false;c=d"), Some(false));
    assert_eq!(parse_filter_args("start_client_span=false;start_client_span=true"), Some(true));
    assert_eq!(parse_filter_args("start_client_span"), None);
    assert_eq!(parse_filter_args("other=false"), None);
}
