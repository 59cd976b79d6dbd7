//! Layered configuration resolution: each exporter setting is resolved from
//! explicit module configuration, a signal-specific override, a general
//! override, and a hard default, in that order of precedence, stopping at the
//! first source that yields a recognized, non-empty value.

use vstd::prelude::*;

use crate::strutil::{
    eq_ignore_case, find_char, find_idx, lemma_find_idx_bounds, matches_keyword, str_eq,
    trim_trailing, trim_trailing_slashes,
};

verus! {

/// The wire protocol used to ship finished spans.
#[derive(Clone, Copy, PartialEq, Eq, Structural, Debug)]
pub enum Protocol {
    Grpc,
    HttpProtobuf,
    HttpJson,
}

/// The propagation-header format.
#[derive(Clone, Copy, PartialEq, Eq, Structural, Debug)]
pub enum PropagatorKind {
    W3c,
    Jaeger,
    Zipkin,
}

/// The sampling strategy. `SilentOn` samples like `AlwaysOn` but suppresses
/// the sampling-decision header on injection.
#[derive(Clone, Copy, PartialEq, Eq, Structural, Debug)]
pub enum SamplerKind {
    AlwaysOn,
    SilentOn,
    AlwaysOff,
    ParentBased,
}

/// Log verbosity, from least to most verbose.
#[derive(Clone, Copy, PartialEq, Eq, Structural, Debug)]
pub enum LogLevel {
    Error,
    Warn,
    Info,
    Debug,
}

/// Which configuration source produced a resolved value.
#[derive(Clone, Copy, PartialEq, Eq, Structural, Debug)]
pub enum Provenance {
    Explicit,
    SignalOverride,
    GeneralOverride,
    Defaulted,
}

/// Protocol names are matched without regard to ASCII case; the two legacy
/// single-word names map onto the HTTP protocol pair.
pub open spec fn parse_protocol(s: Seq<char>) -> Option<Protocol> {
    if matches_keyword(s, "grpc"@) {
        Some(Protocol::Grpc)
    } else if matches_keyword(s, "http/protobuf"@) {
        Some(Protocol::HttpProtobuf)
    } else if matches_keyword(s, "http/json"@) {
        Some(Protocol::HttpJson)
    } else if matches_keyword(s, "binary"@) {
        Some(Protocol::HttpProtobuf)
    } else if matches_keyword(s, "json"@) {
        Some(Protocol::HttpJson)
    } else {
        None
    }
}

pub fn parse_protocol_str(s: &str) -> (r: Option<Protocol>)
    ensures
        r == parse_protocol(s@),
{
    if eq_ignore_case(s, "grpc") {
        Some(Protocol::Grpc)
    } else if eq_ignore_case(s, "http/protobuf") {
        Some(Protocol::HttpProtobuf)
    } else if eq_ignore_case(s, "http/json") {
        Some(Protocol::HttpJson)
    } else if eq_ignore_case(s, "binary") {
        Some(Protocol::HttpProtobuf)
    } else if eq_ignore_case(s, "json") {
        Some(Protocol::HttpJson)
    } else {
        None
    }
}

/// Sampler strategies are a small closed set of exact names.
pub open spec fn parse_sampler(s: Seq<char>) -> Option<SamplerKind> {
    if s == "AlwaysOn"@ {
        Some(SamplerKind::AlwaysOn)
    } else if s == "SilentOn"@ {
        Some(SamplerKind::SilentOn)
    } else if s == "AlwaysOff"@ {
        Some(SamplerKind::AlwaysOff)
    } else if s == "ParentBased"@ {
        Some(SamplerKind::ParentBased)
    } else {
        None
    }
}

pub fn parse_sampler_str(s: &str) -> (r: Option<SamplerKind>)
    ensures
        r == parse_sampler(s@),
{
    if str_eq(s, "AlwaysOn") {
        Some(SamplerKind::AlwaysOn)
    } else if str_eq(s, "SilentOn") {
        Some(SamplerKind::SilentOn)
    } else if str_eq(s, "AlwaysOff") {
        Some(SamplerKind::AlwaysOff)
    } else if str_eq(s, "ParentBased") {
        Some(SamplerKind::ParentBased)
    } else {
        None
    }
}

/// Propagator choices are a small closed set of exact names.
pub open spec fn parse_propagator(s: Seq<char>) -> Option<PropagatorKind> {
    if s == "w3c"@ {
        Some(PropagatorKind::W3c)
    } else if s == "jaeger"@ {
        Some(PropagatorKind::Jaeger)
    } else if s == "zipkin"@ {
        Some(PropagatorKind::Zipkin)
    } else {
        None
    }
}

pub fn parse_propagator_str(s: &str) -> (r: Option<PropagatorKind>)
    ensures
        r == parse_propagator(s@),
{
    if str_eq(s, "w3c") {
        Some(PropagatorKind::W3c)
    } else if str_eq(s, "jaeger") {
        Some(PropagatorKind::Jaeger)
    } else if str_eq(s, "zipkin") {
        Some(PropagatorKind::Zipkin)
    } else {
        None
    }
}

/// Level names are matched without regard to ASCII case. "warning" means
/// "warn" and "trace" means "debug"; "none" and "fatal" clamp onto the
/// adjacent named level, which is "error" for both.
pub open spec fn parse_level(s: Seq<char>) -> Option<LogLevel> {
    if matches_keyword(s, "error"@) {
        Some(LogLevel::Error)
    } else if matches_keyword(s, "warn"@) || matches_keyword(s, "warning"@) {
        Some(LogLevel::Warn)
    } else if matches_keyword(s, "info"@) {
        Some(LogLevel::Info)
    } else if matches_keyword(s, "debug"@) || matches_keyword(s, "trace"@) {
        Some(LogLevel::Debug)
    } else if matches_keyword(s, "none"@) || matches_keyword(s, "fatal"@) {
        Some(LogLevel::Error)
    } else {
        None
    }
}

pub fn parse_level_str(s: &str) -> (r: Option<LogLevel>)
    ensures
        r == parse_level(s@),
{
    if eq_ignore_case(s, "error") {
        Some(LogLevel::Error)
    } else if eq_ignore_case(s, "warn") || eq_ignore_case(s, "warning") {
        Some(LogLevel::Warn)
    } else if eq_ignore_case(s, "info") {
        Some(LogLevel::Info)
    } else if eq_ignore_case(s, "debug") || eq_ignore_case(s, "trace") {
        Some(LogLevel::Debug)
    } else if eq_ignore_case(s, "none") || eq_ignore_case(s, "fatal") {
        Some(LogLevel::Error)
    } else {
        None
    }
}

/// The character sequences of an optional string.
pub open spec fn opt_str_view(o: Option<String>) -> Option<Seq<char>> {
    match o {
        Some(s) => Some(s@),
        None => None,
    }
}

/// A source yields a value only if it is present and non-empty: an empty
/// string is treated as absent.
pub open spec fn nonempty_src(o: Option<Seq<char>>) -> bool {
    match o {
        Some(s) => s.len() > 0,
        None => false,
    }
}

pub open spec fn parse_opt_protocol(o: Option<Seq<char>>) -> Option<Protocol> {
    match o {
        Some(s) => parse_protocol(s),
        None => None,
    }
}

/// Protocol precedence: explicit, then signal-specific, then general
/// override; a source with an unrecognized or empty name is skipped; the
/// default is the HTTP protocol with protobuf bodies.
pub open spec fn pick_protocol(
    e: Option<Seq<char>>,
    s: Option<Seq<char>>,
    g: Option<Seq<char>>,
) -> (Protocol, Provenance) {
    match parse_opt_protocol(e) {
        Some(p) => (p, Provenance::Explicit),
        None => match parse_opt_protocol(s) {
            Some(p) => (p, Provenance::SignalOverride),
            None => match parse_opt_protocol(g) {
                Some(p) => (p, Provenance::GeneralOverride),
                None => (Protocol::HttpProtobuf, Provenance::Defaulted),
            },
        },
    }
}

pub fn resolve_protocol(
    explicit: &Option<String>,
    signal: &Option<String>,
    general: &Option<String>,
) -> (r: (Protocol, Provenance))
    ensures
        r == pick_protocol(opt_str_view(*explicit), opt_str_view(*signal), opt_str_view(*general)),
{
    if let Some(v) = explicit {
        if let Some(p) = parse_protocol_str(v.as_str()) {
            return (p, Provenance::Explicit);
        }
    }
    if let Some(v) = signal {
        if let Some(p) = parse_protocol_str(v.as_str()) {
            return (p, Provenance::SignalOverride);
        }
    }
    if let Some(v) = general {
        if let Some(p) = parse_protocol_str(v.as_str()) {
            return (p, Provenance::GeneralOverride);
        }
    }
    (Protocol::HttpProtobuf, Provenance::Defaulted)
}

pub open spec fn parse_opt_sampler(o: Option<Seq<char>>) -> Option<SamplerKind> {
    match o {
        Some(s) => parse_sampler(s),
        None => None,
    }
}

/// Sampler precedence; the default strategy is parent-based sampling.
pub open spec fn pick_sampler(
    e: Option<Seq<char>>,
    s: Option<Seq<char>>,
    g: Option<Seq<char>>,
) -> (SamplerKind, Provenance) {
    match parse_opt_sampler(e) {
        Some(p) => (p, Provenance::Explicit),
        None => match parse_opt_sampler(s) {
            Some(p) => (p, Provenance::SignalOverride),
            None => match parse_opt_sampler(g) {
                Some(p) => (p, Provenance::GeneralOverride),
                None => (SamplerKind::ParentBased, Provenance::Defaulted),
            },
        },
    }
}

pub fn resolve_sampler(
    explicit: &Option<String>,
    signal: &Option<String>,
    general: &Option<String>,
) -> (r: (SamplerKind, Provenance))
    ensures
        r == pick_sampler(opt_str_view(*explicit), opt_str_view(*signal), opt_str_view(*general)),
{
    if let Some(v) = explicit {
        if let Some(p) = parse_sampler_str(v.as_str()) {
            return (p, Provenance::Explicit);
        }
    }
    if let Some(v) = signal {
        if let Some(p) = parse_sampler_str(v.as_str()) {
            return (p, Provenance::SignalOverride);
        }
    }
    if let Some(v) = general {
        if let Some(p) = parse_sampler_str(v.as_str()) {
            return (p, Provenance::GeneralOverride);
        }
    }
    (SamplerKind::ParentBased, Provenance::Defaulted)
}

pub open spec fn parse_opt_propagator(o: Option<Seq<char>>) -> Option<PropagatorKind> {
    match o {
        Some(s) => parse_propagator(s),
        None => None,
    }
}

/// Propagator precedence; the default format is W3C trace context.
pub open spec fn pick_propagator(
    e: Option<Seq<char>>,
    s: Option<Seq<char>>,
    g: Option<Seq<char>>,
) -> (PropagatorKind, Provenance) {
    match parse_opt_propagator(e) {
        Some(p) => (p, Provenance::Explicit),
        None => match parse_opt_propagator(s) {
            Some(p) => (p, Provenance::SignalOverride),
            None => match parse_opt_propagator(g) {
                Some(p) => (p, Provenance::GeneralOverride),
                None => (PropagatorKind::W3c, Provenance::Defaulted),
            },
        },
    }
}

pub fn resolve_propagator(
    explicit: &Option<String>,
    signal: &Option<String>,
    general: &Option<String>,
) -> (r: (PropagatorKind, Provenance))
    ensures
        r == pick_propagator(
            opt_str_view(*explicit),
            opt_str_view(*signal),
            opt_str_view(*general),
        ),
{
    if let Some(v) = explicit {
        if let Some(p) = parse_propagator_str(v.as_str()) {
            return (p, Provenance::Explicit);
        }
    }
    if let Some(v) = signal {
        if let Some(p) = parse_propagator_str(v.as_str()) {
            return (p, Provenance::SignalOverride);
        }
    }
    if let Some(v) = general {
        if let Some(p) = parse_propagator_str(v.as_str()) {
            return (p, Provenance::GeneralOverride);
        }
    }
    (PropagatorKind::W3c, Provenance::Defaulted)
}

pub open spec fn parse_opt_level(o: Option<Seq<char>>) -> Option<LogLevel> {
    match o {
        Some(s) => parse_level(s),
        None => None,
    }
}

/// Log-verbosity precedence; the default level is `Info`.
pub open spec fn pick_level(
    e: Option<Seq<char>>,
    s: Option<Seq<char>>,
    g: Option<Seq<char>>,
) -> (LogLevel, Provenance) {
    match parse_opt_level(e) {
        Some(p) => (p, Provenance::Explicit),
        None => match parse_opt_level(s) {
            Some(p) => (p, Provenance::SignalOverride),
            None => match parse_opt_level(g) {
                Some(p) => (p, Provenance::GeneralOverride),
                None => (LogLevel::Info, Provenance::Defaulted),
            },
        },
    }
}

/// A source that is present, non-empty and still unrecognized deserves a
/// warning when the resolver examines it.
pub open spec fn unrecognized_level(o: Option<Seq<char>>) -> bool {
    match o {
        Some(s) => s.len() > 0 && parse_level(s) is None,
        None => false,
    }
}

/// Whether resolving the log level ran into an unrecognized value: the
/// resolver examines sources in precedence order and stops at the first one
/// that yields a level, so only the examined sources can warn.
pub open spec fn level_warning(
    e: Option<Seq<char>>,
    s: Option<Seq<char>>,
    g: Option<Seq<char>>,
) -> bool {
    unrecognized_level(e) || (parse_opt_level(e) is None && unrecognized_level(s)) || (
    parse_opt_level(e) is None && parse_opt_level(s) is None && unrecognized_level(g))
}

pub fn resolve_level(
    explicit: &Option<String>,
    signal: &Option<String>,
    general: &Option<String>,
) -> (r: (LogLevel, Provenance, bool))
    ensures
        (r.0, r.1) == pick_level(
            opt_str_view(*explicit),
            opt_str_view(*signal),
            opt_str_view(*general),
        ),
        r.2 == level_warning(
            opt_str_view(*explicit),
            opt_str_view(*signal),
            opt_str_view(*general),
        ),
{
    let mut warned = false;
    if let Some(v) = explicit {
        if let Some(p) = parse_level_str(v.as_str()) {
            return (p, Provenance::Explicit, false);
        }
        if !v.as_str().is_empty() {
            warned = true;
        }
    }
    if let Some(v) = signal {
        if let Some(p) = parse_level_str(v.as_str()) {
            return (p, Provenance::SignalOverride, warned);
        }
        if !v.as_str().is_empty() {
            warned = true;
        }
    }
    if let Some(v) = general {
        if let Some(p) = parse_level_str(v.as_str()) {
            return (p, Provenance::GeneralOverride, warned);
        }
        if !v.as_str().is_empty() {
            warned = true;
        }
    }
    (LogLevel::Info, Provenance::Defaulted, warned)
}

/// The default endpoint base: the conventional local collector address,
/// port 4317 for gRPC and 4318 for the HTTP protocols.
pub open spec fn default_endpoint_base(p: Protocol) -> Seq<char> {
    if p == Protocol::Grpc {
        "http://localhost:4317"@
    } else {
        "http://localhost:4318"@
    }
}

/// The fixed path appended to an HTTP base URL for the traces signal.
pub open spec fn traces_suffix() -> Seq<char> {
    "/v1/traces"@
}

/// The endpoint base in precedence order; an empty value is treated as
/// absent.
pub open spec fn pick_endpoint_base(
    p: Protocol,
    e: Option<Seq<char>>,
    s: Option<Seq<char>>,
    g: Option<Seq<char>>,
) -> (Seq<char>, Provenance) {
    if nonempty_src(e) {
        (e->Some_0, Provenance::Explicit)
    } else if nonempty_src(s) {
        (s->Some_0, Provenance::SignalOverride)
    } else if nonempty_src(g) {
        (g->Some_0, Provenance::GeneralOverride)
    } else {
        (default_endpoint_base(p), Provenance::Defaulted)
    }
}

/// The resolved traces endpoint. A gRPC endpoint is used verbatim. For the
/// HTTP protocols the base has its trailing slashes trimmed and the traces
/// suffix appended — unless the base came from the signal-specific override,
/// which is already fully qualified and is used byte for byte.
pub open spec fn endpoint_resolution(
    p: Protocol,
    e: Option<Seq<char>>,
    s: Option<Seq<char>>,
    g: Option<Seq<char>>,
) -> (Seq<char>, Provenance) {
    let (base, prov) = pick_endpoint_base(p, e, s, g);
    if p == Protocol::Grpc || prov == Provenance::SignalOverride {
        (base, prov)
    } else {
        (trim_trailing_slashes(base) + traces_suffix(), prov)
    }
}

pub fn resolve_endpoint(
    p: Protocol,
    explicit: &Option<String>,
    signal: &Option<String>,
    general: &Option<String>,
) -> (r: (String, Provenance))
    ensures
        (r.0@, r.1) == endpoint_resolution(
            p,
            opt_str_view(*explicit),
            opt_str_view(*signal),
            opt_str_view(*general),
        ),
{
    let grpc = matches!(p, Protocol::Grpc);
    let base: String;
    let prov: Provenance;
    if explicit.is_some() && !explicit.as_ref().unwrap().as_str().is_empty() {
        base = explicit.as_ref().unwrap().clone();
        prov = Provenance::Explicit;
    } else if signal.is_some() && !signal.as_ref().unwrap().as_str().is_empty() {
        base = signal.as_ref().unwrap().clone();
        prov = Provenance::SignalOverride;
    } else if general.is_some() && !general.as_ref().unwrap().as_str().is_empty() {
        base = general.as_ref().unwrap().clone();
        prov = Provenance::GeneralOverride;
    } else if grpc {
        base = "http://localhost:4317".to_owned();
        prov = Provenance::Defaulted;
    } else {
        base = "http://localhost:4318".to_owned();
        prov = Provenance::Defaulted;
    }
    if grpc || matches!(prov, Provenance::SignalOverride) {
        (base, prov)
    } else {
        let mut out = trim_trailing(base.as_str());
        out.append("/v1/traces");
        (out, prov)
    }
}

/// What one `name=value` filter argument says about client-span creation:
/// nothing unless the name is the client-span flag; the value is read as a
/// boolean and anything but "false" means enabled.
pub open spec fn segment_flag(seg: Seq<char>) -> Option<bool> {
    let i = find_idx(seg, '=');
    if i >= seg.len() {
        None
    } else if seg.subrange(0, i) == "start_client_span"@ {
        Some(!(seg.subrange(i + 1, seg.len() as int) == "false"@))
    } else {
        None
    }
}

/// The client-span flag of a whole `;`-separated filter argument string; a
/// later segment that sets the flag overrides an earlier one.
pub open spec fn filter_args_flag(s: Seq<char>) -> Option<bool>
    decreases s.len(),
    via filter_args_flag_dec
{
    let i = find_idx(s, ';');
    if i >= s.len() {
        segment_flag(s)
    } else {
        let rest = filter_args_flag(s.subrange(i + 1, s.len() as int));
        if rest is Some {
            rest
        } else {
            segment_flag(s.subrange(0, i))
        }
    }
}

#[via_fn]
proof fn filter_args_flag_dec(s: Seq<char>) {
    lemma_find_idx_bounds(s, ';');
}

fn parse_segment(seg: &str) -> (r: Option<bool>)
    ensures
        r == segment_flag(seg@),
{
    let len = seg.unicode_len();
    let i = find_char(seg, '=');
    proof {
        lemma_find_idx_bounds(seg@, '=');
    }
    if i >= len {
        return None;
    }
    let name = seg.substring_char(0, i);
    if str_eq(name, "start_client_span") {
        let value = seg.substring_char(i + 1, len);
        Some(!str_eq(value, "false"))
    } else {
        None
    }
}

/// Parses a filter's argument string, `name=value` pairs separated by `;`,
/// and returns the client-span flag if any pair sets it.
pub fn parse_filter_args(args: &str) -> (r: Option<bool>)
    ensures
        r == filter_args_flag(args@),
    decreases args@.len(),
{
    let len = args.unicode_len();
    let i = find_char(args, ';');
    proof {
        lemma_find_idx_bounds(args@, ';');
    }
    if i >= len {
        return parse_segment(args);
    }
    let rest = parse_filter_args(args.substring_char(i + 1, len));
    if rest.is_some() {
        rest
    } else {
        parse_segment(args.substring_char(0, i))
    }
}

/// The resolved service name: the explicit name unless it is absent or
/// empty, in which case the conventional proxy name is used.
pub open spec fn service_name_resolution(o: Option<Seq<char>>) -> Seq<char> {
    if nonempty_src(o) {
        o->Some_0
    } else {
        "haproxy"@
    }
}

pub fn resolve_service_name(explicit: &Option<String>) -> (r: String)
    ensures
        r@ == service_name_resolution(opt_str_view(*explicit)),
{
    if explicit.is_some() && !explicit.as_ref().unwrap().as_str().is_empty() {
        explicit.as_ref().unwrap().clone()
    } else {
        "haproxy".to_owned()
    }
}

/// Explicit module configuration, as handed over by the embedding layer. A
/// missing key is `None`; an empty string is treated as absent.
pub struct ExplicitConfig {
    pub service_name: Option<String>,
    pub sampler: Option<String>,
    pub propagator: Option<String>,
    pub endpoint: Option<String>,
    pub protocol: Option<String>,
    pub log_level: Option<String>,
}

/// Environment-style overrides, each in a signal-specific form (names the
/// traces signal) and a general form (applies to every signal).
pub struct OverrideSource {
    pub signal_protocol: Option<String>,
    pub general_protocol: Option<String>,
    pub signal_endpoint: Option<String>,
    pub general_endpoint: Option<String>,
    pub signal_sampler: Option<String>,
    pub general_sampler: Option<String>,
    pub signal_propagator: Option<String>,
    pub general_propagator: Option<String>,
    pub signal_level: Option<String>,
    pub general_level: Option<String>,
}

/// The immutable configuration snapshot: every setting with the source that
/// produced it.
pub struct ResolvedConfig {
    pub service_name: String,
    pub protocol: Protocol,
    pub protocol_source: Provenance,
    pub endpoint: String,
    pub endpoint_source: Provenance,
    pub sampler: SamplerKind,
    pub sampler_source: Provenance,
    pub propagator: PropagatorKind,
    pub propagator_source: Provenance,
    pub log_level: LogLevel,
    pub log_level_source: Provenance,
    pub log_level_warning: bool,
}

/// Resolves the whole configuration snapshot. Resolution never fails: a
/// source whose value is empty or unrecognized is skipped, and when every
/// source is exhausted the hard default is used.
pub fn resolve_config(explicit: &ExplicitConfig, ov: &OverrideSource) -> (r: ResolvedConfig)
    ensures
        r.service_name@ == service_name_resolution(opt_str_view(explicit.service_name)),
        (r.protocol, r.protocol_source) == pick_protocol(
            opt_str_view(explicit.protocol),
            opt_str_view(ov.signal_protocol),
            opt_str_view(ov.general_protocol),
        ),
        (r.endpoint@, r.endpoint_source) == endpoint_resolution(
            r.protocol,
            opt_str_view(explicit.endpoint),
            opt_str_view(ov.signal_endpoint),
            opt_str_view(ov.general_endpoint),
        ),
        (r.sampler, r.sampler_source) == pick_sampler(
            opt_str_view(explicit.sampler),
            opt_str_view(ov.signal_sampler),
            opt_str_view(ov.general_sampler),
        ),
        (r.propagator, r.propagator_source) == pick_propagator(
            opt_str_view(explicit.propagator),
            opt_str_view(ov.signal_propagator),
            opt_str_view(ov.general_propagator),
        ),
        (r.log_level, r.log_level_source) == pick_level(
            opt_str_view(explicit.log_level),
            opt_str_view(ov.signal_level),
            opt_str_view(ov.general_level),
        ),
        r.log_level_warning == level_warning(
            opt_str_view(explicit.log_level),
            opt_str_view(ov.signal_level),
            opt_str_view(ov.general_level),
        ),
{
    let service_name = resolve_service_name(&explicit.service_name);
    let (protocol, protocol_source) = resolve_protocol(
        &explicit.protocol,
        &ov.signal_protocol,
        &ov.general_protocol,
    );
    let (endpoint, endpoint_source) = resolve_endpoint(
        protocol,
        &explicit.endpoint,
        &ov.signal_endpoint,
        &ov.general_endpoint,
    );
    let (sampler, sampler_source) = resolve_sampler(
        &explicit.sampler,
        &ov.signal_sampler,
        &ov.general_sampler,
    );
    let (propagator, propagator_source) = resolve_propagator(
        &explicit.propagator,
        &ov.signal_propagator,
        &ov.general_propagator,
    );
    let (log_level, log_level_source, log_level_warning) = resolve_level(
        &explicit.log_level,
        &ov.signal_level,
        &ov.general_level,
    );
    ResolvedConfig {
        service_name,
        protocol,
        protocol_source,
        endpoint,
        endpoint_source,
        sampler,
        sampler_source,
        propagator,
        propagator_source,
        log_level,
        log_level_source,
        log_level_warning,
    }
}

/// The printed name of a protocol.
pub open spec fn protocol_label(p: Protocol) -> Seq<char> {
    match p {
        Protocol::Grpc => "grpc"@,
        Protocol::HttpProtobuf => "http/protobuf"@,
        Protocol::HttpJson => "http/json"@,
    }
}

pub fn protocol_name(p: Protocol) -> (r: &'static str)
    ensures
        r@ == protocol_label(p),
{
    match p {
        Protocol::Grpc => "grpc",
        Protocol::HttpProtobuf => "http/protobuf",
        Protocol::HttpJson => "http/json",
    }
}

/// The printed name of a provenance tag.
pub open spec fn provenance_label(p: Provenance) -> Seq<char> {
    match p {
        Provenance::Explicit => "explicit"@,
        Provenance::SignalOverride => "signal-override"@,
        Provenance::GeneralOverride => "general-override"@,
        Provenance::Defaulted => "default"@,
    }
}

pub fn provenance_name(p: Provenance) -> (r: &'static str)
    ensures
        r@ == provenance_label(p),
{
    match p {
        Provenance::Explicit => "explicit",
        Provenance::SignalOverride => "signal-override",
        Provenance::GeneralOverride => "general-override",
        Provenance::Defaulted => "default",
    }
}

/// The printed name of a sampler strategy.
pub open spec fn sampler_label(s: SamplerKind) -> Seq<char> {
    match s {
        SamplerKind::AlwaysOn => "AlwaysOn"@,
        SamplerKind::SilentOn => "SilentOn"@,
        SamplerKind::AlwaysOff => "AlwaysOff"@,
        SamplerKind::ParentBased => "ParentBased"@,
    }
}

pub fn sampler_name(s: SamplerKind) -> (r: &'static str)
    ensures
        r@ == sampler_label(s),
{
    match s {
        SamplerKind::AlwaysOn => "AlwaysOn",
        SamplerKind::SilentOn => "SilentOn",
        SamplerKind::AlwaysOff => "AlwaysOff",
        SamplerKind::ParentBased => "ParentBased",
    }
}

/// The printed name of a propagator choice.
pub open spec fn propagator_label(p: PropagatorKind) -> Seq<char> {
    match p {
        PropagatorKind::W3c => "w3c"@,
        PropagatorKind::Jaeger => "jaeger"@,
        PropagatorKind::Zipkin => "zipkin"@,
    }
}

pub fn propagator_name(p: PropagatorKind) -> (r: &'static str)
    ensures
        r@ == propagator_label(p),
{
    match p {
        PropagatorKind::W3c => "w3c",
        PropagatorKind::Jaeger => "jaeger",
        PropagatorKind::Zipkin => "zipkin",
    }
}

/// The printed name of a log level.
pub open spec fn level_label(l: LogLevel) -> Seq<char> {
    match l {
        LogLevel::Error => "error"@,
        LogLevel::Warn => "warn"@,
        LogLevel::Info => "info"@,
        LogLevel::Debug => "debug"@,
    }
}

pub fn level_name(l: LogLevel) -> (r: &'static str)
    ensures
        r@ == level_label(l),
{
    match l {
        LogLevel::Error => "error",
        LogLevel::Warn => "warn",
        LogLevel::Info => "info",
        LogLevel::Debug => "debug",
    }
}

/// The one-line startup diagnostic of a resolved configuration.
pub open spec fn summary_of(c: ResolvedConfig) -> Seq<char> {
    "service="@ + c.service_name@ + " protocol="@ + protocol_label(c.protocol) + " ("@
        + provenance_label(c.protocol_source) + ") endpoint="@ + c.endpoint@ + " ("@
        + provenance_label(c.endpoint_source) + ") propagator="@ + propagator_label(c.propagator)
        + " sampler="@ + sampler_label(c.sampler) + " log_level="@ + level_label(c.log_level)
}

/// Renders the startup diagnostic: the resolved service name, protocol and
/// endpoint with their provenance, propagator, sampler, and log verbosity.
pub fn startup_summary(c: &ResolvedConfig) -> (r: String)
    ensures
        r@ == summary_of(*c),
{
    let mut out = "service=".to_owned();
    out.append(c.service_name.as_str());
    out.append(" protocol=");
    out.append(protocol_name(c.protocol));
    out.append(" (");
    out.append(provenance_name(c.protocol_source));
    out.append(") endpoint=");
    out.append(c.endpoint.as_str());
    out.append(" (");
    out.append(provenance_name(c.endpoint_source));
    out.append(") propagator=");
    out.append(propagator_name(c.propagator));
    out.append(" sampler=");
    out.append(sampler_name(c.sampler));
    out.append(" log_level=");
    out.append(level_name(c.log_level));
    proof {
        assert(out@ =~= summary_of(*c));
    }
    out
}

} // verus!
