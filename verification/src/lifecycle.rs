//! The span lifecycle engine: the transitions that open, enrich and close the
//! server span and the optional client span of one request. The engine's
//! state lives in the correlation cache (keyed by the hex trace identifier)
//! and in the request's own scratch storage, because the host invokes each
//! transition in an unrelated callback with no shared call state.

use vstd::prelude::*;

use crate::cache::{cache_entries, lookup, CorrelationCache};
use crate::config::SamplerKind;
use crate::hex::{hex_of_bytes, trace_key};
use crate::span::{
    Attr, AttrModel, AttrValue, AttrValueModel, CtxModel, ParentContext, ParentModel, ReqModel,
    RequestInfo, SpanKind, SpanModel, SpanRecord, SpanStatus, StatusModel, TraceContext,
};
use crate::strutil::{path_of, query_of, split_path_query};
use crate::TRACE_ID_LEN;

verus! {

/// The request's own scratch storage: the persisted trace key, and the flag
/// marking the invocation that owns (and must close) the server span.
pub struct RequestScratch {
    pub trace_key: Option<String>,
    pub owns_server_span: bool,
}

/// Spec-level mirror of [`RequestScratch`].
pub struct ScratchModel {
    pub trace_key: Option<Seq<char>>,
    pub owns_server_span: bool,
}

impl View for RequestScratch {
    type V = ScratchModel;

    open spec fn view(&self) -> ScratchModel {
        ScratchModel {
            trace_key: match self.trace_key {
                Some(ref k) => Some(k@),
                None => None,
            },
            owns_server_span: self.owns_server_span,
        }
    }
}

impl RequestScratch {
    /// Scratch storage of a request that has not started a trace.
    pub fn new() -> (r: RequestScratch)
        ensures
            r@.trace_key is None,
            !r@.owns_server_span,
    {
        RequestScratch { trace_key: None, owns_server_span: false }
    }
}

/// The key under which this request's context is cached, provided the
/// request owns a server span.
pub open spec fn owner_key(s: ScratchModel) -> Option<Seq<char>> {
    if s.owns_server_span {
        s.trace_key
    } else {
        None
    }
}

/// A verified byte-for-byte copy.
pub fn copy_bytes(v: &Vec<u8>) -> (r: Vec<u8>)
    ensures
        r@ == v@,
{
    let mut out: Vec<u8> = Vec::new();
    let mut i: usize = 0;
    while i < v.len()
        invariant
            i <= v@.len(),
            out@ == v@.subrange(0, i as int),
        decreases v@.len() - i,
    {
        out.push(v[i]);
        i = i + 1;
    }
    proof {
        assert(v@.subrange(0, v@.len() as int) =~= v@);
    }
    out
}

/// Spec-level view of an optional remote parent.
pub open spec fn opt_parent_view(p: Option<ParentContext>) -> Option<ParentModel> {
    match p {
        Some(pc) => Some(pc@),
        None => None,
    }
}

/// The sampling decision of a new trace root or of a continued trace:
/// always-on (in both its variants) records, always-off does not, and the
/// parent-based default records unless a remote parent said otherwise.
pub open spec fn sampling_decision(sampler: SamplerKind, parent: Option<ParentModel>) -> bool {
    match sampler {
        SamplerKind::AlwaysOn => true,
        SamplerKind::SilentOn => true,
        SamplerKind::AlwaysOff => false,
        SamplerKind::ParentBased => match parent {
            Some(p) => p.sampled,
            None => true,
        },
    }
}

pub fn decide_sampling(sampler: SamplerKind, parent: &Option<ParentContext>) -> (r: bool)
    ensures
        r == sampling_decision(sampler, opt_parent_view(*parent)),
{
    match sampler {
        SamplerKind::AlwaysOn => true,
        SamplerKind::SilentOn => true,
        SamplerKind::AlwaysOff => false,
        SamplerKind::ParentBased => match parent {
            Some(p) => p.sampled,
            None => true,
        },
    }
}

/// The trace a new server span belongs to: its remote parent's trace if one
/// was extracted, else a fresh identifier (the span becomes a trace root).
pub open spec fn chosen_trace_id(parent: Option<ParentModel>, fresh: Seq<u8>) -> Seq<u8> {
    match parent {
        Some(p) => p.trace_id,
        None => fresh,
    }
}

/// The server span as created at request arrival.
pub open spec fn server_span_model(
    req: ReqModel,
    parent: Option<ParentModel>,
    fresh_trace_id: Seq<u8>,
    span_id: u64,
    now: u64,
) -> SpanModel {
    SpanModel {
        kind: SpanKind::Server,
        name: req.method + " "@ + req.host,
        trace_id: chosen_trace_id(parent, fresh_trace_id),
        span_id: span_id,
        parent_span_id: match parent {
            Some(p) => Some(p.span_id),
            None => None,
        },
        start_time: now,
        end_time: None,
        attrs: seq![
            AttrModel { key: "http.request.method"@, value: AttrValueModel::Text(req.method) },
            AttrModel {
                key: "url.path"@,
                value: AttrValueModel::Text(path_of(req.path_and_query)),
            },
            AttrModel {
                key: "url.query"@,
                value: AttrValueModel::Text(query_of(req.path_and_query)),
            },
            AttrModel { key: "http.request.header.host"@, value: AttrValueModel::Text(req.host) },
            AttrModel { key: "network.peer.address"@, value: AttrValueModel::Text(req.peer_addr) },
        ],
        events: Seq::empty(),
        status: StatusModel::Unset,
    }
}

/// The trace context cached when the server span opens.
pub open spec fn server_ctx_model(
    sampler: SamplerKind,
    req: ReqModel,
    parent: Option<ParentModel>,
    fresh_trace_id: Seq<u8>,
    span_id: u64,
    now: u64,
) -> CtxModel {
    CtxModel {
        trace_id: chosen_trace_id(parent, fresh_trace_id),
        sampled: sampling_decision(sampler, parent),
        active: server_span_model(req, parent, fresh_trace_id, span_id, now),
    }
}

/// An insertion seen through the stored context's spec-level mirror.
pub open spec fn stored_model(
    pre: Map<Seq<char>, TraceContext>,
    post: Map<Seq<char>, TraceContext>,
    k: Seq<char>,
    m: CtxModel,
) -> bool {
    &&& post.dom().contains(k)
    &&& post[k]@ == m
    &&& forall|j: Seq<char>|
        #[trigger] post.dom().contains(j) && j != k ==> pre.dom().contains(j) && post[j] == pre[j]
}

/// Starts the server span: creates a server-kind span under the extracted
/// parent (or as a new trace root), caches the resulting context under the
/// hex trace key, persists that key into the request's scratch storage, and
/// marks the request as the owner of the server span.
pub fn start_server_span(
    cache: &mut CorrelationCache,
    scratch: &mut RequestScratch,
    sampler: SamplerKind,
    req: &RequestInfo,
    parent: Option<ParentContext>,
    fresh_trace_id: Vec<u8>,
    span_id: u64,
    now: u64,
)
    requires
        fresh_trace_id@.len() == TRACE_ID_LEN,
        opt_parent_view(parent) matches Some(p) ==> p.trace_id.len() == TRACE_ID_LEN,
    ensures
        ({
            let ctx = server_ctx_model(
                sampler,
                req@,
                opt_parent_view(parent),
                fresh_trace_id@,
                span_id,
                now,
            );
            let key = hex_of_bytes(ctx.trace_id);
            &&& stored_model(
                cache_entries(*old(cache)),
                cache_entries(*final(cache)),
                key,
                ctx,
            )
            &&& ctx.wf()
            &&& final(scratch)@.owns_server_span
            &&& final(scratch)@.trace_key == Some(key)
        }),
{
    let ghost ctx_model = server_ctx_model(
        sampler,
        req@,
        opt_parent_view(parent),
        fresh_trace_id@,
        span_id,
        now,
    );
    let sampled = decide_sampling(sampler, &parent);
    let (trace_id, parent_span_id): (Vec<u8>, Option<u64>) = match parent {
        Some(p) => (p.trace_id, Some(p.span_id)),
        None => (fresh_trace_id, None),
    };
    let name = req.method.clone().concat(" ").concat(req.host.as_str());
    let (path, query) = split_path_query(req.path_and_query.as_str());
    let mut attrs: Vec<Attr> = Vec::new();
    attrs.push(
        Attr { key: "http.request.method".to_owned(), value: AttrValue::Text(req.method.clone()) },
    );
    attrs.push(Attr { key: "url.path".to_owned(), value: AttrValue::Text(path) });
    attrs.push(Attr { key: "url.query".to_owned(), value: AttrValue::Text(query) });
    attrs.push(
        Attr {
            key: "http.request.header.host".to_owned(),
            value: AttrValue::Text(req.host.clone()),
        },
    );
    attrs.push(
        Attr {
            key: "network.peer.address".to_owned(),
            value: AttrValue::Text(req.peer_addr.clone()),
        },
    );
    let span = SpanRecord {
        kind: SpanKind::Server,
        name,
        trace_id: copy_bytes(&trace_id),
        span_id,
        parent_span_id,
        start_time: now,
        end_time: None,
        attrs,
        events: Vec::new(),
        status: SpanStatus::Unset,
    };
    let ctx = TraceContext { trace_id, sampled, active: span };
    proof {
        assert(ctx@.active.attrs =~= ctx_model.active.attrs);
        assert(ctx@.active.events =~= ctx_model.active.events);
        assert(ctx@.active == ctx_model.active);
        assert(ctx@ == ctx_model);
    }
    let key = trace_key(&ctx.trace_id);
    scratch.trace_key = Some(key.clone());
    scratch.owns_server_span = true;
    cache.store(key, ctx);
}

/// The client span as created when request headers flow toward an upstream:
/// a child of the cached context's active span, in the same trace.
pub open spec fn client_span_model(
    parent_span: SpanModel,
    req: ReqModel,
    span_id: u64,
    now: u64,
) -> SpanModel {
    SpanModel {
        kind: SpanKind::Client,
        name: "upstream"@,
        trace_id: parent_span.trace_id,
        span_id: span_id,
        parent_span_id: Some(parent_span.span_id),
        start_time: now,
        end_time: None,
        attrs: seq![
            AttrModel { key: "http.request.method"@, value: AttrValueModel::Text(req.method) },
            AttrModel {
                key: "url.path"@,
                value: AttrValueModel::Text(path_of(req.path_and_query)),
            },
            AttrModel {
                key: "url.query"@,
                value: AttrValueModel::Text(query_of(req.path_and_query)),
            },
        ],
        events: Seq::empty(),
        status: StatusModel::Unset,
    }
}

/// What starting a client span yields: nothing when client spans are
/// disabled, when the request never persisted a trace key, or when the cache
/// no longer holds the context; otherwise an ephemeral context whose active
/// span is the new client span.
pub open spec fn client_start_model(
    entries: Map<Seq<char>, TraceContext>,
    scratch: ScratchModel,
    enabled: bool,
    req: ReqModel,
    span_id: u64,
    now: u64,
) -> Option<CtxModel> {
    if !enabled {
        None
    } else {
        match scratch.trace_key {
            None => None,
            Some(k) => match lookup(entries, k) {
                None => None,
                Some(ctx) => Some(
                    CtxModel {
                        trace_id: ctx@.trace_id,
                        sampled: ctx@.sampled,
                        active: client_span_model(ctx@.active, req, span_id, now),
                    },
                ),
            },
        }
    }
}

/// Starts the client span for one proxying attempt. The returned context is
/// held locally for the rest of the response cycle; it is not cached. When
/// there is no trace to attach to, or client spans are disabled, the phase
/// silently does nothing.
pub fn start_client_span(
    cache: &CorrelationCache,
    scratch: &RequestScratch,
    enabled: bool,
    req: &RequestInfo,
    span_id: u64,
    now: u64,
) -> (r: Option<TraceContext>)
    ensures
        (r is Some) == (client_start_model(
            cache_entries(*cache),
            scratch@,
            enabled,
            req@,
            span_id,
            now,
        ) is Some),
        r matches Some(c) ==> Some(c@) == client_start_model(
            cache_entries(*cache),
            scratch@,
            enabled,
            req@,
            span_id,
            now,
        ),
{
    if !enabled {
        return None;
    }
    let key = match &scratch.trace_key {
        Some(k) => k,
        None => {
            return None;
        },
    };
    let ctx = match cache.get(key.as_str()) {
        Some(c) => c,
        None => {
            return None;
        },
    };
    let (path, query) = split_path_query(req.path_and_query.as_str());
    let mut attrs: Vec<Attr> = Vec::new();
    attrs.push(
        Attr { key: "http.request.method".to_owned(), value: AttrValue::Text(req.method.clone()) },
    );
    attrs.push(Attr { key: "url.path".to_owned(), value: AttrValue::Text(path) });
    attrs.push(Attr { key: "url.query".to_owned(), value: AttrValue::Text(query) });
    let span = SpanRecord {
        kind: SpanKind::Client,
        name: "upstream".to_owned(),
        trace_id: copy_bytes(&ctx.active.trace_id),
        span_id,
        parent_span_id: Some(ctx.active.span_id),
        start_time: now,
        end_time: None,
        attrs,
        events: Vec::new(),
        status: SpanStatus::Unset,
    };
    let out = TraceContext { trace_id: ctx.trace_id, sampled: ctx.sampled, active: span };
    proof {
        let m = client_start_model(
            cache_entries(*cache),
            scratch@,
            enabled,
            req@,
            span_id,
            now,
        )->Some_0;
        assert(out@.active.attrs =~= m.active.attrs);
        assert(out@.active.events =~= m.active.events);
        assert(out@.active == m.active);
        assert(out@ == m);
    }
    Some(out)
}

/// The client span as completed when the upstream's response headers arrive:
/// a response event, the status-code attribute, an ok status below 500 and
/// an error status carrying the upstream reason phrase otherwise, the
/// selected server's name, and the end time.
pub open spec fn client_completion_model(
    span: SpanModel,
    status_code: i64,
    reason: Seq<char>,
    srv_name: Seq<char>,
    now: u64,
) -> SpanModel {
    SpanModel {
        events: span.events.push("received response headers"@),
        attrs: span.attrs + seq![
            AttrModel { key: "http.response.status_code"@, value: AttrValueModel::Int(status_code) },
            AttrModel { key: "haproxy.server.name"@, value: AttrValueModel::Text(srv_name) },
        ],
        status: if status_code < 500 {
            StatusModel::Okay
        } else {
            StatusModel::Failed(reason)
        },
        end_time: Some(now),
        ..span
    }
}

/// Completes the client span, if one is open. The finished span is returned
/// so the caller can hand it to the export pipeline.
pub fn complete_client_span(
    client: Option<TraceContext>,
    status_code: i64,
    reason: &str,
    srv_name: &str,
    now: u64,
) -> (r: Option<SpanRecord>)
    ensures
        (r is Some) == (client is Some),
        client matches Some(c) ==> r matches Some(sp) && sp@ == client_completion_model(
            c@.active,
            status_code,
            reason@,
            srv_name@,
            now,
        ),
{
    let ctx = match client {
        Some(c) => c,
        None => {
            return None;
        },
    };
    let ghost m = client_completion_model(ctx@.active, status_code, reason@, srv_name@, now);
    let mut span = ctx.active;
    span.events.push("received response headers".to_owned());
    span.attrs.push(
        Attr { key: "http.response.status_code".to_owned(), value: AttrValue::Int(status_code) },
    );
    span.attrs.push(
        Attr { key: "haproxy.server.name".to_owned(), value: AttrValue::Text(srv_name.to_owned()) },
    );
    span.status = if status_code < 500 {
        SpanStatus::Okay
    } else {
        SpanStatus::Failed(reason.to_owned())
    };
    span.end_time = Some(now);
    proof {
        assert(span@.attrs =~= m.attrs);
        assert(span@.events =~= m.events);
        assert(span@ == m);
    }
    Some(span)
}

/// The server span as completed at end of analysis: the status-code
/// attribute, an ok status below 500 and a fixed reason otherwise, the
/// frontend, backend and termination-state attributes, and the end time.
pub open spec fn server_completion_model(
    span: SpanModel,
    status_code: i64,
    fe_name: Seq<char>,
    be_name: Seq<char>,
    term_state: Seq<char>,
    now: u64,
) -> SpanModel {
    SpanModel {
        attrs: span.attrs + seq![
            AttrModel { key: "http.response.status_code"@, value: AttrValueModel::Int(status_code) },
            AttrModel { key: "haproxy.frontend.name"@, value: AttrValueModel::Text(fe_name) },
            AttrModel { key: "haproxy.backend.name"@, value: AttrValueModel::Text(be_name) },
            AttrModel { key: "haproxy.termination_state"@, value: AttrValueModel::Text(term_state) },
        ],
        status: if status_code < 500 {
            StatusModel::Okay
        } else {
            StatusModel::Failed("5xx status code"@)
        },
        end_time: Some(now),
        ..span
    }
}

/// Completes the server span, once per request, in the invocation that owns
/// it: destructively takes the context out of the cache, closes its span and
/// returns it for export. Absence of the entry (double completion, a request
/// that never started a trace, or eviction) is a silent no-op.
pub fn complete_server_span(
    cache: &mut CorrelationCache,
    scratch: &RequestScratch,
    status_code: i64,
    fe_name: &str,
    be_name: &str,
    term_state: &str,
    now: u64,
) -> (r: Option<SpanRecord>)
    ensures
        ({
            let pre = cache_entries(*old(cache));
            let post = cache_entries(*final(cache));
            match owner_key(scratch@) {
                None => post == pre && r is None,
                Some(k) => {
                    &&& post == pre.remove(k)
                    &&& match lookup(pre, k) {
                        None => r is None,
                        Some(ctx) => r matches Some(sp) && sp@ == server_completion_model(
                            ctx@.active,
                            status_code,
                            fe_name@,
                            be_name@,
                            term_state@,
                            now,
                        ),
                    }
                },
            }
        }),
{
    if !scratch.owns_server_span {
        return None;
    }
    let key = match &scratch.trace_key {
        Some(k) => k,
        None => {
            return None;
        },
    };
    let ctx = match cache.remove(key.as_str()) {
        Some(c) => c,
        None => {
            return None;
        },
    };
    let ghost m = server_completion_model(
        ctx@.active,
        status_code,
        fe_name@,
        be_name@,
        term_state@,
        now,
    );
    let mut span = ctx.active;
    span.attrs.push(
        Attr { key: "http.response.status_code".to_owned(), value: AttrValue::Int(status_code) },
    );
    span.attrs.push(
        Attr {
            key: "haproxy.frontend.name".to_owned(),
            value: AttrValue::Text(fe_name.to_owned()),
        },
    );
    span.attrs.push(
        Attr { key: "haproxy.backend.name".to_owned(), value: AttrValue::Text(be_name.to_owned()) },
    );
    span.attrs.push(
        Attr {
            key: "haproxy.termination_state".to_owned(),
            value: AttrValue::Text(term_state.to_owned()),
        },
    );
    span.status = if status_code < 500 {
        SpanStatus::Okay
    } else {
        SpanStatus::Failed("5xx status code".to_owned())
    };
    span.end_time = Some(now);
    proof {
        assert(span@.attrs =~= m.attrs);
        assert(span@ == m);
    }
    Some(span)
}

/// Sets one attribute on the currently active span of the cached context,
/// using a caller-supplied name and a value read from a named scratch
/// variable; when the context or the value is absent the action silently
/// does nothing. Returns whether an attribute was set.
pub fn set_span_attribute(
    cache: &mut CorrelationCache,
    scratch: &RequestScratch,
    name: &str,
    value: Option<String>,
) -> (r: bool)
    ensures
        ({
            let pre = cache_entries(*old(cache));
            let post = cache_entries(*final(cache));
            match (scratch@.trace_key, value) {
                (Some(k), Some(v)) => match lookup(pre, k) {
                    Some(ctx) => {
                        let m = CtxModel {
                            trace_id: ctx@.trace_id,
                            sampled: ctx@.sampled,
                            active: SpanModel {
                                attrs: ctx@.active.attrs.push(
                                    AttrModel { key: name@, value: AttrValueModel::Text(v@) },
                                ),
                                ..ctx@.active
                            },
                        };
                        r && stored_model(pre, post, k, m)
                    },
                    None => post == pre && !r,
                },
                _ => post == pre && !r,
            }
        }),
{
    let v = match value {
        Some(v) => v,
        None => {
            return false;
        },
    };
    let key = match &scratch.trace_key {
        Some(k) => k.clone(),
        None => {
            return false;
        },
    };
    let mut ctx = match cache.get(key.as_str()) {
        Some(c) => c,
        None => {
            return false;
        },
    };
    let ghost m0 = ctx@;
    let ghost vv = v@;
    ctx.active.attrs.push(Attr { key: name.to_owned(), value: AttrValue::Text(v) });
    proof {
        assert(ctx@.active.attrs =~= m0.active.attrs.push(
            AttrModel { key: name@, value: AttrValueModel::Text(vv) },
        ));
    }
    cache.store(key, ctx);
    true
}

/// Law: a completed server span carries the response status code and the
/// frontend, backend and termination-state attributes, and its status is ok
/// below 500 and an error with the fixed reason otherwise.
pub proof fn lemma_server_completion_attrs(
    span: SpanModel,
    status_code: i64,
    fe_name: Seq<char>,
    be_name: Seq<char>,
    term_state: Seq<char>,
    now: u64,
)
    ensures
        ({
            let m = server_completion_model(span, status_code, fe_name, be_name, term_state, now);
            &&& m.has_attr_value(
                "http.response.status_code"@,
                AttrValueModel::Int(status_code),
            )
            &&& m.has_attr_value("haproxy.frontend.name"@, AttrValueModel::Text(fe_name))
            &&& m.has_attr_value("haproxy.backend.name"@, AttrValueModel::Text(be_name))
            &&& m.has_attr_value("haproxy.termination_state"@, AttrValueModel::Text(term_state))
            &&& m.status == if status_code < 500 {
                StatusModel::Okay
            } else {
                StatusModel::Failed("5xx status code"@)
            }
            &&& m.end_time == Some(now)
        }),
{
    let m = server_completion_model(span, status_code, fe_name, be_name, term_state, now);
    let n = span.attrs.len() as int;
    assert(m.attrs[n].key == "http.response.status_code"@);
    assert(m.attrs[n + 1].key == "haproxy.frontend.name"@);
    assert(m.attrs[n + 2].key == "haproxy.backend.name"@);
    assert(m.attrs[n + 3].key == "haproxy.termination_state"@);
}

/// Law: a completed client span carries the upstream status code and the
/// selected server's name, records the response event, and its status is ok
/// below 500 and an error with the upstream reason otherwise.
pub proof fn lemma_client_completion_attrs(
    span: SpanModel,
    status_code: i64,
    reason: Seq<char>,
    srv_name: Seq<char>,
    now: u64,
)
    ensures
        ({
            let m = client_completion_model(span, status_code, reason, srv_name, now);
            &&& m.has_attr_value(
                "http.response.status_code"@,
                AttrValueModel::Int(status_code),
            )
            &&& m.has_attr_value("haproxy.server.name"@, AttrValueModel::Text(srv_name))
            &&& m.events == span.events.push("received response headers"@)
            &&& m.status == if status_code < 500 {
                StatusModel::Okay
            } else {
                StatusModel::Failed(reason)
            }
            &&& m.end_time == Some(now)
        }),
{
    let m = client_completion_model(span, status_code, reason, srv_name, now);
    let n = span.attrs.len() as int;
    assert(m.attrs[n].key == "http.response.status_code"@);
    assert(m.attrs[n + 1].key == "haproxy.server.name"@);
}

/// Drives one simulated request through its whole lifecycle — start the
/// server span, start and complete the client span (when enabled), complete
/// the server span — and returns the finished spans in completion order.
///
/// This is the lifecycle's completeness statement: the run produces exactly
/// two spans with client spans enabled and exactly one without; the client
/// span's parent is the server span and both share one trace identifier; the
/// server span carries the frontend, backend and termination attributes, the
/// client span the upstream status and server name; and the propagation
/// injection step fires exactly when a client span was started.
pub fn run_lifecycle(
    sampler: SamplerKind,
    client_enabled: bool,
    req: &RequestInfo,
    parent: Option<ParentContext>,
    fresh_trace_id: Vec<u8>,
    server_span_id: u64,
    client_span_id: u64,
    upstream_status: i64,
    upstream_reason: &str,
    srv_name: &str,
    response_status: i64,
    fe_name: &str,
    be_name: &str,
    term_state: &str,
    t_request: u64,
    t_connect: u64,
    t_response: u64,
    t_end: u64,
) -> (r: (Vec<SpanRecord>, bool))
    requires
        fresh_trace_id@.len() == TRACE_ID_LEN,
        opt_parent_view(parent) matches Some(p) ==> p.trace_id.len() == TRACE_ID_LEN,
    ensures
        ({
            let spans = r.0@;
            let injection_fired = r.1;
            let server_open = server_span_model(
                req@,
                opt_parent_view(parent),
                fresh_trace_id@,
                server_span_id,
                t_request,
            );
            let server_done = server_completion_model(
                server_open,
                response_status,
                fe_name@,
                be_name@,
                term_state@,
                t_end,
            );
            let client_done = client_completion_model(
                client_span_model(server_open, req@, client_span_id, t_connect),
                upstream_status,
                upstream_reason@,
                srv_name@,
                t_response,
            );
            &&& spans.len() == if client_enabled {
                2int
            } else {
                1int
            }
            &&& spans.last()@ == server_done
            &&& client_enabled ==> spans[0]@ == client_done
            &&& client_enabled ==> spans[0]@.parent_span_id == Some(spans.last()@.span_id)
            &&& client_enabled ==> spans[0]@.trace_id == spans.last()@.trace_id
            &&& injection_fired == client_enabled
            &&& spans.last()@.has_attr_value(
                "http.response.status_code"@,
                AttrValueModel::Int(response_status),
            )
            &&& spans.last()@.has_attr_value(
                "haproxy.frontend.name"@,
                AttrValueModel::Text(fe_name@),
            )
            &&& spans.last()@.has_attr_value(
                "haproxy.backend.name"@,
                AttrValueModel::Text(be_name@),
            )
            &&& spans.last()@.has_attr_value(
                "haproxy.termination_state"@,
                AttrValueModel::Text(term_state@),
            )
            &&& client_enabled ==> spans[0]@.has_attr_value(
                "http.response.status_code"@,
                AttrValueModel::Int(upstream_status),
            )
            &&& client_enabled ==> spans[0]@.has_attr_value(
                "haproxy.server.name"@,
                AttrValueModel::Text(srv_name@),
            )
        }),
{
    let ghost parent_m = opt_parent_view(parent);
    let ghost fresh_m = fresh_trace_id@;
    proof {
        let server_open = server_span_model(req@, parent_m, fresh_m, server_span_id, t_request);
        lemma_server_completion_attrs(
            server_open,
            response_status,
            fe_name@,
            be_name@,
            term_state@,
            t_end,
        );
        lemma_client_completion_attrs(
            client_span_model(server_open, req@, client_span_id, t_connect),
            upstream_status,
            upstream_reason@,
            srv_name@,
            t_response,
        );
    }
    let mut cache = CorrelationCache::new();
    let mut scratch = RequestScratch::new();
    start_server_span(
        &mut cache,
        &mut scratch,
        sampler,
        req,
        parent,
        fresh_trace_id,
        server_span_id,
        t_request,
    );
    let client = start_client_span(
        &cache,
        &scratch,
        client_enabled,
        req,
        client_span_id,
        t_connect,
    );
    let injection_fired = client.is_some();
    let client_done = complete_client_span(
        client,
        upstream_status,
        upstream_reason,
        srv_name,
        t_response,
    );
    let server_done = complete_server_span(
        &mut cache,
        &scratch,
        response_status,
        fe_name,
        be_name,
        term_state,
        t_end,
    );
    let mut spans: Vec<SpanRecord> = Vec::new();
    if let Some(c) = client_done {
        spans.push(c);
    }
    if let Some(s) = server_done {
        spans.push(s);
    }
    (spans, injection_fired)
}

} // verus!
