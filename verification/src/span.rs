//! The span data model: a span record with kind, timing, attributes, events
//! and terminal status, and the trace context that the correlation cache
//! carries between a request's callback invocations.

use vstd::prelude::*;

use crate::TRACE_ID_LEN;

verus! {

/// Whether a span stands for the inbound request or an outbound call.
#[derive(Clone, Copy, PartialEq, Eq, Structural, Debug)]
pub enum SpanKind {
    Server,
    Client,
}

/// An attribute value: a string or an integer.
#[derive(Clone, Debug, PartialEq)]
pub enum AttrValue {
    Text(String),
    Int(i64),
}

/// Spec-level mirror of [`AttrValue`].
pub enum AttrValueModel {
    Text(Seq<char>),
    Int(i64),
}

impl View for AttrValue {
    type V = AttrValueModel;

    open spec fn view(&self) -> AttrValueModel {
        match self {
            AttrValue::Text(s) => AttrValueModel::Text(s@),
            AttrValue::Int(i) => AttrValueModel::Int(*i),
        }
    }
}

/// One span attribute.
#[derive(Clone, Debug, PartialEq)]
pub struct Attr {
    pub key: String,
    pub value: AttrValue,
}

/// Spec-level mirror of [`Attr`].
pub struct AttrModel {
    pub key: Seq<char>,
    pub value: AttrValueModel,
}

impl View for Attr {
    type V = AttrModel;

    open spec fn view(&self) -> AttrModel {
        AttrModel { key: self.key@, value: self.value@ }
    }
}

/// A span's terminal status.
#[derive(Clone, Debug, PartialEq)]
pub enum SpanStatus {
    Unset,
    Okay,
    Failed(String),
}

/// Spec-level mirror of [`SpanStatus`].
pub enum StatusModel {
    Unset,
    Okay,
    Failed(Seq<char>),
}

impl View for SpanStatus {
    type V = StatusModel;

    open spec fn view(&self) -> StatusModel {
        match self {
            SpanStatus::Unset => StatusModel::Unset,
            SpanStatus::Okay => StatusModel::Okay,
            SpanStatus::Failed(s) => StatusModel::Failed(s@),
        }
    }
}

/// A timed operation with attributes, events, a status, and a parent link.
#[derive(Clone, Debug, PartialEq)]
pub struct SpanRecord {
    pub kind: SpanKind,
    pub name: String,
    pub trace_id: Vec<u8>,
    pub span_id: u64,
    pub parent_span_id: Option<u64>,
    pub start_time: u64,
    pub end_time: Option<u64>,
    pub attrs: Vec<Attr>,
    pub events: Vec<String>,
    pub status: SpanStatus,
}

/// Spec-level mirror of [`SpanRecord`].
pub struct SpanModel {
    pub kind: SpanKind,
    pub name: Seq<char>,
    pub trace_id: Seq<u8>,
    pub span_id: u64,
    pub parent_span_id: Option<u64>,
    pub start_time: u64,
    pub end_time: Option<u64>,
    pub attrs: Seq<AttrModel>,
    pub events: Seq<Seq<char>>,
    pub status: StatusModel,
}

impl View for SpanRecord {
    type V = SpanModel;

    open spec fn view(&self) -> SpanModel {
        SpanModel {
            kind: self.kind,
            name: self.name@,
            trace_id: self.trace_id@,
            span_id: self.span_id,
            parent_span_id: self.parent_span_id,
            start_time: self.start_time,
            end_time: self.end_time,
            attrs: self.attrs@.map_values(|a: Attr| a@),
            events: self.events@.map_values(|e: String| e@),
            status: self.status@,
        }
    }
}

impl SpanModel {
    /// A span is well formed when its trace identifier has the fixed width.
    pub open spec fn wf(self) -> bool {
        self.trace_id.len() == TRACE_ID_LEN
    }

    /// The span carries an attribute with this key and value.
    pub open spec fn has_attr_value(self, key: Seq<char>, value: AttrValueModel) -> bool {
        exists|i: int|
            0 <= i < self.attrs.len() && self.attrs[i].key == key && self.attrs[i].value == value
    }
}

/// The currently active span plus the sampling decision of its trace; the
/// value the correlation cache maps a trace identifier to.
#[derive(Clone, Debug, PartialEq)]
pub struct TraceContext {
    pub trace_id: Vec<u8>,
    pub sampled: bool,
    pub active: SpanRecord,
}

/// Spec-level mirror of [`TraceContext`].
pub struct CtxModel {
    pub trace_id: Seq<u8>,
    pub sampled: bool,
    pub active: SpanModel,
}

impl View for TraceContext {
    type V = CtxModel;

    open spec fn view(&self) -> CtxModel {
        CtxModel { trace_id: self.trace_id@, sampled: self.sampled, active: self.active@ }
    }
}

impl CtxModel {
    /// A context is well formed when its identifier has the fixed width and
    /// its active span belongs to the same trace.
    pub open spec fn wf(self) -> bool {
        self.trace_id.len() == TRACE_ID_LEN && self.active.trace_id == self.trace_id
            && self.active.wf()
    }
}

/// A remote parent extracted from the incoming request's propagation
/// headers.
#[derive(Clone, Debug, PartialEq)]
pub struct ParentContext {
    pub trace_id: Vec<u8>,
    pub span_id: u64,
    pub sampled: bool,
}

/// Spec-level mirror of [`ParentContext`].
pub struct ParentModel {
    pub trace_id: Seq<u8>,
    pub span_id: u64,
    pub sampled: bool,
}

impl View for ParentContext {
    type V = ParentModel;

    open spec fn view(&self) -> ParentModel {
        ParentModel { trace_id: self.trace_id@, span_id: self.span_id, sampled: self.sampled }
    }
}

/// The request fields the lifecycle engine reads when it opens a span.
#[derive(Clone, Debug, PartialEq)]
pub struct RequestInfo {
    pub method: String,
    pub path_and_query: String,
    pub host: String,
    pub peer_addr: String,
}

/// Spec-level mirror of [`RequestInfo`].
pub struct ReqModel {
    pub method: Seq<char>,
    pub path_and_query: Seq<char>,
    pub host: Seq<char>,
    pub peer_addr: Seq<char>,
}

impl View for RequestInfo {
    type V = ReqModel;

    open spec fn view(&self) -> ReqModel {
        ReqModel {
            method: self.method@,
            path_and_query: self.path_and_query@,
            host: self.host@,
            peer_addr: self.peer_addr@,
        }
    }
}

} // verus!
