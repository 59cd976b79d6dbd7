//! The resolver's and the injection rule's laws, stated and proved once for
//! all inputs: precedence order, endpoint suffixing, the empty-as-unset rule,
//! fallback on unrecognized values, and the silent sampler's header
//! suppression.

use vstd::prelude::*;

use crate::config::{
    endpoint_resolution, level_warning, nonempty_src, parse_level, parse_opt_level,
    parse_opt_propagator, parse_opt_protocol, parse_opt_sampler, parse_protocol,
    pick_endpoint_base, pick_level, pick_propagator, pick_protocol, pick_sampler,
    service_name_resolution, traces_suffix, LogLevel, Protocol, PropagatorKind, Provenance,
    SamplerKind,
};
use crate::headers::{
    extracted_headers, header_injected, injected_headers, is_propagation_header,
    is_sampling_header,
};
use crate::strutil::{lower_seq, trim_trailing_slashes};

verus! {

/// Law (precedence): explicit configuration beats the signal-specific
/// override, which beats the general override, which beats the default; a
/// source whose protocol name is empty or unrecognized is skipped.
pub proof fn lemma_protocol_precedence(
    e: Option<Seq<char>>,
    s: Option<Seq<char>>,
    g: Option<Seq<char>>,
)
    ensures
        parse_opt_protocol(e) matches Some(p) ==> pick_protocol(e, s, g) == (
            p,
            Provenance::Explicit,
        ),
        parse_opt_protocol(e) is None ==> (parse_opt_protocol(s) matches Some(p)
            ==> pick_protocol(e, s, g) == (p, Provenance::SignalOverride)),
        parse_opt_protocol(e) is None && parse_opt_protocol(s) is None ==> (parse_opt_protocol(g)
            matches Some(p) ==> pick_protocol(e, s, g) == (p, Provenance::GeneralOverride)),
        parse_opt_protocol(e) is None && parse_opt_protocol(s) is None && parse_opt_protocol(g)
            is None ==> pick_protocol(e, s, g) == (Protocol::HttpProtobuf, Provenance::Defaulted),
{
}

/// Law (precedence) for the sampler strategy.
pub proof fn lemma_sampler_precedence(
    e: Option<Seq<char>>,
    s: Option<Seq<char>>,
    g: Option<Seq<char>>,
)
    ensures
        parse_opt_sampler(e) matches Some(p) ==> pick_sampler(e, s, g) == (
            p,
            Provenance::Explicit,
        ),
        parse_opt_sampler(e) is None ==> (parse_opt_sampler(s) matches Some(p)
            ==> pick_sampler(e, s, g) == (p, Provenance::SignalOverride)),
        parse_opt_sampler(e) is None && parse_opt_sampler(s) is None ==> (parse_opt_sampler(g)
            matches Some(p) ==> pick_sampler(e, s, g) == (p, Provenance::GeneralOverride)),
        parse_opt_sampler(e) is None && parse_opt_sampler(s) is None && parse_opt_sampler(g)
            is None ==> pick_sampler(e, s, g) == (
            SamplerKind::ParentBased,
            Provenance::Defaulted,
        ),
{
}

/// Law (precedence) for the propagator choice.
pub proof fn lemma_propagator_precedence(
    e: Option<Seq<char>>,
    s: Option<Seq<char>>,
    g: Option<Seq<char>>,
)
    ensures
        parse_opt_propagator(e) matches Some(p) ==> pick_propagator(e, s, g) == (
            p,
            Provenance::Explicit,
        ),
        parse_opt_propagator(e) is None ==> (parse_opt_propagator(s) matches Some(p)
            ==> pick_propagator(e, s, g) == (p, Provenance::SignalOverride)),
        parse_opt_propagator(e) is None && parse_opt_propagator(s) is None ==> (
        parse_opt_propagator(g) matches Some(p) ==> pick_propagator(e, s, g) == (
            p,
            Provenance::GeneralOverride,
        )),
        parse_opt_propagator(e) is None && parse_opt_propagator(s) is None && parse_opt_propagator(
            g,
        ) is None ==> pick_propagator(e, s, g) == (PropagatorKind::W3c, Provenance::Defaulted),
{
}

/// Law (precedence) for the log level.
pub proof fn lemma_level_precedence(e: Option<Seq<char>>, s: Option<Seq<char>>, g: Option<Seq<char>>)
    ensures
        parse_opt_level(e) matches Some(p) ==> pick_level(e, s, g) == (p, Provenance::Explicit),
        parse_opt_level(e) is None ==> (parse_opt_level(s) matches Some(p) ==> pick_level(
            e,
            s,
            g,
        ) == (p, Provenance::SignalOverride)),
        parse_opt_level(e) is None && parse_opt_level(s) is None ==> (parse_opt_level(g)
            matches Some(p) ==> pick_level(e, s, g) == (p, Provenance::GeneralOverride)),
        parse_opt_level(e) is None && parse_opt_level(s) is None && parse_opt_level(g) is None
            ==> pick_level(e, s, g) == (LogLevel::Info, Provenance::Defaulted),
{
}

/// Law (precedence) for the endpoint base: the first present, non-empty
/// source wins.
pub proof fn lemma_endpoint_precedence(
    p: Protocol,
    e: Option<Seq<char>>,
    s: Option<Seq<char>>,
    g: Option<Seq<char>>,
)
    ensures
        nonempty_src(e) ==> pick_endpoint_base(p, e, s, g) == (e->Some_0, Provenance::Explicit),
        !nonempty_src(e) && nonempty_src(s) ==> pick_endpoint_base(p, e, s, g) == (
            s->Some_0,
            Provenance::SignalOverride,
        ),
        !nonempty_src(e) && !nonempty_src(s) && nonempty_src(g) ==> pick_endpoint_base(p, e, s, g)
            == (g->Some_0, Provenance::GeneralOverride),
{
}

/// Law (endpoint suffixing): a gRPC endpoint is used verbatim; an HTTP
/// endpoint from the signal-specific override is used byte for byte; any
/// other HTTP endpoint has its trailing slashes trimmed and the traces
/// suffix appended.
pub proof fn lemma_endpoint_suffixing(
    p: Protocol,
    e: Option<Seq<char>>,
    s: Option<Seq<char>>,
    g: Option<Seq<char>>,
)
    ensures
        p == Protocol::Grpc ==> endpoint_resolution(p, e, s, g) == pick_endpoint_base(p, e, s, g),
        p != Protocol::Grpc && pick_endpoint_base(p, e, s, g).1 == Provenance::SignalOverride
            ==> endpoint_resolution(p, e, s, g) == pick_endpoint_base(p, e, s, g),
        p != Protocol::Grpc && pick_endpoint_base(p, e, s, g).1 != Provenance::SignalOverride
            ==> endpoint_resolution(p, e, s, g) == (
            trim_trailing_slashes(pick_endpoint_base(p, e, s, g).0) + traces_suffix(),
            pick_endpoint_base(p, e, s, g).1,
        ),
{
}

/// Law (empty as unset): an empty string at any precedence level behaves
/// exactly as an absent value, for every setting.
pub proof fn lemma_empty_as_unset(s: Option<Seq<char>>, g: Option<Seq<char>>, p: Protocol)
    ensures
        pick_protocol(Some(Seq::empty()), s, g) == pick_protocol(None, s, g),
        pick_sampler(Some(Seq::empty()), s, g) == pick_sampler(None, s, g),
        pick_propagator(Some(Seq::empty()), s, g) == pick_propagator(None, s, g),
        pick_level(Some(Seq::empty()), s, g) == pick_level(None, s, g),
        pick_endpoint_base(p, Some(Seq::empty()), s, g) == pick_endpoint_base(p, None, s, g),
        service_name_resolution(Some(Seq::empty())) == service_name_resolution(None),
        level_warning(Some(Seq::empty()), s, g) == level_warning(None, s, g),
{
    lemma_parse_empty();
}

/// An empty string parses as nothing, for every keyword set.
pub proof fn lemma_parse_empty()
    ensures
        parse_opt_protocol(Some(Seq::empty())) is None,
        parse_opt_sampler(Some(Seq::empty())) is None,
        parse_opt_propagator(Some(Seq::empty())) is None,
        parse_opt_level(Some(Seq::empty())) is None,
{
    reveal_strlit("grpc");
    reveal_strlit("http/protobuf");
    reveal_strlit("http/json");
    reveal_strlit("binary");
    reveal_strlit("json");
    reveal_strlit("AlwaysOn");
    reveal_strlit("SilentOn");
    reveal_strlit("AlwaysOff");
    reveal_strlit("ParentBased");
    reveal_strlit("w3c");
    reveal_strlit("jaeger");
    reveal_strlit("zipkin");
    reveal_strlit("error");
    reveal_strlit("warn");
    reveal_strlit("warning");
    reveal_strlit("info");
    reveal_strlit("debug");
    reveal_strlit("trace");
    reveal_strlit("none");
    reveal_strlit("fatal");
    assert(lower_seq(Seq::empty()).len() == 0);
    assert(lower_seq("grpc"@).len() == 4);
    assert(lower_seq("http/protobuf"@).len() == 13);
    assert(lower_seq("http/json"@).len() == 9);
    assert(lower_seq("binary"@).len() == 6);
    assert(lower_seq("json"@).len() == 4);
    assert(lower_seq("error"@).len() == 5);
    assert(lower_seq("warn"@).len() == 4);
    assert(lower_seq("warning"@).len() == 7);
    assert(lower_seq("info"@).len() == 4);
    assert(lower_seq("debug"@).len() == 5);
    assert(lower_seq("trace"@).len() == 5);
    assert(lower_seq("none"@).len() == 4);
    assert(lower_seq("fatal"@).len() == 5);
}

/// Law (unknown value fallback): a protocol source that is non-empty but
/// unrecognized is skipped like an absent one, and when every source is
/// exhausted the default protocol stands; an unrecognized log level
/// likewise falls back to the default level and raises the warning flag.
pub proof fn lemma_unknown_fallback(v: Seq<char>)
    requires
        v.len() > 0,
        parse_protocol(v) is None,
    ensures
        pick_protocol(Some(v), None, None) == (Protocol::HttpProtobuf, Provenance::Defaulted),
        parse_level(v) is None ==> pick_level(Some(v), None, None) == (
            LogLevel::Info,
            Provenance::Defaulted,
        ),
        parse_level(v) is None ==> level_warning(Some(v), None, None),
{
}

/// Law (extraction allow-list): the headers handed to the propagator for
/// parent extraction are exactly the allow-listed ones — no other request
/// header ever reaches it, and no allow-listed header is lost.
pub proof fn lemma_extraction_allow_list(hs: Seq<(String, String)>)
    ensures
        forall|i: int|
            0 <= i < extracted_headers(hs).len() ==> is_propagation_header(
                (#[trigger] extracted_headers(hs)[i]).0@,
            ),
        forall|i: int|
            0 <= i < hs.len() && is_propagation_header(hs[i].0@) ==> extracted_headers(
                hs,
            ).contains(#[trigger] hs[i]),
    decreases hs.len(),
{
    reveal(Seq::filter);
    broadcast use Seq::lemma_filter_pred;

    if hs.len() != 0 {
        lemma_extraction_allow_list(hs.drop_last());
        assert forall|i: int|
            0 <= i < hs.len() && is_propagation_header(hs[i].0@) implies extracted_headers(
            hs,
        ).contains(hs[i]) by {
            if i < hs.len() - 1 {
                assert(hs.drop_last()[i] == hs[i]);
                let prev = extracted_headers(hs.drop_last());
                let j = choose|j: int| 0 <= j < prev.len() && prev[j] == hs[i];
                assert(extracted_headers(hs)[j] == hs[i]);
            } else {
                assert(hs[i] == hs.last());
                let out = extracted_headers(hs);
                assert(out[out.len() - 1] == hs[i]);
            }
        }
    }
}

/// Law (silent sampling-header suppression): without the silent sampler,
/// injection writes every header unchanged; with it, the sampling-decision
/// header is withheld and every other header is still written, in order.
pub proof fn lemma_silent_suppression(hs: Seq<(String, String)>)
    ensures
        injected_headers(hs, false) == hs,
        forall|i: int|
            0 <= i < injected_headers(hs, true).len() ==> !is_sampling_header(
                (#[trigger] injected_headers(hs, true)[i]).0@,
            ),
        forall|i: int|
            0 <= i < hs.len() && !is_sampling_header(hs[i].0@) ==> injected_headers(
                hs,
                true,
            ).contains(#[trigger] hs[i]),
    decreases hs.len(),
{
    reveal(Seq::filter);
    broadcast use Seq::lemma_filter_pred;

    if hs.len() == 0 {
        assert(injected_headers(hs, false) =~= hs);
    } else {
        lemma_silent_suppression(hs.drop_last());
        assert(injected_headers(hs, false) =~= hs);
        assert forall|i: int|
            0 <= i < hs.len() && !is_sampling_header(hs[i].0@) implies injected_headers(
            hs,
            true,
        ).contains(hs[i]) by {
            if i < hs.len() - 1 {
                assert(hs.drop_last()[i] == hs[i]);
                let prev = injected_headers(hs.drop_last(), true);
                let j = choose|j: int| 0 <= j < prev.len() && prev[j] == hs[i];
                if header_injected(hs.last().0@, true) {
                    assert(injected_headers(hs, true)[j] == hs[i]);
                } else {
                    assert(injected_headers(hs, true)[j] == hs[i]);
                }
            } else {
                assert(hs[i] == hs.last());
                let out = injected_headers(hs, true);
                assert(out[out.len() - 1] == hs[i]);
            }
        }
    }
}

} // verus!
