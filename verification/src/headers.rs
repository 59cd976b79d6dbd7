//! Header selection rules. Extraction of a remote parent must only ever see
//! the propagation allow-list, never arbitrary request headers; and when the
//! sampler is the silent variant, the single-bit sampling-decision header is
//! suppressed from injection while every other propagation header is still
//! written.

use vstd::prelude::*;

use crate::strutil::{eq_ignore_case, is_prefix_of, matches_keyword, starts_with, str_eq};

verus! {

/// The allow-list for parent-context extraction: the host header, the W3C
/// pair, the B3 single header and the B3-prefixed family, and vendor
/// identifiers with the "uber" prefix. Header names arrive lowercased from
/// the host.
pub open spec fn is_propagation_header(name: Seq<char>) -> bool {
    ||| name == "host"@
    ||| name == "traceparent"@
    ||| name == "tracestate"@
    ||| name == "b3"@
    ||| is_prefix_of("x-b3"@, name)
    ||| is_prefix_of("uber"@, name)
}

pub fn propagation_header(name: &str) -> (r: bool)
    ensures
        r == is_propagation_header(name@),
{
    str_eq(name, "host") || str_eq(name, "traceparent") || str_eq(name, "tracestate") || str_eq(
        name,
        "b3",
    ) || starts_with(name, "x-b3") || starts_with(name, "uber")
}

/// The headers fed to the propagator when a parent context is extracted.
pub open spec fn extracted_headers(hs: Seq<(String, String)>) -> Seq<(String, String)> {
    hs.filter(|p: (String, String)| is_propagation_header(p.0@))
}

/// The single-bit sampling-decision header of the B3 family.
pub open spec fn is_sampling_header(name: Seq<char>) -> bool {
    matches_keyword(name, "x-b3-sampled"@)
}

/// Whether a propagation header is written onto the outgoing request: with
/// the silent sampler the sampling-decision header is withheld, everything
/// else is always written.
pub open spec fn header_injected(name: Seq<char>, silent_on: bool) -> bool {
    !(silent_on && is_sampling_header(name))
}

pub fn should_inject(name: &str, silent_on: bool) -> (r: bool)
    ensures
        r == header_injected(name@, silent_on),
{
    !(silent_on && eq_ignore_case(name, "x-b3-sampled"))
}

/// The headers that injection actually writes.
pub open spec fn injected_headers(hs: Seq<(String, String)>, silent_on: bool) -> Seq<
    (String, String),
> {
    hs.filter(|p: (String, String)| header_injected(p.0@, silent_on))
}

proof fn lemma_extracted_empty()
    ensures
        extracted_headers(Seq::empty()) == Seq::<(String, String)>::empty(),
{
    reveal(Seq::filter);
}

proof fn lemma_extracted_step(s: Seq<(String, String)>, i: int)
    requires
        0 <= i < s.len(),
    ensures
        extracted_headers(s.subrange(0, i + 1)) == if is_propagation_header(s[i].0@) {
            extracted_headers(s.subrange(0, i)).push(s[i])
        } else {
            extracted_headers(s.subrange(0, i))
        },
{
    reveal_with_fuel(Seq::<_>::filter, 2);
    broadcast use Seq::filter_distributes_over_add;

    let pre = s.subrange(0, i);
    let one = seq![s[i]];
    assert(s.subrange(0, i + 1) =~= pre + one);
    assert(one.drop_last() =~= Seq::<(String, String)>::empty());
    assert(one.last() == s[i]);
    if is_propagation_header(s[i].0@) {
        assert(extracted_headers(pre) + extracted_headers(one) =~= extracted_headers(pre).push(
            s[i],
        ));
    } else {
        assert(extracted_headers(pre) + extracted_headers(one) =~= extracted_headers(pre));
    }
}

proof fn lemma_injected_empty(silent_on: bool)
    ensures
        injected_headers(Seq::empty(), silent_on) == Seq::<(String, String)>::empty(),
{
    reveal(Seq::filter);
}

proof fn lemma_injected_step(s: Seq<(String, String)>, i: int, silent_on: bool)
    requires
        0 <= i < s.len(),
    ensures
        injected_headers(s.subrange(0, i + 1), silent_on) == if header_injected(
            s[i].0@,
            silent_on,
        ) {
            injected_headers(s.subrange(0, i), silent_on).push(s[i])
        } else {
            injected_headers(s.subrange(0, i), silent_on)
        },
{
    reveal_with_fuel(Seq::<_>::filter, 2);
    broadcast use Seq::filter_distributes_over_add;

    let pre = s.subrange(0, i);
    let one = seq![s[i]];
    assert(s.subrange(0, i + 1) =~= pre + one);
    assert(one.drop_last() =~= Seq::<(String, String)>::empty());
    assert(one.last() == s[i]);
    if header_injected(s[i].0@, silent_on) {
        assert(injected_headers(pre, silent_on) + injected_headers(one, silent_on)
            =~= injected_headers(pre, silent_on).push(s[i]));
    } else {
        assert(injected_headers(pre, silent_on) + injected_headers(one, silent_on)
            =~= injected_headers(pre, silent_on));
    }
}

/// Keeps exactly the allow-listed propagation headers of a request, in
/// order; what the lifecycle hands to the propagator for extraction.
pub fn filter_tracing_headers(headers: &Vec<(String, String)>) -> (r: Vec<(String, String)>)
    ensures
        r@ == extracted_headers(headers@),
{
    let mut out: Vec<(String, String)> = Vec::new();
    proof {
        lemma_extracted_empty();
        assert(headers@.subrange(0, 0) =~= Seq::<(String, String)>::empty());
    }
    let mut i: usize = 0;
    while i < headers.len()
        invariant
            i <= headers@.len(),
            out@ == extracted_headers(headers@.subrange(0, i as int)),
        decreases headers@.len() - i,
    {
        proof {
            lemma_extracted_step(headers@, i as int);
        }
        let (name, value) = (&headers[i].0, &headers[i].1);
        if propagation_header(name.as_str()) {
            let pair = (name.clone(), value.clone());
            proof {
                assert(pair == headers@[i as int]);
            }
            out.push(pair);
        }
        i = i + 1;
    }
    proof {
        assert(headers@.subrange(0, headers@.len() as int) =~= headers@);
    }
    out
}

/// Keeps exactly the headers that injection writes: all of them, unless the
/// silent sampler suppresses the sampling-decision header.
pub fn filter_injected_headers(headers: &Vec<(String, String)>, silent_on: bool) -> (r: Vec<
    (String, String),
>)
    ensures
        r@ == injected_headers(headers@, silent_on),
{
    let mut out: Vec<(String, String)> = Vec::new();
    proof {
        lemma_injected_empty(silent_on);
        assert(headers@.subrange(0, 0) =~= Seq::<(String, String)>::empty());
    }
    let mut i: usize = 0;
    while i < headers.len()
        invariant
            i <= headers@.len(),
            out@ == injected_headers(headers@.subrange(0, i as int), silent_on),
        decreases headers@.len() - i,
    {
        proof {
            lemma_injected_step(headers@, i as int, silent_on);
        }
        let (name, value) = (&headers[i].0, &headers[i].1);
        if should_inject(name.as_str(), silent_on) {
            let pair = (name.clone(), value.clone());
            proof {
                assert(pair == headers@[i as int]);
            }
            out.push(pair);
        }
        i = i + 1;
    }
    proof {
        assert(headers@.subrange(0, headers@.len() as int) =~= headers@);
    }
    out
}

} // verus!
