//! The round-trip law: an event that is encoded and then decoded again comes
//! back as the same event.
//!
//! The grammar engine sits between the two directions: it turns a prepared
//! [`EventRequest`] into output bytes, and turns those bytes back into a
//! native record. [`engine_reflects`] states what the engine guarantees
//! about that trip — the record mirrors the request, with the NUL
//! terminator stripped from the tag. Under that guarantee,
//! [`lemma_round_trip`] proves that decoding undoes encoding exactly, up to
//! marks and the zero-copy `repr`, which are not part of the value.

use crate::emitter;
use crate::emitter::{prepares_to, raw_style_of, EventRequest};
use crate::engine::{RawEvent, RawEventKind};
use crate::parser;
use crate::parser::{anchor_view, converts_to, style_matches, tag_view, InputV};
use vstd::prelude::*;
use vstd::string::StringSliceAdditionalSpecFns;
use vstd::utf8::encode_utf8;

verus! {

/// The tag bytes a decoded event should carry for a caller-supplied tag:
/// the same text as UTF-8 bytes, without the engine's NUL terminator.
pub open spec fn decoded_tag_of(tag: Option<String>) -> Option<Seq<u8>> {
    match tag {
        Some(t) => Some(encode_utf8(t@)),
        None => None,
    }
}

/// How a decoded tag field relates to a prepared, NUL-terminated tag field:
/// absent together, or the same bytes less the terminator.
pub open spec fn tag_reflects(req: Option<Vec<u8>>, raw: Option<Vec<u8>>) -> bool {
    match req {
        Some(b) => raw matches Some(t) && t@ + seq![0u8] == b@,
        None => raw is None,
    }
}

/// The engine's guarantee for a faithful trip through its own output: the
/// native record it reports after re-reading its output mirrors the request
/// it was fed — same kind, no anchor (the encoder writes none), same value
/// bytes, the tag less its NUL terminator, and the same concrete style.
pub open spec fn engine_reflects(req: EventRequest, raw: RawEvent) -> bool {
    match req {
        EventRequest::StreamStart => raw.kind == RawEventKind::StreamStart,
        EventRequest::StreamEnd => raw.kind == RawEventKind::StreamEnd,
        EventRequest::DocumentStart => raw.kind == RawEventKind::DocumentStart,
        EventRequest::DocumentEnd => raw.kind == RawEventKind::DocumentEnd,
        EventRequest::Scalar(q) => {
            &&& raw.kind == RawEventKind::Scalar
            &&& raw.anchor is None
            &&& raw.value matches Some(v) && v@ == q.value@
            &&& tag_reflects(q.tag, raw.tag)
            &&& raw.style == q.style
        },
        EventRequest::SequenceStart(q) => {
            &&& raw.kind == RawEventKind::SequenceStart
            &&& raw.anchor is None
            &&& tag_reflects(q.tag, raw.tag)
        },
        EventRequest::SequenceEnd => raw.kind == RawEventKind::SequenceEnd,
        EventRequest::MappingStart(q) => {
            &&& raw.kind == RawEventKind::MappingStart
            &&& raw.anchor is None
            &&& tag_reflects(q.tag, raw.tag)
        },
        EventRequest::MappingEnd => raw.kind == RawEventKind::MappingEnd,
    }
}

/// When a decoded event is the encoded event come back: same kind, no
/// anchor, the same tag text, the same value bytes, and the decoded style
/// standing for the requested one. Marks and `repr` play no part.
pub open spec fn round_trips_to(e: emitter::Event<'_>, d: parser::Event<'_>) -> bool {
    match e {
        emitter::Event::StreamStart => d is StreamStart,
        emitter::Event::StreamEnd => d is StreamEnd,
        emitter::Event::DocumentStart => d is DocumentStart,
        emitter::Event::DocumentEnd => d is DocumentEnd,
        emitter::Event::Scalar(s) => d matches parser::Event::Scalar(ds) && {
            &&& ds.anchor is None
            &&& tag_view(ds.tag) == decoded_tag_of(s.tag)
            &&& ds.value@ == s.value.spec_bytes()
            &&& style_matches(ds.style, raw_style_of(s.style))
        },
        emitter::Event::SequenceStart(c) => d matches parser::Event::SequenceStart(dc) && {
            &&& anchor_view(dc.anchor) is None
            &&& tag_view(dc.tag) == decoded_tag_of(c.tag)
        },
        emitter::Event::SequenceEnd => d is SequenceEnd,
        emitter::Event::MappingStart(c) => d matches parser::Event::MappingStart(dc) && {
            &&& anchor_view(dc.anchor) is None
            &&& tag_view(dc.tag) == decoded_tag_of(c.tag)
        },
        emitter::Event::MappingEnd => d is MappingEnd,
    }
}

/// A concrete style was requested: the engine reports `Any` back as a style
/// of its own choosing, so only concrete styles round-trip as themselves.
pub open spec fn style_is_concrete(e: emitter::Event<'_>) -> bool {
    e matches emitter::Event::Scalar(s) ==> s.style != emitter::ScalarStyle::Any
}

/// Appending the same byte to two sequences can only give the same result
/// when the sequences were already the same.
proof fn lemma_snoc_injective(a: Seq<u8>, b: Seq<u8>, x: u8)
    requires
        a + seq![x] == b + seq![x],
    ensures
        a == b,
{
    assert((a + seq![x]).len() == a.len() + 1);
    assert((b + seq![x]).len() == b.len() + 1);
    assert(a.len() == b.len());
    assert forall|i: int| 0 <= i < a.len() implies a[i] == b[i] by {
        assert((a + seq![x])[i] == a[i]);
        assert((b + seq![x])[i] == b[i]);
    }
    assert(a =~= b);
}

/// A prepared tag that the engine reflects back decodes to the caller's
/// original tag text.
proof fn lemma_tag_round_trip(tag: Option<String>, req: Option<Vec<u8>>, raw: Option<Vec<u8>>)
    requires
        emitter::tag_request_matches(tag, req),
        tag_reflects(req, raw),
    ensures
        match raw {
            Some(t) => decoded_tag_of(tag) == Some(t@),
            None => decoded_tag_of(tag) is None,
        },
{
    if let Some(t) = tag {
        let b = req->Some_0;
        let rt = raw->Some_0;
        assert(rt@ + seq![0u8] == encode_utf8(t@) + seq![0u8]);
        lemma_snoc_injective(rt@, encode_utf8(t@), 0u8);
    }
}

/// The round-trip law: for any event the encoder accepts with a concrete
/// style, if the engine faithfully reflects the prepared request as a native
/// record, then decoding that record — over any input, owned or borrowed —
/// yields the original event again, marks and `repr` aside.
pub proof fn lemma_round_trip(
    e: emitter::Event<'_>,
    req: EventRequest,
    raw: RawEvent,
    d: parser::Event<'_>,
    input: InputV,
)
    requires
        style_is_concrete(e),
        prepares_to(e, req),
        engine_reflects(req, raw),
        converts_to(raw, d, input),
    ensures
        round_trips_to(e, d),
{
    match e {
        emitter::Event::Scalar(s) => {
            let q = req->Scalar_0;
            lemma_tag_round_trip(s.tag, q.tag, raw.tag);
        },
        emitter::Event::SequenceStart(c) => {
            let q = req->SequenceStart_0;
            lemma_tag_round_trip(c.tag, q.tag, raw.tag);
        },
        emitter::Event::MappingStart(c) => {
            let q = req->MappingStart_0;
            lemma_tag_round_trip(c.tag, q.tag, raw.tag);
        },
        _ => {},
    }
}

/// The round-trip law for a whole stream: when every event of a decoded,
/// well-formed stream is re-encoded with a concrete style and the engine
/// faithfully reflects each prepared request, re-decoding yields the same
/// events again, in the same order, marks and `repr` aside.
pub proof fn lemma_round_trip_stream(
    events: Seq<emitter::Event<'_>>,
    requests: Seq<EventRequest>,
    raws: Seq<RawEvent>,
    decoded: Seq<parser::Event<'_>>,
    input: InputV,
)
    requires
        requests.len() == events.len(),
        raws.len() == events.len(),
        decoded.len() == events.len(),
        forall|i: int| 0 <= i < events.len() ==> #[trigger] style_is_concrete(events[i]),
        forall|i: int| 0 <= i < events.len() ==> #[trigger] prepares_to(events[i], requests[i]),
        forall|i: int| 0 <= i < events.len() ==> #[trigger] engine_reflects(requests[i], raws[i]),
        forall|i: int| 0 <= i < events.len() ==> #[trigger] converts_to(raws[i], decoded[i], input),
    ensures
        forall|i: int| 0 <= i < events.len() ==> #[trigger] round_trips_to(events[i], decoded[i]),
{
    assert forall|i: int| 0 <= i < events.len() implies #[trigger] round_trips_to(
        events[i],
        decoded[i],
    ) by {
        lemma_round_trip(events[i], requests[i], raws[i], decoded[i], input);
    }
}

} // verus!
