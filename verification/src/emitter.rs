//! The push-style encoder: translation of caller events into the engine's
//! native event requests, and the precedence of sink failures over generic
//! engine errors.
//!
//! The engine and the sink live in an unverified shell. The shell calls
//! [`prepare`] to turn each caller [`Event`] into a plain [`EventRequest`],
//! feeds that request to the engine, stashes a sink write failure through
//! [`Emitter::record_io_failure`] from inside the engine's write callback,
//! and resolves a failed engine call through [`Emitter::resolve_failure`],
//! which reports the stashed sink failure in preference to the engine's own
//! error.

use crate::engine::RawStyle;
use crate::error::Error;
use vstd::prelude::*;
use vstd::string::StrSliceExecFns;
use vstd::string::StringSliceAdditionalSpecFns;
use vstd::utf8::encode_utf8;

verus! {

/// An encoder failure: either the engine's own snapshotted error, or the
/// sink failure that made the engine fail.
#[derive(Debug)]
pub enum EmitterError {
    Libyaml(Error),
    Io(std::io::Error),
}

/// Relies on `std::io::Error` only as an opaque value: the encoder stashes
/// one when the sink fails and hands it back unread.
#[verifier::external_type_specification]
#[verifier::external_body]
pub struct ExIoError(std::io::Error);

/// One structural event to encode. The encoder accepts borrowed scalar text
/// from the caller and writes no anchors or aliases of its own: alias
/// resolution belongs to the layers above.
#[derive(Debug)]
pub enum Event<'a> {
    StreamStart,
    StreamEnd,
    DocumentStart,
    DocumentEnd,
    Scalar(Scalar<'a>),
    SequenceStart(Sequence),
    SequenceEnd,
    MappingStart(Mapping),
    MappingEnd,
}

/// A scalar to encode: optional tag, borrowed text, and a requested style.
#[derive(Debug)]
pub struct Scalar<'a> {
    pub tag: Option<String>,
    pub value: &'a str,
    pub style: ScalarStyle,
}

/// The styles a caller may request for a scalar; `Any` leaves the choice to
/// the engine.
#[derive(Debug, Clone, Copy, PartialEq, Eq, Structural)]
pub enum ScalarStyle {
    Any,
    Plain,
    SingleQuoted,
    Literal,
}

/// A sequence to open: optional tag.
#[derive(Debug)]
pub struct Sequence {
    pub tag: Option<String>,
}

/// A mapping to open: optional tag.
#[derive(Debug)]
pub struct Mapping {
    pub tag: Option<String>,
}

/// One native event request, ready for the engine: plain bytes and flags in
/// the exact shape the engine's event constructors take.
#[derive(Debug)]
pub enum EventRequest {
    StreamStart,
    StreamEnd,
    DocumentStart,
    DocumentEnd,
    Scalar(ScalarRequest),
    SequenceStart(CollectionRequest),
    SequenceEnd,
    MappingStart(CollectionRequest),
    MappingEnd,
}

/// A native scalar request. The tag bytes carry the NUL terminator the
/// engine requires of its C-style strings; the implicit flags tell the
/// engine whether a reader may infer the type without a written tag.
#[derive(Debug)]
pub struct ScalarRequest {
    pub tag: Option<Vec<u8>>,
    pub value: Vec<u8>,
    pub plain_implicit: bool,
    pub quoted_implicit: bool,
    pub style: RawStyle,
}

/// A native sequence-start or mapping-start request.
#[derive(Debug)]
pub struct CollectionRequest {
    pub tag: Option<Vec<u8>>,
    pub implicit: bool,
}

/// The engine style that stands for a requested scalar style.
pub open spec fn raw_style_of(style: ScalarStyle) -> RawStyle {
    match style {
        ScalarStyle::Any => RawStyle::Any,
        ScalarStyle::Plain => RawStyle::Plain,
        ScalarStyle::SingleQuoted => RawStyle::SingleQuoted,
        ScalarStyle::Literal => RawStyle::Literal,
    }
}

/// How a prepared tag relates to the caller's: absent together, or the same
/// text as UTF-8 bytes with the engine's NUL terminator appended.
pub open spec fn tag_request_matches(tag: Option<String>, req: Option<Vec<u8>>) -> bool {
    match tag {
        Some(t) => req matches Some(b) && b@ == encode_utf8(t@) + seq![0u8],
        None => req is None,
    }
}

/// How a native request relates to the caller event it was prepared from.
///
/// The implicit-tag rule is stated here once for every tagged kind: the
/// implicit flags are true exactly when the caller supplied no tag.
pub open spec fn prepares_to(ev: Event<'_>, r: EventRequest) -> bool {
    match ev {
        Event::StreamStart => r is StreamStart,
        Event::StreamEnd => r is StreamEnd,
        Event::DocumentStart => r is DocumentStart,
        Event::DocumentEnd => r is DocumentEnd,
        Event::Scalar(s) => r matches EventRequest::Scalar(q) && {
            &&& tag_request_matches(s.tag, q.tag)
            &&& q.value@ == s.value.spec_bytes()
            &&& q.plain_implicit == (s.tag is None)
            &&& q.quoted_implicit == (s.tag is None)
            &&& q.style == raw_style_of(s.style)
        },
        Event::SequenceStart(c) => r matches EventRequest::SequenceStart(q) && {
            &&& tag_request_matches(c.tag, q.tag)
            &&& q.implicit == (c.tag is None)
        },
        Event::SequenceEnd => r is SequenceEnd,
        Event::MappingStart(c) => r matches EventRequest::MappingStart(q) && {
            &&& tag_request_matches(c.tag, q.tag)
            &&& q.implicit == (c.tag is None)
        },
        Event::MappingEnd => r is MappingEnd,
    }
}

/// Copies a caller tag into the engine's shape: its UTF-8 bytes with a NUL
/// terminator. The caller's own storage is never mutated.
fn prepare_tag(tag: Option<String>) -> (r: Option<Vec<u8>>)
    ensures
        tag_request_matches(tag, r),
{
    match tag {
        Some(t) => {
            let mut b = t.as_str().as_bytes_vec();
            b.push(0u8);
            proof {
                assert(b@ =~= encode_utf8(t@) + seq![0u8]);
            }
            Some(b)
        },
        None => None,
    }
}

/// Translates one caller event into the engine's native request, deriving
/// the implicit flags: implicit exactly when no explicit tag is supplied.
pub fn prepare(ev: Event<'_>) -> (r: EventRequest)
    ensures
        prepares_to(ev, r),
{
    match ev {
        Event::StreamStart => EventRequest::StreamStart,
        Event::StreamEnd => EventRequest::StreamEnd,
        Event::DocumentStart => EventRequest::DocumentStart,
        Event::DocumentEnd => EventRequest::DocumentEnd,
        Event::Scalar(s) => {
            let implicit = s.tag.is_none();
            let style = match s.style {
                ScalarStyle::Any => RawStyle::Any,
                ScalarStyle::Plain => RawStyle::Plain,
                ScalarStyle::SingleQuoted => RawStyle::SingleQuoted,
                ScalarStyle::Literal => RawStyle::Literal,
            };
            EventRequest::Scalar(
                ScalarRequest {
                    tag: prepare_tag(s.tag),
                    value: s.value.as_bytes_vec(),
                    plain_implicit: implicit,
                    quoted_implicit: implicit,
                    style,
                },
            )
        },
        Event::SequenceStart(c) => {
            let implicit = c.tag.is_none();
            EventRequest::SequenceStart(
                CollectionRequest { tag: prepare_tag(c.tag), implicit },
            )
        },
        Event::SequenceEnd => EventRequest::SequenceEnd,
        Event::MappingStart(c) => {
            let implicit = c.tag.is_none();
            EventRequest::MappingStart(
                CollectionRequest { tag: prepare_tag(c.tag), implicit },
            )
        },
        Event::MappingEnd => EventRequest::MappingEnd,
    }
}

/// The encoder's error channel: at most one stashed sink failure, waiting to
/// be re-surfaced by the engine call that needed the write to succeed.
pub struct Emitter {
    pending_io: Option<std::io::Error>,
}

impl View for Emitter {
    type V = Option<std::io::Error>;

    closed spec fn view(&self) -> Option<std::io::Error> {
        self.pending_io
    }
}

impl Emitter {
    /// A fresh encoder channel with no stashed failure.
    pub fn new() -> (r: Emitter)
        ensures
            r@ is None,
    {
        Emitter { pending_io: None }
    }

    /// Stashes the sink failure the engine's write callback just saw, so the
    /// failing engine call can re-surface it instead of a generic error.
    pub fn record_io_failure(&mut self, err: std::io::Error)
        ensures
            final(self)@ == Some(err),
    {
        self.pending_io = Some(err);
    }

    /// Resolves a failed engine call: the stashed sink failure takes
    /// precedence over the engine's own error, which in that case is only a
    /// symptom; either way the stash is drained.
    pub fn resolve_failure(&mut self, engine_error: Error) -> (r: EmitterError)
        ensures
            final(self)@ is None,
            match old(self)@ {
                Some(e) => r == EmitterError::Io(e),
                None => r == EmitterError::Libyaml(engine_error),
            },
    {
        match self.pending_io.take() {
            Some(e) => EmitterError::Io(e),
            None => EmitterError::Libyaml(engine_error),
        }
    }
}

} // verus!
