//! The pull-style decoder: safe event values and the sticky-error state
//! machine around the grammar engine's pull interface.
//!
//! The engine itself is driven by an unverified shell; the shell hands each
//! native event record ([`crate::engine::RawEvent`]) or error snapshot to
//! [`Parser::next_event`], which translates it into a safe [`Event`] and
//! enforces the decoder's state discipline: once a call has failed, every
//! later call re-reports the same error and the engine is never driven again.

use crate::engine::{RawEvent, RawEventKind, RawStyle};
use crate::error::{Error, ErrorV, Mark};
use vstd::prelude::*;
use vstd::slice::slice_subrange;

verus! {

/// A named reference point attached to a node, later referenced by an alias.
#[derive(Debug, PartialEq, Eq, PartialOrd, Ord)]
pub struct Anchor(Vec<u8>);

impl View for Anchor {
    type V = Seq<u8>;

    closed spec fn view(&self) -> Seq<u8> {
        self.0@
    }
}

impl Anchor {
    /// The anchor's bytes.
    pub fn as_ref(&self) -> (r: &[u8])
        ensures
            r@ == self@,
    {
        self.0.as_slice()
    }
}

/// An explicit or implicit type annotation attached to a node.
#[derive(Debug, PartialEq, Eq, PartialOrd, Ord)]
pub struct Tag(Vec<u8>);

impl Tag {
    /// The core-schema null tag, which the engine resolves implicit nulls to.
    pub const NULL: &'static str = "tag:yaml.org,2002:null";

    /// The core-schema bool tag.
    pub const BOOL: &'static str = "tag:yaml.org,2002:bool";

    /// The core-schema int tag.
    pub const INT: &'static str = "tag:yaml.org,2002:int";

    /// The core-schema float tag.
    pub const FLOAT: &'static str = "tag:yaml.org,2002:float";

    /// The tag's bytes.
    pub fn as_ref(&self) -> (r: &[u8])
        ensures
            r@ == self@,
    {
        self.0.as_slice()
    }
}

impl View for Tag {
    type V = Seq<u8>;

    closed spec fn view(&self) -> Seq<u8> {
        self.0@
    }
}

/// A scalar's owned byte content.
#[derive(Debug, PartialEq, Eq, PartialOrd, Ord)]
pub struct ScalarValue(Vec<u8>);

impl View for ScalarValue {
    type V = Seq<u8>;

    closed spec fn view(&self) -> Seq<u8> {
        self.0@
    }
}

impl ScalarValue {
    /// The scalar's bytes.
    pub fn as_ref(&self) -> (r: &[u8])
        ensures
            r@ == self@,
    {
        self.0.as_slice()
    }
}

/// The five concrete scalar styles a decoded scalar can carry.
#[derive(Debug, Copy, Clone, PartialEq, Eq, Structural)]
pub enum ScalarStyle {
    Plain,
    SingleQuoted,
    DoubleQuoted,
    Literal,
    Folded,
}

/// One decoded structural event.
#[derive(Debug)]
pub enum Event<'input> {
    StreamStart,
    StreamEnd,
    DocumentStart,
    DocumentEnd,
    Alias(Anchor),
    Scalar(Scalar<'input>),
    SequenceStart(SequenceStart),
    SequenceEnd,
    MappingStart(MappingStart),
    MappingEnd,
}

/// A decoded scalar: optional anchor and tag, owned value bytes, style, and
/// — only when the decoder borrows its input — the zero-copy slice of the
/// source bytes the scalar was read from.
#[derive(Debug)]
pub struct Scalar<'input> {
    pub anchor: Option<Anchor>,
    pub tag: Option<Tag>,
    pub value: ScalarValue,
    pub style: ScalarStyle,
    pub repr: Option<&'input [u8]>,
}

/// The header of a decoded sequence: optional anchor and tag.
#[derive(Debug)]
pub struct SequenceStart {
    pub anchor: Option<Anchor>,
    pub tag: Option<Tag>,
}

/// The header of a decoded mapping: optional anchor and tag.
#[derive(Debug)]
pub struct MappingStart {
    pub anchor: Option<Anchor>,
    pub tag: Option<Tag>,
}

/// The decoder's input buffer: either an owned copy or a borrow of
/// caller-owned bytes. Only the borrowed form enables zero-copy `repr`
/// slices.
#[derive(Debug)]
pub enum Input<'input> {
    Owned(Vec<u8>),
    Borrowed(&'input [u8]),
}

/// The abstract value of an [`Input`]: which form it takes, and its bytes.
pub enum InputV {
    Owned(Seq<u8>),
    Borrowed(Seq<u8>),
}

impl InputV {
    /// The input's bytes, whichever form holds them.
    pub open spec fn bytes(self) -> Seq<u8> {
        match self {
            InputV::Owned(b) => b,
            InputV::Borrowed(b) => b,
        }
    }
}

impl View for Input<'_> {
    type V = InputV;

    open spec fn view(&self) -> InputV {
        match self {
            Input::Owned(b) => InputV::Owned(b@),
            Input::Borrowed(b) => InputV::Borrowed(b@),
        }
    }
}

impl<'input> Input<'input> {
    /// The input's bytes.
    pub fn bytes(&self) -> (r: &[u8])
        ensures
            r@ == self@.bytes(),
    {
        match self {
            Input::Owned(b) => b.as_slice(),
            Input::Borrowed(b) => b,
        }
    }
}

/// How a decoded anchor or tag relates to the engine's record: present with
/// the same bytes exactly when the record's field was present.
pub open spec fn opt_bytes_match(decoded: Option<Seq<u8>>, raw: Option<Vec<u8>>) -> bool {
    match raw {
        Some(b) => decoded matches Some(d) && d == b@,
        None => decoded is None,
    }
}

/// The view of an optional anchor.
pub open spec fn anchor_view(a: Option<Anchor>) -> Option<Seq<u8>> {
    match a {
        Some(a) => Some(a@),
        None => None,
    }
}

/// The view of an optional tag.
pub open spec fn tag_view(t: Option<Tag>) -> Option<Seq<u8>> {
    match t {
        Some(t) => Some(t@),
        None => None,
    }
}

/// The safe style that stands for a concrete engine style. `Any` stands for
/// no safe style: the engine never reports it on a decoded scalar.
pub open spec fn style_matches(style: ScalarStyle, raw: RawStyle) -> bool {
    match raw {
        RawStyle::Plain => style == ScalarStyle::Plain,
        RawStyle::SingleQuoted => style == ScalarStyle::SingleQuoted,
        RawStyle::DoubleQuoted => style == ScalarStyle::DoubleQuoted,
        RawStyle::Literal => style == ScalarStyle::Literal,
        RawStyle::Folded => style == ScalarStyle::Folded,
        RawStyle::Any => false,
    }
}

/// The zero-copy rule: over a borrowed input the `repr` slice is exactly the
/// source bytes between the event's start and end offsets; over an owned
/// input there is no `repr` at all.
pub open spec fn repr_matches(repr: Option<&[u8]>, raw: RawEvent, input: InputV) -> bool {
    match input {
        InputV::Borrowed(b) => repr matches Some(r) && r@ == b.subrange(
            raw.start_mark.index as int,
            raw.end_mark.index as int,
        ),
        InputV::Owned(_) => repr is None,
    }
}

/// How a safe event relates to the engine record it was decoded from, over
/// the given input.
pub open spec fn converts_to(raw: RawEvent, ev: Event<'_>, input: InputV) -> bool {
    match raw.kind {
        RawEventKind::StreamStart => ev is StreamStart,
        RawEventKind::StreamEnd => ev is StreamEnd,
        RawEventKind::DocumentStart => ev is DocumentStart,
        RawEventKind::DocumentEnd => ev is DocumentEnd,
        RawEventKind::Alias => ev matches Event::Alias(a) && raw.anchor matches Some(b) && a@
            == b@,
        RawEventKind::Scalar => ev matches Event::Scalar(s) && {
            &&& opt_bytes_match(anchor_view(s.anchor), raw.anchor)
            &&& opt_bytes_match(tag_view(s.tag), raw.tag)
            &&& raw.value matches Some(v) && s.value@ == v@
            &&& style_matches(s.style, raw.style)
            &&& repr_matches(s.repr, raw, input)
        },
        RawEventKind::SequenceStart => ev matches Event::SequenceStart(c) && {
            &&& opt_bytes_match(anchor_view(c.anchor), raw.anchor)
            &&& opt_bytes_match(tag_view(c.tag), raw.tag)
        },
        RawEventKind::SequenceEnd => ev is SequenceEnd,
        RawEventKind::MappingStart => ev matches Event::MappingStart(c) && {
            &&& opt_bytes_match(anchor_view(c.anchor), raw.anchor)
            &&& opt_bytes_match(tag_view(c.tag), raw.tag)
        },
        RawEventKind::MappingEnd => ev is MappingEnd,
    }
}

/// Translates one engine record into a safe event, slicing the zero-copy
/// `repr` out of the input when — and only when — the input is borrowed.
pub fn convert_event<'input>(raw: RawEvent, input: &Input<'input>) -> (ev: Event<'input>)
    requires
        raw.wf(input@.bytes().len()),
    ensures
        converts_to(raw, ev, input@),
{
    match raw.kind {
        RawEventKind::StreamStart => Event::StreamStart,
        RawEventKind::StreamEnd => Event::StreamEnd,
        RawEventKind::DocumentStart => Event::DocumentStart,
        RawEventKind::DocumentEnd => Event::DocumentEnd,
        RawEventKind::Alias => Event::Alias(Anchor(raw.anchor.unwrap())),
        RawEventKind::Scalar => {
            let style = match raw.style {
                RawStyle::Plain => ScalarStyle::Plain,
                RawStyle::SingleQuoted => ScalarStyle::SingleQuoted,
                RawStyle::DoubleQuoted => ScalarStyle::DoubleQuoted,
                RawStyle::Literal => ScalarStyle::Literal,
                RawStyle::Folded => ScalarStyle::Folded,
                RawStyle::Any => {
                    // Ruled out by the precondition: the engine never
                    // reports the Any style on a decoded scalar.
                    proof {
                        assert(false);
                    }
                    ScalarStyle::Plain
                },
            };
            let repr: Option<&'input [u8]> = match input {
                Input::Borrowed(b) => {
                    let buf: &'input [u8] = *b;
                    // An exec length read pins the buffer's length as a
                    // usize, which lets the mark offsets be cast below.
                    let buf_len: usize = buf.len();
                    Some(
                        slice_subrange(
                            buf,
                            raw.start_mark.index as usize,
                            raw.end_mark.index as usize,
                        ),
                    )
                },
                Input::Owned(_) => None,
            };
            Event::Scalar(
                Scalar {
                    anchor: match raw.anchor {
                        Some(a) => Some(Anchor(a)),
                        None => None,
                    },
                    tag: match raw.tag {
                        Some(t) => Some(Tag(t)),
                        None => None,
                    },
                    value: ScalarValue(raw.value.unwrap()),
                    style,
                    repr,
                },
            )
        },
        RawEventKind::SequenceStart => Event::SequenceStart(
            SequenceStart {
                anchor: match raw.anchor {
                    Some(a) => Some(Anchor(a)),
                    None => None,
                },
                tag: match raw.tag {
                    Some(t) => Some(Tag(t)),
                    None => None,
                },
            },
        ),
        RawEventKind::SequenceEnd => Event::SequenceEnd,
        RawEventKind::MappingStart => Event::MappingStart(
            MappingStart {
                anchor: match raw.anchor {
                    Some(a) => Some(Anchor(a)),
                    None => None,
                },
                tag: match raw.tag {
                    Some(t) => Some(Tag(t)),
                    None => None,
                },
            },
        ),
        RawEventKind::MappingEnd => Event::MappingEnd,
    }
}

/// The decoder's abstract state: its input and, once a call has failed, the
/// stored error that every later call re-reports.
pub struct ParserV {
    pub input: InputV,
    pub failed: Option<ErrorV>,
}

/// The decoder's state machine around the engine's pull interface.
///
/// It starts ready; it stays ready while calls succeed; the first failure
/// moves it to a failed state that it never leaves, because the engine is
/// not safe to drive again after an error.
pub struct Parser<'input> {
    input: Input<'input>,
    failed: Option<Error>,
}

impl View for Parser<'_> {
    type V = ParserV;

    closed spec fn view(&self) -> ParserV {
        ParserV {
            input: self.input@,
            failed: match self.failed {
                Some(e) => Some(e@),
                None => None,
            },
        }
    }
}

/// The engine kind a decoded event stands for.
pub open spec fn event_kind(ev: Event<'_>) -> RawEventKind {
    match ev {
        Event::StreamStart => RawEventKind::StreamStart,
        Event::StreamEnd => RawEventKind::StreamEnd,
        Event::DocumentStart => RawEventKind::DocumentStart,
        Event::DocumentEnd => RawEventKind::DocumentEnd,
        Event::Alias(_) => RawEventKind::Alias,
        Event::Scalar(_) => RawEventKind::Scalar,
        Event::SequenceStart(_) => RawEventKind::SequenceStart,
        Event::SequenceEnd => RawEventKind::SequenceEnd,
        Event::MappingStart(_) => RawEventKind::MappingStart,
        Event::MappingEnd => RawEventKind::MappingEnd,
    }
}

/// Decoding preserves the stream's structure: every decoded event stands for
/// exactly its record's kind, one to one and in order. The engine guarantees
/// that its records open and close sequences and mappings in balance, at
/// matching depths, and end the stream with a stream-end record; because
/// decoding never reorders, drops or invents an event, the decoded stream
/// carries that same balance.
pub proof fn lemma_decode_preserves_kind(raw: RawEvent, ev: Event<'_>, input: InputV)
    requires
        converts_to(raw, ev, input),
    ensures
        event_kind(ev) == raw.kind,
{
}

impl<'input> Parser<'input> {
    /// A fresh decoder over the given input, ready to decode.
    pub fn new(input: Input<'input>) -> (p: Parser<'input>)
        ensures
            p@.input == input@,
            p@.failed is None,
    {
        Parser { input, failed: None }
    }

    /// The input bytes the engine is to read. The unverified shell binds the
    /// engine's source to exactly this buffer.
    pub fn input_bytes(&self) -> (r: &[u8])
        ensures
            r@ == self@.input.bytes(),
    {
        self.input.bytes()
    }

    /// Re-reports the stored error once a call has failed, without touching
    /// the engine; `None` while the decoder is still ready.
    pub fn replay_error(&self) -> (r: Option<Error>)
        ensures
            match self@.failed {
                Some(v) => r matches Some(e) && e@ == v,
                None => r is None,
            },
    {
        match &self.failed {
            Some(e) => Some(e.duplicate()),
            None => None,
        }
    }

    /// Consumes one engine outcome: a native event record on success, the
    /// engine's error snapshot on failure.
    ///
    /// While ready, a record is translated into a safe event paired with its
    /// start mark, and a failure is stored and returned — after which the
    /// decoder is failed for good: every later call returns the same stored
    /// error, whatever outcome is passed, and the state never changes again.
    pub fn next_event(&mut self, outcome: Result<RawEvent, Error>) -> (r: Result<
        (Event<'input>, Mark),
        Error,
    >)
        requires
            old(self)@.failed is None ==> (outcome matches Ok(raw) ==> raw.wf(
                old(self)@.input.bytes().len(),
            )),
        ensures
            final(self)@.input == old(self)@.input,
            match old(self)@.failed {
                Some(v) => r matches Err(e) && e@ == v && final(self)@.failed == Some(v),
                None => match outcome {
                    Ok(raw) => r matches Ok(p) && converts_to(raw, p.0, old(self)@.input) && p.1
                        == raw.start_mark && final(self)@.failed is None,
                    Err(e0) => r matches Err(e) && e@ == e0@ && final(self)@.failed == Some(e0@),
                },
            },
    {
        if let Some(stored) = &self.failed {
            return Err(stored.duplicate());
        }
        match outcome {
            Ok(raw) => {
                let mark = raw.start_mark;
                let ev = convert_event(raw, &self.input);
                Ok((ev, mark))
            },
            Err(e) => {
                self.failed = Some(e.duplicate());
                Err(e)
            },
        }
    }
}

} // verus!
