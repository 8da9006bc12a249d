//! Plain-data records of the grammar engine's native event structures.
//!
//! The engine's own event is a tagged union read through raw pointers; the
//! unverified shell that drives the engine copies each field out into these
//! safe records before handing them to the decoder, and feeds the encoder's
//! [`crate::emitter::EventRequest`] values back into the engine. The decoder
//! relies on the engine's documented guarantees about these records; the
//! places that do state them as preconditions ([`RawEvent::wf`]).

use crate::error::Mark;
use vstd::prelude::*;

verus! {

/// The engine's scalar style enumeration. `Any` leaves the choice of style
/// to the engine; the engine never reports `Any` on a decoded scalar.
#[derive(Debug, Clone, Copy, PartialEq, Eq, Structural)]
pub enum RawStyle {
    Any,
    Plain,
    SingleQuoted,
    DoubleQuoted,
    Literal,
    Folded,
}

/// The engine's event type enumeration, without the payload fields.
#[derive(Debug, Clone, Copy, PartialEq, Eq, Structural)]
pub enum RawEventKind {
    StreamStart,
    StreamEnd,
    DocumentStart,
    DocumentEnd,
    Alias,
    Scalar,
    SequenceStart,
    SequenceEnd,
    MappingStart,
    MappingEnd,
}

/// One native event, copied field by field out of the engine's tagged union.
///
/// `anchor`, `tag` and `value` are `Some` exactly when the union's pointer
/// fields were non-null; `style` and the marks are meaningful only for the
/// event kinds that carry them and hold the union's raw values either way.
#[derive(Debug)]
pub struct RawEvent {
    pub kind: RawEventKind,
    pub anchor: Option<Vec<u8>>,
    pub tag: Option<Vec<u8>>,
    pub value: Option<Vec<u8>>,
    pub style: RawStyle,
    pub start_mark: Mark,
    pub end_mark: Mark,
}

impl RawEvent {
    /// The engine's guarantees about a decoded event, relative to an input
    /// buffer of `input_len` bytes: an alias always carries an anchor, a
    /// scalar always carries a value and one of the five concrete styles, and
    /// a scalar's marks bracket its source bytes within the input.
    pub open spec fn wf(&self, input_len: nat) -> bool {
        &&& (self.kind == RawEventKind::Alias ==> self.anchor is Some)
        &&& (self.kind == RawEventKind::Scalar ==> {
            &&& self.value is Some
            &&& self.style != RawStyle::Any
            &&& self.start_mark.index <= self.end_mark.index
            &&& self.end_mark.index <= input_len
        })
    }
}

} // verus!
