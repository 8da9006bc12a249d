//! Position marks and the unified error model shared by the decoder and the
//! encoder.
//!
//! A [`Mark`] is a source position (byte offset, 0-based line and column).
//! An [`Error`] is a snapshot of the engine's error fields at the moment of
//! failure: a kind, a problem text with its position, and an optional context
//! text with its own position.

use vstd::prelude::*;

verus! {

/// A source position: byte offset, 0-based line, 0-based column.
///
/// A mark whose line and column are both zero is ambiguous between "position
/// is literally 0,0" and "position data unavailable"; the display logic
/// treats it as unavailable and falls back to the byte offset. This precision
/// loss is inherited from the engine's records and is preserved as-is.
#[derive(Debug, Clone, Copy, PartialEq, Eq, Structural)]
pub struct Mark {
    pub index: u64,
    pub line: u64,
    pub column: u64,
}

/// The engine's error taxonomy. `NoError` is the "no error" sentinel that a
/// freshly initialized handle reports.
#[derive(Debug, Clone, Copy, PartialEq, Eq, Structural)]
pub enum ErrorKind {
    NoError,
    Memory,
    Reader,
    Scanner,
    Parser,
    Composer,
    Writer,
    Emitter,
}

/// The decimal digit character for `d`, for `d < 10`.
pub open spec fn digit_char(d: nat) -> char {
    if d == 0 {
        '0'
    } else if d == 1 {
        '1'
    } else if d == 2 {
        '2'
    } else if d == 3 {
        '3'
    } else if d == 4 {
        '4'
    } else if d == 5 {
        '5'
    } else if d == 6 {
        '6'
    } else if d == 7 {
        '7'
    } else if d == 8 {
        '8'
    } else {
        '9'
    }
}

/// The decimal representation of `n`, most significant digit first, with no
/// leading zeros (`0` is written as "0").
pub open spec fn dec_digits(n: nat) -> Seq<char>
    decreases n,
{
    if n < 10 {
        seq![digit_char(n)]
    } else {
        dec_digits(n / 10).push(digit_char(n % 10))
    }
}

/// The one-character string for the decimal digit `d`.
fn digit_str(d: u64) -> (r: &'static str)
    requires
        d < 10,
    ensures
        r@ == seq![digit_char(d as nat)],
{
    let s: &'static str = if d == 0 {
        "0"
    } else if d == 1 {
        "1"
    } else if d == 2 {
        "2"
    } else if d == 3 {
        "3"
    } else if d == 4 {
        "4"
    } else if d == 5 {
        "5"
    } else if d == 6 {
        "6"
    } else if d == 7 {
        "7"
    } else if d == 8 {
        "8"
    } else {
        "9"
    };
    proof {
        reveal_strlit("0");
        reveal_strlit("1");
        reveal_strlit("2");
        reveal_strlit("3");
        reveal_strlit("4");
        reveal_strlit("5");
        reveal_strlit("6");
        reveal_strlit("7");
        reveal_strlit("8");
        reveal_strlit("9");
        assert(s@ =~= seq![digit_char(d as nat)]);
    }
    s
}

/// Formats `n` in decimal.
pub fn format_u64(n: u64) -> (r: String)
    ensures
        r@ == dec_digits(n as nat),
    decreases n,
{
    if n < 10 {
        let r = String::from_str(digit_str(n));
        r
    } else {
        let mut r = format_u64(n / 10);
        r.append(digit_str(n % 10));
        r
    }
}

/// The display text of a mark: "line L column C" (1-based) when a line or
/// column is available, else "position I" with the byte offset.
pub open spec fn mark_text(m: Mark) -> Seq<char> {
    if m.line != 0 || m.column != 0 {
        "line "@ + dec_digits((m.line + 1) as nat) + " column "@ + dec_digits((m.column + 1) as nat)
    } else {
        "position "@ + dec_digits(m.index as nat)
    }
}

impl Mark {
    /// The byte offset of the position.
    pub fn index(&self) -> (r: u64)
        ensures
            r == self.index,
    {
        self.index
    }

    /// The 0-based line of the position.
    pub fn line(&self) -> (r: u64)
        ensures
            r == self.line,
    {
        self.line
    }

    /// The 0-based column of the position.
    pub fn column(&self) -> (r: u64)
        ensures
            r == self.column,
    {
        self.column
    }

    /// Renders the position: 1-based line and column when available, else the
    /// byte offset.
    pub fn display(&self) -> (r: String)
        requires
            self.line != 0 || self.column != 0 ==> self.line < u64::MAX && self.column < u64::MAX,
        ensures
            r@ == mark_text(*self),
    {
        if self.line != 0 || self.column != 0 {
            let mut r = String::from_str("line ");
            let line = format_u64(self.line + 1);
            r.append(line.as_str());
            r.append(" column ");
            let column = format_u64(self.column + 1);
            r.append(column.as_str());
            r
        } else {
            let mut r = String::from_str("position ");
            let index = format_u64(self.index);
            r.append(index.as_str());
            r
        }
    }
}

impl Default for Mark {
    /// The all-zero mark, which the display logic reads as "position 0".
    fn default() -> (r: Self)
        ensures
            r == (Mark { index: 0, line: 0, column: 0 }),
    {
        Mark { index: 0, line: 0, column: 0 }
    }
}

/// The display text of an error snapshot: the problem text (or a fixed
/// fallback when the engine reported none), then " at L" with the problem
/// mark's text when a line or column is available, else " at position N" with
/// the problem offset when that is non-zero; finally ", C" with the context
/// text, and that context's own position when it is available and differs
/// from the problem's.
pub open spec fn error_text(e: ErrorV) -> Seq<char> {
    let head = match e.problem {
        Some(p) => p,
        None => "libyaml parser failed but there is no error"@,
    };
    let with_pos = if e.problem_mark.line != 0 || e.problem_mark.column != 0 {
        head + " at "@ + mark_text(e.problem_mark)
    } else if e.problem_offset != 0 {
        head + " at position "@ + dec_digits(e.problem_offset as nat)
    } else {
        head
    };
    match e.context {
        Some(c) => {
            let with_context = with_pos + ", "@ + c;
            if (e.context_mark.line != 0 || e.context_mark.column != 0) && (e.context_mark.line
                != e.problem_mark.line || e.context_mark.column != e.problem_mark.column) {
                with_context + " at "@ + mark_text(e.context_mark)
            } else {
                with_context
            }
        },
        None => with_pos,
    }
}

/// The abstract value of an [`Error`]: its text fields as character
/// sequences, its kind, offset and marks.
pub struct ErrorV {
    pub kind: ErrorKind,
    pub problem: Option<Seq<char>>,
    pub problem_offset: u64,
    pub problem_mark: Mark,
    pub context: Option<Seq<char>>,
    pub context_mark: Mark,
}

/// A snapshot of the engine's error fields at the moment of failure.
///
/// It is a snapshot, not a view into the engine handle: the handle's internal
/// buffers may be reused or freed after the failing call returns, so the
/// fields are copied out when the error is constructed.
#[derive(Debug)]
pub struct Error {
    pub kind: ErrorKind,
    pub problem: Option<String>,
    pub problem_offset: u64,
    pub problem_mark: Mark,
    pub context: Option<String>,
    pub context_mark: Mark,
}

impl View for Error {
    type V = ErrorV;

    open spec fn view(&self) -> ErrorV {
        ErrorV {
            kind: self.kind,
            problem: match self.problem {
                Some(p) => Some(p@),
                None => None,
            },
            problem_offset: self.problem_offset,
            problem_mark: self.problem_mark,
            context: match self.context {
                Some(c) => Some(c@),
                None => None,
            },
            context_mark: self.context_mark,
        }
    }
}

impl Error {
    /// A decode-side snapshot: every field is taken from the parser handle's
    /// current error state.
    pub fn get_parser_error(
        kind: ErrorKind,
        problem: Option<String>,
        problem_offset: u64,
        problem_mark: Mark,
        context: Option<String>,
        context_mark: Mark,
    ) -> (r: Error)
        ensures
            r == (Error { kind, problem, problem_offset, problem_mark, context, context_mark }),
    {
        Error { kind, problem, problem_offset, problem_mark, context, context_mark }
    }

    /// An encode-side snapshot: the emitter handle reports only a kind and a
    /// problem text, so the offset is zero, the marks are the default mark and
    /// there is no context.
    pub fn get_emitter_error(kind: ErrorKind, problem: Option<String>) -> (r: Error)
        ensures
            r.kind == kind,
            r.problem == problem,
            r.problem_offset == 0,
            r.problem_mark == (Mark { index: 0, line: 0, column: 0 }),
            r.context is None,
            r.context_mark == (Mark { index: 0, line: 0, column: 0 }),
    {
        Error {
            kind,
            problem,
            problem_offset: 0,
            problem_mark: Mark::default(),
            context: None,
            context_mark: Mark::default(),
        }
    }

    /// The position of the problem.
    pub fn mark(&self) -> (r: Mark)
        ensures
            r == self.problem_mark,
    {
        self.problem_mark
    }

    /// Renders the snapshot for a reader: the problem text (or a fixed
    /// fallback), the best available problem position, and the context text
    /// with its own position when that position is present and materially
    /// different from the problem's.
    pub fn message(&self) -> (r: String)
        requires
            self.problem_mark.line != 0 || self.problem_mark.column != 0 ==> self.problem_mark.line
                < u64::MAX && self.problem_mark.column < u64::MAX,
            self@.context is Some && (self.context_mark.line != 0 || self.context_mark.column != 0)
                && (self.context_mark.line != self.problem_mark.line || self.context_mark.column
                != self.problem_mark.column) ==> self.context_mark.line < u64::MAX
                && self.context_mark.column < u64::MAX,
        ensures
            r@ == error_text(self@),
    {
        let mut r = match &self.problem {
            Some(p) => p.clone(),
            None => String::from_str("libyaml parser failed but there is no error"),
        };
        if self.problem_mark.line != 0 || self.problem_mark.column != 0 {
            r.append(" at ");
            let mark = self.problem_mark.display();
            r.append(mark.as_str());
        } else if self.problem_offset != 0 {
            r.append(" at position ");
            let offset = format_u64(self.problem_offset);
            r.append(offset.as_str());
        }
        if let Some(context) = &self.context {
            r.append(", ");
            r.append(context.as_str());
            if (self.context_mark.line != 0 || self.context_mark.column != 0)
                && (self.context_mark.line != self.problem_mark.line || self.context_mark.column
                != self.problem_mark.column) {
                r.append(" at ");
                let mark = self.context_mark.display();
                r.append(mark.as_str());
            }
        }
        r
    }

    /// An owned copy of the snapshot, equal to it field by field.
    pub fn duplicate(&self) -> (r: Error)
        ensures
            r@ == self@,
    {
        Error {
            kind: self.kind,
            problem: match &self.problem {
                Some(p) => Some(p.clone()),
                None => None,
            },
            problem_offset: self.problem_offset,
            problem_mark: self.problem_mark,
            context: match &self.context {
                Some(c) => Some(c.clone()),
                None => None,
            },
            context_mark: self.context_mark,
        }
    }
}

} // verus!

