//! A streaming, event-based YAML codec core.
//!
//! The crate exposes a pull-style decoder that turns the grammar engine's
//! native event records into an ordered sequence of safe [`parser::Event`]
//! values, and a push-style encoder that turns safe [`emitter::Event`] values
//! into native event requests for the engine, together with a unified
//! position-aware error model.
//!
//! The YAML grammar itself (scanning, parsing, composing, serializing) is the
//! engine's job; this crate owns the translation between the engine's plain
//! records and safe sum types, the sticky-error state machine around the
//! decoder, the implicit-tag rule of the encoder, and the precedence of sink
//! failures over generic engine errors.

pub mod emitter;
pub mod engine;
pub mod error;
pub mod parser;
pub mod roundtrip;
