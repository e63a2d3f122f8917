//! The logic of a GStreamer element that turns speech into text with a Kyutai
//! model.
//!
//! The element takes raw audio in, and gives transcripts out as JSON. This crate
//! holds what it decides: how bytes become samples and samples become chunks,
//! what the model is fed and what its messages mean, where speech starts, pauses
//! and ends, what is written out, and which signals are emitted. Whoever embeds
//! it runs the model, does floating-point arithmetic, and talks to GStreamer.
pub mod caps;
pub mod control;
pub mod conversation;
pub mod element;
pub mod ieee;
pub mod json;
pub mod model;
pub mod pcm;
pub mod properties;
pub mod reports;
pub mod setup;
pub mod signals;
pub mod transcript;
pub mod vad;
