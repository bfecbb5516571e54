//! Decoding of sheet-music source paths and dispatch of their compilation.
//!
//! A music library is laid out as
//! `<category>/<title>/<format>/<instrument[_voice_tone[_clef]]>.ly`.
//! This crate decodes such a path into a structured [`sheet::MusicSheet`]
//! record, derives the output document path, filters records against a
//! configuration, and builds the arguments and report line for the external
//! typesetting engine. Every function is specified and verified; the
//! filesystem walk, the command-line surface and the engine invocation
//! itself live outside the library.

pub mod decode;
pub mod report;
pub mod select;
pub mod sheet;
pub mod strutil;
pub mod taxonomy;
