//! Decoder for a WebAssembly-style binary module format.
//!
//! A module is a preamble (magic bytes and a version) followed by a list of
//! length-framed, kind-tagged sections.  The decoder slices the module into
//! framed sections first; each section body is then resolved on demand into
//! typed entries, and each code entry's body is resolved further into local
//! declarations and an instruction stream.
//!
//! Every decoder is specified against a mathematical model of the byte
//! grammar: for each executable parser there is a `spec` parser over
//! `Seq<u8>`, and the executable one is proved to return exactly what the
//! model says, including which error is reported on which input.

pub mod consts;
pub mod cursor;
pub mod error;
pub mod instructions;
pub mod laws;
pub mod module;
pub mod section;
pub mod types;
pub mod varint;
