//! A small library behind a command-line HTTP client: it validates and
//! normalizes a declarative request description into a fully specified
//! outbound request, projects the wire response into a stable output
//! schema, renders that schema as JSON text, and decides overwrite
//! confirmations. All I/O (files, the network call itself, prompts)
//! lives outside the library and hands plain values in and out.

pub mod confirm;
pub mod model;
pub mod normalize;
pub mod output;
pub mod project;
pub mod text;
