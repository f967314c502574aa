//! An embeddable host for a sandboxed scripting interpreter.
//!
//! The library covers the two subsystems at the heart of such a host: the
//! module resolution and loading pipeline (an ordered chain of resolver and
//! loader strategies that turn an import specifier into executable source
//! text) and the cancellation-driven execution lifecycle (a hierarchical
//! cancellation primitive threaded through every asynchronous operation,
//! plus the supervisor that decides when the process may exit).

pub mod cancellation;
pub mod combinator;
pub mod console;
pub mod encoding;
pub mod engine;
pub mod loader;
pub mod mime_sniff;
pub mod numfmt;
pub mod paths;
pub mod resolver;
pub mod routes;
pub mod strutil;
pub mod supervisor;
pub mod text;
pub mod transpile;
pub mod urls;
pub mod wasm;
