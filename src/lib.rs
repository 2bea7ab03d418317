//! Export the source text of an item under a canonical name and hand it on to
//! other macros: name canonicalization, the registrar's generated retrieval
//! macro, token forwarding, import resolution and the two-phase proc-macro
//! adapters, all stated over the text of token streams.

pub mod names;
pub mod tokens;
pub mod syntax;
pub mod error;
pub mod item;
pub mod export;
pub mod forward;
pub mod import;
pub mod descriptor;
pub mod adapter;
pub mod reexport;
pub mod payload;
pub mod registry;
pub mod protocol;
