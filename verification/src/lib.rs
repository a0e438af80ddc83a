//! Wire codec for an editor-tooling protocol: typed message entities
//! (positions, diagnostics, completions, capabilities, ...) together with a
//! verified, lossless mapping between each entity and an untyped JSON-like
//! wire value.

pub mod capabilities;
pub mod commands;
pub mod completion;
pub mod diagnostics;
pub mod documents;
pub mod enums;
pub mod error;
pub mod markup;
pub mod messages;
pub mod primitives;
pub mod symbols;
pub mod wire;
pub mod workspace;
