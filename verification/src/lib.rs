//! A compile-time struct splitter.
//!
//! Given a description of a struct annotated with two small attribute
//! languages, the library partitions the struct's fields into three sibling
//! variants ("Scheme", "Dto", "Entity") and assembles a derive-trait list for
//! each variant.  Per-field `onion_dist(...)` annotations choose the variants
//! a field lands in; a struct-level `onion_derive(group(Trait, ...), ...)`
//! annotation distributes derive requests over the variants, the `all` group
//! applying to every variant.
//!
//! The library works on its own plain syntax model (see [`model`]); turning a
//! host compiler's syntax trees into that model and rendering the generated
//! descriptors back into source text is left to the embedding.

pub mod args;
pub mod laws;
pub mod model;
pub mod onion;
pub mod utils;
