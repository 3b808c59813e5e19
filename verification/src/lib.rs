//! Verified core of the `wasm-bindgen` helper macros: naming rules, attribute
//! interpretation, Rust-to-TypeScript type mapping, and the text of the code
//! that each macro expands to.
//!
//! The macros themselves work on token trees. Here every input is held as a
//! plain model (strings, enums, vectors) and every expansion is produced as
//! Rust source text, so that the whole decision logic is stated and proved.
pub mod strings;
pub mod model;
pub mod ts_types;
pub mod naming;
pub mod attrs;
pub mod method;
pub mod wasm_error;
pub mod render;
pub mod refgen;
pub mod implements;
pub mod js_trait;
