//! Checks behind the `#[query]` attribute: which function signatures can become queries
//! and how their parameters are laid out.
//!
//! Syntax trees are described to this module by their shape (which parts are present,
//! where they are); spans and syntax payloads are carried through as opaque values.
pub mod parameter;
pub mod signature;
