//! A bridge between a host compiler's internal program representation and a
//! stable, plugin-facing AST.
//!
//! The crate owns arena-backed node storage with memoized lookup tables,
//! translates host-internal node and definition identifiers into stable,
//! copyable identifiers and back, exposes a closed-but-extensible node-kind
//! model for patterns and types, and holds the decision logic of the plugin
//! build and discovery pipeline.
pub mod diag;
pub mod facade;
pub mod fn_ptr_ty;
pub mod ids;
pub mod pat;
pub mod pipeline;
pub mod span;
pub mod storage;
pub mod translate;
pub mod ty;
