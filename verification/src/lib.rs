//! Extended debug formatting with per-field skipping and masking.
//!
//! The crate renders record-like and union-like values into debug strings
//! while letting a schema mark individual fields as skipped (never read,
//! never shown) or masked (shown through one of a family of masking
//! transforms suited to secrets and payment card numbers).

/// Plain-text rendering of primitive leaf values
pub mod display;
/// Field conversion trait impls
pub mod field;
/// The recursive traversal engine that renders values against schemas
pub mod formatter;
/// String masking utilities
pub mod masking;
/// Schema model: shapes, field directives, and well-formedness
pub mod schema;
/// The value model the formatter traverses
pub mod value;
