//! Interactive schema-definition wizard for a search index.
//!
//! The library collects field definitions one validated answer at a time:
//! a field name, the field's kind (text or unsigned integer), and the
//! per-kind storage and indexing options. The answers drive a small state
//! machine whose transitions are fully specified, so the schema handed out
//! at the end is append-only-built and structurally valid by construction.
//! Reading lines and writing prompts is left to the caller, which feeds the
//! machine one line at a time.

pub mod validate;
pub mod fields;
pub mod wizard;
