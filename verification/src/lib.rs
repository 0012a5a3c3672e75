//! Builds the `CREATE FUNCTION` / `CREATE AGGREGATE` statements that register
//! a compiled Wasm module in the database as a user-defined function.
//!
//! The crate covers the three pieces with real design content: resolving an
//! import source (inline base64 text, local file contents, or a remote URL)
//! into a SQL clause with its bound parameter, rendering the statement for
//! each function kind, and inferring an aggregate's lifecycle hooks from WIT
//! interface text when the caller does not name them.

pub mod arguments;
pub mod encoding;
pub mod errors;
pub mod query_builder;
pub mod text;
