//! A paginated search engine over a fixed, read-only record table.
//!
//! A request selects exactly one of three matching strategies (phone-number
//! lookup, full-text search, or multi-field substring fallback), combined
//! with optional exact and substring filters, and yields a total match count
//! plus one page of records ordered by ascending identifier.
//!
//! The crate is laid out leaf-first: [`text`] holds the input sanitizer and
//! the character-level helpers, [`paths`] the database-file path resolver,
//! [`plan`] the query planner with its laws, [`db`] the read-only connection
//! manager, and [`search`] the query executor.

pub mod db;
pub mod paths;
pub mod plan;
pub mod search;
pub mod text;
