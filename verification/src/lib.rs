//! A typed entity-to-query compilation core.
//!
//! A statically declared table description — its columns, its ordered
//! primary key, and its relations to other tables — produces composable,
//! strongly typed builders for select, insert, update, and delete
//! operations. The builders accumulate filter predicates and column
//! assignments as plain values; rendering them into a concrete SQL
//! dialect and executing them belongs to an external backend, which
//! receives a finished builder and never hands it back.

pub mod entity;
pub mod query;
pub mod relation;
pub mod value;
