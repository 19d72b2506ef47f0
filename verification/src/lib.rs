//! Database-agnostic schema definition building blocks.
//!
//! The crate has two independent parts that meet where a caller renders a
//! schema description:
//!
//! * [`types`] — a closed vocabulary of column kinds ([`types::BaseType`])
//!   together with a metadata envelope ([`types::Type`]) that decorates one
//!   kind with nullability, uniqueness, indexing, auto-increment, a default
//!   value and a size hint;
//! * [`generators`] — the two capability contracts a SQL dialect must
//!   implement to turn column descriptions and identifiers into syntax
//!   fragments, with the guarantees every dialect owes its callers stated as
//!   verified obligations;
//! * [`postgres`] — a reference dialect that discharges those obligations and
//!   renders PostgreSQL fragments.

pub mod generators;
pub mod postgres;
pub mod types;
