//! A minimal data-access core over two backing stores: a relational store
//! holding `users` and `companies` records and a key-value store holding
//! `content` records.
//!
//! The heart of the crate is the record construction protocol: a
//! field-optional builder per entity, and a fixed defaulting policy that
//! fills every unset field (with generated or canonical values) immediately
//! before finalization. Repository operations — insert, select-all,
//! delete-all, get, set — are stated and verified as transitions on a plain
//! model of each store's state; the network plumbing that carries them to a
//! real server stays outside the library.

pub mod companies;
pub mod contents;
pub mod errors;
pub mod ids;
pub mod rows;
pub mod text;
pub mod users;
