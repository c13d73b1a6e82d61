//! Storage and search engine of a desktop conversation manager.
//!
//! The crate keeps conversations, messages and personas in an embedded SQLite
//! database behind a bounded connection pool, maintains full-text shadow
//! tables through triggers, answers ranked searches, and offers a query cache
//! and performance instrumentation.
//!
//! The library is verified with Verus. What it takes from SQLite, the pool,
//! the clock and the other crates it builds on goes through small functions
//! marked `external_body`, whose contracts are believed and not proved; each
//! says in its documentation which outside function it stands for.
//!
//! - [`config`], [`manager`], [`schema`], [`transaction`]: the database, its
//!   pool, its schema, and transactions with nested savepoints.
//! - [`search`]: ranked full-text search.
//! - [`cache`], [`metrics`], [`optimizer`], [`monitoring`]: memoization,
//!   timings, maintenance, and what to report about slow or failed work.
//! - [`services`], [`statements`], [`commands`], [`models`], [`validation`],
//!   [`providers`], [`keychain`], [`platform`]: the layers above the engine.
//! - [`sqlite`], [`clock`], [`text`]: the boundary to the outside.

pub mod text;
pub mod errors;
pub mod config;
pub mod sqlite;
pub mod search;
pub mod schema;
pub mod transaction;
pub mod manager;
pub mod clock;
pub mod cache;
pub mod metrics;
pub mod optimizer;
pub mod monitoring;
pub mod models;
pub mod statements;
pub mod services;
pub mod commands;
pub mod validation;
pub mod providers;
pub mod keychain;
pub mod platform;
