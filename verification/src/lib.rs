//! A read-only identity source backed by a local SQLite record store.
//!
//! Three kinds of record are served: user accounts ([`passwd`]), groups
//! ([`group`]) and credentials ([`shadow`]). Every lookup opens the store,
//! issues one parametrized read, maps the rows that came back into records,
//! and reports a three-way [`outcome::Response`].

pub mod outcome;
pub mod db;
pub mod passwd;
pub mod group;
pub mod shadow;
