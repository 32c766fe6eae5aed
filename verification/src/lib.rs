//! Request validation for a small service that keeps users: a JSON body is
//! held against the declared fields of a table, each field is decoded into a
//! typed value, and the first fault is reported by field. Creating a user
//! needs every required field, updating takes any subset, reading and
//! deleting need only the identifier.
//!
//! Contracts are stated over mathematical models: `json::JsonModel` for a
//! body, `schema::FieldModel` for a field, a `Map` from names to
//! `types::ValueModel` for the validated fields. `extract::extraction` says
//! what extraction gives; `laws` proves what holds of it for every table
//! and every body.

pub mod delete;
pub mod error;
pub mod extract;
pub mod fields;
pub mod get;
pub mod json;
pub mod laws;
pub mod patch;
pub mod post;
pub mod routes;
pub mod schema;
pub mod text;
pub mod types;
