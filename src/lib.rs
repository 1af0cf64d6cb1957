//! A small service that keeps named items in a single table and answers the
//! five create / list / get / update / delete requests over them.
//!
//! The table is modelled as a map from identifier to `(name, description)`;
//! every handler states its response and its effect on the table over that
//! model.

pub mod item;
pub mod store;
pub mod handlers;
pub mod laws;
