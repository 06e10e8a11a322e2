//! Verified core of a small catalog service: restaurant owners register
//! products and categories, and each owner's menu is published as a catalog
//! grouping the owner's products by category.
//!
//! The library holds the data model, the queries that select an owner's
//! documents, the notices sent when an owner's data changes, the request
//! workflows as state machines (the application performs the database and
//! messaging calls they ask for), and the decisions of the publishing job.

pub mod model;
pub mod notice;
pub mod query;
pub mod workflow;
pub mod laws;
pub mod publication;
