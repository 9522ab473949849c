//! Catalog context: taxonomy, search interface types and the projection of product events.

pub mod projection;
pub mod query;
pub mod search;
pub mod taxonomy;
