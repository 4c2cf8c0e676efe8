//! Access-control core: capability levels, permission grants and sets,
//! a schema-driven codec for dotted permission paths, the identity model
//! and the credential resolver.

pub mod cli;
pub mod error;
pub mod models;
pub mod resolver;
pub mod routes;
pub mod schema;
pub mod types;
pub mod util;
