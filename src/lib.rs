//! Property-management back office: the entities and their statements, the
//! partial-update engine, the repository operations as decisions over what
//! the store reports, and the portfolio and market analytics.

pub mod analytics;
pub mod config;
pub mod error;
pub mod event;
pub mod maintenance;
pub mod market;
pub mod property;
pub mod queries;
pub mod reminder;
pub mod repository;
pub mod scraper;
pub mod sql;
pub mod tenant;
pub mod time;
pub mod trends;
