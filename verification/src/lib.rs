//! Organization membership and PostgreSQL behavior.

pub mod agent_tools;
pub mod arguments;
pub mod contracts;
pub mod definitions;
pub mod failure;
pub mod ids;
pub mod json;
pub mod names;
pub mod notation;
pub mod postgres_module;
pub mod postgres_plugin;
pub mod preparation;
pub mod schema;
pub mod secrets_fixture;
pub mod separation;
pub mod spelling;
pub mod sql;
pub mod text;
pub mod transaction;
