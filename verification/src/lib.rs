//! Ambry's database-client core: SQL text builders, value rendering and the
//! decisions of the connection layer, verified.

pub mod text;
pub mod types;
pub mod filters;
pub mod numeric;
pub mod json;
pub mod values;
pub mod cells;
pub mod statements;
pub mod results;
pub mod engine;
pub mod postgres;
pub mod mysql;
pub mod sqlite;
pub mod export;
pub mod queries;
pub mod registry;
pub mod health;
pub mod tunnel;
pub mod import;
pub mod theme;
pub mod ids;
pub mod assets;
pub mod host;
pub mod introspect;
pub mod pgbinary;
pub mod grid;
pub mod profiling;
