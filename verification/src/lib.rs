//! Planning of the tables that SQL statements define.
pub mod columns;
pub mod connector_table;
pub mod error;
pub mod from_options;
pub mod laws;
pub mod literal;
pub mod metadata;
pub mod optimizer;
pub mod outside;
pub mod schema;
pub mod schema_draft;
pub mod settings;
pub mod statement;
pub mod string_map;
pub mod table;
pub mod table_catalog;
pub mod text;
pub mod time_span;
