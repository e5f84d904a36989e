//! Parsing and code generation for the `kosame` SQL macros, over a token model
//! of the library's own.

pub mod outside;
pub mod token;
pub mod error;
pub mod data_type;
pub mod expr;
pub mod path;
pub mod common;
pub mod attribute;
pub mod clause;
pub mod command;
pub mod query;
pub mod visit;
pub mod emit;
pub mod sql;
pub mod repr;
pub mod row;
pub mod derive;
pub mod schema;
pub mod mssql;
pub mod record_struct;
pub mod row_query;
pub mod message;
