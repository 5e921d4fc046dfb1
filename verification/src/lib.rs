//! Parser and serializer for MySQL-style dump files.
//!
//! Dump text is parsed into a typed syntax tree, each node of which renders
//! back into SQL text. A driver folds a whole dump into a catalog of
//! databases and tables.

pub mod alter_table;
pub mod assignments;
pub mod catalog_sql;
pub mod cmd;
pub mod column;
pub mod create_database;
pub mod create_table;
pub mod data_type;
pub mod database;
pub mod database_option;
pub mod default_value;
pub mod delete;
pub mod drop_table;
pub mod error;
pub mod foreign_key;
pub mod index;
pub mod insert;
pub mod insert_priority;
pub mod insert_value;
pub mod insert_values;
pub mod invariants;
pub mod lex;
pub mod on_update_value;
pub mod parser;
pub mod primary_key;
pub mod round_trip;
pub mod set;
pub mod settings;
pub mod sqlparse;
pub mod statement;
pub mod table;
pub mod table_option;
pub mod text;
pub mod types;
pub mod update;
pub mod use_database;
pub mod where_stmts;

pub use error::ParseError;
pub use parser::{parse_mysqldump, MyParser};
pub use statement::{parse_statements, Statement};
