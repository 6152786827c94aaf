//! Verified core of a database client: connection profiles, driver
//! capabilities and the SQL and command text it generates.
pub mod connection;
pub mod connector;
pub mod designer;
pub mod details;
pub mod dialect;
pub mod drafts;
pub mod driver;
pub mod labels;
pub mod metrics;
pub mod mongo_command;
pub mod navigation;
pub mod profiles;
pub mod results;
pub mod schema;
pub mod schema_changes;
pub mod schema_tree;
pub mod session;
pub mod table_designer;
pub mod sql_alter_table;
pub mod sql_create_table;
pub mod sql_database;
pub mod text;
pub mod workbench;
pub mod workspace;
