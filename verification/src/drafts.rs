//! The drafts that the schema designer fills in before SQL is generated:
//! databases, tables with columns, indexes and constraints, and alterations.
use vstd::prelude::*;
use crate::connection::ConnectionForm;
use crate::driver::{is_mysql_family, DatabaseDriver};
use crate::schema::default_index_type;
use crate::text::{eq_ignore_ascii_case, owned};

verus! {

/// One column of an existing table as the database reports it.
#[derive(Debug)]
pub struct TableColumnDetail {
    pub name: String,
    pub data_type: String,
    pub nullable: String,
    pub default_value: String,
    pub extra: String,
}

impl Clone for TableColumnDetail {
    fn clone(&self) -> (r: Self)
        ensures
            r == *self,
    {
        TableColumnDetail {
            name: self.name.clone(),
            data_type: self.data_type.clone(),
            nullable: self.nullable.clone(),
            default_value: self.default_value.clone(),
            extra: self.extra.clone(),
        }
    }
}

/// The kind of change an alter-table draft describes.
#[derive(Debug, Clone, Copy, PartialEq, Eq, Structural)]
pub enum AlterTableOperation {
    RenameColumn,
    AddColumn,
    AddIndex,
    AddConstraint,
    MoveColumn,
}

/// A pending change to one table.
#[derive(Debug)]
pub struct AlterTableDraft {
    pub table: String,
    pub create_statement: String,
    pub operation: AlterTableOperation,
    pub column_name: String,
    pub new_column_name: String,
    pub column_type: String,
    pub column_definition: String,
    pub column_position: String,
    pub after_column: String,
    pub index_name: String,
    pub index_columns: String,
    pub index_type: String,
    pub constraint_name: String,
    pub constraint_kind: String,
    pub constraint_expression: String,
    pub original_column_names: Vec<String>,
    pub reordered_columns: Vec<TableColumnDetail>,
}

impl AlterTableDraft {
    /// An empty draft for `table`: a column rename, with new columns placed
    /// last.
    pub fn new(table: String, create_statement: String) -> (r: Self)
        ensures
            r.table == table,
            r.create_statement == create_statement,
            r.operation == AlterTableOperation::RenameColumn,
            r.column_name@.len() == 0,
            r.new_column_name@.len() == 0,
            r.column_type@.len() == 0,
            r.column_definition@.len() == 0,
            r.column_position@ == "LAST"@,
            r.after_column@.len() == 0,
            r.index_name@.len() == 0,
            r.index_columns@.len() == 0,
            r.index_type@.len() == 0,
            r.constraint_name@.len() == 0,
            r.constraint_kind@.len() == 0,
            r.constraint_expression@.len() == 0,
            r.original_column_names@.len() == 0,
            r.reordered_columns@.len() == 0,
    {
        AlterTableDraft {
            table,
            create_statement,
            operation: AlterTableOperation::RenameColumn,
            column_name: String::new(),
            new_column_name: String::new(),
            column_type: String::new(),
            column_definition: String::new(),
            column_position: owned("LAST"),
            after_column: String::new(),
            index_name: String::new(),
            index_columns: String::new(),
            index_type: String::new(),
            constraint_name: String::new(),
            constraint_kind: String::new(),
            constraint_expression: String::new(),
            original_column_names: Vec::new(),
            reordered_columns: Vec::new(),
        }
    }
}

// ---------------------------------------------------------------------------
// Comparing drafts
// ---------------------------------------------------------------------------

/// Same table and statement.
pub open spec fn same_head(a: AlterTableDraft, b: AlterTableDraft) -> bool {
    a.table == b.table && a.create_statement == b.create_statement
}

/// Same column operation.
pub open spec fn same_column_op(a: AlterTableDraft, b: AlterTableDraft) -> bool {
    a.operation == b.operation && same_column_fields(a, b)
}

/// Same column names, type, definition and position, whatever the
/// operation.
pub open spec fn same_column_fields(a: AlterTableDraft, b: AlterTableDraft) -> bool {
    &&& a.column_name == b.column_name
    &&& a.new_column_name == b.new_column_name
    &&& a.column_type == b.column_type
    &&& a.column_definition == b.column_definition
    &&& a.column_position == b.column_position
    &&& a.after_column == b.after_column
}

/// Same index part.
pub open spec fn same_index(a: AlterTableDraft, b: AlterTableDraft) -> bool {
    a.index_name == b.index_name && a.index_columns == b.index_columns && a.index_type
        == b.index_type
}

/// Same constraint part.
pub open spec fn same_constraint(a: AlterTableDraft, b: AlterTableDraft) -> bool {
    a.constraint_name == b.constraint_name && a.constraint_kind == b.constraint_kind
        && a.constraint_expression == b.constraint_expression
}

/// Same rows and original names.
pub open spec fn same_rows(a: AlterTableDraft, b: AlterTableDraft) -> bool {
    a.original_column_names@ == b.original_column_names@ && a.reordered_columns@
        == b.reordered_columns@
}

/// One column of a table being designed.
#[derive(Debug)]
pub struct CreateTableColumnDraft {
    pub name: String,
    pub data_type: String,
    pub nullable: String,
    pub default_value: String,
    pub extra: String,
}

impl CreateTableColumnDraft {
    pub fn new(name: &str, data_type: &str, nullable: &str, default_value: &str, extra: &str) -> (r:
        Self)
        ensures
            r.name@ == name@,
            r.data_type@ == data_type@,
            r.nullable@ == nullable@,
            r.default_value@ == default_value@,
            r.extra@ == extra@,
    {
        CreateTableColumnDraft {
            name: owned(name),
            data_type: owned(data_type),
            nullable: owned(nullable),
            default_value: owned(default_value),
            extra: owned(extra),
        }
    }
}

/// One index of a table being designed.
#[derive(Debug)]
pub struct CreateTableIndexDraft {
    pub name: String,
    pub columns: String,
    pub index_type: String,
}

impl CreateTableIndexDraft {
    /// An index that is unique when `unique` reads `YES` (any ASCII case).
    pub fn new(name: &str, columns: &str, unique: &str) -> (r: Self)
        ensures
            r.name@ == name@,
            r.columns@ == columns@,
            r.index_type@ == (if crate::text::eq_ci(unique@, "YES"@) {
                "UNIQUE BTREE"@
            } else {
                "BTREE"@
            }),
    {
        let index_type = if eq_ignore_ascii_case(unique, "YES") {
            "UNIQUE BTREE"
        } else {
            "BTREE"
        };
        CreateTableIndexDraft { name: owned(name), columns: owned(columns), index_type: owned(index_type) }
    }

    /// An index of the given type.
    pub fn with_type(name: &str, columns: &str, index_type: &str) -> (r: Self)
        ensures
            r.name@ == name@,
            r.columns@ == columns@,
            r.index_type@ == index_type@,
    {
        CreateTableIndexDraft { name: owned(name), columns: owned(columns), index_type: owned(index_type) }
    }
}

/// One constraint of a table being designed.
#[derive(Debug)]
pub struct CreateTableConstraintDraft {
    pub name: String,
    pub kind: String,
    pub expression: String,
}

impl CreateTableConstraintDraft {
    pub fn new(name: &str, kind: &str, expression: &str) -> (r: Self)
        ensures
            r.name@ == name@,
            r.kind@ == kind@,
            r.expression@ == expression@,
    {
        CreateTableConstraintDraft {
            name: owned(name),
            kind: owned(kind),
            expression: owned(expression),
        }
    }
}

/// A table being designed.
#[derive(Debug)]
pub struct CreateTableDraft {
    pub name: String,
    pub engine: String,
    pub charset: String,
    pub collation: String,
    pub comment: String,
    pub columns: Vec<CreateTableColumnDraft>,
    pub indexes: Vec<CreateTableIndexDraft>,
    pub constraints: Vec<CreateTableConstraintDraft>,
}

impl CreateTableDraft {
    /// The starting design for `driver`: a table `new_table` with an
    /// identifier, a name and a creation time, a primary key on the
    /// identifier where the driver takes constraints, and an index on the
    /// name.
    pub fn for_driver(driver: DatabaseDriver) -> (r: Self)
        ensures
            r.name@ == "new_table"@,
            r.engine@ == (if is_mysql_family(driver) {
                "InnoDB"@
            } else {
                ""@
            }),
            r.charset@ == driver.default_charset_spec(),
            r.collation@ == driver.default_collation_spec(),
            r.comment@.len() == 0,
            r.columns@.len() == (if driver == DatabaseDriver::MongoDb {
                0nat
            } else {
                3nat
            }),
            r.indexes@.len() == 1,
            r.indexes@[0].name@ == "idx_new_table_name"@,
            r.indexes@[0].columns@ == "name"@,
    {
        let mut columns: Vec<CreateTableColumnDraft> = Vec::new();
        let mut constraints: Vec<CreateTableConstraintDraft> = Vec::new();
        match driver {
            DatabaseDriver::MySql | DatabaseDriver::MariaDb | DatabaseDriver::TiDb => {
                columns.push(CreateTableColumnDraft::new("id", "BIGINT", "NO", "", "AUTO_INCREMENT"));
                columns.push(CreateTableColumnDraft::new("name", "VARCHAR(255)", "NO", "", ""));
                columns.push(
                    CreateTableColumnDraft::new("created_at", "TIMESTAMP", "NO", "CURRENT_TIMESTAMP", ""),
                );
            },
            DatabaseDriver::PostgreSql | DatabaseDriver::CockroachDb => {
                columns.push(CreateTableColumnDraft::new("id", "BIGSERIAL", "NO", "", ""));
                columns.push(CreateTableColumnDraft::new("name", "VARCHAR(255)", "NO", "", ""));
                columns.push(
                    CreateTableColumnDraft::new("created_at", "TIMESTAMP", "NO", "CURRENT_TIMESTAMP", ""),
                );
            },
            DatabaseDriver::Sqlite => {
                columns.push(
                    CreateTableColumnDraft::new("id", "INTEGER", "NO", "", "PRIMARY KEY AUTOINCREMENT"),
                );
                columns.push(CreateTableColumnDraft::new("name", "TEXT", "NO", "", ""));
                columns.push(
                    CreateTableColumnDraft::new("created_at", "TEXT", "NO", "CURRENT_TIMESTAMP", ""),
                );
            },
            DatabaseDriver::SqlServer => {
                columns.push(CreateTableColumnDraft::new("id", "BIGINT", "NO", "", "IDENTITY(1,1)"));
                columns.push(CreateTableColumnDraft::new("name", "NVARCHAR(255)", "NO", "", ""));
                columns.push(
                    CreateTableColumnDraft::new("created_at", "DATETIME2", "NO", "SYSDATETIME()", ""),
                );
            },
            DatabaseDriver::Oracle => {
                columns.push(CreateTableColumnDraft::new("id", "NUMBER(19)", "NO", "", ""));
                columns.push(CreateTableColumnDraft::new("name", "VARCHAR2(255)", "NO", "", ""));
                columns.push(
                    CreateTableColumnDraft::new("created_at", "TIMESTAMP", "NO", "CURRENT_TIMESTAMP", ""),
                );
            },
            DatabaseDriver::MongoDb => {},
        }
        match driver {
            DatabaseDriver::Sqlite | DatabaseDriver::MongoDb => {},
            _ => {
                constraints.push(CreateTableConstraintDraft::new("pk_new_table", "PRIMARY KEY", "id"));
            },
        }
        let mut indexes: Vec<CreateTableIndexDraft> = Vec::new();
        indexes.push(
            CreateTableIndexDraft::with_type("idx_new_table_name", "name", default_index_type(driver)),
        );
        let engine = match driver {
            DatabaseDriver::MySql | DatabaseDriver::MariaDb | DatabaseDriver::TiDb => "InnoDB",
            _ => "",
        };
        CreateTableDraft {
            name: owned("new_table"),
            engine: owned(engine),
            charset: owned(driver.default_charset()),
            collation: owned(driver.default_collation()),
            comment: String::new(),
            columns,
            indexes,
            constraints,
        }
    }
}

/// A database being created.
#[derive(Debug)]
pub struct CreateDatabaseDraft {
    pub name: String,
    pub charset: String,
    pub collation: String,
    pub owner: String,
    pub template: String,
    pub tablespace: String,
    pub initial_collection: String,
}

impl CreateDatabaseDraft {
    /// An empty draft with the charset and collation defaults of `driver`;
    /// MongoDB databases start with a collection `new_collection`.
    pub fn for_driver(driver: DatabaseDriver) -> (r: Self)
        ensures
            r.name@.len() == 0,
            r.charset@ == driver.default_charset_spec(),
            r.collation@ == driver.default_collation_spec(),
            r.owner@.len() == 0,
            r.template@.len() == 0,
            r.tablespace@.len() == 0,
            r.initial_collection@ == "new_collection"@,
    {
        CreateDatabaseDraft {
            name: String::new(),
            charset: owned(driver.default_charset()),
            collation: owned(driver.default_collation()),
            owner: String::new(),
            template: String::new(),
            tablespace: String::new(),
            initial_collection: owned("new_collection"),
        }
    }
}

/// What a pending deletion removes.
#[derive(Debug, Clone, Copy, PartialEq, Eq, Structural)]
pub enum SchemaDeletionKind {
    Database,
    Table,
}

/// A deletion waiting for the user's confirmation, with the statement that
/// performs it and the connection to run it on.
#[derive(Debug)]
pub struct PendingSchemaDeletion {
    pub kind: SchemaDeletionKind,
    pub name: String,
    pub form: ConnectionForm,
    pub sql: String,
}

} // verus!
