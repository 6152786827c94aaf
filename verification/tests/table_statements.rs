use aktsql::connection::ConnectionForm;
use aktsql::drafts::{
    AlterTableDraft, AlterTableOperation, CreateTableColumnDraft, CreateTableConstraintDraft,
    CreateTableDraft, CreateTableIndexDraft, TableColumnDetail,
};
use aktsql::driver::DatabaseDriver;
use aktsql::schema::{normalized_constraint_type, normalized_index_type};
use aktsql::sql_database::rename_table_statement;
use aktsql::sql_alter_table::{
    alter_table_statement, inserted_column_expression, last_table_part, move_column_statement,
    table_column_definition_tail, temporary_table_name,
};
use aktsql::sql_create_table::{
    create_table_statement, join_table_parts, mysql_index_columns_sql, table_comment_clause,
};

fn column(name: &str, data_type: &str, nullable: &str, default_value: &str) -> TableColumnDetail {
    TableColumnDetail {
        name: String::from(name),
        data_type: String::from(data_type),
        nullable: String::from(nullable),
        default_value: String::from(default_value),
        extra: String::new(),
    }
}

#[test]
fn create_table_statement_is_driver_specific_direct_command() {
    let mut form = ConnectionForm::for_driver(DatabaseDriver::MySql);
    form.database = String::from("myapp_db");
    let mut draft = CreateTableDraft::for_driver(DatabaseDriver::MySql);
    draft.comment = String::from("created from structured designer");

    let sql = create_table_statement(&mut form, &draft)
        .expect("mysql create table statement should be generated");

    assert!(sql.starts_with("CREATE TABLE `myapp_db`.`new_table`"));
    assert!(sql.contains("`id` BIGINT NOT NULL AUTO_INCREMENT"));
    assert!(sql.contains("`name` VARCHAR(255) NOT NULL"));
    assert!(sql.contains("CONSTRAINT `pk_new_table` PRIMARY KEY (id)"));
    assert!(sql.contains(
        "CREATE INDEX `idx_new_table_name` USING BTREE ON `myapp_db`.`new_table` (`name`);"
    ));
    assert!(sql.contains("ENGINE=InnoDB"));
    assert!(sql.contains("DEFAULT CHARSET=utf8mb4"));
    assert!(sql.contains("COLLATE=utf8mb4_0900_ai_ci"));
    assert!(sql.contains("COMMENT='created from structured designer'"));
}

#[test]
fn create_table_statement_supports_multi_column_unique_index_and_constraints() {
    let mut form = ConnectionForm::for_driver(DatabaseDriver::PostgreSql);
    form.database = String::from("myapp_db");
    let mut draft = CreateTableDraft::for_driver(DatabaseDriver::PostgreSql);
    draft.name = String::from("public.users");
    draft
        .columns
        .push(CreateTableColumnDraft::new("email", "TEXT", "NO", "", ""));
    draft.indexes = vec![CreateTableIndexDraft::new(
        "idx_users_name_email",
        "name, email",
        "YES",
    )];
    draft.constraints = vec![
        CreateTableConstraintDraft::new("pk_users", "PRIMARY KEY", "id"),
        CreateTableConstraintDraft::new("ck_users_email", "CHECK", "email <> ''"),
    ];

    let sql = create_table_statement(&mut form, &draft)
        .expect("postgres create table statement should be generated");

    assert!(sql.contains("\"email\" TEXT NOT NULL"));
    assert!(sql.contains("CONSTRAINT \"pk_users\" PRIMARY KEY (id)"));
    assert!(sql.contains("CONSTRAINT \"ck_users_email\" CHECK (email <> '')"));
    assert!(sql.contains(
        "CREATE UNIQUE INDEX \"idx_users_name_email\" ON \"public\".\"users\" USING btree (name, email);"
    ));
}

#[test]
fn mongodb_create_collection_statement_includes_index_commands() {
    let mut form = ConnectionForm::for_driver(DatabaseDriver::MongoDb);
    form.database = String::from("myapp_db");
    let mut draft = CreateTableDraft::for_driver(DatabaseDriver::MongoDb);
    draft.name = String::from("events");
    draft.indexes = vec![
        CreateTableIndexDraft::new("idx_events_account", "account_id", "NO"),
        CreateTableIndexDraft::new("idx_events_account_created", "account_id, created_at", "NO"),
    ];

    let command = create_table_statement(&mut form, &draft)
        .expect("mongodb create collection command should be generated");

    assert!(command.contains("\"create\":\"events\""));
    assert!(command.contains("\"createIndexes\":\"events\""));
    assert!(command.contains("\"name\":\"idx_events_account\""));
    assert!(command.contains("\"account_id\":1"));
    assert!(command.contains("\"created_at\":1"));
}

#[test]
fn mysql_create_table_text_indexes_use_prefix_length_to_avoid_1170() {
    let mut form = ConnectionForm::for_driver(DatabaseDriver::MySql);
    form.database = String::from("myapp_db");
    let mut draft = CreateTableDraft::for_driver(DatabaseDriver::MySql);
    draft
        .columns
        .push(CreateTableColumnDraft::new("bio", "TEXT", "YES", "", ""));
    draft.indexes.push(CreateTableIndexDraft::with_type(
        "idx_new_table_bio",
        "bio",
        "BTREE",
    ));

    let sql = create_table_statement(&mut form, &draft)
        .expect("mysql create table text index should use a prefix length");
    assert!(sql.contains(
        "CREATE INDEX `idx_new_table_bio` USING BTREE ON `myapp_db`.`new_table` (`bio`(191));"
    ));
}

#[test]
fn create_table_errors_name_their_cause() {
    let mut form = ConnectionForm::for_driver(DatabaseDriver::MySql);
    let mut draft = CreateTableDraft::for_driver(DatabaseDriver::MySql);
    draft.name = String::from("   ");
    assert_eq!(
        create_table_statement(&mut form, &draft),
        Err(String::from("Table name is required."))
    );

    draft.name = String::from("t");
    form.database = String::new();
    assert_eq!(
        create_table_statement(&mut form, &draft),
        Err(String::from("Select a database before creating a table."))
    );

    draft.columns.clear();
    assert_eq!(
        create_table_statement(&mut form, &draft),
        Err(String::from("At least one column is required."))
    );

    draft
        .columns
        .push(CreateTableColumnDraft::new("id", "", "NO", "", ""));
    assert_eq!(
        create_table_statement(&mut form, &draft),
        Err(String::from("Column name and data type are required."))
    );

    let mut sqlserver = ConnectionForm::for_driver(DatabaseDriver::SqlServer);
    let draft = CreateTableDraft::for_driver(DatabaseDriver::SqlServer);
    let error = create_table_statement(&mut sqlserver, &draft).expect_err("sql server is refused");
    assert!(error.starts_with("SQL Server create table needs a native driver"));

    let mut mongo = ConnectionForm::for_driver(DatabaseDriver::MongoDb);
    mongo.database = String::from("  ");
    let draft = CreateTableDraft::for_driver(DatabaseDriver::MongoDb);
    assert_eq!(
        create_table_statement(&mut mongo, &draft),
        Err(String::from("Select a MongoDB database before creating a collection."))
    );
}

#[test]
fn mongodb_collection_database_is_trimmed_in_the_form() {
    let mut form = ConnectionForm::for_driver(DatabaseDriver::MongoDb);
    form.database = String::from("  shop  ");
    let mut draft = CreateTableDraft::for_driver(DatabaseDriver::MongoDb);
    draft.name = String::from("orders");
    draft.indexes.clear();
    let command = create_table_statement(&mut form, &draft).expect("command");
    assert_eq!(command, "{\"create\":\"orders\"}");
    assert_eq!(form.database, "shop");
}

#[test]
fn sqlite_create_table_uses_plain_quotes() {
    let mut form = ConnectionForm::for_driver(DatabaseDriver::Sqlite);
    let mut draft = CreateTableDraft::for_driver(DatabaseDriver::Sqlite);
    draft.indexes.clear();
    draft.constraints.clear();
    draft.columns = vec![CreateTableColumnDraft::new("id", "INTEGER", "NO", "", "")];
    let sql = create_table_statement(&mut form, &draft).expect("sqlite statement");
    assert_eq!(sql, "CREATE TABLE \"new_table\" (\n    \"id\" INTEGER NOT NULL\n);");
}

#[test]
fn table_parts_join_columns_then_constraints() {
    let joined = join_table_parts(
        vec![String::from("a INT"), String::from("b INT")],
        vec![String::from("PRIMARY KEY (a)")],
    );
    assert_eq!(joined, "a INT,\n    b INT,\n    PRIMARY KEY (a)");
}

#[test]
fn table_comments_are_mysql_only() {
    assert_eq!(
        table_comment_clause(DatabaseDriver::MariaDb, " it's "),
        " COMMENT='it''s'"
    );
    assert_eq!(table_comment_clause(DatabaseDriver::PostgreSql, "note"), "");
    assert_eq!(table_comment_clause(DatabaseDriver::MySql, "   "), "");
}

#[test]
fn mysql_index_columns_prefix_only_long_text() {
    let columns = vec![
        (String::from("bio"), String::from("MEDIUMTEXT")),
        (String::from("avatar"), String::from("blob")),
        (String::from("name"), String::from("VARCHAR(64)")),
    ];
    assert_eq!(
        mysql_index_columns_sql("bio, avatar, name, other", &columns, "BTREE"),
        "`bio`(191), `avatar`(191), `name`, `other`"
    );
    assert_eq!(
        mysql_index_columns_sql("bio", &columns, "FULLTEXT"),
        "`bio`"
    );
}

#[test]
fn alter_table_generates_real_column_and_index_operations() {
    let mut form = ConnectionForm::for_driver(DatabaseDriver::PostgreSql);
    let mut draft = AlterTableDraft::new(String::from("public.users"), String::new());
    draft.column_name = String::from("name");
    draft.new_column_name = String::from("display_name");

    let sql = alter_table_statement(&mut form, &draft)
        .expect("rename column statement should be generated");
    assert_eq!(
        sql,
        "ALTER TABLE \"public\".\"users\" RENAME COLUMN \"name\" TO \"display_name\";"
    );

    draft.operation = AlterTableOperation::AddIndex;
    draft.index_name = String::from("idx_users_display_name");
    draft.index_columns = String::from("display_name");
    let sql = alter_table_statement(&mut form, &draft)
        .expect("create index statement should be generated");
    assert_eq!(
        sql,
        "CREATE INDEX \"idx_users_display_name\" ON \"public\".\"users\" USING btree (display_name);"
    );
}

#[test]
fn alter_table_add_column_uses_structured_type_and_position() {
    let mut form = ConnectionForm::for_driver(DatabaseDriver::MySql);
    form.database = String::from("myapp_db");
    let mut draft = AlterTableDraft::new(String::from("users"), String::new());
    draft.operation = AlterTableOperation::AddColumn;
    draft.column_name = String::from("status");
    draft.column_type = String::from("VARCHAR(32)");
    draft.column_definition = String::from("NOT NULL DEFAULT 'active'");
    draft.column_position = String::from("AFTER");
    draft.after_column = String::from("name");

    let sql = alter_table_statement(&mut form, &draft)
        .expect("structured add column statement should be generated");

    assert_eq!(
        sql,
        "ALTER TABLE `myapp_db`.`users` ADD COLUMN `status` VARCHAR(32) NOT NULL DEFAULT 'active' AFTER `name`;"
    );
}

#[test]
fn alter_table_rejects_duplicate_column_names_before_sql_execution() {
    let mut form = ConnectionForm::for_driver(DatabaseDriver::MySql);
    form.database = String::from("myapp_db");
    let mut draft = AlterTableDraft::new(String::from("users"), String::new());
    draft.original_column_names = vec![String::from("id"), String::from("name")];
    draft.operation = AlterTableOperation::AddColumn;
    draft.column_name = String::from("name");
    draft.column_type = String::from("VARCHAR(255)");

    let error = alter_table_statement(&mut form, &draft)
        .expect_err("existing column should be rejected before MySQL returns 1060");
    assert!(error.contains("Column already exists"));

    draft.operation = AlterTableOperation::RenameColumn;
    draft.column_name = String::from("id");
    draft.new_column_name = String::from("name");
    let error = alter_table_statement(&mut form, &draft)
        .expect_err("rename target should be rejected before MySQL returns 1060");
    assert!(error.contains("Column already exists"));

    draft.operation = AlterTableOperation::MoveColumn;
    draft.reordered_columns = vec![
        column("id", "BIGINT", "NO", ""),
        column("id", "VARCHAR(255)", "YES", ""),
    ];
    let error = alter_table_statement(&mut form, &draft)
        .expect_err("duplicate rebuild columns should be rejected before MySQL returns 1060");
    assert!(error.contains("Duplicate column name"));
}

#[test]
fn index_type_is_driver_specific_in_alter_table_sql() {
    let mut mysql = ConnectionForm::for_driver(DatabaseDriver::MySql);
    mysql.database = String::from("myapp_db");
    let mut draft = AlterTableDraft::new(String::from("users"), String::new());
    draft.operation = AlterTableOperation::AddIndex;
    draft.index_name = String::from("idx_users_name");
    draft.index_columns = String::from("name");
    draft.index_type = String::from("FULLTEXT");
    let sql = alter_table_statement(&mut mysql, &draft)
        .expect("mysql fulltext index should be generated");
    assert_eq!(
        sql,
        "CREATE FULLTEXT INDEX `idx_users_name` ON `myapp_db`.`users` (`name`);"
    );

    let mut postgres = ConnectionForm::for_driver(DatabaseDriver::PostgreSql);
    draft.table = String::from("public.users");
    draft.index_type = String::from("GIN");
    let sql = alter_table_statement(&mut postgres, &draft)
        .expect("postgres gin index should be generated");
    assert_eq!(
        sql,
        "CREATE INDEX \"idx_users_name\" ON \"public\".\"users\" USING gin (name);"
    );

    let mut sqlserver = ConnectionForm::for_driver(DatabaseDriver::SqlServer);
    draft.table = String::from("dbo.users");
    draft.index_type = String::from("UNIQUE NONCLUSTERED");
    let sql = alter_table_statement(&mut sqlserver, &draft)
        .expect("sql server nonclustered index should be generated");
    assert_eq!(
        sql,
        "CREATE UNIQUE NONCLUSTERED INDEX [idx_users_name] ON [dbo].[users] (name);"
    );
}

#[test]
fn mysql_text_indexes_use_prefix_length_to_avoid_1170() {
    let mut form = ConnectionForm::for_driver(DatabaseDriver::MySql);
    form.database = String::from("myapp_db");
    let mut draft = AlterTableDraft::new(String::from("users"), String::new());
    draft.operation = AlterTableOperation::AddIndex;
    draft.index_name = String::from("idx_users_bio");
    draft.index_columns = String::from("bio");
    draft.index_type = String::from("BTREE");
    draft.reordered_columns = vec![column("bio", "TEXT", "YES", "")];

    let sql = alter_table_statement(&mut form, &draft)
        .expect("mysql text index should use a prefix length");
    assert_eq!(
        sql,
        "CREATE INDEX `idx_users_bio` USING BTREE ON `myapp_db`.`users` (`bio`(191));"
    );

    draft.index_type = String::from("FULLTEXT");
    let sql = alter_table_statement(&mut form, &draft)
        .expect("mysql fulltext text index should not use a prefix length");
    assert_eq!(
        sql,
        "CREATE FULLTEXT INDEX `idx_users_bio` ON `myapp_db`.`users` (`bio`);"
    );
}

#[test]
fn constraint_type_is_driver_specific_in_alter_table_sql() {
    let mut mysql = ConnectionForm::for_driver(DatabaseDriver::MySql);
    mysql.database = String::from("myapp_db");
    let mut draft = AlterTableDraft::new(String::from("users"), String::new());
    draft.operation = AlterTableOperation::AddConstraint;
    draft.constraint_name = String::from("ck_users_status");
    draft.constraint_kind = String::from("CHECK");
    draft.constraint_expression = String::from("status in ('active', 'disabled')");

    let sql =
        alter_table_statement(&mut mysql, &draft).expect("mysql check constraint should generate");
    assert_eq!(
        sql,
        "ALTER TABLE `myapp_db`.`users` ADD CONSTRAINT `ck_users_status` CHECK (status in ('active', 'disabled'));"
    );

    let mut postgres = ConnectionForm::for_driver(DatabaseDriver::PostgreSql);
    draft.table = String::from("public.users");
    draft.constraint_kind = String::from("UNIQUE");
    draft.constraint_expression = String::from("email");
    let sql = alter_table_statement(&mut postgres, &draft)
        .expect("postgres unique constraint should generate");
    assert_eq!(
        sql,
        "ALTER TABLE \"public\".\"users\" ADD CONSTRAINT \"ck_users_status\" UNIQUE (email);"
    );
}

#[test]
fn sqlite_and_mongodb_reject_direct_alter_table_constraints() {
    let mut draft = AlterTableDraft::new(String::from("users"), String::new());
    draft.operation = AlterTableOperation::AddConstraint;
    draft.constraint_name = String::from("ck_users_status");
    draft.constraint_kind = String::from("CHECK");
    draft.constraint_expression = String::from("status is not null");

    let mut sqlite = ConnectionForm::for_driver(DatabaseDriver::Sqlite);
    let error = alter_table_statement(&mut sqlite, &draft)
        .expect_err("sqlite should require table rebuild for constraints");
    assert!(error.contains("SQLite cannot add table constraints"));

    let mut mongodb = ConnectionForm::for_driver(DatabaseDriver::MongoDb);
    let error = alter_table_statement(&mut mongodb, &draft)
        .expect_err("mongodb should reject SQL constraints");
    assert!(error.contains("MongoDB constraints"));
}

#[test]
fn constraint_expression_that_names_its_kind_is_kept() {
    let mut postgres = ConnectionForm::for_driver(DatabaseDriver::PostgreSql);
    let mut draft = AlterTableDraft::new(String::from("t"), String::new());
    draft.operation = AlterTableOperation::AddConstraint;
    draft.constraint_name = String::from("fk_t");
    draft.constraint_kind = String::from("foreign key");
    draft.constraint_expression = String::from("foreign key (a) references u (id)");
    let sql = alter_table_statement(&mut postgres, &draft).expect("foreign key");
    assert_eq!(
        sql,
        "ALTER TABLE \"t\" ADD CONSTRAINT \"fk_t\" foreign key (a) references u (id);"
    );
}

#[test]
fn alter_table_insert_column_between_postgres_fields_rebuilds_table() {
    let mut form = ConnectionForm::for_driver(DatabaseDriver::PostgreSql);
    let mut draft = AlterTableDraft::new(String::from("public.users"), String::new());
    draft.operation = AlterTableOperation::AddColumn;
    draft.column_name = String::from("tenant_id");
    draft.column_type = String::from("TEXT");
    draft.column_position = String::from("AFTER");
    draft.after_column = String::from("id");
    draft.original_column_names = vec![String::from("id"), String::from("name")];
    draft.reordered_columns = vec![
        column("id", "BIGINT", "NO", ""),
        column("tenant_id", "TEXT", "YES", ""),
        column("name", "TEXT", "YES", ""),
    ];

    let sql = alter_table_statement(&mut form, &draft)
        .expect("postgres positioned add column should rebuild table");

    assert!(sql.contains("CREATE TABLE \"public\".\"users__aktsql_reorder\""));
    assert!(sql.contains("INSERT INTO \"public\".\"users__aktsql_reorder\""));
    assert!(sql.contains("SELECT \"id\", NULL, \"name\" FROM \"public\".\"users\""));
}

#[test]
fn move_column_statement_is_generated_for_all_supported_drivers() {
    let mut draft = AlterTableDraft::new(String::from("users"), String::new());
    draft.operation = AlterTableOperation::MoveColumn;
    draft.column_name = String::from("created_at");
    draft.column_type = String::from("TIMESTAMP");
    draft.column_position = String::from("AFTER");
    draft.after_column = String::from("id");
    draft.reordered_columns = vec![
        column("id", "BIGINT", "NO", ""),
        column("created_at", "TIMESTAMP", "NO", "CURRENT_TIMESTAMP"),
        column("name", "VARCHAR(255)", "YES", ""),
    ];

    let mut mysql = ConnectionForm::for_driver(DatabaseDriver::MySql);
    mysql.database = String::from("myapp_db");
    let sql = move_column_statement(&mut mysql, "users", &draft)
        .expect("mysql move column should be generated");
    assert!(sql.contains("CREATE TABLE `myapp_db`.`users__aktsql_reorder`"));
    assert!(sql.contains("RENAME TABLE"));
    assert!(sql.contains("DROP TABLE `myapp_db`.`users__aktsql_backup`"));

    for driver in [
        DatabaseDriver::PostgreSql,
        DatabaseDriver::CockroachDb,
        DatabaseDriver::Sqlite,
        DatabaseDriver::SqlServer,
        DatabaseDriver::Oracle,
    ] {
        let mut form = ConnectionForm::for_driver(driver);
        let sql = move_column_statement(&mut form, "users", &draft)
            .expect("rebuild move column should be generated");
        assert!(sql.contains("CREATE TABLE"));
        assert!(sql.contains("INSERT INTO"));
        assert!(sql.contains("DROP TABLE"));
    }

    let mut mongo = ConnectionForm::for_driver(DatabaseDriver::MongoDb);
    let command = move_column_statement(&mut mongo, "users", &draft)
        .expect("mongodb reorder command should be generated");
    assert!(command.contains("\"update\":\"users\""));
    assert!(command.contains("\"$replaceRoot\""));
}

#[test]
fn table_column_definition_tail_omits_generated_default_metadata() {
    let column = TableColumnDetail {
        name: String::from("updated_at"),
        data_type: String::from("timestamp"),
        nullable: String::from("NO"),
        default_value: String::from("CURRENT_TIMESTAMP"),
        extra: String::from("DEFAULT_GENERATED on update CURRENT_TIMESTAMP"),
    };

    let definition = table_column_definition_tail(&column);

    assert!(definition.contains("NOT NULL"));
    assert!(definition.contains("DEFAULT CURRENT_TIMESTAMP"));
    assert!(definition.contains("on update CURRENT_TIMESTAMP"));
    assert!(!definition.contains("DEFAULT_GENERATED"));
}

#[test]
fn text_defaults_become_string_literals() {
    let status = column("status", "varchar(16)", "YES", "active");
    assert_eq!(table_column_definition_tail(&status), "DEFAULT 'active'");
    assert_eq!(inserted_column_expression(&status), "'active'");
    let count = column("count", "INT", "NO", "0");
    assert_eq!(inserted_column_expression(&count), "0");
    let nothing = column("x", "INT", "YES", "NULL");
    assert_eq!(inserted_column_expression(&nothing), "NULL");
}

#[test]
fn rebuild_table_names() {
    assert_eq!(temporary_table_name("public.users"), "public.users__aktsql_reorder");
    assert_eq!(last_table_part("public.users"), "users");
    assert_eq!(last_table_part("users"), "users");
}

#[test]
fn sql_server_rename_column_uses_sp_rename() {
    let mut form = ConnectionForm::for_driver(DatabaseDriver::SqlServer);
    let mut draft = AlterTableDraft::new(String::from("dbo.users"), String::new());
    draft.column_name = String::from("name");
    draft.new_column_name = String::from("full_name");
    let sql = alter_table_statement(&mut form, &draft).expect("rename");
    assert_eq!(sql, "EXEC sp_rename 'dbo.users.name', 'full_name', 'COLUMN';");
}

#[test]
fn renaming_a_table_keeps_the_connection_but_for_mongodb_admin() {
    let mut mysql = ConnectionForm::for_driver(DatabaseDriver::MySql);
    mysql.database = String::from("myapp_db");
    mysql.notes = String::from("keep");
    mysql.ssl_enabled = true;
    let before = mysql.clone();
    assert_eq!(
        rename_table_statement(&mut mysql, "users", "accounts").unwrap(),
        "RENAME TABLE `myapp_db`.`users` TO `myapp_db`.`accounts`;"
    );
    assert_eq!(mysql.database, before.database);
    assert_eq!(mysql.notes, "keep");
    assert!(mysql.ssl_enabled);
    assert_eq!(mysql.charset, before.charset);

    let mut mongo = ConnectionForm::for_driver(DatabaseDriver::MongoDb);
    mongo.database = String::from("myapp_db");
    assert!(rename_table_statement(&mut mongo, "users", "accounts").is_ok());
    assert_eq!(mongo.database, "admin");

    let mut unnamed = ConnectionForm::for_driver(DatabaseDriver::MongoDb);
    unnamed.database = String::from("  ");
    assert_eq!(
        rename_table_statement(&mut unnamed, "users", "accounts").unwrap_err(),
        "Select a MongoDB database before renaming a collection."
    );
    assert_eq!(unnamed.database, "  ");
}

#[test]
fn normalized_index_types_normalize_to_themselves() {
    for (driver, value, expected) in [
        (DatabaseDriver::MySql, " fulltext ", "FULLTEXT"),
        (DatabaseDriver::PostgreSql, "", "BTREE"),
        (DatabaseDriver::Sqlite, "BTREE", "INDEX"),
    ] {
        let once = normalized_index_type(driver, value);
        assert_eq!(once, expected);
        assert_eq!(normalized_index_type(driver, &once), once);
    }
}

#[test]
fn constraint_types_normalize_to_an_offered_type_or_check() {
    assert_eq!(normalized_constraint_type(DatabaseDriver::Sqlite, "unique"), "CHECK");
    assert_eq!(normalized_constraint_type(DatabaseDriver::MongoDb, "PRIMARY KEY"), "CHECK");
    assert_eq!(normalized_constraint_type(DatabaseDriver::MySql, " foreign key "), "FOREIGN KEY");
    assert_eq!(normalized_constraint_type(DatabaseDriver::PostgreSql, "nonsense"), "PRIMARY KEY");
    let once = normalized_constraint_type(DatabaseDriver::MySql, "check");
    assert_eq!(normalized_constraint_type(DatabaseDriver::MySql, &once), once);
}
