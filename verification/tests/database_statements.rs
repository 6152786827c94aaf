use aktsql::connection::ConnectionForm;
use aktsql::driver::DatabaseDriver;
use aktsql::sql_database::{alter_database_charset_statement, rename_database_statement};

#[test]
fn mysql_database_charset_template_uses_selected_charset_and_collation() {
    let sql = alter_database_charset_statement(
        DatabaseDriver::MySql,
        "myapp_db",
        "utf8mb4",
        "utf8mb4_unicode_ci",
    )
    .expect("mysql charset statement should be generated");

    assert!(sql.contains("ALTER DATABASE `myapp_db`"));
    assert!(sql.contains("CHARACTER SET utf8mb4"));
    assert!(sql.contains("COLLATE utf8mb4_unicode_ci"));
}

#[test]
fn mysql_database_rename_uses_live_information_schema_plan() {
    let mut form = ConnectionForm::default();
    form.driver = DatabaseDriver::MySql;

    let sql = rename_database_statement(
        &mut form,
        "old_db",
        "new_db",
        &Vec::new(),
        "utf8mb4",
        "utf8mb4_unicode_ci",
    )
    .expect("mysql database rename statement should be generated");

    assert!(sql.contains("information_schema.tables"));
    assert!(sql.contains("PREPARE aktsql_rename_database_stmt"));
    assert!(sql.contains("DROP DATABASE `old_db`"));
    assert!(!sql.contains("old_db`.`cached_table"));
}

#[test]
fn database_rename_has_sqlserver_and_oracle_strategy() {
    let mut sqlserver = ConnectionForm::default();
    sqlserver.driver = DatabaseDriver::SqlServer;
    let sql = rename_database_statement(
        &mut sqlserver,
        "old_db",
        "new_db",
        &Vec::new(),
        "UTF8",
        "Latin1_General_100_CI_AS_SC_UTF8",
    )
    .expect("sql server database rename statement should be generated");

    assert_eq!(sqlserver.database, "master");
    assert_eq!(sql, "ALTER DATABASE [old_db] MODIFY NAME = [new_db];");

    let mut oracle = ConnectionForm::default();
    oracle.driver = DatabaseDriver::Oracle;
    let sql = rename_database_statement(&mut oracle, "OLDPDB", "NEWPDB", &Vec::new(), "", "")
        .expect("oracle database rename statement should be generated");

    assert!(sql.contains("ALTER PLUGGABLE DATABASE \"OLDPDB\""));
    assert!(sql.contains("RENAME GLOBAL_NAME TO \"NEWPDB\""));
}

#[test]
fn mysql_charset_alteration_requires_a_database_name() {
    let error = alter_database_charset_statement(DatabaseDriver::MySql, "  ", "utf8mb4", "")
        .expect_err("a blank database should be refused");
    assert!(!error.is_empty());
}
