use aktsql::connection::ConnectionForm;
use aktsql::drafts::{AlterTableDraft, AlterTableOperation, CreateDatabaseDraft, CreateTableDraft};
use aktsql::driver::DatabaseDriver;
use aktsql::results::statement_result;
use aktsql::navigation::DatabaseEditField;
use aktsql::schema_changes::{
    set_create_database_field, set_database_edit_field, CreateDatabaseField,
    failure_message, schema_change_finished_message, submit_alter_database_charset,
    submit_alter_table, submit_create_database, submit_create_table, submit_rename_database,
    submit_rename_table, AlterDatabaseCharsetDraft, RenameDatabaseDraft, RenameTableDraft,
    SchemaChangeKind,
};
use aktsql::workspace::{QueryExecutionOutcome, SchemaObject, SchemaObjectKind};

fn mysql_form() -> ConnectionForm {
    let mut form = ConnectionForm::for_driver(DatabaseDriver::MySql);
    form.database = String::from("shop");
    form
}

#[test]
fn a_running_change_blocks_every_form() {
    let form = mysql_form();
    let draft = CreateTableDraft::for_driver(DatabaseDriver::MySql);
    assert_eq!(
        submit_create_table(true, Some(&draft), &form).err(),
        Some(String::from("Schema change is already running."))
    );
    assert_eq!(
        submit_create_table(false, None, &form).err(),
        Some(String::from("Create table form is not open."))
    );
    assert_eq!(
        submit_alter_table(false, None, &form).err(),
        Some(String::from("Table designer is not open."))
    );
}

#[test]
fn create_table_submission_names_the_table() {
    let form = mysql_form();
    let mut draft = CreateTableDraft::for_driver(DatabaseDriver::MySql);
    draft.name = String::from(" orders ");
    let change = submit_create_table(false, Some(&draft), &form).expect("statement");
    assert_eq!(change.status_message, "Creating table orders...");
    assert!(change.sql.starts_with("CREATE TABLE `shop`.`orders`"));
    draft.name = String::from("  ");
    assert_eq!(
        submit_create_table(false, Some(&draft), &form).err(),
        Some(String::from("Table name is required."))
    );
}

#[test]
fn alter_table_submission_runs_the_draft() {
    let form = mysql_form();
    let mut draft = AlterTableDraft::new(String::from("users"), String::new());
    draft.operation = AlterTableOperation::RenameColumn;
    draft.column_name = String::from("name");
    draft.new_column_name = String::from("full_name");
    let change = submit_alter_table(false, Some(&draft), &form).expect("statement");
    assert_eq!(change.status_message, "Applying structure change to users...");
    assert!(change.sql.contains("RENAME COLUMN `name` TO `full_name`"));
}

#[test]
fn renames_need_a_new_different_name() {
    let form = mysql_form();
    let draft = RenameTableDraft::new(String::from("users"));
    assert_eq!(
        submit_rename_table(false, Some(&draft), &form).err(),
        Some(String::from("New table name must be different."))
    );
    let mut draft = RenameTableDraft::new(String::from("users"));
    draft.new_name = String::from(" ");
    assert_eq!(
        submit_rename_table(false, Some(&draft), &form).err(),
        Some(String::from("New table name is required."))
    );
    draft.new_name = String::from(" members ");
    let change = submit_rename_table(false, Some(&draft), &form).expect("statement");
    assert_eq!(change.status_message, "Renaming table users to members...");

    let draft = RenameDatabaseDraft::new(String::from("shop"));
    assert_eq!(
        submit_rename_database(false, Some(&draft), &form, &Vec::new()).err(),
        Some(String::from("New database name must be different."))
    );
    let mut draft = RenameDatabaseDraft::new(String::from("shop"));
    draft.new_name = String::from("store");
    let objects = vec![
        SchemaObject::new(SchemaObjectKind::Database, String::from("shop"), 0),
        SchemaObject::new(SchemaObjectKind::Table, String::from("orders"), 1),
    ];
    let change = submit_rename_database(false, Some(&draft), &form, &objects).expect("plan");
    assert_eq!(change.status_message, "Renaming database shop to store...");
    assert!(change.sql.contains("CREATE DATABASE `store`"));
}

#[test]
fn charset_submission_switches_the_connection_charset() {
    let form = mysql_form();
    let mut draft = AlterDatabaseCharsetDraft::for_form(&form, String::from("shop"));
    draft.charset = String::from("latin1");
    draft.collation = String::from("latin1_swedish_ci");
    let change = submit_alter_database_charset(false, Some(&draft), &form).expect("statement");
    assert_eq!(change.form.charset, "latin1");
    assert_eq!(change.form.collation, "latin1_swedish_ci");
    assert_eq!(change.status_message, "Altering database charset for shop...");
    draft.database = String::new();
    assert_eq!(
        submit_alter_database_charset(false, Some(&draft), &form).err(),
        Some(String::from("Database name is required."))
    );
}

#[test]
fn create_database_needs_a_connection_and_a_mongodb_collection() {
    let form = mysql_form();
    let mut draft = CreateDatabaseDraft::for_driver(DatabaseDriver::MySql);
    draft.name = String::from("archive");
    assert_eq!(
        submit_create_database(false, Some(&draft), &form, false).err(),
        Some(String::from(
            "No active connection. Connect a saved profile before creating a database."
        ))
    );
    let change = submit_create_database(false, Some(&draft), &form, true).expect("statement");
    assert_eq!(change.status_message, "Creating database archive...");

    let mongo = ConnectionForm::for_driver(DatabaseDriver::MongoDb);
    let mut draft = CreateDatabaseDraft::for_driver(DatabaseDriver::MongoDb);
    draft.name = String::from("events");
    draft.initial_collection = String::from(" ");
    assert_eq!(
        submit_create_database(false, Some(&draft), &mongo, true).err(),
        Some(String::from("MongoDB needs an initial collection to materialize a new database."))
    );
}

#[test]
fn finished_changes_report_success_or_failure() {
    assert_eq!(failure_message("Load failed", &Vec::new()), "Load failed.");
    assert_eq!(
        failure_message("Load failed", &vec![String::from("a"), String::from("b")]),
        "Load failed: a b"
    );
    let ok = QueryExecutionOutcome::Success(statement_result("MySQL", 0, 12));
    assert_eq!(
        schema_change_finished_message(&SchemaChangeKind::CreateDatabase { name: String::from("archive") }, &ok),
        "Database archive created in 12 ms."
    );
    let failed = QueryExecutionOutcome::Failure(vec![String::from("denied")]);
    assert_eq!(
        schema_change_finished_message(&SchemaChangeKind::AlterTable { table: String::from("users") }, &failed),
        "Structure change failed for users: denied"
    );
    assert_eq!(
        schema_change_finished_message(
            &SchemaChangeKind::RenameTable { old_name: String::from("a"), new_name: String::from("b") },
            &QueryExecutionOutcome::Failure(Vec::new())
        ),
        "Rename table a failed."
    );
}

#[test]
fn create_database_form_fields_take_values_and_charset_brings_its_collation() {
    let mut none: Option<CreateDatabaseDraft> = None;
    assert_eq!(
        set_create_database_field(&mut none, DatabaseDriver::MySql, CreateDatabaseField::Name, String::from("x")).as_deref(),
        Some("Create database form is not open.")
    );

    let mut draft = Some(CreateDatabaseDraft::for_driver(DatabaseDriver::MySql));
    assert_eq!(
        set_create_database_field(&mut draft, DatabaseDriver::MySql, CreateDatabaseField::Name, String::from("shop")),
        None
    );
    set_create_database_field(&mut draft, DatabaseDriver::MySql, CreateDatabaseField::Charset, String::from("latin1"));
    let d = draft.as_ref().unwrap();
    assert_eq!(d.name, "shop");
    assert_eq!(d.charset, "latin1");
    assert_eq!(d.collation, DatabaseDriver::MySql.default_collation_for_charset("latin1"));
    assert_ne!(d.collation, "");

    set_create_database_field(&mut draft, DatabaseDriver::MySql, CreateDatabaseField::Collation, String::from("latin1_bin"));
    set_create_database_field(&mut draft, DatabaseDriver::MySql, CreateDatabaseField::Owner, String::from("admin"));
    let d = draft.as_ref().unwrap();
    assert_eq!(d.collation, "latin1_bin");
    assert_eq!(d.owner, "admin");
    assert_eq!(d.charset, "latin1");
}

#[test]
fn database_edit_fields_go_to_the_open_form() {
    let mut rename: Option<RenameDatabaseDraft> = None;
    let mut charset: Option<AlterDatabaseCharsetDraft> = None;
    assert_eq!(
        set_database_edit_field(&mut rename, &mut charset, DatabaseDriver::MySql, DatabaseEditField::NewName, String::from("b")).as_deref(),
        Some("Rename database form is not open.")
    );
    assert_eq!(
        set_database_edit_field(&mut rename, &mut charset, DatabaseDriver::MySql, DatabaseEditField::Charset, String::from("utf8mb4")).as_deref(),
        Some("Alter database charset form is not open.")
    );

    rename = Some(RenameDatabaseDraft::new(String::from("shop")));
    charset = Some(AlterDatabaseCharsetDraft::for_form(&mysql_form(), String::from("shop")));
    assert_eq!(
        set_database_edit_field(&mut rename, &mut charset, DatabaseDriver::MySql, DatabaseEditField::NewName, String::from("store")),
        None
    );
    assert_eq!(rename.as_ref().unwrap().new_name, "store");
    assert_eq!(rename.as_ref().unwrap().database, "shop");

    set_database_edit_field(&mut rename, &mut charset, DatabaseDriver::MySql, DatabaseEditField::Charset, String::from("latin1"));
    let c = charset.as_ref().unwrap();
    assert_eq!(c.charset, "latin1");
    assert_eq!(c.collation, DatabaseDriver::MySql.default_collation_for_charset("latin1"));

    set_database_edit_field(&mut rename, &mut charset, DatabaseDriver::MySql, DatabaseEditField::Collation, String::from("latin1_bin"));
    assert_eq!(charset.as_ref().unwrap().collation, "latin1_bin");
    assert_eq!(rename.as_ref().unwrap().new_name, "store");
}
