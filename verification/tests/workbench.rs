use aktsql::connection::{ConnectionField, ConnectionForm};
use aktsql::details::fallback_table_details;
use aktsql::drafts::{AlterTableDraft, CreateDatabaseDraft};
use aktsql::profiles::ConnectionManager;
use aktsql::schema_changes::{set_create_database_field, submit_create_database, CreateDatabaseField};
use aktsql::table_designer::TableDesigner;
use aktsql::workspace::QueryWorkspace;
use aktsql::drafts::SchemaDeletionKind;
use aktsql::driver::DatabaseDriver;
use aktsql::navigation::{DatabaseAction, QuickAction, Section, TableAction};
use aktsql::workbench::{
    Inspector,
    database_details_request, schema_refresh_request, table_details_request,
    choose_schema_row, create_table_request, RowChoice, database_action_step, database_details_message,
    database_row_action_step, quick_step, select_section, table_action_step,
    table_details_message, DatabaseStep, QuickStep, RowRefusal, TableStep,
};
use aktsql::workspace::{SchemaObject, SchemaObjectKind};

fn form(driver: DatabaseDriver, database: &str) -> ConnectionForm {
    let mut form = ConnectionForm::for_driver(driver);
    form.database = String::from(database);
    form
}

fn tree() -> Vec<SchemaObject> {
    vec![
        SchemaObject::new(SchemaObjectKind::Database, String::from("shop"), 0),
        SchemaObject::new(SchemaObjectKind::Table, String::from("orders"), 1),
        SchemaObject::new(SchemaObjectKind::Index, String::from("orders_idx"), 1),
    ]
}

#[test]
fn query_explorer_selection_shows_the_databases_section() {
    let selection = select_section(Section::QueryExplorer, false, true);
    assert_eq!(selection.section, Section::Databases);
    assert!(selection.close_workspace);
    assert!(!selection.refresh_schema);
    assert_eq!(selection.status_message, "Databases workspace selected.");

    let tables = select_section(Section::Tables, true, true);
    assert_eq!(tables.section, Section::Tables);
    assert!(!tables.close_workspace);
    assert!(tables.refresh_schema);
    assert_eq!(tables.status_message, "Tables workspace selected.");

    assert!(!select_section(Section::Tables, true, false).refresh_schema);
    assert!(!select_section(Section::Tables, false, true).refresh_schema);
    assert!(!select_section(Section::Databases, true, true).close_workspace);
}

#[test]
fn quick_actions_refresh_only_where_the_schema_is_shown() {
    assert_eq!(quick_step(QuickAction::NewConnection, Section::Tables), QuickStep::NewConnection);
    assert_eq!(quick_step(QuickAction::RefreshData, Section::Databases), QuickStep::RefreshSchema);
    assert_eq!(quick_step(QuickAction::RefreshData, Section::QueryExplorer), QuickStep::RefreshSchema);
    assert_eq!(quick_step(QuickAction::RefreshData, Section::Settings), QuickStep::Announce);
    assert_eq!(quick_step(QuickAction::NewQuery, Section::Databases), QuickStep::Announce);
}

#[test]
fn create_table_form_needs_a_database_except_on_sqlite() {
    assert_eq!(
        create_table_request(&form(DatabaseDriver::MySql, "  ")).unwrap_err(),
        "Select a database before creating a table."
    );
    assert_eq!(
        create_table_request(&form(DatabaseDriver::MySql, " shop ")).unwrap(),
        "Create table form opened for database shop."
    );
    assert_eq!(
        create_table_request(&form(DatabaseDriver::Sqlite, "")).unwrap(),
        "Create table form opened."
    );
}

#[test]
fn database_actions_on_the_selected_database() {
    let mysql = form(DatabaseDriver::MySql, " shop ");

    let outcome = database_action_step(DatabaseAction::AlterDatabaseName, &mysql);
    assert!(matches!(outcome.step, DatabaseStep::OpenRename(ref t) if t == "shop"));
    assert_eq!(outcome.status_message.as_deref(), Some("Rename database form opened for shop."));

    let outcome = database_action_step(DatabaseAction::AlterDatabaseCharset, &mysql);
    assert!(matches!(outcome.step, DatabaseStep::OpenCharset(ref t) if t == "shop"));
    assert_eq!(
        outcome.status_message.as_deref(),
        Some("Alter database charset form opened for shop.")
    );

    let outcome = database_action_step(DatabaseAction::ShowDatabase, &mysql);
    assert!(matches!(outcome.step, DatabaseStep::ShowDetails(ref t) if t == "shop"));
    assert_eq!(outcome.status_message, None);

    let outcome = database_action_step(DatabaseAction::DropDatabase, &mysql);
    match outcome.step {
        DatabaseStep::ConfirmDrop(pending) => {
            assert_eq!(pending.kind, SchemaDeletionKind::Database);
            assert_eq!(pending.name, "shop");
            assert_eq!(pending.sql, "DROP DATABASE `shop`;");
        }
        other => panic!("unexpected step {other:?}"),
    }
    assert_eq!(
        outcome.status_message.as_deref(),
        Some("Delete database confirmation requested for shop.")
    );

    let outcome = database_action_step(DatabaseAction::CreateDatabase, &mysql);
    assert!(matches!(outcome.step, DatabaseStep::OpenCreateDatabase));
    assert_eq!(outcome.status_message.as_deref(), Some("Create database form opened."));

    let outcome = database_action_step(DatabaseAction::CreateTable, &mysql);
    assert!(matches!(outcome.step, DatabaseStep::RequestCreateTable));
}

#[test]
fn database_actions_without_a_database() {
    let unnamed = form(DatabaseDriver::PostgreSql, "");
    let outcome = database_action_step(DatabaseAction::ShowDatabase, &unnamed);
    assert!(matches!(outcome.step, DatabaseStep::Refused));
    assert_eq!(
        outcome.status_message.as_deref(),
        Some("Select a database before running this database action.")
    );

    let outcome = database_action_step(DatabaseAction::DropDatabase, &unnamed);
    assert!(matches!(outcome.step, DatabaseStep::Refused));
    assert_eq!(outcome.status_message.as_deref(), Some("Select a database before deleting it."));

    let sqlite = form(DatabaseDriver::Sqlite, "");
    let outcome = database_action_step(DatabaseAction::AlterDatabaseName, &sqlite);
    assert!(matches!(outcome.step, DatabaseStep::OpenRename(ref t) if t == "SQLite database file"));
    let outcome = database_action_step(DatabaseAction::DropDatabase, &sqlite);
    assert!(matches!(outcome.step, DatabaseStep::Refused));
    assert_eq!(
        outcome.status_message.as_deref(),
        Some("SQLite databases are files. Delete the file only after closing the connection.")
    );
}

#[test]
fn database_actions_on_tree_rows() {
    let objects = tree();
    let chosen = form(DatabaseDriver::MySql, "shop");

    let outcome = database_row_action_step(DatabaseAction::AlterDatabaseName, &objects, 0, &chosen)
        .expect("database row");
    assert!(matches!(outcome.step, DatabaseStep::OpenRename(ref t) if t == "shop"));

    let outcome = database_row_action_step(DatabaseAction::DropDatabase, &objects, 0, &chosen)
        .expect("database row");
    assert!(matches!(outcome.step, DatabaseStep::ConfirmDrop(_)));
    assert_eq!(
        outcome.status_message.as_deref(),
        Some("Delete database confirmation requested for shop.")
    );

    assert_eq!(
        database_row_action_step(DatabaseAction::ShowDatabase, &objects, 1, &chosen).unwrap_err(),
        RowRefusal::WrongKind
    );
    assert_eq!(
        database_row_action_step(DatabaseAction::ShowDatabase, &objects, 7, &chosen).unwrap_err(),
        RowRefusal::Missing
    );
}

#[test]
fn table_actions_on_tree_rows() {
    let objects = tree();
    let chosen = form(DatabaseDriver::MySql, "shop");

    assert!(matches!(
        table_action_step(TableAction::SelectRows, &objects, 1, &chosen),
        Ok(TableStep::BrowseRows(ref t)) if t == "orders"
    ));
    assert!(matches!(
        table_action_step(TableAction::AlterTable, &objects, 1, &chosen),
        Ok(TableStep::OpenDesigner(ref t)) if t == "orders"
    ));
    assert!(matches!(
        table_action_step(TableAction::TruncateTable, &objects, 1, &chosen),
        Ok(TableStep::Ignored)
    ));
    match table_action_step(TableAction::DropTable, &objects, 1, &chosen) {
        Ok(TableStep::ConfirmDrop(pending)) => {
            assert_eq!(pending.kind, SchemaDeletionKind::Table);
            assert_eq!(pending.sql, "DROP TABLE `shop`.`orders`;");
        }
        other => panic!("unexpected step {other:?}"),
    }
    match table_action_step(TableAction::DropTable, &objects, 1, &form(DatabaseDriver::MySql, "")) {
        Ok(TableStep::Refused(message)) => {
            assert_eq!(message, "Select a database before deleting a table.")
        }
        other => panic!("unexpected step {other:?}"),
    }
    assert_eq!(
        table_action_step(TableAction::SelectRows, &objects, 2, &chosen).unwrap_err(),
        RowRefusal::WrongKind
    );
    assert_eq!(
        table_action_step(TableAction::SelectRows, &objects, 3, &chosen).unwrap_err(),
        RowRefusal::Missing
    );
}

#[test]
fn loaded_details_messages() {
    assert_eq!(database_details_message("shop", None), "Database details loaded for shop.");
    assert_eq!(
        database_details_message("shop", Some(&vec![String::from("access"), String::from("denied")])),
        "Database detail load failed for shop: access denied"
    );
    assert_eq!(
        table_details_message("orders", Some(&Vec::new())),
        "Table detail load failed for orders."
    );
    assert_eq!(table_details_message("orders", None), "Table details loaded for orders.");
}

#[test]
fn choosing_a_database_row_opens_and_closes_it_on_servers() {
    let objects = tree();
    match choose_schema_row(&objects, 0, DatabaseDriver::MySql, "", false) {
        Ok(RowChoice::ExpandDatabase(name, message)) => {
            assert_eq!(name, "shop");
            assert_eq!(message, "Database expanded: shop.");
        }
        other => panic!("unexpected choice {other:?}"),
    }
    match choose_schema_row(&objects, 0, DatabaseDriver::MySql, "shop", true) {
        Ok(RowChoice::CollapseDatabase(message)) => {
            assert_eq!(message, "Database collapsed: shop.")
        }
        other => panic!("unexpected choice {other:?}"),
    }
    assert!(matches!(
        choose_schema_row(&objects, 0, DatabaseDriver::MySql, "shop", false),
        Ok(RowChoice::ExpandDatabase(_, _))
    ));
    assert!(matches!(
        choose_schema_row(&objects, 0, DatabaseDriver::Sqlite, "", false),
        Ok(RowChoice::Select)
    ));
    assert!(matches!(
        choose_schema_row(&objects, 1, DatabaseDriver::MySql, "shop", true),
        Ok(RowChoice::Select)
    ));
    assert!(matches!(
        choose_schema_row(&objects, 5, DatabaseDriver::MySql, "shop", true),
        Err(RowRefusal::Missing)
    ));
}

#[test]
fn schema_and_details_load_only_with_an_active_connection() {
    assert_eq!(schema_refresh_request(true, true).unwrap_err(), "Schema refresh is already running.");
    assert_eq!(
        schema_refresh_request(false, false).unwrap_err(),
        "No active connection. Connect a saved profile before refreshing schema."
    );
    assert_eq!(schema_refresh_request(false, true).unwrap(), "Refreshing schema...");

    let mysql = form(DatabaseDriver::MySql, "shop");
    assert_eq!(
        database_details_request(false, &mysql, "crm").unwrap_err(),
        "No active connection. Connect a saved profile before inspecting metadata."
    );
    let request = database_details_request(true, &mysql, "crm").unwrap();
    assert_eq!(request.form.database, "crm");
    assert_eq!(request.form.driver, DatabaseDriver::MySql);
    assert_eq!(request.status_message, "Loading database details for crm...");

    let sqlite = form(DatabaseDriver::Sqlite, "");
    let request = database_details_request(true, &sqlite, "SQLite database file").unwrap();
    assert_eq!(request.form.database, "");
    assert_eq!(request.form.driver, DatabaseDriver::Sqlite);

    assert_eq!(
        table_details_request(false, &mysql, "orders").unwrap_err(),
        "No active connection. Connect a saved profile before inspecting table metadata."
    );
    let request = table_details_request(true, &mysql, "orders").unwrap();
    assert_eq!(request.form.database, "shop");
    assert_eq!(request.status_message, "Loading table details for orders...");
}

#[test]
fn create_table_opens_form_without_sql_preview_navigation() {
    let mut manager = ConnectionManager::with_profiles(Vec::new());
    manager
        .save_current()
        .expect("default connection draft should save");
    manager.set_field(ConnectionField::Database, String::from("myapp_db"));
    let workspace = QueryWorkspace::default();

    let original_sql = workspace.sql().to_owned();
    let opened = create_table_request(manager.form());

    assert_eq!(opened.as_deref(), Ok("Create table form opened for database myapp_db."));
    assert_eq!(workspace.sql(), original_sql);
}

#[test]
fn metadata_inspector_contexts_are_mutually_exclusive() {
    let mut manager = ConnectionManager::with_profiles(Vec::new());
    manager
        .save_current()
        .expect("default connection draft should save");
    let connected = manager.selected_profile_id().is_some();
    let mut designer = TableDesigner::new(manager.form().driver);
    let mut inspector = Inspector::new();

    inspector
        .show_database(&mut designer, connected, manager.form(), "myapp_db")
        .expect("database details should load");
    assert_eq!(inspector.database_target.as_deref(), Some("myapp_db"));
    assert_eq!(inspector.table_target, None);
    assert!(designer.alter_table_draft.is_none());

    inspector
        .show_table(&mut designer, connected, manager.form(), "users")
        .expect("table details should load");
    assert_eq!(inspector.database_target, None);
    assert_eq!(inspector.table_target.as_deref(), Some("users"));

    inspector
        .show_database(&mut designer, connected, manager.form(), "myapp_db")
        .expect("database details should load");
    assert_eq!(inspector.database_target.as_deref(), Some("myapp_db"));
    assert_eq!(inspector.table_target, None);
    assert!(designer.alter_table_draft.is_none());
}

#[test]
fn inspector_hands_loaded_table_details_to_the_designer() {
    let form = form(DatabaseDriver::MySql, "shop");
    let mut designer = TableDesigner::new(DatabaseDriver::MySql);
    let mut inspector = Inspector::new();
    assert!(inspector.show_table(&mut designer, false, &form, "orders").is_err());
    assert_eq!(inspector.table_target, None);

    inspector.show_table(&mut designer, true, &form, "orders").unwrap();
    assert!(inspector.table_loading);
    let message = inspector.table_loaded(&mut designer, "orders", Err(vec![String::from("denied")]));
    assert_eq!(message, "Table detail load failed for orders: denied");
    assert!(!inspector.table_loading);
    assert!(designer.table_details.is_none());
    assert_eq!(inspector.table_target.as_deref(), Some("orders"));

    designer.alter_table_draft = Some(AlterTableDraft::new(String::from("orders"), String::new()));
    let details = fallback_table_details(&form, "orders");
    let statement = details.create_statement.clone();
    let message = inspector.table_loaded(&mut designer, "orders", Ok(details));
    assert_eq!(message, "Table details loaded for orders.");
    assert!(designer.table_details.is_some());
    assert_eq!(designer.alter_table_draft.as_ref().unwrap().create_statement, statement);
}

#[test]
fn create_database_submit_runs_directly_without_sql_preview_navigation() {
    let mut manager = ConnectionManager::with_profiles(Vec::new());
    manager
        .save_current()
        .expect("default connection draft should save");
    let workspace = QueryWorkspace::default();
    let original_sql = workspace.sql().to_owned();

    let outcome = database_action_step(DatabaseAction::CreateDatabase, manager.form());
    assert!(matches!(outcome.step, DatabaseStep::OpenCreateDatabase));
    let mut draft = Some(CreateDatabaseDraft::for_driver(manager.form().driver));
    set_create_database_field(
        &mut draft,
        manager.form().driver,
        CreateDatabaseField::Name,
        String::from("aktsql_direct_create_test"),
    );
    let change = submit_create_database(false, draft.as_ref(), manager.form(), true)
        .expect("the statement runs directly");

    assert!(change.sql.contains("aktsql_direct_create_test"));
    assert_eq!(workspace.sql(), original_sql);
    assert!(draft.is_some());
}
