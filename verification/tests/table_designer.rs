use aktsql::connection::ConnectionForm;
use aktsql::details::TableDetails;
use aktsql::drafts::{
    AlterTableDraft, AlterTableOperation, CreateTableDraft, CreateTableIndexDraft, TableColumnDetail,
};
use aktsql::driver::DatabaseDriver;
use aktsql::sql_alter_table::alter_table_statement;
use aktsql::table_designer::{
    AlterTableField, AlterTableTab, CreateTableColumnField, CreateTableField, CreateTableTab,
    TableDesigner,
};

fn column(name: &str, data_type: &str, nullable: &str, default_value: &str, extra: &str) -> TableColumnDetail {
    TableColumnDetail {
        name: String::from(name),
        data_type: String::from(data_type),
        nullable: String::from(nullable),
        default_value: String::from(default_value),
        extra: String::from(extra),
    }
}

fn details(table: &str, driver: DatabaseDriver, columns: Vec<TableColumnDetail>) -> TableDetails {
    TableDetails {
        table: String::from(table),
        driver,
        sections: Vec::new(),
        columns,
        indexes: Vec::new(),
        create_statement: String::new(),
    }
}

fn designer_for(table: &str, driver: DatabaseDriver, columns: Vec<TableColumnDetail>) -> TableDesigner {
    let mut designer = TableDesigner::new(driver);
    designer.alter_table_draft = Some(AlterTableDraft::new(String::from(table), String::new()));
    designer.table_details = Some(details(table, driver, columns));
    designer
}

fn users_columns() -> Vec<TableColumnDetail> {
    vec![
        column("id", "BIGINT", "NO", "", "AUTO_INCREMENT"),
        column("name", "VARCHAR(255)", "NO", "", ""),
        column("created_at", "TIMESTAMP", "NO", "CURRENT_TIMESTAMP", ""),
    ]
}

fn mysql_form() -> ConnectionForm {
    let mut form = ConnectionForm::for_driver(DatabaseDriver::MySql);
    form.database = String::from("myapp_db");
    form
}

#[test]
fn create_table_columns_move_with_arrow_actions() {
    let mut designer = TableDesigner::new(DatabaseDriver::MySql);
    designer.create_table_draft = Some(CreateTableDraft::for_driver(DatabaseDriver::MySql));

    designer.move_create_table_column(2, -1);
    let columns = &designer.create_table_draft.as_ref().expect("create table draft should stay open").columns;

    assert_eq!(columns[0].name, "id");
    assert_eq!(columns[1].name, "created_at");
    assert_eq!(columns[2].name, "name");
}

#[test]
fn create_table_columns_insert_after_row_and_index_selected_column() {
    let mut designer = TableDesigner::new(DatabaseDriver::MySql);
    designer.create_table_draft = Some(CreateTableDraft::for_driver(DatabaseDriver::MySql));

    designer.insert_create_table_column_after(0);
    designer.set_create_table_column_field(1, CreateTableColumnField::Name, String::from("tenant_id"));
    designer.add_create_table_index_for_column(1);

    let draft = designer.create_table_draft.as_ref().expect("create table draft should stay open");
    assert_eq!(draft.columns[1].name, "tenant_id");
    assert_eq!(draft.indexes.last().map(|index| index.columns.as_str()), Some("tenant_id"));
    assert_eq!(designer.create_table_tab, CreateTableTab::Indexes);
}

#[test]
fn alter_table_column_arrow_prepares_move_operation() {
    let mut designer = designer_for("users", DatabaseDriver::MySql, users_columns());

    designer.select_alter_table_column(2);
    designer.move_selected_alter_table_column(-1);
    let draft = designer.alter_table_draft.as_ref().expect("alter table draft should stay open");

    assert_eq!(draft.operation, AlterTableOperation::MoveColumn);
    assert_eq!(draft.column_name, "created_at");
    assert_eq!(draft.column_position, "AFTER");
    assert_eq!(draft.after_column, "id");
    assert_eq!(draft.column_type, "TIMESTAMP");
    assert!(draft.column_definition.contains("NOT NULL"));
    assert_eq!(draft.reordered_columns[0].name, "id");
    assert_eq!(draft.reordered_columns[1].name, "created_at");
    assert_eq!(draft.reordered_columns[2].name, "name");
}

#[test]
fn alter_table_add_column_appends_editable_grid_row() {
    let mut designer = designer_for("users", DatabaseDriver::MySql, vec![column("id", "BIGINT", "NO", "", "")]);

    designer.insert_alter_table_column_after_selection();
    designer.update_alter_table_column(1, CreateTableColumnField::Name, String::from("status"));
    designer.update_alter_table_column(1, CreateTableColumnField::DataType, String::from("VARCHAR(32)"));
    designer.update_alter_table_column(1, CreateTableColumnField::DefaultValue, String::from("active"));

    let draft = designer.alter_table_draft.as_ref().expect("alter table draft should stay open");
    assert_eq!(draft.operation, AlterTableOperation::AddColumn);
    assert_eq!(draft.column_name, "status");
    assert_eq!(draft.column_type, "VARCHAR(32)");
    assert!(draft.column_definition.contains("DEFAULT 'active'"));
    assert_eq!(draft.reordered_columns.len(), 2);

    let mut form = mysql_form();
    let sql = alter_table_statement(&mut form, draft).expect("add column statement should be generated from grid row");
    assert_eq!(sql, "ALTER TABLE `myapp_db`.`users` ADD COLUMN `status` VARCHAR(32) DEFAULT 'active';");
}

#[test]
fn alter_table_insert_column_after_selected_row_sets_position() {
    let mut designer = designer_for(
        "users",
        DatabaseDriver::MySql,
        vec![column("id", "BIGINT", "NO", "", ""), column("name", "VARCHAR(255)", "YES", "", "")],
    );

    designer.select_alter_table_column(0);
    designer.insert_alter_table_column_after_selection();
    designer.update_alter_table_column(1, CreateTableColumnField::Name, String::from("tenant_id"));

    let draft = designer.alter_table_draft.as_ref().expect("alter table draft should stay open");
    assert_eq!(draft.operation, AlterTableOperation::AddColumn);
    assert_eq!(draft.column_name, "tenant_id");
    assert_eq!(draft.column_position, "AFTER");
    assert_eq!(draft.after_column, "id");
    assert_eq!(draft.reordered_columns[1].name, "tenant_id");

    let mut form = mysql_form();
    let sql = alter_table_statement(&mut form, draft).expect("positioned add column statement should be generated");
    assert!(sql.contains("ADD COLUMN `tenant_id` VARCHAR(255)"));
    assert!(sql.contains("AFTER `id`"));
}

#[test]
fn alter_table_index_for_selected_column_prefills_index_form() {
    let mut designer = designer_for(
        "public.users",
        DatabaseDriver::PostgreSql,
        vec![column("email", "TEXT", "NO", "", "")],
    );

    designer.add_alter_table_index_for_selected(0);

    let draft = designer.alter_table_draft.as_ref().expect("alter table draft should stay open");
    assert_eq!(draft.operation, AlterTableOperation::AddIndex);
    assert_eq!(draft.index_columns, "email");
    assert_eq!(designer.alter_table_tab, AlterTableTab::Indexes);
}

#[test]
fn alter_table_pending_add_column_row_can_be_removed() {
    let mut designer = designer_for(
        "public.users",
        DatabaseDriver::PostgreSql,
        vec![column("id", "BIGINT", "NO", "", "")],
    );

    designer.insert_alter_table_column_after_selection();
    designer.remove_alter_table_column_row(1);

    let draft = designer.alter_table_draft.as_ref().expect("alter table draft should stay open");
    assert_eq!(draft.operation, AlterTableOperation::RenameColumn);
    assert_eq!(draft.reordered_columns.len(), 1);
}

#[test]
fn alter_table_column_arrows_move_again_from_current_draft_order() {
    let mut designer = designer_for(
        "users",
        DatabaseDriver::MySql,
        vec![
            column("id", "BIGINT", "NO", "", ""),
            column("name", "VARCHAR(255)", "YES", "", ""),
            column("created_at", "TIMESTAMP", "NO", "CURRENT_TIMESTAMP", ""),
        ],
    );

    designer.select_alter_table_column(2);
    designer.move_selected_alter_table_column(-1);
    designer.move_selected_alter_table_column(-1);

    let draft = designer.alter_table_draft.as_ref().expect("alter table draft should stay open");
    assert_eq!(draft.reordered_columns[0].name, "created_at");
    assert_eq!(draft.column_position, "FIRST");
}

#[test]
fn alter_table_tabs_keep_operations_self_consistent() {
    let mut designer = TableDesigner::new(DatabaseDriver::MySql);
    designer.alter_table_draft = Some(AlterTableDraft::new(String::from("users"), String::new()));

    designer.select_alter_table_tab(AlterTableTab::Indexes);
    assert_eq!(designer.alter_table_tab, AlterTableTab::Indexes);
    assert_eq!(
        designer.alter_table_draft.as_ref().map(|draft| draft.operation),
        Some(AlterTableOperation::AddIndex)
    );

    designer.select_alter_table_tab(AlterTableTab::Columns);
    assert_eq!(designer.alter_table_tab, AlterTableTab::Columns);
    assert_eq!(
        designer.alter_table_draft.as_ref().map(|draft| draft.operation),
        Some(AlterTableOperation::RenameColumn)
    );
}

#[test]
fn index_column_chip_actions_update_create_and_alter_drafts() {
    let mut designer = TableDesigner::new(DatabaseDriver::MySql);
    let mut create = CreateTableDraft::for_driver(DatabaseDriver::MySql);
    create.indexes.push(CreateTableIndexDraft::with_type("idx_new_table", "name", "BTREE"));
    designer.create_table_draft = Some(create);

    designer.append_create_table_index_column(0, "created_at");

    assert_eq!(
        designer
            .create_table_draft
            .as_ref()
            .and_then(|draft| draft.indexes.first())
            .map(|index| index.columns.as_str()),
        Some("name, created_at")
    );

    designer.alter_table_draft = Some(AlterTableDraft::new(
        String::from("users"),
        String::from("CREATE TABLE users (id INT);"),
    ));
    designer.toggle_alter_table_index_column("email");

    assert_eq!(designer.alter_table_draft.as_ref().map(|draft| draft.index_columns.as_str()), Some("email"));
    assert_eq!(
        designer.alter_table_draft.as_ref().map(|draft| draft.operation),
        Some(AlterTableOperation::AddIndex)
    );

    designer.toggle_alter_table_index_column("email");

    assert_eq!(designer.alter_table_draft.as_ref().map(|draft| draft.index_columns.as_str()), Some(""));
}

#[test]
fn designer_reports_loading_and_closed_states() {
    let mut designer = TableDesigner::new(DatabaseDriver::MySql);
    designer.alter_table_draft = Some(AlterTableDraft::new(String::from("users"), String::new()));
    designer.add_alter_table_column();
    assert_eq!(designer.status_message, "Table columns are still loading.");

    let mut closed = TableDesigner::new(DatabaseDriver::MySql);
    closed.table_details = Some(details("users", DatabaseDriver::MySql, users_columns()));
    closed.add_alter_table_column();
    assert_eq!(closed.status_message, "Table designer is not open.");
    closed.select_alter_table_tab(AlterTableTab::Indexes);
    assert_eq!(closed.alter_table_tab, AlterTableTab::Columns);

    let mut no_form = TableDesigner::new(DatabaseDriver::MySql);
    no_form.add_create_table_column();
    assert_eq!(no_form.status_message, "Create table form is not open.");
}

#[test]
fn moves_past_either_end_are_refused() {
    let mut designer = designer_for("users", DatabaseDriver::MySql, users_columns());
    designer.prepare_alter_table_column_move(0, -1);
    assert_eq!(designer.status_message, "Column is already first.");
    designer.prepare_alter_table_column_move(2, 1);
    assert_eq!(designer.status_message, "Column is already last.");
    designer.prepare_alter_table_column_move(7, 1);
    assert_eq!(designer.status_message, "Column row was not found.");
    assert_eq!(designer.alter_table_column_move_target(0, -1), None);
    assert_eq!(designer.alter_table_column_move_target(0, 1), Some(1));
    assert_eq!(designer.alter_table_column_move_target(2, 1), None);
}

#[test]
fn moving_down_then_up_restores_the_rows() {
    let mut designer = designer_for("users", DatabaseDriver::MySql, users_columns());
    designer.prepare_alter_table_column_move(0, 1);
    assert_eq!(designer.status_message, "MOVE COLUMN prepared for id. Apply to execute.");
    designer.prepare_alter_table_column_move(1, -1);
    let draft = designer.alter_table_draft.as_ref().unwrap();
    let names: Vec<&str> = draft.reordered_columns.iter().map(|c| c.name.as_str()).collect();
    assert_eq!(names, vec!["id", "name", "created_at"]);
    assert_eq!(draft.original_column_names, vec!["id", "name", "created_at"]);
    assert_eq!(draft.column_position, "FIRST");
}

#[test]
fn a_second_added_row_waits_for_the_first() {
    let mut designer = designer_for("users", DatabaseDriver::MySql, users_columns());
    designer.add_alter_table_column();
    assert_eq!(designer.status_message, "ADD COLUMN row added. Apply to execute.");
    let draft = designer.alter_table_draft.as_ref().unwrap();
    assert_eq!(draft.reordered_columns[3].name, "new_column");
    assert_eq!(draft.reordered_columns[3].data_type, "VARCHAR(255)");
    assert_eq!(draft.column_position, "LAST");

    designer.add_alter_table_column();
    assert_eq!(designer.status_message, "Finish the pending ADD COLUMN row before applying.");
    assert_eq!(designer.alter_table_draft.as_ref().unwrap().reordered_columns.len(), 4);

    designer.prepare_alter_table_column_move(0, 1);
    assert_eq!(designer.status_message, "Apply or remove the pending ADD COLUMN row before moving columns.");
    designer.add_alter_table_index_for_column(0);
    assert_eq!(designer.status_message, "Apply or remove the pending ADD COLUMN row before adding an index.");
    designer.update_alter_table_column(0, CreateTableColumnField::Name, String::from("key"));
    assert_eq!(
        designer.status_message,
        "Apply or remove the pending ADD COLUMN row before editing existing columns."
    );
}

#[test]
fn existing_rows_cannot_be_removed_and_only_rename() {
    let mut designer = designer_for("users", DatabaseDriver::MySql, users_columns());
    designer.remove_alter_table_column(1);
    assert_eq!(designer.status_message, "Only pending ADD COLUMN rows can be removed.");

    designer.update_alter_table_column(1, CreateTableColumnField::DataType, String::from("TEXT"));
    assert_eq!(
        designer.status_message,
        "This existing column attribute is read-only; rename and reorder are supported."
    );

    designer.update_alter_table_column(1, CreateTableColumnField::Name, String::from("ID"));
    let draft = designer.alter_table_draft.as_ref().unwrap();
    assert_eq!(draft.operation, AlterTableOperation::RenameColumn);
    assert_eq!(draft.column_name, "name");
    assert_eq!(draft.new_column_name, "ID");
    assert_eq!(designer.status_message, "Table structure draft updated. Apply to execute.");

    designer.update_alter_table_column(1, CreateTableColumnField::Name, String::from("full_name"));
    let draft = designer.alter_table_draft.as_ref().unwrap();
    assert_eq!(draft.operation, AlterTableOperation::AddColumn);
    assert_eq!(draft.column_name, "full_name");
}

#[test]
fn reverting_the_selected_row_restores_its_column() {
    let mut designer = designer_for("users", DatabaseDriver::MySql, users_columns());
    designer.update_alter_table_column(1, CreateTableColumnField::Name, String::from("ID"));
    designer.select_alter_table_column(1);
    designer.revert_selected_alter_table_change();
    assert_eq!(designer.status_message, "Selected column change reverted.");
    let draft = designer.alter_table_draft.as_ref().unwrap();
    assert_eq!(draft.reordered_columns[1].name, "name");
    assert_eq!(draft.operation, AlterTableOperation::RenameColumn);
    assert_eq!(draft.column_type, "VARCHAR(255)");
    assert_eq!(draft.column_position, "LAST");

    designer.add_alter_table_column();
    designer.select_alter_table_column(3);
    designer.revert_selected_alter_table_change();
    assert_eq!(designer.status_message, "Selected ADD COLUMN change reverted.");
    assert_eq!(designer.selected_alter_table_column, None);
    assert_eq!(designer.alter_table_draft.as_ref().unwrap().reordered_columns.len(), 3);

    designer.revert_selected_alter_table_change();
    assert_eq!(designer.status_message, "Select a column change before reverting.");
}

#[test]
fn reverting_a_prepared_index_clears_it() {
    let mut designer = designer_for("users", DatabaseDriver::MySql, users_columns());
    designer.add_alter_table_index_for_column(1);
    assert_eq!(designer.status_message, "INDEX prepared for name.");
    assert_eq!(designer.alter_table_draft.as_ref().unwrap().index_name, "idx_users_name");
    designer.revert_selected_alter_table_change();
    assert_eq!(designer.status_message, "Selected ADD INDEX change reverted.");
    let draft = designer.alter_table_draft.as_ref().unwrap();
    assert_eq!(draft.operation, AlterTableOperation::RenameColumn);
    assert_eq!(draft.index_name, "");
    assert_eq!(draft.index_columns, "");
}

#[test]
fn reverting_everything_restores_the_table() {
    let mut designer = designer_for("users", DatabaseDriver::MySql, users_columns());
    designer.select_alter_table_column(2);
    designer.move_selected_alter_table_column(-1);
    designer.set_alter_table_field(AlterTableField::ConstraintName, String::from("ck_x"));
    designer.revert_all_alter_table_changes();
    assert_eq!(designer.status_message, "All structure changes reverted.");
    assert_eq!(designer.selected_alter_table_column, None);
    assert_eq!(designer.alter_table_tab, AlterTableTab::Columns);
    let draft = designer.alter_table_draft.as_ref().unwrap();
    let names: Vec<&str> = draft.reordered_columns.iter().map(|c| c.name.as_str()).collect();
    assert_eq!(names, vec!["id", "name", "created_at"]);
    assert_eq!(draft.operation, AlterTableOperation::RenameColumn);
    assert_eq!(draft.constraint_name, "");
    assert_eq!(draft.constraint_kind, "PRIMARY KEY");
    assert_eq!(draft.index_type, "BTREE");
}

#[test]
fn constraints_tab_names_a_check_for_the_table() {
    let mut designer = designer_for("public.users", DatabaseDriver::PostgreSql, users_columns());
    designer.select_alter_table_tab(AlterTableTab::Constraints);
    let draft = designer.alter_table_draft.as_ref().unwrap();
    assert_eq!(draft.operation, AlterTableOperation::AddConstraint);
    assert_eq!(draft.constraint_name, "ck_public_users");
    assert_eq!(draft.constraint_kind, "PRIMARY KEY");

    designer.prepare_alter_table_index();
    let draft = designer.alter_table_draft.as_ref().unwrap();
    assert_eq!(draft.index_name, "idx_users_column");
    assert_eq!(designer.status_message, "ADD INDEX draft prepared.");
    designer.clear_alter_table_index();
    assert_eq!(designer.status_message, "ADD INDEX draft cleared.");
    assert_eq!(designer.alter_table_draft.as_ref().unwrap().operation, AlterTableOperation::AddIndex);
}

#[test]
fn create_table_form_edits_rows_and_fields() {
    let mut designer = TableDesigner::new(DatabaseDriver::MySql);
    designer.create_table_draft = Some(CreateTableDraft::for_driver(DatabaseDriver::MySql));
    designer.set_create_table_field(CreateTableField::Charset, String::from("latin1"));
    let draft = designer.create_table_draft.as_ref().unwrap();
    assert_eq!(draft.charset, "latin1");
    assert_eq!(draft.collation, "latin1_swedish_ci");

    designer.add_create_table_column();
    designer.add_create_table_constraint();
    designer.add_create_table_index();
    let draft = designer.create_table_draft.as_ref().unwrap();
    assert_eq!(draft.columns.last().unwrap().name, "new_column");
    assert_eq!(draft.constraints.last().unwrap().expression, "new_column is not null");
    assert_eq!(draft.indexes.last().unwrap().name, "idx_new_table_column");

    designer.remove_create_table_column(99);
    designer.set_create_table_column_field(99, CreateTableColumnField::Name, String::from("x"));
    assert_eq!(designer.status_message, "Column row was not found.");
    designer.cancel_create_table();
    assert!(designer.create_table_draft.is_none());
    assert_eq!(designer.status_message, "Create table cancelled.");
}
