use aktsql::designer::{
    index_name_for_column, insert_create_table_column, is_pending_alter_table_column,
    move_vec_item, next_alter_table_column_name, pending_alter_table_column_index,
    sanitize_identifier_part, sync_alter_table_add_column,
};
use aktsql::drafts::{AlterTableDraft, AlterTableOperation, CreateTableDraft, TableColumnDetail};
use aktsql::driver::DatabaseDriver;

fn detail(name: &str, data_type: &str) -> TableColumnDetail {
    TableColumnDetail {
        name: String::from(name),
        data_type: String::from(data_type),
        nullable: String::from("YES"),
        default_value: String::new(),
        extra: String::new(),
    }
}

#[test]
fn rows_swap_with_the_row_they_land_on() {
    let mut rows = vec![1, 2, 3, 4];
    move_vec_item(&mut rows, 0, 2);
    assert_eq!(rows, vec![3, 2, 1, 4]);
    move_vec_item(&mut rows, 3, -10);
    assert_eq!(rows, vec![4, 2, 1, 3]);
    move_vec_item(&mut rows, 2, 100);
    assert_eq!(rows, vec![4, 2, 3, 1]);
    move_vec_item(&mut rows, 9, 1);
    assert_eq!(rows, vec![4, 2, 3, 1]);
    move_vec_item(&mut rows, 1, 1);
    move_vec_item(&mut rows, 2, -1);
    assert_eq!(rows, vec![4, 2, 3, 1]);
}

#[test]
fn index_names_are_sanitized() {
    assert_eq!(sanitize_identifier_part("  User Name!! "), "user_name");
    assert_eq!(sanitize_identifier_part("!!!"), "column");
    assert_eq!(
        index_name_for_column("\"public\".\"Users\"", "Created At"),
        "idx_users_created_at"
    );
}

#[test]
fn new_column_names_avoid_existing_ones() {
    assert_eq!(next_alter_table_column_name(&vec![detail("id", "INT")]), "new_column");
    assert_eq!(
        next_alter_table_column_name(&vec![detail("NEW_COLUMN", "INT"), detail("new_column_2", "INT")]),
        "new_column_3"
    );
}

#[test]
fn inserted_create_columns_get_driver_types() {
    let mut draft = CreateTableDraft::for_driver(DatabaseDriver::SqlServer);
    insert_create_table_column(&mut draft, 1, DatabaseDriver::SqlServer);
    assert_eq!(draft.columns.len(), 4);
    assert_eq!(draft.columns[1].name, "new_column");
    assert_eq!(draft.columns[1].data_type, "NVARCHAR(255)");
    insert_create_table_column(&mut draft, 99, DatabaseDriver::SqlServer);
    assert_eq!(draft.columns[4].name, "new_column_2");
}

#[test]
fn added_columns_are_placed_after_their_neighbour() {
    let mut draft = AlterTableDraft::new(String::from("users"), String::new());
    draft.original_column_names = vec![String::from("id"), String::from("name")];
    draft.reordered_columns = vec![detail("id", "INT"), detail("tenant", "TEXT"), detail("name", "TEXT")];
    assert!(is_pending_alter_table_column(&draft, 1));
    assert!(!is_pending_alter_table_column(&draft, 0));
    assert_eq!(pending_alter_table_column_index(&draft), Some(1));

    sync_alter_table_add_column(&mut draft, 1);
    assert_eq!(draft.operation, AlterTableOperation::AddColumn);
    assert_eq!(draft.column_name, "tenant");
    assert_eq!(draft.column_position, "AFTER");
    assert_eq!(draft.after_column, "id");

    sync_alter_table_add_column(&mut draft, 0);
    assert_eq!(draft.column_position, "FIRST");
    assert_eq!(draft.after_column, "");
}
