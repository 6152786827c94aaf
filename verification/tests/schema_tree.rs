use std::collections::BTreeSet;

use aktsql::results::{
    csv_export_message, is_status_value, pagination, result_csv, rows_page_loaded, QueryResult,
    TableRowsPage,
};
use aktsql::schema_tree::{find_field_parent, SchemaToggle, SchemaTree};
use aktsql::workspace::{
    shift_schema_indices_after, QueryWorkspace, SchemaLoadOutcome, SchemaObject, SchemaObjectKind,
};

fn object(kind: SchemaObjectKind, name: &str, depth: usize) -> SchemaObject {
    SchemaObject::new(kind, String::from(name), depth)
}

fn shop_workspace() -> QueryWorkspace {
    let mut workspace = QueryWorkspace::default();
    workspace.apply_schema_outcome(SchemaLoadOutcome::Success(vec![
        object(SchemaObjectKind::Database, "shop", 0),
        object(SchemaObjectKind::Table, "orders", 1),
        object(SchemaObjectKind::Table, "users", 1),
        object(SchemaObjectKind::Collection, "events", 1),
        object(SchemaObjectKind::Index, "orders_idx", 1),
    ]));
    workspace
}

fn names(workspace: &QueryWorkspace) -> Vec<String> {
    workspace
        .schema_objects()
        .iter()
        .map(|object| object.name.clone())
        .collect()
}

#[test]
fn shifting_tree_positions_moves_only_rows_after_the_parent() {
    let mut positions: BTreeSet<usize> = [0, 2, 3, 7].into_iter().collect();
    shift_schema_indices_after(&mut positions, 2, 3);
    assert_eq!(positions.into_iter().collect::<Vec<_>>(), vec![0, 2, 6, 10]);

    let mut unchanged: BTreeSet<usize> = [1, 4].into_iter().collect();
    shift_schema_indices_after(&mut unchanged, 0, 0);
    assert_eq!(unchanged.into_iter().collect::<Vec<_>>(), vec![1, 4]);
}

#[test]
fn field_parent_is_the_first_table_or_view_with_the_name() {
    let objects = vec![
        object(SchemaObjectKind::Database, "users", 0),
        object(SchemaObjectKind::Index, "users", 1),
        object(SchemaObjectKind::View, "users", 1),
        object(SchemaObjectKind::Table, "users", 1),
    ];
    assert_eq!(find_field_parent(&objects, "users"), Some(2));
    assert_eq!(find_field_parent(&objects, "orders"), None);
}

#[test]
fn toggling_a_table_opens_it_and_asks_for_its_fields_once() {
    let workspace = shop_workspace();
    let mut tree = SchemaTree::new();

    assert_eq!(
        tree.toggle_expanded(workspace.schema_objects(), 1),
        SchemaToggle::Expanded { load_fields: true }
    );
    assert!(tree.is_expanded(1));
    assert!(tree.is_loading("orders"));

    assert_eq!(tree.toggle_expanded(workspace.schema_objects(), 1), SchemaToggle::Collapsed);
    assert!(!tree.is_expanded(1));

    assert_eq!(
        tree.toggle_expanded(workspace.schema_objects(), 1),
        SchemaToggle::Expanded { load_fields: false }
    );
    assert!(tree.is_loading("orders"));
}

#[test]
fn toggling_other_rows_reports_why_nothing_opens() {
    let workspace = shop_workspace();
    let mut tree = SchemaTree::new();

    assert_eq!(tree.toggle_expanded(workspace.schema_objects(), 0), SchemaToggle::NotExpandable);
    assert_eq!(tree.toggle_expanded(workspace.schema_objects(), 4), SchemaToggle::NotExpandable);
    assert_eq!(tree.toggle_expanded(workspace.schema_objects(), 9), SchemaToggle::Missing);
    assert_eq!(
        tree.toggle_expanded(workspace.schema_objects(), 3),
        SchemaToggle::Expanded { load_fields: false }
    );
    assert!(!tree.is_loading("events"));
}

#[test]
fn object_menu_opens_and_closes_for_databases_and_tables() {
    let workspace = shop_workspace();
    let mut tree = SchemaTree::new();

    assert_eq!(
        tree.toggle_menu(workspace.schema_objects(), 0).as_deref(),
        Some("Object actions opened for shop.")
    );
    assert_eq!(tree.menu(), Some(0));
    tree.toggle_menu(workspace.schema_objects(), 0);
    assert_eq!(tree.menu(), None);

    assert_eq!(tree.toggle_menu(workspace.schema_objects(), 4), None);
    assert_eq!(tree.menu(), None);
    assert_eq!(
        tree.toggle_menu(workspace.schema_objects(), 12).as_deref(),
        Some("Schema object was not found.")
    );

    tree.toggle_menu(workspace.schema_objects(), 2);
    assert_eq!(tree.menu(), Some(2));
    tree.toggle_expanded(workspace.schema_objects(), 2);
    assert_eq!(tree.menu(), None);
}

#[test]
fn loaded_fields_go_under_their_open_table_and_later_rows_move_down() {
    let mut workspace = shop_workspace();
    let mut tree = SchemaTree::new();
    tree.toggle_expanded(workspace.schema_objects(), 1);
    tree.toggle_expanded(workspace.schema_objects(), 3);
    tree.toggle_menu(workspace.schema_objects(), 2);

    let fields = vec![
        object(SchemaObjectKind::Column, "id", 2),
        object(SchemaObjectKind::Column, "total", 2),
    ];
    let message = tree.fields_loaded(&mut workspace, "orders", Ok(fields));

    assert_eq!(message.as_deref(), Some("Loaded 2 field(s)."));
    assert_eq!(
        names(&workspace),
        vec!["shop", "orders", "id", "total", "users", "events", "orders_idx"]
    );
    assert!(tree.is_expanded(1));
    assert!(tree.is_expanded(5));
    assert!(!tree.is_expanded(3));
    assert_eq!(tree.menu(), Some(4));
    assert!(!tree.is_loading("orders"));

    let again = vec![object(SchemaObjectKind::Column, "id", 2)];
    assert_eq!(
        tree.fields_loaded(&mut workspace, "orders", Ok(again)).as_deref(),
        Some("Fields are already loaded.")
    );
    assert_eq!(workspace.schema_objects().len(), 7);
}

#[test]
fn failed_field_load_closes_the_row() {
    let mut workspace = shop_workspace();
    let mut tree = SchemaTree::new();
    tree.toggle_expanded(workspace.schema_objects(), 2);

    let message = tree.fields_loaded(
        &mut workspace,
        "users",
        Err(vec![String::from("timeout"), String::from("retry later")]),
    );
    assert_eq!(message.as_deref(), Some("Field loading failed: timeout retry later"));
    assert!(!tree.is_expanded(2));

    tree.toggle_expanded(workspace.schema_objects(), 2);
    assert_eq!(
        tree.fields_loaded(&mut workspace, "users", Err(Vec::new())).as_deref(),
        Some("Field loading failed.")
    );
}

#[test]
fn fields_for_a_closed_or_unknown_row_change_nothing() {
    let mut workspace = shop_workspace();
    let mut tree = SchemaTree::new();

    let fields = vec![object(SchemaObjectKind::Column, "id", 2)];
    assert_eq!(tree.fields_loaded(&mut workspace, "orders", Ok(fields)), None);
    assert_eq!(workspace.schema_objects().len(), 5);

    let fields = vec![object(SchemaObjectKind::Column, "id", 2)];
    assert_eq!(tree.fields_loaded(&mut workspace, "missing", Ok(fields)), None);
    assert_eq!(workspace.schema_objects().len(), 5);
}

#[test]
fn clearing_the_tree_forgets_rows_loads_and_menu() {
    let workspace = shop_workspace();
    let mut tree = SchemaTree::new();
    tree.toggle_expanded(workspace.schema_objects(), 1);
    tree.toggle_menu(workspace.schema_objects(), 0);
    tree.clear();
    assert!(!tree.is_expanded(1));
    assert!(!tree.is_loading("orders"));
    assert_eq!(tree.menu(), None);
}

fn result(columns: &[&str], rows: &[&[&str]]) -> QueryResult {
    QueryResult {
        columns: columns.iter().map(|c| c.to_string()).collect(),
        rows: rows
            .iter()
            .map(|row| row.iter().map(|v| v.to_string()).collect())
            .collect(),
        rows_affected: None,
        elapsed_ms: 3,
        message: String::from("ok"),
        truncated: false,
    }
}

#[test]
fn last_result_exports_as_csv_document() {
    let table = result(&["id", "note"], &[&["1", "plain"], &["2", "a, \"quoted\" value"]]);
    assert_eq!(
        result_csv(Some(&table)).unwrap(),
        "id,note\n1,plain\n2,\"a, \"\"quoted\"\" value\"\n"
    );
    assert_eq!(
        result_csv(None).unwrap_err(),
        "No result set is available for CSV export."
    );
    let statement = result(&[], &[]);
    assert_eq!(
        result_csv(Some(&statement)).unwrap_err(),
        "Current result has no tabular rows to export."
    );
}

#[test]
fn csv_export_messages_name_the_file_or_the_failure() {
    assert_eq!(
        csv_export_message("/tmp/out.csv", None),
        "CSV exported to /tmp/out.csv."
    );
    assert_eq!(
        csv_export_message("/tmp/out.csv", Some("disk full")),
        "CSV export failed: disk full"
    );
}

#[test]
fn status_values_are_recognised_in_any_case() {
    for value in ["ok", "DONE", "Ready", "active", "FAILED", "pending"] {
        assert!(is_status_value(value), "{value}");
    }
    for value in ["", "okay", "running", "pend", "fail"] {
        assert!(!is_status_value(value), "{value}");
    }
}

#[test]
fn pager_moves_back_past_the_first_page_and_forward_after_a_full_page() {
    let first = TableRowsPage {
        table: String::from("orders"),
        page: 0,
        page_size: 2,
        order_by: Vec::new(),
    };
    let full = result(&["id"], &[&["1"], &["2"]]);
    let pager = pagination(&first, Some(&full), false);
    assert_eq!(pager.label, "orders  page 1  rows/page 2");
    assert!(!pager.previous_enabled);
    assert!(pager.next_enabled);

    let third = TableRowsPage { page: 2, ..first };
    let short = result(&["id"], &[&["5"]]);
    let pager = pagination(&third, Some(&short), false);
    assert_eq!(pager.label, "orders  page 3  rows/page 2");
    assert!(pager.previous_enabled);
    assert!(!pager.next_enabled);

    let pager = pagination(&third, Some(&full), true);
    assert!(!pager.previous_enabled);
    assert!(!pager.next_enabled);
    assert!(!pagination(&third, None, false).next_enabled);
}

#[test]
fn arriving_rows_move_only_their_own_browser() {
    let mut current = Some(TableRowsPage {
        table: String::from("orders"),
        page: 0,
        page_size: 100,
        order_by: Vec::new(),
    });
    rows_page_loaded(&mut current, "users", 4);
    assert_eq!(current.as_ref().unwrap().page, 0);
    rows_page_loaded(&mut current, "orders", 2);
    assert_eq!(current.as_ref().unwrap().page, 2);

    let mut none: Option<TableRowsPage> = None;
    rows_page_loaded(&mut none, "orders", 2);
    assert!(none.is_none());
}
