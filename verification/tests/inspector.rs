use aktsql::connection::ConnectionForm;
use aktsql::connector::postgres_settings;
use aktsql::details::{
    database_details_source, fallback_database_details, fallback_table_details, json_escape,
    mongodb_table_details, mysql_database_details, mysql_table_database, postgres_column_detail,
    postgres_create_table_statement, postgres_table_details, sqlite_column_detail,
    sqlite_database_details, table_details_source, DatabaseDetailSection, DatabaseDetailSectionKind,
    DetailsSource, MongoCollectionFacts, PgColumnRow, SqliteDatabaseFacts,
};
use aktsql::driver::DatabaseDriver;
use aktsql::results::{
    mongodb_commands, query_run_sql, rows_page_target, sort_column, statement_result,
    table_rows_page_load, MongoCommandShape, ResultSortKey, TableRowsPage,
};
use aktsql::workspace::{
    expand_selected_database, postgres_table_ref, schema_columns_source, schema_source,
    sqlite_database_label, table_kind, SchemaObject, SchemaObjectKind,
};

fn section(sections: &[DatabaseDetailSection], kind: DatabaseDetailSectionKind) -> Vec<(String, String)> {
    sections
        .iter()
        .find(|section| section.kind == kind)
        .map(|section| section.fields.iter().map(|f| (f.label.clone(), f.value.clone())).collect())
        .unwrap_or_default()
}

fn value(sections: &[DatabaseDetailSection], kind: DatabaseDetailSectionKind, label: &str) -> String {
    section(sections, kind)
        .into_iter()
        .find(|(l, _)| l == label)
        .map(|(_, v)| v)
        .unwrap_or_default()
}

fn server_form(driver: DatabaseDriver) -> ConnectionForm {
    let mut form = ConnectionForm::for_driver(driver);
    form.location = String::from(" db.local ");
    form.port = String::from(" 5432 ");
    form.username = String::from("admin");
    form.timeout_seconds = String::from(" 15 ");
    form.notes = String::from("read replica");
    form
}

#[test]
fn fallback_details_show_what_the_form_tells() {
    let form = server_form(DatabaseDriver::Oracle);
    let details = fallback_database_details(&form, "sales");
    assert_eq!(details.database, "sales");
    assert_eq!(details.sections.len(), 2);
    assert_eq!(value(&details.sections, DatabaseDetailSectionKind::Core, "driver"), "Oracle");
    assert_eq!(value(&details.sections, DatabaseDetailSectionKind::Runtime, "host"), "db.local:5432");
    assert_eq!(value(&details.sections, DatabaseDetailSectionKind::Runtime, "timeout"), "15s");
    assert_eq!(value(&details.sections, DatabaseDetailSectionKind::Runtime, "notes"), "read replica");

    let table = fallback_table_details(&form, "orders");
    assert!(table.columns.is_empty());
    assert_eq!(table.create_statement, "Native driver metadata is not connected yet.");
    assert_eq!(value(&table.sections, DatabaseDetailSectionKind::Core, "mode"), "read-only fallback");
}

#[test]
fn detail_requests_need_a_name_and_a_valid_form() {
    let form = ConnectionForm::for_driver(DatabaseDriver::MySql);
    assert_eq!(
        database_details_source(&form, "  "),
        Err(vec![String::from("Database name is required.")])
    );
    assert_eq!(
        database_details_source(&form, " shop "),
        Ok((String::from("shop"), DetailsSource::MySql))
    );
    let sqlite = ConnectionForm::for_driver(DatabaseDriver::Sqlite);
    assert_eq!(database_details_source(&sqlite, ""), Ok((String::new(), DetailsSource::Sqlite)));
    assert_eq!(
        table_details_source(&form, ""),
        Err(vec![String::from("Table name is required.")])
    );
    let oracle = ConnectionForm::for_driver(DatabaseDriver::Oracle);
    assert_eq!(table_details_source(&oracle, "t"), Ok((String::from("t"), DetailsSource::Fallback)));
    let mut invalid = ConnectionForm::for_driver(DatabaseDriver::MySql);
    invalid.name = String::new();
    assert_eq!(
        table_details_source(&invalid, "t"),
        Err(vec![String::from("Profile name is required.")])
    );
}

#[test]
fn sqlite_database_details_read_the_file_facts() {
    let mut form = ConnectionForm::for_driver(DatabaseDriver::Sqlite);
    form.location = String::from(" /tmp/app.sqlite ");
    let facts = SqliteDatabaseFacts {
        file_size: Some(2048),
        read_only: Some(false),
        encoding: String::from("UTF-8"),
        journal_mode: String::from("wal"),
        page_size: 4096,
        page_count: -1,
        user_version: 3,
        tables: 2,
        views: 0,
        indexes: 1,
    };
    let details = sqlite_database_details(&form, " ", facts);
    assert_eq!(details.database, "/tmp/app.sqlite");
    assert_eq!(value(&details.sections, DatabaseDetailSectionKind::Core, "read only"), "false");
    assert_eq!(value(&details.sections, DatabaseDetailSectionKind::Storage, "file size"), "2.0 KiB");
    assert_eq!(value(&details.sections, DatabaseDetailSectionKind::Storage, "page count"), "-1");
    assert_eq!(value(&details.sections, DatabaseDetailSectionKind::Objects, "user version"), "3");
}

#[test]
fn mysql_database_details_fill_missing_counts() {
    let form = server_form(DatabaseDriver::MySql);
    let details = mysql_database_details(
        &form,
        String::from("shop"),
        String::from("utf8mb4"),
        String::from("utf8mb4_0900_ai_ci"),
        None,
        None,
    );
    assert_eq!(details.database, "shop");
    assert_eq!(value(&details.sections, DatabaseDetailSectionKind::Storage, "data + index size"), "0 B");
    assert_eq!(value(&details.sections, DatabaseDetailSectionKind::Objects, "base tables"), "0");
    assert_eq!(value(&details.sections, DatabaseDetailSectionKind::Core, "server"), "unknown");

    let details = mysql_database_details(
        &form,
        String::from("shop"),
        String::from("utf8mb4"),
        String::from("utf8mb4_0900_ai_ci"),
        Some((String::from("5"), String::from("4"), String::from("1"), String::from("1048576"))),
        Some((String::from("8.0.36"), String::from("MySQL Community"), String::from("STRICT"))),
    );
    assert_eq!(value(&details.sections, DatabaseDetailSectionKind::Storage, "data + index size"), "1.0 MiB");
    assert_eq!(value(&details.sections, DatabaseDetailSectionKind::Runtime, "sql mode"), "STRICT");
}

#[test]
fn mysql_tables_need_a_database() {
    let mut form = ConnectionForm::for_driver(DatabaseDriver::MySql);
    form.database = String::from("  ");
    assert_eq!(
        mysql_table_database(&form),
        Err(String::from("Select a database before describing a table."))
    );
    form.database = String::from(" shop ");
    assert_eq!(mysql_table_database(&form), Ok(String::from("shop")));
}

#[test]
fn table_columns_are_described_per_driver() {
    let column = sqlite_column_detail(String::from("id"), String::from("INTEGER"), 1, None, 2);
    assert_eq!(column.nullable, "NO");
    assert_eq!(column.extra, "hidden=2");
    let column = sqlite_column_detail(String::from("x"), String::from("TEXT"), 0, Some(String::from("'a'")), 0);
    assert_eq!(column.nullable, "YES");
    assert_eq!(column.default_value, "'a'");
    assert_eq!(column.extra, "");

    let column = postgres_column_detail(
        String::from("name"),
        String::from("character varying"),
        String::from("YES"),
        String::new(),
        String::from("64"),
    );
    assert_eq!(column.data_type, "character varying(64)");
}

#[test]
fn postgres_table_statement_is_rebuilt_from_columns() {
    let columns = vec![
        PgColumnRow {
            name: String::from("id"),
            data_type: String::from("bigint"),
            nullable: String::from("NO"),
            default_value: Some(String::from("nextval('users_id_seq')")),
        },
        PgColumnRow {
            name: String::from("note"),
            data_type: String::from("text"),
            nullable: String::from("YES"),
            default_value: Some(String::from("  ")),
        },
    ];
    assert_eq!(
        postgres_create_table_statement("public", "users", &columns),
        "CREATE TABLE \"public\".\"users\" (\n    \"id\" bigint DEFAULT nextval('users_id_seq') NOT NULL,\n    \"note\" text\n);"
    );

    let form = server_form(DatabaseDriver::PostgreSql);
    let details = postgres_table_details(
        &form,
        "public",
        "users",
        String::from("BASE TABLE"),
        Vec::new(),
        Vec::new(),
        None,
        String::new(),
    );
    assert_eq!(details.table, "public.users");
    assert_eq!(value(&details.sections, DatabaseDetailSectionKind::Storage, "total size"), "unknown");
}

#[test]
fn mongodb_collections_are_created_by_command() {
    assert_eq!(json_escape("a\"b\\c"), "a\\\"b\\\\c");
    let form = ConnectionForm::for_driver(DatabaseDriver::MongoDb);
    let facts = MongoCollectionFacts {
        documents: String::from("10"),
        size: String::from("1.0 KiB"),
        storage_size: String::from("4.0 KiB"),
        total_index_size: String::from("4.0 KiB"),
        avg_object_size: String::from("102"),
        nindexes: String::from("1"),
        capped: String::from("false"),
    };
    let details = mongodb_table_details(&form, "events", facts, Vec::new());
    assert_eq!(details.create_statement, "{ \"create\": \"events\" }");
    assert_eq!(value(&details.sections, DatabaseDetailSectionKind::Objects, "indexes"), "0");
}

fn object(kind: SchemaObjectKind, name: &str, depth: usize) -> SchemaObject {
    SchemaObject::new(kind, String::from(name), depth)
}

#[test]
fn selected_database_children_go_under_it() {
    let databases = vec![
        object(SchemaObjectKind::Database, "a", 0),
        object(SchemaObjectKind::Database, "shop", 0),
        object(SchemaObjectKind::Database, "z", 0),
    ];
    let children = vec![object(SchemaObjectKind::Table, "orders", 1)];
    let tree = expand_selected_database(databases, "shop", children);
    let names: Vec<&str> = tree.iter().map(|o| o.name.as_str()).collect();
    assert_eq!(names, vec!["a", "shop", "orders", "z"]);

    let databases = vec![object(SchemaObjectKind::Database, "a", 0)];
    let children = vec![object(SchemaObjectKind::Table, "orders", 1)];
    let tree = expand_selected_database(databases, "shop", children);
    let names: Vec<&str> = tree.iter().map(|o| o.name.as_str()).collect();
    assert_eq!(names, vec!["a", "shop", "orders"]);
    assert_eq!(tree[1].kind, SchemaObjectKind::Database);
}

#[test]
fn tree_names_are_read_from_metadata() {
    assert_eq!(
        postgres_table_ref(" public . users "),
        Some((String::from("public"), String::from("users")))
    );
    assert_eq!(postgres_table_ref("users"), None);
    assert_eq!(postgres_table_ref("public."), None);
    assert_eq!(
        postgres_table_ref("a.b.c"),
        Some((String::from("a"), String::from("b.c")))
    );
    assert_eq!(sqlite_database_label(" /data/app.sqlite "), "app.sqlite");
    assert_eq!(sqlite_database_label("/data/"), "main");
    assert_eq!(SchemaObjectKind::from_sqlite_type("view"), Some(SchemaObjectKind::View));
    assert_eq!(SchemaObjectKind::from_sqlite_type("trigger"), None);
    assert_eq!(table_kind("view"), SchemaObjectKind::View);
    assert_eq!(table_kind("BASE TABLE"), SchemaObjectKind::Table);
}

#[test]
fn schema_browsing_needs_a_live_inspector() {
    let oracle = ConnectionForm::for_driver(DatabaseDriver::Oracle);
    assert_eq!(
        schema_source(&oracle),
        Err(vec![String::from(
            "Oracle schema browsing needs a native driver dependency before it can inspect metadata."
        )])
    );
    let mongo = ConnectionForm::for_driver(DatabaseDriver::MongoDb);
    assert_eq!(schema_source(&mongo), Ok(DetailsSource::MongoDb));
    assert_eq!(schema_columns_source(&mongo), Ok(None));
    let pg = ConnectionForm::for_driver(DatabaseDriver::CockroachDb);
    assert_eq!(schema_columns_source(&pg), Ok(Some(DetailsSource::Postgres)));
}

#[test]
fn mongodb_commands_are_objects_or_arrays_of_objects() {
    assert_eq!(mongodb_commands(MongoCommandShape::Object(7)), Ok(vec![7]));
    assert_eq!(
        mongodb_commands(MongoCommandShape::Array(vec![Some(1), Some(2)])),
        Ok(vec![1, 2])
    );
    assert_eq!(
        mongodb_commands(MongoCommandShape::Array(vec![Some(1), None])),
        Err(String::from("MongoDB command arrays must contain JSON objects only."))
    );
    assert_eq!(
        mongodb_commands::<i32>(MongoCommandShape::Other),
        Err(String::from("MongoDB query must be a JSON object or object array."))
    );
}

#[test]
fn row_browser_pages_stay_in_range() {
    assert_eq!(rows_page_target(0, -1), 0);
    assert_eq!(rows_page_target(3, -1), 2);
    assert_eq!(rows_page_target(usize::MAX, 1), usize::MAX);

    let mut form = ConnectionForm::for_driver(DatabaseDriver::Sqlite);
    form.location = String::from("/tmp/app.sqlite");
    let page = TableRowsPage {
        table: String::from("users"),
        page: 1,
        page_size: 100,
        order_by: Vec::new(),
    };
    let load = table_rows_page_load(false, Some(&page), &form, 1).expect("next page should load");
    assert_eq!(load.page, 2);
    assert_eq!(load.status_message, "Loading rows 201-300 from users...");
    assert!(load.sql.contains("OFFSET 200"));
    assert_eq!(
        table_rows_page_load(true, Some(&page), &form, 1).err(),
        Some(String::from("Query is already running."))
    );
    assert_eq!(
        table_rows_page_load(false, None, &form, 1).err(),
        Some(String::from("No table row browser is active."))
    );
}

#[test]
fn sorting_needs_a_result_column() {
    let result = statement_result("SQLite", 1, 2);
    assert_eq!(
        sort_column(false, Some(&result), 0),
        Err(String::from("Sort column was not found in the result set."))
    );
    assert_eq!(
        sort_column(false, None, 0),
        Err(String::from("No result set is available for sorting."))
    );
    let keys = vec![ResultSortKey::new(0, String::from("id"))];
    assert_eq!(
        query_run_sql(false, false, DatabaseDriver::MySql, "select 1", &keys),
        Err(String::from("No active connection. Connect a saved profile before querying."))
    );
    assert!(query_run_sql(false, true, DatabaseDriver::MySql, "select id from t;", &keys)
        .expect("sorted query")
        .starts_with("SELECT * FROM (select id from t) AS aktsql_result"));
}

#[test]
fn postgres_settings_come_from_the_form() {
    let mut form = server_form(DatabaseDriver::PostgreSql);
    form.database = String::new();
    let settings = postgres_settings(&form).expect("port is a number");
    assert_eq!(settings.host, "db.local");
    assert_eq!(settings.port, 5432);
    assert_eq!(settings.dbname, "postgres");
    assert_eq!(settings.connect_timeout_secs, 15);
    form.port = String::from("70000");
    assert!(postgres_settings(&form).is_err());
}
