use aktsql::connection::ConnectionForm;
use aktsql::driver::DatabaseDriver;
use aktsql::mongo_command::parse_mongodb_commands;
use aktsql::navigation::{Language, QuickAction, Section, ThemeMode};
use aktsql::results::{
    column_label, csv_row, mongodb_batch_result, ordered_query_sql, push_result_row,
    query_engine, select_rows_statement, split_postgres_table, split_sql_statements,
    statement_result, tabular_result, toggle_order_key, QueryEngine, ResultSortKey,
    SortDirection, MAX_RESULT_ROWS,
};
use aktsql::workspace::{
    query_tree_marker, QueryExecutionOutcome, QueryWorkspace, SchemaLoadOutcome, SchemaObject,
    SchemaObjectKind,
};

#[test]
fn table_row_browser_uses_limit_offset_without_editor_preview() {
    let mut form = ConnectionForm::for_driver(DatabaseDriver::MySql);
    form.database = String::from("myapp_db");

    let sql = select_rows_statement(&mut form, "users", 2, 100, &Vec::new())
        .expect("select rows statement should be generated");

    assert_eq!(
        sql,
        "SELECT * FROM `myapp_db`.`users` LIMIT 100 OFFSET 200;"
    );
}

#[test]
fn table_row_browser_orders_before_limit_offset() {
    let mut form = ConnectionForm::for_driver(DatabaseDriver::MySql);
    form.database = String::from("myapp_db");
    let order_by = vec![
        ResultSortKey::new(0, String::from("id")),
        ResultSortKey {
            column_index: 1,
            column_name: String::from("name"),
            direction: SortDirection::Asc,
        },
    ];

    let sql = select_rows_statement(&mut form, "users", 2, 100, &order_by)
        .expect("select rows statement should be generated");

    assert_eq!(
        sql,
        "SELECT * FROM `myapp_db`.`users` ORDER BY `id` DESC, `name` ASC LIMIT 100 OFFSET 200;"
    );
}

#[test]
fn ad_hoc_query_sort_wraps_original_select() {
    let order_by = vec![ResultSortKey::new(0, String::from("created_at"))];

    let sql = ordered_query_sql(
        DatabaseDriver::PostgreSql,
        "select id, created_at from public.users;",
        &order_by,
    )
    .expect("ordered query should be generated");

    assert_eq!(
        sql,
        "SELECT * FROM (select id, created_at from public.users) AS aktsql_result ORDER BY \"created_at\" DESC;"
    );
}

#[test]
fn mongodb_table_row_browser_uses_find_skip_limit() {
    let mut form = ConnectionForm::for_driver(DatabaseDriver::MongoDb);
    let order_by = vec![ResultSortKey::new(0, String::from("created_at"))];
    let sql = select_rows_statement(&mut form, "users", 1, 100, &order_by)
        .expect("mongodb find command should be generated");

    assert!(sql.contains("\"find\":\"users\""));
    assert!(sql.contains("\"sort\":{\"created_at\":-1}"));
    assert!(sql.contains("\"limit\":100"));
    assert!(sql.contains("\"skip\":100"));
}

#[test]
fn sql_server_pages_need_an_order() {
    let mut form = ConnectionForm::for_driver(DatabaseDriver::SqlServer);
    let sql = select_rows_statement(&mut form, "dbo.users", 0, 50, &Vec::new()).expect("page");
    assert_eq!(
        sql,
        "SELECT * FROM [dbo].[users] ORDER BY (SELECT NULL) OFFSET 0 ROWS FETCH NEXT 50 ROWS ONLY;"
    );
    let huge = select_rows_statement(&mut form, "t", usize::MAX, 2, &Vec::new()).expect("page");
    assert!(huge.contains(&format!("OFFSET {} ROWS", usize::MAX)));
    assert_eq!(
        select_rows_statement(&mut form, " ", 0, 50, &Vec::new()),
        Err(String::from("Table name is required."))
    );
}

#[test]
fn ordered_queries_need_text_and_keys() {
    let keys = vec![ResultSortKey::new(1, String::from("n"))];
    assert_eq!(
        ordered_query_sql(DatabaseDriver::MySql, " ; ", &keys),
        Err(String::from("Query is empty."))
    );
    assert_eq!(
        ordered_query_sql(DatabaseDriver::MySql, "select 1;", &Vec::new()),
        Ok(String::from("select 1;"))
    );
    assert!(ordered_query_sql(DatabaseDriver::MongoDb, "{}", &keys).is_err());
    assert_eq!(
        ordered_query_sql(DatabaseDriver::Oracle, "select n from t", &keys),
        Ok(String::from("SELECT * FROM (select n from t) aktsql_result ORDER BY \"n\" DESC;"))
    );
}

#[test]
fn sort_keys_cycle_through_descending_ascending_and_off() {
    let mut keys = vec![ResultSortKey::new(3, String::from("id"))];
    toggle_order_key(&mut keys, 5, String::from("name"));
    assert_eq!(keys.len(), 2);
    assert_eq!(keys[1].direction, SortDirection::Desc);
    toggle_order_key(&mut keys, 5, String::from("name"));
    assert_eq!(keys[1].direction, SortDirection::Asc);
    toggle_order_key(&mut keys, 5, String::from("name"));
    assert_eq!(keys.len(), 1);
    assert_eq!(keys[0].column_index, 3);
}

#[test]
fn statements_split_at_semicolons() {
    assert_eq!(
        split_sql_statements(" select 1; ; select 2 ;"),
        vec![String::from("select 1"), String::from("select 2")]
    );
}

#[test]
fn result_messages() {
    let r = statement_result("SQLite", 3, 12);
    assert_eq!(r.message, "SQLite statement executed. 3 row(s) affected.");
    assert_eq!(r.row_count(), 3);
    let t = tabular_result("MySQL", vec![String::from("a")], vec![vec![String::from("1")]], true, 9);
    assert_eq!(t.message, "MySQL query returned 1 row(s) in 9 ms; display capped at 200.");
    assert_eq!(t.row_count(), 1);
}

#[test]
fn result_rows_stop_at_the_cap() {
    let mut rows: Vec<Vec<String>> = Vec::new();
    for _ in 0..MAX_RESULT_ROWS {
        assert!(push_result_row(&mut rows, vec![String::from("x")]));
    }
    assert!(!push_result_row(&mut rows, vec![String::from("y")]));
    assert_eq!(rows.len(), MAX_RESULT_ROWS);
}

#[test]
fn mongodb_batches_fill_missing_fields() {
    let batch = vec![
        Some(vec![(String::from("a"), String::from("1"))]),
        None,
        Some(vec![
            (String::from("b"), String::from("2")),
            (String::from("a"), String::from("3")),
        ]),
    ];
    let r = mongodb_batch_result(&batch, 4);
    assert_eq!(r.columns, vec![String::from("a"), String::from("b")]);
    assert_eq!(
        r.rows,
        vec![
            vec![String::from("1"), String::from("NULL")],
            vec![String::from("3"), String::from("2")],
        ]
    );
    assert_eq!(r.message, "MongoDB query returned 2 row(s) in 4 ms.");
}

#[test]
fn labels_and_csv() {
    assert_eq!(column_label("id", " INTEGER "), "id : INTEGER");
    assert_eq!(column_label("id", ""), "id");
    assert_eq!(
        csv_row(&vec![String::from("a,b"), String::from("say \"hi\""), String::from("plain")]),
        "\"a,b\",\"say \"\"hi\"\"\",plain\n"
    );
    assert_eq!(
        split_postgres_table("sales.orders.v2"),
        (String::from("sales"), String::from("orders.v2"))
    );
    assert_eq!(
        split_postgres_table("orders"),
        (String::from("public"), String::from("orders"))
    );
}

#[test]
fn queries_need_text_a_valid_form_and_an_engine() {
    let form = ConnectionForm::for_driver(DatabaseDriver::Sqlite);
    assert_eq!(query_engine(&form, "select 1"), Ok(QueryEngine::Sqlite));
    assert_eq!(
        query_engine(&form, "   "),
        Err(vec![String::from("SQL is required.")])
    );
    let oracle = ConnectionForm::for_driver(DatabaseDriver::Oracle);
    let errors = query_engine(&oracle, "select 1 from dual").expect_err("no engine");
    assert!(errors[0].starts_with("Oracle query execution needs a native driver"));
}

#[test]
fn workspace_records_outcomes() {
    let mut workspace = QueryWorkspace::default();
    assert_eq!(workspace.sql(), "select 1 as ok;");
    assert_eq!(workspace.schema_message(), "Schema not loaded.");
    let summary = workspace.apply_execution_outcome(QueryExecutionOutcome::Failure(vec![
        String::from("a"),
        String::from("b"),
    ]));
    assert_eq!(summary.status_message, "Query failed with 2 issue(s).");
    assert_eq!(summary.row_count, 0);
    let summary = workspace.apply_execution_outcome(QueryExecutionOutcome::Success(statement_result("SQLite", 4, 1)));
    assert_eq!(summary.row_count, 4);
    assert_eq!(workspace.messages(), &vec![String::from("SQLite statement executed. 4 row(s) affected.")]);

    let objects = vec![SchemaObject::new(SchemaObjectKind::Database, String::from("db"), 0)];
    let summary = workspace.apply_schema_outcome(SchemaLoadOutcome::Success(objects));
    assert_eq!(summary.status_message, "Loaded 1 schema object(s).");
    let children = vec![SchemaObject::new(SchemaObjectKind::Table, String::from("t"), 1)];
    assert_eq!(workspace.insert_schema_children(0, children), 1);
    assert!(workspace.schema_object_has_children(0));
    let again = vec![SchemaObject::new(SchemaObjectKind::Table, String::from("t"), 1)];
    assert_eq!(workspace.insert_schema_children(0, again), 0);
    assert_eq!(workspace.schema_objects().len(), 2);

    let summary = workspace.apply_schema_outcome(SchemaLoadOutcome::Failure(vec![
        String::from("no"),
        String::from("access"),
    ]));
    assert_eq!(summary.status_message, "Schema refresh failed with 2 issue(s).");
    assert_eq!(workspace.schema_message(), "no access");
    assert!(workspace.schema_objects().is_empty());
}

#[test]
fn navigation_labels() {
    assert_eq!(Section::QueryExplorer.label(), "Query Explorer");
    assert_eq!(QuickAction::RefreshData.label(), "Refresh");
    assert_eq!(QuickAction::primary().len(), 5);
    assert_eq!(Language::ZhCn.local_label(), "中文");
    assert_eq!(Language::all()[1].label(), "French");
    assert_eq!(ThemeMode::Dark.toggle(), ThemeMode::Light);
    assert_eq!(ThemeMode::Dark.toggle().toggle(), ThemeMode::Dark);
    assert_eq!(query_tree_marker(SchemaObjectKind::Column, true, true), "-");
    assert_eq!(query_tree_marker(SchemaObjectKind::Table, false, true), "v");
}

#[test]
fn mongodb_query_requires_json_object() {
    assert!(parse_mongodb_commands("{ \"ping\": 1 }").is_ok());
    assert!(parse_mongodb_commands("[{ \"ping\": 1 }, { \"buildInfo\": 1 }]").is_ok());
    assert!(parse_mongodb_commands("[1, 2, 3]").is_err());
}

#[test]
fn mongodb_command_text_refusals_name_their_reason() {
    let commands = parse_mongodb_commands("[{ \"ping\": 1 }, { \"buildInfo\": 1 }]").unwrap();
    assert_eq!(commands.len(), 2);
    assert!(commands[0].contains_key("ping"));
    assert!(commands[1].contains_key("buildInfo"));

    assert_eq!(
        parse_mongodb_commands("[{ \"ping\": 1 }, 2]").unwrap_err(),
        "MongoDB command arrays must contain JSON objects only."
    );
    assert_eq!(
        parse_mongodb_commands("42").unwrap_err(),
        "MongoDB query must be a JSON object or object array."
    );
    assert!(parse_mongodb_commands("{ ping")
        .unwrap_err()
        .starts_with("MongoDB query must be a JSON command document or array: "));
}

#[test]
fn mongodb_command_text_gives_one_command_per_object() {
    assert_eq!(parse_mongodb_commands("{ \"ping\": 1 }").unwrap().len(), 1);
    assert_eq!(
        parse_mongodb_commands("[{ \"ping\": 1 }, { \"buildInfo\": 1 }, { \"hello\": 1 }]")
            .unwrap()
            .len(),
        3
    );
    assert_eq!(parse_mongodb_commands("[]").unwrap().len(), 0);
}
