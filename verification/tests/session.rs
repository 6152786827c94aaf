use aktsql::connection::ConnectionForm;
use aktsql::drafts::{PendingSchemaDeletion, SchemaDeletionKind};
use aktsql::driver::DatabaseDriver;
use aktsql::results::statement_result;
use aktsql::schema_changes::{confirm_schema_delete, schema_delete_finished_message};
use aktsql::connection::ConnectionField;
use aktsql::profiles::{ConnectionManager, ConnectionProfile};
use aktsql::connector::ConnectionTestReport;
use aktsql::session::{
    new_connection_profile, select_connection_profile,
    confirm_delete_connection, DeletionOutcome,
    finish_connection_attempt, ConnectFinish,
    connect_current_profile, connecting_message, connection_failure_message,
    validation_issue_message, ConnectionTasks,
};
use aktsql::workspace::QueryExecutionOutcome;

#[test]
fn results_of_cancelled_attempts_are_ignored() {
    let mut tasks = ConnectionTasks::new();
    let token = tasks.start_test();
    assert!(tasks.testing);
    assert!(tasks.test_result_open);
    tasks.cancel_connection_activity();
    assert!(!tasks.testing);
    assert!(!tasks.finish_test(token));
    assert!(!tasks.testing);

    let token = tasks.start_connect();
    assert!(tasks.connecting);
    assert!(tasks.finish_connect(token));
    assert!(!tasks.connecting);
}

#[test]
fn tokens_wrap_at_the_end() {
    let mut tasks = ConnectionTasks::new();
    tasks.token = u64::MAX;
    assert_eq!(tasks.next_connection_task_token(), 0);
}

#[test]
fn connection_messages_name_the_target_and_issues() {
    let mut form = ConnectionForm::for_driver(DatabaseDriver::PostgreSql);
    form.location = String::from(" db.local ");
    form.port = String::from("5433");
    assert_eq!(connecting_message(&form), "Connecting PostgreSQL at db.local:5433...");
    let errors = vec![String::from("Port is required."), String::from("Charset is required.")];
    assert_eq!(validation_issue_message(&errors), "Connection profile has 2 validation issue(s).");
    assert_eq!(
        connection_failure_message(&errors),
        "Connection failed with 2 issue(s): Port is required. Charset is required."
    );
}

#[test]
fn drops_run_their_pending_statement() {
    let pending = PendingSchemaDeletion {
        kind: SchemaDeletionKind::Table,
        name: String::from("orders"),
        form: ConnectionForm::for_driver(DatabaseDriver::Sqlite),
        sql: String::from("DROP TABLE \"orders\";"),
    };
    let change = confirm_schema_delete(false, Some(&pending)).expect("pending drop");
    assert_eq!(change.sql, "DROP TABLE \"orders\";");
    assert_eq!(change.status_message, "Dropping table orders...");
    assert_eq!(
        confirm_schema_delete(false, None).err(),
        Some(String::from("No schema object is pending deletion."))
    );
    assert_eq!(
        confirm_schema_delete(true, Some(&pending)).err(),
        Some(String::from("Schema change is already running."))
    );
    let ok = QueryExecutionOutcome::Success(statement_result("SQLite", 0, 1));
    assert_eq!(
        schema_delete_finished_message("shop", SchemaDeletionKind::Database, &ok),
        "DROP DATABASE shop succeeded."
    );
    let failed = QueryExecutionOutcome::Failure(vec![String::from("locked")]);
    assert_eq!(
        schema_delete_finished_message("orders", SchemaDeletionKind::Table, &failed),
        "DROP orders failed: locked"
    );
}

fn saved_mysql() -> ConnectionManager {
    let mut form = ConnectionForm::for_driver(DatabaseDriver::MySql);
    form.name = String::from("Local MySQL");
    form.location = String::from("127.0.0.1");
    form.username = String::from("root");
    form.database = String::from("shop");
    let mut manager = ConnectionManager::with_profiles(vec![ConnectionProfile { id: 1, form }]);
    assert!(manager.select_profile(1));
    manager
}

#[test]
fn connecting_the_current_profile_starts_a_fresh_attempt() {
    let mut manager = saved_mysql();
    let mut tasks = ConnectionTasks::new();
    let attempt = connect_current_profile(&mut manager, &mut tasks).expect("valid profile");
    assert_eq!(attempt.token, 1);
    assert_eq!(attempt.form.name, manager.form().name);
    assert_eq!(attempt.form.database, "shop");
    assert_eq!(attempt.status_message, connecting_message(manager.form()));
    assert!(attempt.status_message.starts_with("Connecting MySQL at 127.0.0.1"));
    assert!(tasks.connecting);
    assert_eq!(tasks.token, 1);

    assert_eq!(
        connect_current_profile(&mut manager, &mut tasks).unwrap_err(),
        "Connection is already in progress."
    );
    assert_eq!(tasks.token, 1);
}

#[test]
fn connecting_an_invalid_form_reports_its_issues() {
    let mut manager = saved_mysql();
    manager.set_field(ConnectionField::Name, String::new());
    let mut tasks = ConnectionTasks::new();
    let message = connect_current_profile(&mut manager, &mut tasks).unwrap_err();
    assert!(!manager.validation_errors().is_empty());
    assert_eq!(message, validation_issue_message(manager.validation_errors()));
    assert!(!tasks.connecting);
    assert_eq!(tasks.token, 0);
}

#[test]
fn connection_success_opens_database_workspace_not_query_explorer() {
    let mut manager = ConnectionManager::with_profiles(Vec::new());
    manager
        .save_current()
        .expect("default connection draft should save");
    let mut tasks = ConnectionTasks::new();

    let report = ConnectionTestReport {
        driver: DatabaseDriver::MySql,
        target: String::from("127.0.0.1:3306"),
        elapsed_ms: 1,
    };

    let finish = finish_connection_attempt(&mut tasks, 0, &Ok(report));

    assert!(matches!(finish, ConnectFinish::Connected));
    assert!(!tasks.connecting);
}

#[test]
fn late_or_failed_connection_attempts() {
    let mut tasks = ConnectionTasks::new();
    let token = tasks.start_connect();
    let stale = finish_connection_attempt(&mut tasks, token.wrapping_sub(1), &Err(Vec::new()));
    assert!(matches!(stale, ConnectFinish::Stale));
    assert!(tasks.connecting);

    let errors = vec![String::from("refused"), String::from("retry")];
    match finish_connection_attempt(&mut tasks, token, &Err(errors)) {
        ConnectFinish::Failed(message) => {
            assert_eq!(message, "Connection failed with 2 issue(s): refused retry")
        }
        other => panic!("unexpected finish {other:?}"),
    }
    assert!(!tasks.connecting);
}

#[test]
fn confirming_a_profile_deletion_uses_up_the_request() {
    let mut manager = saved_mysql();
    let mut pending: Option<usize> = None;
    assert_eq!(
        confirm_delete_connection(&mut pending, &mut manager),
        DeletionOutcome::NothingPending
    );
    assert_eq!(manager.profiles().len(), 1);

    pending = Some(7);
    assert_eq!(
        confirm_delete_connection(&mut pending, &mut manager),
        DeletionOutcome::Confirmed { id: 7, was_selected: false, deleted: false }
    );
    assert_eq!(pending, None);
    assert_eq!(manager.selected_profile_id(), Some(1));

    pending = Some(1);
    assert_eq!(
        confirm_delete_connection(&mut pending, &mut manager),
        DeletionOutcome::Confirmed { id: 1, was_selected: true, deleted: true }
    );
    assert!(manager.profiles().is_empty());
    assert_eq!(manager.selected_profile_id(), None);
}

#[test]
fn selecting_a_profile_stops_activity_and_drops_a_pending_deletion() {
    let mut manager = saved_mysql();
    manager.new_profile();
    let mut tasks = ConnectionTasks::new();
    tasks.start_test();
    let mut pending = Some(1);

    assert_eq!(
        select_connection_profile(&mut manager, &mut tasks, &mut pending, 9).unwrap_err(),
        "Connection profile was not found."
    );
    assert_eq!(pending, Some(1));
    assert!(tasks.testing);

    assert_eq!(
        select_connection_profile(&mut manager, &mut tasks, &mut pending, 1).unwrap(),
        "Connection profile loaded."
    );
    assert_eq!(manager.selected_profile_id(), Some(1));
    assert_eq!(pending, None);
    assert!(!tasks.testing && !tasks.connecting && !tasks.test_result_open);
    assert_eq!(tasks.token, 2);
}

#[test]
fn new_connection_draft_leaves_saved_profiles_alone() {
    let mut manager = saved_mysql();
    let mut tasks = ConnectionTasks::new();
    let mut pending = Some(1);
    assert_eq!(
        new_connection_profile(&mut manager, &mut tasks, &mut pending),
        "New connection draft created."
    );
    assert_eq!(manager.selected_profile_id(), None);
    assert_eq!(manager.profiles().len(), 1);
    assert_eq!(pending, None);
    assert_eq!(tasks.token, 1);
}
