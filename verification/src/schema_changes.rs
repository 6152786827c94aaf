//! Submitting the schema forms: the checks a form passes before its
//! statement runs, the statement with the connection it runs on, and the
//! messages shown while it runs and when it finishes.
use vstd::prelude::*;
use crate::connection::ConnectionForm;
use crate::drafts::{
    AlterTableDraft, CreateDatabaseDraft, CreateTableDraft, PendingSchemaDeletion, SchemaDeletionKind,
};
use crate::driver::DatabaseDriver;
use crate::navigation::DatabaseEditField;
use crate::sql_alter_table::{alter_table_sql, alter_table_statement};
use crate::sql_create_table::{create_table_sql, create_table_statement, same_but_database};
use crate::sql_database::{
    alter_charset_result, alter_database_charset_statement, create_database_command,
    create_database_command_sql, database_after_rename, rename_database_result,
    rename_database_statement, rename_table_result, rename_table_statement, };
use crate::text::{decimal, is_empty_text, join, join_strings, owned, str_eq, trim, trim_str, u128_to_decimal, views};
use crate::workspace::{QueryExecutionOutcome, SchemaObject, SchemaObjectKind};

verus! {

/// The form that renames a database.
#[derive(Debug)]
pub struct RenameDatabaseDraft {
    pub database: String,
    pub new_name: String,
}

impl RenameDatabaseDraft {
    /// A rename of `database`, starting from its current name.
    pub fn new(database: String) -> (r: Self)
        ensures
            r.database == database,
            r.new_name == database,
    {
        let new_name = database.clone();
        RenameDatabaseDraft { database, new_name }
    }
}

/// The form that changes a database's charset and collation.
#[derive(Debug)]
pub struct AlterDatabaseCharsetDraft {
    pub database: String,
    pub charset: String,
    pub collation: String,
}

impl AlterDatabaseCharsetDraft {
    /// A change of `database`, starting from the connection's charset and
    /// collation.
    pub fn for_form(form: &ConnectionForm, database: String) -> (r: Self)
        ensures
            r.database == database,
            r.charset == form.charset,
            r.collation == form.collation,
    {
        AlterDatabaseCharsetDraft {
            database,
            charset: form.charset.clone(),
            collation: form.collation.clone(),
        }
    }
}

/// The form that renames a table.
#[derive(Debug)]
pub struct RenameTableDraft {
    pub table: String,
    pub new_name: String,
}

impl RenameTableDraft {
    /// A rename of `table`, starting from its current name.
    pub fn new(table: String) -> (r: Self)
        ensures
            r.table == table,
            r.new_name == table,
    {
        let new_name = table.clone();
        RenameTableDraft { table, new_name }
    }
}

/// A schema change ready to run: the statement, the connection it runs on
/// and the message shown meanwhile.
#[derive(Debug)]
pub struct SchemaChange {
    pub form: ConnectionForm,
    pub sql: String,
    pub status_message: String,
}

/// The checks that come first for every form: no change may be running and
/// the form must be open.
pub open spec fn gate<T>(running: bool, draft: Option<T>, closed: Seq<char>) -> Option<Seq<char>> {
    if running {
        Some("Schema change is already running."@)
    } else if draft is None {
        Some(closed)
    } else {
        None
    }
}

/// One schema change at a time, and only from an open form: the first checks
/// of every submission let it through exactly when no change is running and
/// the form is open; while a change runs, every submission is refused as
/// already running, whatever the form holds.
pub proof fn one_schema_change_at_a_time<T>(running: bool, draft: Option<T>, closed: Seq<char>)
    ensures
        gate(running, draft, closed) is None <==> (!running && draft is Some),
        running ==> gate(running, draft, closed) == Some("Schema change is already running."@),
        !running && draft is None ==> gate(running, draft, closed) == Some(closed),
{
}

/// Submits the create-table form: its name is needed, then the statement
/// for the connection's driver; it runs as `create_table_statement` leaves
/// the connection.
pub fn submit_create_table(running: bool, draft: Option<&CreateTableDraft>, form: &ConnectionForm) -> (r:
    Result<SchemaChange, String>)
    ensures
        match gate(running, draft, "Create table form is not open."@) {
            Some(m) => r matches Err(e) && e@ == m,
            None => {
                let d = *draft->0;
                let name = trim(d.name@);
                if name.len() == 0 {
                    r matches Err(e) && e@ == "Table name is required."@
                } else {
                    match create_table_sql(form.driver, form.database@, d) {
                        Ok(sql) => r matches Ok(c) && c.sql@ == sql && same_but_database(*form, c.form)
                            && c.form.database@ == (if form.driver == DatabaseDriver::MongoDb {
                            trim(form.database@)
                        } else {
                            form.database@
                        }) && c.status_message@ == "Creating table "@ + name + "..."@,
                        Err(m) => r matches Err(e) && e@ == m,
                    }
                }
            },
        },
{
    if running {
        return Err(owned("Schema change is already running."));
    }
    let d = match draft {
        Some(d) => d,
        None => {
            return Err(owned("Create table form is not open."));
        },
    };
    let table = trim_str(d.name.as_str());
    if is_empty_text(table) {
        return Err(owned("Table name is required."));
    }
    let mut f = form.clone();
    let sql = match create_table_statement(&mut f, d) {
        Ok(sql) => sql,
        Err(e) => {
            return Err(e);
        },
    };
    let mut m = owned("Creating table ");
    m.append(table);
    m.append("...");
    Ok(SchemaChange { form: f, sql, status_message: m })
}

/// Submits the table designer: the statement of its change, on the
/// connection as it is.
pub fn submit_alter_table(running: bool, draft: Option<&AlterTableDraft>, form: &ConnectionForm) -> (r:
    Result<SchemaChange, String>)
    ensures
        match gate(running, draft, "Table designer is not open."@) {
            Some(m) => r matches Err(e) && e@ == m,
            None => {
                let d = *draft->0;
                match alter_table_sql(form.driver, form.database@, d) {
                    Ok(sql) => r matches Ok(c) && c.sql@ == sql && c.form == *form && c.status_message@
                        == "Applying structure change to "@ + d.table@ + "..."@,
                    Err(m) => r matches Err(e) && e@ == m,
                }
            },
        },
{
    if running {
        return Err(owned("Schema change is already running."));
    }
    let d = match draft {
        Some(d) => d,
        None => {
            return Err(owned("Table designer is not open."));
        },
    };
    let mut f = form.clone();
    let sql = match alter_table_statement(&mut f, d) {
        Ok(sql) => sql,
        Err(e) => {
            return Err(e);
        },
    };
    let mut m = owned("Applying structure change to ");
    m.append(d.table.as_str());
    m.append("...");
    Ok(SchemaChange { form: f, sql, status_message: m })
}

/// Why a rename from `old` to `new` is refused before any statement, if it
/// is: the new name is blank (`required`) or the same (`different`).
pub open spec fn rename_refusal(
    old: Seq<char>,
    new: Seq<char>,
    required: Seq<char>,
    different: Seq<char>,
) -> Option<Seq<char>> {
    if trim(new).len() == 0 {
        Some(required)
    } else if trim(old) == trim(new) {
        Some(different)
    } else {
        None
    }
}

/// Submits the rename-table form: a new, different name, then the
/// statement for the driver.
pub fn submit_rename_table(running: bool, draft: Option<&RenameTableDraft>, form: &ConnectionForm) -> (r:
    Result<SchemaChange, String>)
    ensures
        match gate(running, draft, "Rename table form is not open."@) {
            Some(m) => r matches Err(e) && e@ == m,
            None => {
                let d = *draft->0;
                let old = trim(d.table@);
                let new = trim(d.new_name@);
                match rename_refusal(
                    d.table@,
                    d.new_name@,
                    "New table name is required."@,
                    "New table name must be different."@,
                ) {
                    Some(m) => r matches Err(e) && e@ == m,
                    None => match rename_table_result(form.driver, form.database@, old, new) {
                        Ok(sql) => r matches Ok(c) && c.sql@ == sql && c.form.driver == form.driver
                            && c.form.location == form.location && c.form.port == form.port
                            && c.form.username == form.username && c.form.password == form.password
                            && c.form.database@ == (if form.driver == DatabaseDriver::MongoDb {
                            "admin"@
                        } else {
                            form.database@
                        }) && c.status_message@ == "Renaming table "@ + old + " to "@ + new + "..."@,
                        Err(m) => r matches Err(e) && e@ == m,
                    },
                }
            },
        },
{
    if running {
        return Err(owned("Schema change is already running."));
    }
    let d = match draft {
        Some(d) => d,
        None => {
            return Err(owned("Rename table form is not open."));
        },
    };
    let old_name = trim_str(d.table.as_str());
    let new_name = trim_str(d.new_name.as_str());
    if is_empty_text(new_name) {
        return Err(owned("New table name is required."));
    }
    if str_eq(old_name, new_name) {
        return Err(owned("New table name must be different."));
    }
    let mut f = form.clone();
    let sql = match rename_table_statement(&mut f, old_name, new_name) {
        Ok(sql) => sql,
        Err(e) => {
            return Err(e);
        },
    };
    let mut m = owned("Renaming table ");
    m.append(old_name);
    m.append(" to ");
    m.append(new_name);
    m.append("...");
    Ok(SchemaChange { form: f, sql, status_message: m })
}

/// The names of the tables, views and collections of the tree, in order.
pub open spec fn child_object_names(objects: Seq<SchemaObject>) -> Seq<Seq<char>>
    decreases objects.len(),
{
    if objects.len() == 0 {
        Seq::<Seq<char>>::empty()
    } else {
        let rest = child_object_names(objects.drop_last());
        let o = objects.last();
        if o.kind == SchemaObjectKind::Table || o.kind == SchemaObjectKind::View || o.kind
            == SchemaObjectKind::Collection {
            rest.push(o.name@)
        } else {
            rest
        }
    }
}

fn child_objects(objects: &Vec<SchemaObject>) -> (r: Vec<String>)
    ensures
        views(r@) == child_object_names(objects@),
{
    let mut r: Vec<String> = Vec::new();
    let mut i: usize = 0;
    while i < objects.len()
        invariant
            i <= objects.len(),
            views(r@) == child_object_names(objects@.take(i as int)),
        decreases objects.len() - i,
    {
        assert(objects@.take(i + 1).drop_last() == objects@.take(i as int));
        assert(objects@.take(i + 1).last() == objects@[i as int]);
        let o = &objects[i];
        if o.kind == SchemaObjectKind::Table || o.kind == SchemaObjectKind::View || o.kind
            == SchemaObjectKind::Collection {
            let ghost before = views(r@);
            let name = o.name.clone();
            let ghost nv = name@;
            r.push(name);
            assert(views(r@) =~= before.push(nv));
        }
        i += 1;
    }
    assert(objects@.take(objects.len() as int) == objects@);
    r
}

/// Submits the rename-database form: a new, different name, then the
/// statement for the driver, which also moves the tables, views and
/// collections shown in the tree, in the connection's charset and
/// collation.
pub fn submit_rename_database(
    running: bool,
    draft: Option<&RenameDatabaseDraft>,
    form: &ConnectionForm,
    objects: &Vec<SchemaObject>,
) -> (r: Result<SchemaChange, String>)
    ensures
        match gate(running, draft, "Rename database form is not open."@) {
            Some(m) => r matches Err(e) && e@ == m,
            None => {
                let d = *draft->0;
                let old = trim(d.database@);
                let new = trim(d.new_name@);
                match rename_refusal(
                    d.database@,
                    d.new_name@,
                    "New database name is required."@,
                    "New database name must be different."@,
                ) {
                    Some(m) => r matches Err(e) && e@ == m,
                    None => match rename_database_result(
                        form.driver,
                        old,
                        new,
                        child_object_names(objects@),
                        form.charset@,
                        form.collation@,
                    ) {
                        Ok(sql) => r matches Ok(c) && c.sql@ == sql && c.form.driver == form.driver
                            && c.form.location == form.location && c.form.port == form.port
                            && c.form.username == form.username && c.form.password == form.password
                            && c.form.database@ == database_after_rename(
                            form.driver,
                            form.database@,
                            old,
                            new,
                        ) && c.status_message@ == "Renaming database "@ + old + " to "@ + new
                            + "..."@,
                        Err(m) => r matches Err(e) && e@ == m,
                    },
                }
            },
        },
{
    if running {
        return Err(owned("Schema change is already running."));
    }
    let d = match draft {
        Some(d) => d,
        None => {
            return Err(owned("Rename database form is not open."));
        },
    };
    let old_name = trim_str(d.database.as_str());
    let new_name = trim_str(d.new_name.as_str());
    if is_empty_text(new_name) {
        return Err(owned("New database name is required."));
    }
    if str_eq(old_name, new_name) {
        return Err(owned("New database name must be different."));
    }
    let children = child_objects(objects);
    let mut f = form.clone();
    let sql = match rename_database_statement(
        &mut f,
        old_name,
        new_name,
        &children,
        form.charset.as_str(),
        form.collation.as_str(),
    ) {
        Ok(sql) => sql,
        Err(e) => {
            return Err(e);
        },
    };
    let mut m = owned("Renaming database ");
    m.append(old_name);
    m.append(" to ");
    m.append(new_name);
    m.append("...");
    Ok(SchemaChange { form: f, sql, status_message: m })
}

/// Submits the charset form: a database name is needed, then the
/// statement; it runs on the connection with the new charset and
/// collation.
pub fn submit_alter_database_charset(
    running: bool,
    draft: Option<&AlterDatabaseCharsetDraft>,
    form: &ConnectionForm,
) -> (r: Result<SchemaChange, String>)
    ensures
        match gate(running, draft, "Alter database charset form is not open."@) {
            Some(m) => r matches Err(e) && e@ == m,
            None => {
                let d = *draft->0;
                let database = trim(d.database@);
                if database.len() == 0 {
                    r matches Err(e) && e@ == "Database name is required."@
                } else {
                    match alter_charset_result(form.driver, database, d.charset@, d.collation@) {
                        Ok(sql) => r matches Ok(c) && c.sql@ == sql && c.form == (ConnectionForm {
                            charset: d.charset,
                            collation: d.collation,
                            ..*form
                        }) && c.status_message@ == "Altering database charset for "@ + database
                            + "..."@,
                        Err(m) => r matches Err(e) && e@ == m,
                    }
                }
            },
        },
{
    if running {
        return Err(owned("Schema change is already running."));
    }
    let d = match draft {
        Some(d) => d,
        None => {
            return Err(owned("Alter database charset form is not open."));
        },
    };
    let database = trim_str(d.database.as_str());
    if is_empty_text(database) {
        return Err(owned("Database name is required."));
    }
    let sql = match alter_database_charset_statement(
        form.driver,
        database,
        d.charset.as_str(),
        d.collation.as_str(),
    ) {
        Ok(sql) => sql,
        Err(e) => {
            return Err(e);
        },
    };
    let mut f = form.clone();
    f.charset = d.charset.clone();
    f.collation = d.collation.clone();
    let mut m = owned("Altering database charset for ");
    m.append(database);
    m.append("...");
    Ok(SchemaChange { form: f, sql, status_message: m })
}

/// Submits the create-database form: a name is needed, MongoDB needs an
/// initial collection, a saved connection must be active, then the command
/// for the driver.
pub fn submit_create_database(
    running: bool,
    draft: Option<&CreateDatabaseDraft>,
    form: &ConnectionForm,
    connected: bool,
) -> (r: Result<SchemaChange, String>)
    ensures
        match gate(running, draft, "Create database form is not open."@) {
            Some(m) => r matches Err(e) && e@ == m,
            None => {
                let d = *draft->0;
                let name = trim(d.name@);
                if name.len() == 0 {
                    r matches Err(e) && e@ == "Database name is required."@
                } else if form.driver == DatabaseDriver::MongoDb && trim(d.initial_collection@).len()
                    == 0 {
                    r matches Err(e) && e@
                        == "MongoDB needs an initial collection to materialize a new database."@
                } else if !connected {
                    r matches Err(e) && e@
                        == "No active connection. Connect a saved profile before creating a database."@
                } else {
                    match create_database_command_sql(form.driver, d) {
                        Ok(sql) => r matches Ok(c) && c.sql@ == sql && c.form.driver == form.driver
                            && c.form.location == form.location && c.form.username == form.username
                            && c.form.database@ == (if form.driver == DatabaseDriver::MongoDb {
                            name
                        } else {
                            form.database@
                        }) && c.status_message@ == "Creating database "@ + name + "..."@,
                        Err(m) => r matches Err(e) && e@ == m,
                    }
                }
            },
        },
{
    if running {
        return Err(owned("Schema change is already running."));
    }
    let d = match draft {
        Some(d) => d,
        None => {
            return Err(owned("Create database form is not open."));
        },
    };
    let name = trim_str(d.name.as_str());
    if is_empty_text(name) {
        return Err(owned("Database name is required."));
    }
    if form.driver == DatabaseDriver::MongoDb && is_empty_text(trim_str(d.initial_collection.as_str())) {
        return Err(owned("MongoDB needs an initial collection to materialize a new database."));
    }
    if !connected {
        return Err(
            owned("No active connection. Connect a saved profile before creating a database."),
        );
    }
    let command = match create_database_command(form.clone(), d) {
        Ok(c) => c,
        Err(e) => {
            return Err(e);
        },
    };
    let mut m = owned("Creating database ");
    m.append(name);
    m.append("...");
    Ok(SchemaChange { form: command.form, sql: command.sql, status_message: m })
}

// ---------------------------------------------------------------------------
// When a change finishes
// ---------------------------------------------------------------------------

/// A failure as shown: the head, then the messages after a colon when
/// there are any.
pub open spec fn failure_text(head: Seq<char>, messages: Seq<Seq<char>>) -> Seq<char> {
    let detail = join(messages, " "@);
    if detail.len() == 0 {
        head + "."@
    } else {
        head + ": "@ + detail
    }
}

/// The message of a failed operation: `head.` alone, or `head: ` and the
/// messages joined by spaces.
pub fn failure_message(head: &str, messages: &Vec<String>) -> (r: String)
    ensures
        r@ == failure_text(head@, views(messages@)),
{
    let detail = join_strings(messages, " ");
    let mut r = owned(head);
    if is_empty_text(detail.as_str()) {
        r.append(".");
    } else {
        r.append(": ");
        r.append(detail.as_str());
    }
    r
}

/// Which change finished.
#[derive(Debug)]
pub enum SchemaChangeKind {
    CreateTable { table: String },
    RenameTable { old_name: String, new_name: String },
    AlterTable { table: String },
    CreateDatabase { name: String },
    RenameDatabase { old_name: String, new_name: String },
    AlterDatabaseCharset { database: String },
}

/// The message when a change succeeded after `elapsed_ms`.
pub open spec fn success_text(kind: SchemaChangeKind, elapsed_ms: nat) -> Seq<char> {
    match kind {
        SchemaChangeKind::CreateTable { table } => "Table "@ + table@ + " created."@,
        SchemaChangeKind::RenameTable { old_name, new_name } => "Table "@ + old_name@ + " renamed to "@
            + new_name@ + "."@,
        SchemaChangeKind::AlterTable { table } => "Structure change applied to "@ + table@ + "."@,
        SchemaChangeKind::CreateDatabase { name } => "Database "@ + name@ + " created in "@ + decimal(
            elapsed_ms,
        ) + " ms."@,
        SchemaChangeKind::RenameDatabase { old_name, new_name } => "Database "@ + old_name@
            + " renamed to "@ + new_name@ + "."@,
        SchemaChangeKind::AlterDatabaseCharset { database } => "Database charset altered for "@
            + database@ + "."@,
    }
}

/// The head of the message when a change failed.
pub open spec fn failure_head(kind: SchemaChangeKind) -> Seq<char> {
    match kind {
        SchemaChangeKind::CreateTable { table } => "Create table "@ + table@ + " failed"@,
        SchemaChangeKind::RenameTable { old_name, .. } => "Rename table "@ + old_name@ + " failed"@,
        SchemaChangeKind::AlterTable { table } => "Structure change failed for "@ + table@,
        SchemaChangeKind::CreateDatabase { name } => "Create database "@ + name@ + " failed"@,
        SchemaChangeKind::RenameDatabase { old_name, .. } => "Rename database "@ + old_name@
            + " failed"@,
        SchemaChangeKind::AlterDatabaseCharset { database } => "Alter database charset for "@
            + database@ + " failed"@,
    }
}

/// The message shown when a change finished: its success, or its failure
/// with the messages.
pub fn schema_change_finished_message(kind: &SchemaChangeKind, outcome: &QueryExecutionOutcome) -> (r:
    String)
    ensures
        r@ == match outcome {
            QueryExecutionOutcome::Success(result) => success_text(*kind, result.elapsed_ms as nat),
            QueryExecutionOutcome::Failure(messages) => failure_text(
                failure_head(*kind),
                views(messages@),
            ),
        },
{
    match outcome {
        QueryExecutionOutcome::Success(result) => {
            let mut m = String::new();
            match kind {
                SchemaChangeKind::CreateTable { table } => {
                    m.append("Table ");
                    m.append(table.as_str());
                    m.append(" created.");
                },
                SchemaChangeKind::RenameTable { old_name, new_name } => {
                    m.append("Table ");
                    m.append(old_name.as_str());
                    m.append(" renamed to ");
                    m.append(new_name.as_str());
                    m.append(".");
                },
                SchemaChangeKind::AlterTable { table } => {
                    m.append("Structure change applied to ");
                    m.append(table.as_str());
                    m.append(".");
                },
                SchemaChangeKind::CreateDatabase { name } => {
                    m.append("Database ");
                    m.append(name.as_str());
                    m.append(" created in ");
                    m.append(u128_to_decimal(result.elapsed_ms).as_str());
                    m.append(" ms.");
                },
                SchemaChangeKind::RenameDatabase { old_name, new_name } => {
                    m.append("Database ");
                    m.append(old_name.as_str());
                    m.append(" renamed to ");
                    m.append(new_name.as_str());
                    m.append(".");
                },
                SchemaChangeKind::AlterDatabaseCharset { database } => {
                    m.append("Database charset altered for ");
                    m.append(database.as_str());
                    m.append(".");
                },
            }
            m
        },
        QueryExecutionOutcome::Failure(messages) => {
            let mut head = String::new();
            match kind {
                SchemaChangeKind::CreateTable { table } => {
                    head.append("Create table ");
                    head.append(table.as_str());
                    head.append(" failed");
                },
                SchemaChangeKind::RenameTable { old_name, .. } => {
                    head.append("Rename table ");
                    head.append(old_name.as_str());
                    head.append(" failed");
                },
                SchemaChangeKind::AlterTable { table } => {
                    head.append("Structure change failed for ");
                    head.append(table.as_str());
                },
                SchemaChangeKind::CreateDatabase { name } => {
                    head.append("Create database ");
                    head.append(name.as_str());
                    head.append(" failed");
                },
                SchemaChangeKind::RenameDatabase { old_name, .. } => {
                    head.append("Rename database ");
                    head.append(old_name.as_str());
                    head.append(" failed");
                },
                SchemaChangeKind::AlterDatabaseCharset { database } => {
                    head.append("Alter database charset for ");
                    head.append(database.as_str());
                    head.append(" failed");
                },
            }
            failure_message(head.as_str(), messages)
        },
    }
}


// ---------------------------------------------------------------------------
// Dropping
// ---------------------------------------------------------------------------

/// Confirms the pending drop: it runs its statement on its connection,
/// unless a change is running or nothing is pending.
pub fn confirm_schema_delete(running: bool, pending: Option<&PendingSchemaDeletion>) -> (r: Result<
    SchemaChange,
    String,
>)
    ensures
        running ==> (r matches Err(e) && e@ == "Schema change is already running."@),
        !running && pending is None ==> (r matches Err(e) && e@
            == "No schema object is pending deletion."@),
        !running && pending is Some ==> {
            let p = *pending->0;
            r matches Ok(c) && c.form == p.form && c.sql == p.sql && c.status_message@ == (
            match p.kind {
                SchemaDeletionKind::Database => "Dropping database "@ + p.name@ + "..."@,
                SchemaDeletionKind::Table => "Dropping table "@ + p.name@ + "..."@,
            })
        },
{
    if running {
        return Err(owned("Schema change is already running."));
    }
    let p = match pending {
        Some(p) => p,
        None => {
            return Err(owned("No schema object is pending deletion."));
        },
    };
    let mut m = match p.kind {
        SchemaDeletionKind::Database => owned("Dropping database "),
        SchemaDeletionKind::Table => owned("Dropping table "),
    };
    m.append(p.name.as_str());
    m.append("...");
    Ok(SchemaChange { form: p.form.clone(), sql: p.sql.clone(), status_message: m })
}

/// The message when a drop finished.
pub fn schema_delete_finished_message(
    name: &str,
    kind: SchemaDeletionKind,
    outcome: &QueryExecutionOutcome,
) -> (r: String)
    ensures
        r@ == match outcome {
            QueryExecutionOutcome::Success(_) => match kind {
                SchemaDeletionKind::Database => "DROP DATABASE "@ + name@ + " succeeded."@,
                SchemaDeletionKind::Table => "DROP TABLE "@ + name@ + " succeeded."@,
            },
            QueryExecutionOutcome::Failure(messages) => failure_text(
                "DROP "@ + name@ + " failed"@,
                views(messages@),
            ),
        },
{
    match outcome {
        QueryExecutionOutcome::Success(_) => {
            let mut m = match kind {
                SchemaDeletionKind::Database => owned("DROP DATABASE "),
                SchemaDeletionKind::Table => owned("DROP TABLE "),
            };
            m.append(name);
            m.append(" succeeded.");
            m
        },
        QueryExecutionOutcome::Failure(messages) => {
            let mut head = owned("DROP ");
            head.append(name);
            head.append(" failed");
            failure_message(head.as_str(), messages)
        },
    }
}

// ---------------------------------------------------------------------------
// Editing the database forms
// ---------------------------------------------------------------------------

/// A field of the create-database form.
#[derive(Debug, Clone, Copy, PartialEq, Eq, Structural)]
pub enum CreateDatabaseField {
    Name,
    Charset,
    Collation,
    Owner,
    Template,
    Tablespace,
    InitialCollection,
}

/// `after` is the create-database form `before` with `field` set to
/// `value`; a new charset brings the driver's default collation for it.
pub open spec fn create_database_edited(
    after: CreateDatabaseDraft,
    before: CreateDatabaseDraft,
    driver: DatabaseDriver,
    field: CreateDatabaseField,
    value: String,
) -> bool {
    match field {
        CreateDatabaseField::Name => after == CreateDatabaseDraft { name: value, ..before },
        CreateDatabaseField::Charset => {
            &&& after == CreateDatabaseDraft { charset: value, collation: after.collation, ..before }
            &&& after.collation@ == driver.default_collation_for_charset_spec(value@)
        },
        CreateDatabaseField::Collation => after == CreateDatabaseDraft { collation: value, ..before },
        CreateDatabaseField::Owner => after == CreateDatabaseDraft { owner: value, ..before },
        CreateDatabaseField::Template => after == CreateDatabaseDraft { template: value, ..before },
        CreateDatabaseField::Tablespace => after == CreateDatabaseDraft { tablespace: value, ..before },
        CreateDatabaseField::InitialCollection => after == CreateDatabaseDraft {
            initial_collection: value,
            ..before
        },
    }
}

/// Stores `value` in a field of the open create-database form, or says
/// that none is open.
pub fn set_create_database_field(
    draft: &mut Option<CreateDatabaseDraft>,
    driver: DatabaseDriver,
    field: CreateDatabaseField,
    value: String,
) -> (r: Option<String>)
    ensures
        *old(draft) is None ==> (r matches Some(m) && m@ == "Create database form is not open."@)
            && *final(draft) is None,
        *old(draft) is Some ==> r is None && (*final(draft) matches Some(a) && create_database_edited(
            a,
            (*old(draft))->0,
            driver,
            field,
            value,
        )),
{
    match draft {
        None => Some(owned("Create database form is not open.")),
        Some(d) => {
            match field {
                CreateDatabaseField::Name => d.name = value,
                CreateDatabaseField::Charset => {
                    d.charset = value;
                    d.collation = owned(driver.default_collation_for_charset(d.charset.as_str()));
                },
                CreateDatabaseField::Collation => d.collation = value,
                CreateDatabaseField::Owner => d.owner = value,
                CreateDatabaseField::Template => d.template = value,
                CreateDatabaseField::Tablespace => d.tablespace = value,
                CreateDatabaseField::InitialCollection => d.initial_collection = value,
            }
            None
        },
    }
}

/// Stores `value` in a field of the open rename or charset form: the new
/// name goes to the rename form; charset and collation to the charset form,
/// where a new charset brings the driver's default collation for it. Says
/// when the form the field belongs to is not open.
pub fn set_database_edit_field(
    rename: &mut Option<RenameDatabaseDraft>,
    charset: &mut Option<AlterDatabaseCharsetDraft>,
    driver: DatabaseDriver,
    field: DatabaseEditField,
    value: String,
) -> (r: Option<String>)
    ensures
        field == DatabaseEditField::NewName ==> *final(charset) == *old(charset) && match *old(rename) {
            None => (r matches Some(m) && m@ == "Rename database form is not open."@)
                && *final(rename) is None,
            Some(d) => r is None && *final(rename) == Some(RenameDatabaseDraft { new_name: value, ..d }),
        },
        field != DatabaseEditField::NewName ==> *final(rename) == *old(rename) && match *old(charset) {
            None => (r matches Some(m) && m@ == "Alter database charset form is not open."@)
                && *final(charset) is None,
            Some(d) => r is None && (*final(charset) matches Some(a) && if field
                == DatabaseEditField::Charset {
                a == AlterDatabaseCharsetDraft { charset: value, collation: a.collation, ..d }
                    && a.collation@ == driver.default_collation_for_charset_spec(value@)
            } else {
                a == AlterDatabaseCharsetDraft { collation: value, ..d }
            }),
        },
{
    match field {
        DatabaseEditField::NewName => match rename {
            None => Some(owned("Rename database form is not open.")),
            Some(d) => {
                d.new_name = value;
                None
            },
        },
        DatabaseEditField::Charset => match charset {
            None => Some(owned("Alter database charset form is not open.")),
            Some(d) => {
                d.charset = value;
                d.collation = owned(driver.default_collation_for_charset(d.charset.as_str()));
                None
            },
        },
        DatabaseEditField::Collation => match charset {
            None => Some(owned("Alter database charset form is not open.")),
            Some(d) => {
                d.collation = value;
                None
            },
        },
    }
}

} // verus!
