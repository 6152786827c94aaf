//! The decisions behind the workbench's events: which section a navigation
//! selects, what a quick action, the create-table request, a database action
//! or a table action leads to, and the messages once details are loaded.
use vstd::prelude::*;
use crate::connection::ConnectionForm;
use crate::details::{DatabaseDetails, TableDetails};
use crate::drafts::AlterTableDraft;
use crate::table_designer::TableDesigner;
use crate::drafts::{PendingSchemaDeletion, SchemaDeletionKind};
use crate::driver::DatabaseDriver;
use crate::navigation::{DatabaseAction, QuickAction, Section, TableAction};
use crate::sql_database::{
    database_deletion_result, pending_database_deletion, pending_table_deletion, table_deletion_result,
    text_result,
};
use crate::text::{is_empty_text, join, join_strings, owned, str_eq, trim, trim_str, views};
use crate::workspace::{SchemaObject, SchemaObjectKind};

verus! {

// ---------------------------------------------------------------------------
// Navigation
// ---------------------------------------------------------------------------

/// What selecting a section of the navigation does.
#[derive(Debug)]
pub struct SectionSelection {
    /// The section shown: the query explorer lives in the databases section.
    pub section: Section,
    /// The database workspace closes, as no saved connection is selected.
    pub close_workspace: bool,
    /// The schema is loaded, as the tables section opens on an empty tree.
    pub refresh_schema: bool,
    pub status_message: String,
}

/// The section that selecting `section` shows.
pub open spec fn shown_section(section: Section) -> Section {
    if section == Section::QueryExplorer {
        Section::Databases
    } else {
        section
    }
}

/// Selects `section`, given whether a saved connection is selected and
/// whether the schema tree is empty.
pub fn select_section(section: Section, has_profile: bool, schema_empty: bool) -> (r: SectionSelection)
    ensures
        r.section == shown_section(section),
        r.close_workspace == (shown_section(section) == Section::Databases && !has_profile),
        r.refresh_schema == (shown_section(section) == Section::Tables && schema_empty && has_profile),
        r.status_message@ == shown_section(section).label_spec() + " workspace selected."@,
{
    let shown = if section == Section::QueryExplorer {
        Section::Databases
    } else {
        section
    };
    let mut m = owned(shown.label());
    m.append(" workspace selected.");
    SectionSelection {
        section: shown,
        close_workspace: shown == Section::Databases && !has_profile,
        refresh_schema: shown == Section::Tables && schema_empty && has_profile,
        status_message: m,
    }
}

/// What a quick action leads to.
#[derive(Debug, Clone, Copy, PartialEq, Eq, Structural)]
pub enum QuickStep {
    /// A new connection draft in the databases section, with the action's
    /// message.
    NewConnection,
    /// The schema is loaded again.
    RefreshSchema,
    /// Only the action's message is shown.
    Announce,
}

/// The step of `action` while `current` is shown.
pub open spec fn quick_step_for(action: QuickAction, current: Section) -> QuickStep {
    if action == QuickAction::NewConnection {
        QuickStep::NewConnection
    } else if action == QuickAction::RefreshData && (current == Section::QueryExplorer || current
        == Section::Databases) {
        QuickStep::RefreshSchema
    } else {
        QuickStep::Announce
    }
}

/// Decides what a quick action does while `current` is shown.
pub fn quick_step(action: QuickAction, current: Section) -> (r: QuickStep)
    ensures
        r == quick_step_for(action, current),
{
    if action == QuickAction::NewConnection {
        QuickStep::NewConnection
    } else if action == QuickAction::RefreshData && (current == Section::QueryExplorer || current
        == Section::Databases) {
        QuickStep::RefreshSchema
    } else {
        QuickStep::Announce
    }
}

// ---------------------------------------------------------------------------
// Creating a table
// ---------------------------------------------------------------------------

/// Whether the create-table form opens, with its message, or why not: every
/// driver but SQLite needs a database first.
pub open spec fn create_table_request_text(driver: DatabaseDriver, database: Seq<char>) -> Result<
    Seq<char>,
    Seq<char>,
> {
    let db = trim(database);
    if db.len() == 0 && driver != DatabaseDriver::Sqlite {
        Err("Select a database before creating a table."@)
    } else if db.len() == 0 {
        Ok("Create table form opened."@)
    } else {
        Ok("Create table form opened for database "@ + db + "."@)
    }
}

/// Decides whether the create-table form opens for the connection `form`,
/// and with which message.
pub fn create_table_request(form: &ConnectionForm) -> (r: Result<String, String>)
    ensures
        text_result(r) == create_table_request_text(form.driver, form.database@),
{
    let database = trim_str(form.database.as_str());
    if is_empty_text(database) && form.driver != DatabaseDriver::Sqlite {
        return Err(owned("Select a database before creating a table."));
    }
    if is_empty_text(database) {
        Ok(owned("Create table form opened."))
    } else {
        let mut m = owned("Create table form opened for database ");
        m.append(database);
        m.append(".");
        Ok(m)
    }
}

// ---------------------------------------------------------------------------
// Database actions
// ---------------------------------------------------------------------------

/// What a database action leads to.
#[derive(Debug)]
pub enum DatabaseStep {
    /// The create-database form opens for the connection's driver.
    OpenCreateDatabase,
    /// The create-table form is requested, as `create_table_request` decides.
    RequestCreateTable,
    /// This deletion waits for confirmation.
    ConfirmDrop(PendingSchemaDeletion),
    /// The details of this database are loaded and shown.
    ShowDetails(String),
    /// The rename form opens for this database.
    OpenRename(String),
    /// The charset form opens for this database.
    OpenCharset(String),
    /// Nothing opens; the message says why.
    Refused,
}

/// A step with the status message it shows, if it shows one.
#[derive(Debug)]
pub struct DatabaseActionOutcome {
    pub step: DatabaseStep,
    pub status_message: Option<String>,
}

/// The status message shown is `text`.
pub open spec fn shows(status_message: Option<String>, text: Seq<char>) -> bool {
    status_message matches Some(m) && m@ == text
}

/// `p` is the confirmation request for dropping `database` on the
/// connection `form`.
pub open spec fn drops_database(p: PendingSchemaDeletion, form: ConnectionForm, database: Seq<char>) -> bool {
    &&& database_deletion_result(form.driver, database) == Ok::<Seq<char>, Seq<char>>(p.sql@)
    &&& p.kind == SchemaDeletionKind::Database
    &&& p.name@ == trim(database)
    &&& p.form.driver == form.driver
    &&& p.form.database@ == (if form.driver == DatabaseDriver::MongoDb {
        trim(database)
    } else {
        form.database@
    })
}

/// The step of dropping `database` on the connection `form`: a confirmation
/// request naming it, or the reason it is refused.
pub open spec fn drop_step(r: DatabaseActionOutcome, form: ConnectionForm, database: Seq<char>) -> bool {
    match database_deletion_result(form.driver, database) {
        Ok(_) => (r.step matches DatabaseStep::ConfirmDrop(p) && drops_database(p, form, database))
            && shows(r.status_message, "Delete database confirmation requested for "@ + database + "."@),
        Err(e) => r.step is Refused && shows(r.status_message, e),
    }
}

/// What `action` does on the selected database of the connection `form`.
/// Creating opens its form; dropping asks for confirmation; showing,
/// renaming and re-encoding need a database, except on SQLite, where the
/// file is meant.
pub open spec fn database_action_outcome(
    r: DatabaseActionOutcome,
    action: DatabaseAction,
    form: ConnectionForm,
) -> bool {
    let db = trim(form.database@);
    let target = if db.len() == 0 && form.driver == DatabaseDriver::Sqlite {
        "SQLite database file"@
    } else {
        db
    };
    match action {
        DatabaseAction::CreateDatabase => r.step is OpenCreateDatabase && shows(
            r.status_message,
            "Create database form opened."@,
        ),
        DatabaseAction::CreateTable => r.step is RequestCreateTable && r.status_message is None,
        DatabaseAction::DropDatabase => drop_step(r, form, db),
        _ => if db.len() == 0 && form.driver != DatabaseDriver::Sqlite {
            r.step is Refused && shows(
                r.status_message,
                "Select a database before running this database action."@,
            )
        } else {
            match action {
                DatabaseAction::ShowDatabase => r.step matches DatabaseStep::ShowDetails(t) && t@
                    == target && r.status_message is None,
                DatabaseAction::AlterDatabaseName => (r.step matches DatabaseStep::OpenRename(t) && t@
                    == target) && shows(
                    r.status_message,
                    "Rename database form opened for "@ + target + "."@,
                ),
                _ => (r.step matches DatabaseStep::OpenCharset(t) && t@ == target) && shows(
                    r.status_message,
                    "Alter database charset form opened for "@ + target + "."@,
                ),
            }
        },
    }
}

fn announced(step: DatabaseStep, head: &str, name: &str) -> (r: DatabaseActionOutcome)
    ensures
        r.step == step,
        shows(r.status_message, head@ + name@ + "."@),
{
    let mut m = owned(head);
    m.append(name);
    m.append(".");
    DatabaseActionOutcome { step, status_message: Some(m) }
}

fn drop_database_step(form: &ConnectionForm, database: &str) -> (r: DatabaseActionOutcome)
    ensures
        drop_step(r, *form, database@),
{
    match pending_database_deletion(form.clone(), database) {
        Ok(pending) => announced(
            DatabaseStep::ConfirmDrop(pending),
            "Delete database confirmation requested for ",
            database,
        ),
        Err(e) => DatabaseActionOutcome { step: DatabaseStep::Refused, status_message: Some(e) },
    }
}

/// Decides what a database action does on the connection's database.
pub fn database_action_step(action: DatabaseAction, form: &ConnectionForm) -> (r: DatabaseActionOutcome)
    ensures
        database_action_outcome(r, action, *form),
{
    let database = trim_str(form.database.as_str());
    let driver = form.driver;
    match action {
        DatabaseAction::CreateDatabase => {
            return DatabaseActionOutcome {
                step: DatabaseStep::OpenCreateDatabase,
                status_message: Some(owned("Create database form opened.")),
            };
        },
        DatabaseAction::CreateTable => {
            return DatabaseActionOutcome { step: DatabaseStep::RequestCreateTable, status_message: None };
        },
        DatabaseAction::DropDatabase => {
            return drop_database_step(form, database);
        },
        _ => {},
    }
    if is_empty_text(database) && driver != DatabaseDriver::Sqlite {
        return DatabaseActionOutcome {
            step: DatabaseStep::Refused,
            status_message: Some(owned("Select a database before running this database action.")),
        };
    }
    let target = if is_empty_text(database) && driver == DatabaseDriver::Sqlite {
        owned("SQLite database file")
    } else {
        owned(database)
    };
    match action {
        DatabaseAction::ShowDatabase => DatabaseActionOutcome {
            step: DatabaseStep::ShowDetails(target),
            status_message: None,
        },
        DatabaseAction::AlterDatabaseName => {
            let name = target.clone();
            announced(DatabaseStep::OpenRename(target), "Rename database form opened for ", name.as_str())
        },
        _ => {
            let name = target.clone();
            announced(
                DatabaseStep::OpenCharset(target),
                "Alter database charset form opened for ",
                name.as_str(),
            )
        },
    }
}

// ---------------------------------------------------------------------------
// Actions on rows of the schema tree
// ---------------------------------------------------------------------------

/// Why an action on a row of the schema tree does nothing.
#[derive(Debug, Clone, Copy, PartialEq, Eq, Structural)]
pub enum RowRefusal {
    /// No row has that position: "Schema object was not found."
    Missing,
    /// The row is of a kind the action does not apply to; the message names
    /// the row by its label.
    WrongKind,
}

/// What a database action does on the database row `name`, once the
/// connection's database is set to it: as on the connection's database,
/// except that the row's name is used as it is.
pub open spec fn database_row_outcome(
    r: DatabaseActionOutcome,
    action: DatabaseAction,
    form: ConnectionForm,
    name: Seq<char>,
) -> bool {
    match action {
        DatabaseAction::CreateDatabase => r.step is OpenCreateDatabase && shows(
            r.status_message,
            "Create database form opened."@,
        ),
        DatabaseAction::CreateTable => r.step is RequestCreateTable && r.status_message is None,
        DatabaseAction::ShowDatabase => r.step matches DatabaseStep::ShowDetails(t) && t@ == name
            && r.status_message is None,
        DatabaseAction::AlterDatabaseName => (r.step matches DatabaseStep::OpenRename(t) && t@
            == name) && shows(r.status_message, "Rename database form opened for "@ + name + "."@),
        DatabaseAction::AlterDatabaseCharset => (r.step matches DatabaseStep::OpenCharset(t) && t@
            == name) && shows(
            r.status_message,
            "Alter database charset form opened for "@ + name + "."@,
        ),
        DatabaseAction::DropDatabase => drop_step(r, form, name),
    }
}

/// Decides what a database action on the row at `index` does. The row must
/// be a database; the caller then makes it the connection's database, and
/// `form` is the connection with that database set.
pub fn database_row_action_step(
    action: DatabaseAction,
    objects: &Vec<SchemaObject>,
    index: usize,
    form: &ConnectionForm,
) -> (r: Result<DatabaseActionOutcome, RowRefusal>)
    ensures
        index >= objects@.len() ==> r == Err::<DatabaseActionOutcome, RowRefusal>(RowRefusal::Missing),
        index < objects@.len() && objects@[index as int].kind != SchemaObjectKind::Database ==> r
            == Err::<DatabaseActionOutcome, RowRefusal>(RowRefusal::WrongKind),
        index < objects@.len() && objects@[index as int].kind == SchemaObjectKind::Database ==> (r matches Ok(
            o,
        ) && database_row_outcome(o, action, *form, objects@[index as int].name@)),
{
    if index >= objects.len() {
        return Err(RowRefusal::Missing);
    }
    let object = &objects[index];
    if object.kind != SchemaObjectKind::Database {
        return Err(RowRefusal::WrongKind);
    }
    let name = object.name.as_str();
    let outcome = match action {
        DatabaseAction::CreateDatabase => DatabaseActionOutcome {
            step: DatabaseStep::OpenCreateDatabase,
            status_message: Some(owned("Create database form opened.")),
        },
        DatabaseAction::CreateTable => DatabaseActionOutcome {
            step: DatabaseStep::RequestCreateTable,
            status_message: None,
        },
        DatabaseAction::ShowDatabase => DatabaseActionOutcome {
            step: DatabaseStep::ShowDetails(owned(name)),
            status_message: None,
        },
        DatabaseAction::AlterDatabaseName => announced(
            DatabaseStep::OpenRename(owned(name)),
            "Rename database form opened for ",
            name,
        ),
        DatabaseAction::AlterDatabaseCharset => announced(
            DatabaseStep::OpenCharset(owned(name)),
            "Alter database charset form opened for ",
            name,
        ),
        DatabaseAction::DropDatabase => drop_database_step(form, name),
    };
    Ok(outcome)
}

/// What choosing a row of the schema tree leads to.
#[derive(Debug)]
pub enum RowChoice {
    /// The database row becomes the connection's database, with its
    /// message; the schema loads again.
    ExpandDatabase(String, String),
    /// The connection's database is cleared again, with its message; the
    /// schema loads again.
    CollapseDatabase(String),
    /// The row is selected; the message names it by its label.
    Select,
}

/// What choosing the row at `index` does: on a server (not SQLite), a
/// database row opens as the connection's database, or closes when it is
/// the one opened from the tree; any other row is selected.
pub open spec fn row_choice_for(
    r: RowChoice,
    object: SchemaObject,
    driver: DatabaseDriver,
    database: Seq<char>,
    expanded_from_tree: bool,
) -> bool {
    if object.kind == SchemaObjectKind::Database && driver != DatabaseDriver::Sqlite {
        if expanded_from_tree && database == object.name@ {
            r matches RowChoice::CollapseDatabase(m) && m@ == "Database collapsed: "@ + object.name@
                + "."@
        } else {
            r matches RowChoice::ExpandDatabase(name, m) && name@ == object.name@ && m@
                == "Database expanded: "@ + object.name@ + "."@
        }
    } else {
        r is Select
    }
}

/// Decides what choosing the row at `index` does, given the connection's
/// driver and database and whether that database was opened from the tree.
pub fn choose_schema_row(
    objects: &Vec<SchemaObject>,
    index: usize,
    driver: DatabaseDriver,
    database: &str,
    expanded_from_tree: bool,
) -> (r: Result<RowChoice, RowRefusal>)
    ensures
        index >= objects@.len() ==> r == Err::<RowChoice, RowRefusal>(RowRefusal::Missing),
        index < objects@.len() ==> (r matches Ok(c) && row_choice_for(
            c,
            objects@[index as int],
            driver,
            database@,
            expanded_from_tree,
        )),
{
    if index >= objects.len() {
        return Err(RowRefusal::Missing);
    }
    let object = &objects[index];
    if object.kind == SchemaObjectKind::Database && driver != DatabaseDriver::Sqlite {
        if expanded_from_tree && crate::text::str_eq(database, object.name.as_str()) {
            let mut m = owned("Database collapsed: ");
            m.append(object.name.as_str());
            m.append(".");
            Ok(RowChoice::CollapseDatabase(m))
        } else {
            let mut m = owned("Database expanded: ");
            m.append(object.name.as_str());
            m.append(".");
            Ok(RowChoice::ExpandDatabase(owned(object.name.as_str()), m))
        }
    } else {
        Ok(RowChoice::Select)
    }
}

/// What a table action leads to.
#[derive(Debug)]
pub enum TableStep {
    /// The rows of this table are paged through from the first page.
    BrowseRows(String),
    /// The details of this table are loaded and shown.
    Describe(String),
    /// The rename form opens for this table.
    OpenRename(String),
    /// The table designer opens for this table and its details load.
    OpenDesigner(String),
    /// This deletion waits for confirmation.
    ConfirmDrop(PendingSchemaDeletion),
    /// The deletion is refused for this reason.
    Refused(String),
    /// Nothing happens: emptying a table has no step of its own.
    Ignored,
}

/// What `action` does on the table, view or collection `name` of the
/// connection `form`.
pub open spec fn table_step_for(step: TableStep, action: TableAction, form: ConnectionForm, name: Seq<
    char,
>) -> bool {
    match action {
        TableAction::SelectRows => step matches TableStep::BrowseRows(t) && t@ == name,
        TableAction::DescribeTable => step matches TableStep::Describe(t) && t@ == name,
        TableAction::RenameTable => step matches TableStep::OpenRename(t) && t@ == name,
        TableAction::AlterTable => step matches TableStep::OpenDesigner(t) && t@ == name,
        TableAction::TruncateTable => step is Ignored,
        TableAction::DropTable => match table_deletion_result(form.driver, form.database@, name) {
            Ok(sql) => step matches TableStep::ConfirmDrop(p) && p.sql@ == sql && p.kind
                == SchemaDeletionKind::Table && p.name@ == trim(name) && p.form == form,
            Err(e) => step matches TableStep::Refused(m) && m@ == e,
        },
    }
}

/// Decides what a table action on the row at `index` does; only tables,
/// views and collections take table actions.
pub fn table_action_step(
    action: TableAction,
    objects: &Vec<SchemaObject>,
    index: usize,
    form: &ConnectionForm,
) -> (r: Result<TableStep, RowRefusal>)
    ensures
        index >= objects@.len() ==> r == Err::<TableStep, RowRefusal>(RowRefusal::Missing),
        index < objects@.len() ==> ({
            let object = objects@[index as int];
            if object.kind == SchemaObjectKind::Table || object.kind == SchemaObjectKind::View
                || object.kind == SchemaObjectKind::Collection {
                r matches Ok(step) && table_step_for(step, action, *form, object.name@)
            } else {
                r == Err::<TableStep, RowRefusal>(RowRefusal::WrongKind)
            }
        }),
{
    if index >= objects.len() {
        return Err(RowRefusal::Missing);
    }
    let object = &objects[index];
    match object.kind {
        SchemaObjectKind::Table | SchemaObjectKind::View | SchemaObjectKind::Collection => {},
        _ => {
            return Err(RowRefusal::WrongKind);
        },
    }
    let name = object.name.as_str();
    let step = match action {
        TableAction::SelectRows => TableStep::BrowseRows(owned(name)),
        TableAction::DescribeTable => TableStep::Describe(owned(name)),
        TableAction::RenameTable => TableStep::OpenRename(owned(name)),
        TableAction::AlterTable => TableStep::OpenDesigner(owned(name)),
        TableAction::TruncateTable => TableStep::Ignored,
        TableAction::DropTable => match pending_table_deletion(form.clone(), name) {
            Ok(pending) => TableStep::ConfirmDrop(pending),
            Err(e) => TableStep::Refused(e),
        },
    };
    Ok(step)
}

// ---------------------------------------------------------------------------
// Loading the schema and details
// ---------------------------------------------------------------------------

/// Whether the schema loads again, with the message shown meanwhile, or why
/// not: a load is running, or no saved connection is active.
pub open spec fn schema_refresh_text(schema_loading: bool, has_profile: bool) -> Result<Seq<char>, Seq<char>> {
    if schema_loading {
        Err("Schema refresh is already running."@)
    } else if !has_profile {
        Err("No active connection. Connect a saved profile before refreshing schema."@)
    } else {
        Ok("Refreshing schema..."@)
    }
}

/// Decides whether the schema loads again.
pub fn schema_refresh_request(schema_loading: bool, has_profile: bool) -> (r: Result<String, String>)
    ensures
        text_result(r) == schema_refresh_text(schema_loading, has_profile),
{
    if schema_loading {
        Err(owned("Schema refresh is already running."))
    } else if !has_profile {
        Err(owned("No active connection. Connect a saved profile before refreshing schema."))
    } else {
        Ok(owned("Refreshing schema..."))
    }
}

/// A load of details that was started: the connection it reads with and
/// the message shown meanwhile.
#[derive(Debug)]
pub struct DetailsRequest {
    pub form: ConnectionForm,
    pub status_message: String,
}

/// Decides whether the details of the database `database` load: only with
/// a saved connection active; the load reads that database, except on
/// SQLite, where the file is the database.
pub fn database_details_request(has_profile: bool, form: &ConnectionForm, database: &str) -> (r: Result<
    DetailsRequest,
    String,
>)
    ensures
        !has_profile ==> (r matches Err(m) && m@
            == "No active connection. Connect a saved profile before inspecting metadata."@),
        has_profile ==> (r matches Ok(q) && q.status_message@ == "Loading database details for "@
            + database@ + "..."@ && q.form == if form.driver == DatabaseDriver::Sqlite {
            *form
        } else {
            ConnectionForm { database: q.form.database, ..*form }
        } && (form.driver != DatabaseDriver::Sqlite ==> q.form.database@ == database@)),
{
    if !has_profile {
        return Err(owned("No active connection. Connect a saved profile before inspecting metadata."));
    }
    let mut f = form.clone();
    if f.driver != DatabaseDriver::Sqlite {
        f.database = owned(database);
    }
    let mut m = owned("Loading database details for ");
    m.append(database);
    m.append("...");
    Ok(DetailsRequest { form: f, status_message: m })
}

/// Decides whether the details of the table `table` load: only with a
/// saved connection active, with the connection as it is.
pub fn table_details_request(has_profile: bool, form: &ConnectionForm, table: &str) -> (r: Result<
    DetailsRequest,
    String,
>)
    ensures
        !has_profile ==> (r matches Err(m) && m@
            == "No active connection. Connect a saved profile before inspecting table metadata."@),
        has_profile ==> (r matches Ok(q) && q.form == *form && q.status_message@
            == "Loading table details for "@ + table@ + "..."@),
{
    if !has_profile {
        return Err(
            owned("No active connection. Connect a saved profile before inspecting table metadata."),
        );
    }
    let mut m = owned("Loading table details for ");
    m.append(table);
    m.append("...");
    Ok(DetailsRequest { form: form.clone(), status_message: m })
}

/// The metadata inspector: the database or the table whose details are
/// shown, whether they are loading, and the database's details once
/// loaded. The table's details live in the table designer, which edits
/// from them.
#[derive(Debug)]
pub struct Inspector {
    pub database_target: Option<String>,
    pub database_loading: bool,
    pub database_details: Option<DatabaseDetails>,
    pub table_target: Option<String>,
    pub table_loading: bool,
}

impl Inspector {
    /// The inspector shows a database or a table, never both.
    pub open spec fn exclusive(&self) -> bool {
        !(self.database_target is Some && self.table_target is Some)
    }

    /// The database side shows nothing.
    pub open spec fn database_cleared(&self) -> bool {
        self.database_target is None && !self.database_loading && self.database_details is None
    }

    /// The table side shows nothing.
    pub open spec fn table_cleared(&self) -> bool {
        self.table_target is None && !self.table_loading
    }

    /// An inspector that shows nothing.
    pub fn new() -> (r: Self)
        ensures
            r.database_cleared(),
            r.table_cleared(),
            r.exclusive(),
    {
        Inspector {
            database_target: None,
            database_loading: false,
            database_details: None,
            table_target: None,
            table_loading: false,
        }
    }

    /// Starts loading the details of the database `database`, as
    /// `database_details_request` decides; when it loads, the table side
    /// (with the designer's table details) is cleared and the database side
    /// waits for the new details.
    pub fn show_database(
        &mut self,
        designer: &mut TableDesigner,
        has_profile: bool,
        form: &ConnectionForm,
        database: &str,
    ) -> (r: Result<DetailsRequest, String>)
        ensures
            !has_profile ==> (r matches Err(m) && m@
                == "No active connection. Connect a saved profile before inspecting metadata."@)
                && *final(self) == *old(self) && *final(designer) == *old(designer),
            has_profile ==> (r matches Ok(q) && q.status_message@ == "Loading database details for "@
                + database@ + "..."@ && (form.driver != DatabaseDriver::Sqlite ==> q.form.database@
                == database@)) && final(self).table_cleared() && (final(self).database_target matches Some(
                t,
            ) && t@ == database@) && final(self).database_loading && final(self).database_details is None
                && *final(designer) == (TableDesigner { table_details: None, ..*old(designer) }),
            has_profile ==> final(self).exclusive(),
            old(self).exclusive() ==> final(self).exclusive(),
    {
        let request = database_details_request(has_profile, form, database);
        if request.is_ok() {
            self.table_target = None;
            self.table_loading = false;
            designer.table_details = None;
            self.database_target = Some(owned(database));
            self.database_loading = true;
            self.database_details = None;
        }
        request
    }

    /// Starts loading the details of the table `table`, as
    /// `table_details_request` decides; when it loads, the database side is
    /// cleared and the table side waits for the new details.
    pub fn show_table(
        &mut self,
        designer: &mut TableDesigner,
        has_profile: bool,
        form: &ConnectionForm,
        table: &str,
    ) -> (r: Result<DetailsRequest, String>)
        ensures
            !has_profile ==> (r matches Err(m) && m@
                == "No active connection. Connect a saved profile before inspecting table metadata."@)
                && *final(self) == *old(self) && *final(designer) == *old(designer),
            has_profile ==> (r matches Ok(q) && q.form == *form && q.status_message@
                == "Loading table details for "@ + table@ + "..."@) && final(self).database_cleared()
                && (final(self).table_target matches Some(t) && t@ == table@) && final(self).table_loading
                && *final(designer) == (TableDesigner { table_details: None, ..*old(designer) }),
            has_profile ==> final(self).exclusive(),
            old(self).exclusive() ==> final(self).exclusive(),
    {
        let request = table_details_request(has_profile, form, table);
        if request.is_ok() {
            self.database_target = None;
            self.database_loading = false;
            self.database_details = None;
            self.table_target = Some(owned(table));
            self.table_loading = true;
            designer.table_details = None;
        }
        request
    }

    /// Takes the loaded details of the database `database`, or the messages
    /// of their failure, and says so.
    pub fn database_loaded(&mut self, database: &str, outcome: Result<DatabaseDetails, Vec<String>>) -> (r:
        String)
        ensures
            !final(self).database_loading,
            old(self).exclusive() ==> final(self).exclusive(),
            final(self).database_target == old(self).database_target,
            final(self).table_target == old(self).table_target,
            final(self).table_loading == old(self).table_loading,
            match outcome {
                Ok(d) => final(self).database_details == Some(d) && r@ == details_loaded_text(
                    "Database"@,
                    database@,
                    None,
                ),
                Err(messages) => final(self).database_details is None && r@ == details_loaded_text(
                    "Database"@,
                    database@,
                    Some(views(messages@)),
                ),
            },
    {
        self.database_loading = false;
        match outcome {
            Ok(details) => {
                self.database_details = Some(details);
                database_details_message(database, None)
            },
            Err(messages) => {
                self.database_details = None;
                database_details_message(database, Some(&messages))
            },
        }
    }

    /// Takes the loaded details of the table `table`, or the messages of
    /// their failure, and says so. Loaded details go to the designer, and an
    /// open table design of that table takes their create statement.
    pub fn table_loaded(
        &mut self,
        designer: &mut TableDesigner,
        table: &str,
        outcome: Result<TableDetails, Vec<String>>,
    ) -> (r: String)
        ensures
            !final(self).table_loading,
            old(self).exclusive() ==> final(self).exclusive(),
            final(self).table_target == old(self).table_target,
            final(self).database_target == old(self).database_target,
            final(self).database_loading == old(self).database_loading,
            final(self).database_details == old(self).database_details,
            match outcome {
                Ok(d) => {
                    &&& r@ == details_loaded_text("Table"@, table@, None)
                    &&& *final(designer) == (TableDesigner {
                        table_details: Some(d),
                        alter_table_draft: final(designer).alter_table_draft,
                        ..*old(designer)
                    })
                    &&& final(designer).alter_table_draft == match old(designer).alter_table_draft {
                        Some(a) => if a.table@ == table@ {
                            Some(AlterTableDraft { create_statement: d.create_statement, ..a })
                        } else {
                            Some(a)
                        },
                        None => None,
                    }
                },
                Err(messages) => {
                    &&& r@ == details_loaded_text("Table"@, table@, Some(views(messages@)))
                    &&& *final(designer) == (TableDesigner { table_details: None, ..*old(designer) })
                },
            },
    {
        self.table_loading = false;
        match outcome {
            Ok(details) => {
                if let Some(draft) = &mut designer.alter_table_draft {
                    if str_eq(draft.table.as_str(), table) {
                        draft.create_statement = details.create_statement.clone();
                    }
                }
                designer.table_details = Some(details);
                table_details_message(table, None)
            },
            Err(messages) => {
                designer.table_details = None;
                table_details_message(table, Some(&messages))
            },
        }
    }
}

// ---------------------------------------------------------------------------
// Loaded details
// ---------------------------------------------------------------------------

/// The message once the details of `name` loaded, or failed to with
/// `messages`; `subject` is "Database" or "Table".
pub open spec fn details_loaded_text(subject: Seq<char>, name: Seq<char>, failure: Option<Seq<Seq<char>>>) -> Seq<
    char,
> {
    match failure {
        None => subject + " details loaded for "@ + name + "."@,
        Some(messages) => if join(messages, " "@).len() == 0 {
            subject + " detail load failed for "@ + name + "."@
        } else {
            subject + " detail load failed for "@ + name + ": "@ + join(messages, " "@)
        },
    }
}

fn details_message(subject: &str, name: &str, failure: Option<&Vec<String>>) -> (r: String)
    ensures
        r@ == details_loaded_text(
            subject@,
            name@,
            match failure {
                Some(v) => Some(views(v@)),
                None => None,
            },
        ),
{
    let mut m = owned(subject);
    match failure {
        None => {
            m.append(" details loaded for ");
            m.append(name);
            m.append(".");
        },
        Some(messages) => {
            let detail = join_strings(messages, " ");
            m.append(" detail load failed for ");
            m.append(name);
            if is_empty_text(detail.as_str()) {
                m.append(".");
            } else {
                m.append(": ");
                m.append(detail.as_str());
            }
        },
    }
    m
}

/// The message once the details of the database `database` loaded, or
/// failed to with `failure`.
pub fn database_details_message(database: &str, failure: Option<&Vec<String>>) -> (r: String)
    ensures
        r@ == details_loaded_text(
            "Database"@,
            database@,
            match failure {
                Some(v) => Some(views(v@)),
                None => None,
            },
        ),
{
    details_message("Database", database, failure)
}

/// The message once the details of the table `table` loaded, or failed to
/// with `failure`.
pub fn table_details_message(table: &str, failure: Option<&Vec<String>>) -> (r: String)
    ensures
        r@ == details_loaded_text(
            "Table"@,
            table@,
            match failure {
                Some(v) => Some(views(v@)),
                None => None,
            },
        ),
{
    details_message("Table", table, failure)
}

} // verus!
