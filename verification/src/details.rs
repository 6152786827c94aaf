//! The metadata inspector: what a database or a table reports about itself,
//! grouped into labelled sections, and which live source answers a request.
use vstd::prelude::*;
use crate::connection::{validation_messages, ConnectionForm};
use crate::drafts::TableColumnDetail;
use crate::driver::DatabaseDriver;
use crate::metrics::{bytes_text, format_bytes};
use crate::connector::{database_name, probe_database};
use crate::dialect::quote_plain;
use crate::results::quote_sql_identifier;
use crate::text::{
    join, join_strings, replace, replace_char, str_eq, usize_to_decimal,
    decimal, is_empty_text, owned, parse_unsigned, parse_unsigned_str, push_char, trim, trim_str,
    u128_to_decimal, views,
};

verus! {

/// The group a detail belongs to.
#[derive(Debug, Clone, Copy, PartialEq, Eq, Structural)]
pub enum DatabaseDetailSectionKind {
    Core,
    Storage,
    Objects,
    Runtime,
}

/// One labelled value of the inspector.
#[derive(Debug)]
pub struct DatabaseDetailField {
    pub label: String,
    pub value: String,
}

/// A group of labelled values.
#[derive(Debug)]
pub struct DatabaseDetailSection {
    pub kind: DatabaseDetailSectionKind,
    pub fields: Vec<DatabaseDetailField>,
}

/// What the inspector shows for one database.
#[derive(Debug)]
pub struct DatabaseDetails {
    pub database: String,
    pub driver: DatabaseDriver,
    pub sections: Vec<DatabaseDetailSection>,
}

/// One index of an existing table.
#[derive(Debug)]
pub struct TableIndexDetail {
    pub name: String,
    pub columns: String,
    pub unique: String,
}

/// What the inspector shows for one table: sections, columns, indexes and
/// the statement that creates it.
#[derive(Debug)]
pub struct TableDetails {
    pub table: String,
    pub driver: DatabaseDriver,
    pub sections: Vec<DatabaseDetailSection>,
    pub columns: Vec<TableColumnDetail>,
    pub indexes: Vec<TableIndexDetail>,
    pub create_statement: String,
}

/// A section as values: its kind and its labels with their values.
pub open spec fn section_view(s: DatabaseDetailSection) -> (
    DatabaseDetailSectionKind,
    Seq<(Seq<char>, Seq<char>)>,
) {
    (s.kind, s.fields@.map_values(|f: DatabaseDetailField| (f.label@, f.value@)))
}

/// The sections as values.
pub open spec fn sections_view(s: Seq<DatabaseDetailSection>) -> Seq<
    (DatabaseDetailSectionKind, Seq<(Seq<char>, Seq<char>)>),
> {
    s.map_values(|x: DatabaseDetailSection| section_view(x))
}

/// An index as values.
pub open spec fn index_view(i: TableIndexDetail) -> (Seq<char>, Seq<char>, Seq<char>) {
    (i.name@, i.columns@, i.unique@)
}

fn field(label: &str, value: String) -> (r: DatabaseDetailField)
    ensures
        r.label@ == label@,
        r.value == value,
{
    DatabaseDetailField { label: owned(label), value }
}

fn section4(
    kind: DatabaseDetailSectionKind,
    a: DatabaseDetailField,
    b: DatabaseDetailField,
    c: DatabaseDetailField,
    d: DatabaseDetailField,
) -> (r: DatabaseDetailSection)
    ensures
        section_view(r) == (kind, seq![
            (a.label@, a.value@),
            (b.label@, b.value@),
            (c.label@, c.value@),
            (d.label@, d.value@),
        ]),
{
    let ghost v = seq![
        (a.label@, a.value@),
        (b.label@, b.value@),
        (c.label@, c.value@),
        (d.label@, d.value@),
    ];
    let mut fields: Vec<DatabaseDetailField> = Vec::new();
    fields.push(a);
    fields.push(b);
    fields.push(c);
    fields.push(d);
    let r = DatabaseDetailSection { kind, fields };
    assert(section_view(r).1 =~= v);
    r
}

/// The server of a form: its host and port.
pub open spec fn host_text(form: ConnectionForm) -> Seq<char> {
    trim(form.location@) + ":"@ + trim(form.port@)
}

/// The timeout of a form as shown: its seconds and `s`.
pub open spec fn timeout_text(form: ConnectionForm) -> Seq<char> {
    trim(form.timeout_seconds@) + "s"@
}

fn host_label(form: &ConnectionForm) -> (r: String)
    ensures
        r@ == host_text(*form),
{
    let mut r = owned(trim_str(form.location.as_str()));
    r.append(":");
    r.append(trim_str(form.port.as_str()));
    r
}

fn timeout_label(form: &ConnectionForm) -> (r: String)
    ensures
        r@ == timeout_text(*form),
{
    let mut r = owned(trim_str(form.timeout_seconds.as_str()));
    r.append("s");
    r
}

/// The sections shown for a database whose driver has no live inspector.
pub open spec fn fallback_database_sections(form: ConnectionForm, database: Seq<char>) -> Seq<
    (DatabaseDetailSectionKind, Seq<(Seq<char>, Seq<char>)>),
> {
    seq![
        (DatabaseDetailSectionKind::Core, seq![
            ("database"@, database),
            ("driver"@, form.driver.display_name_spec()),
            ("metadata"@, "native driver pending"@),
            ("mode"@, "read-only fallback"@),
        ]),
        (DatabaseDetailSectionKind::Runtime, seq![
            ("host"@, host_text(form)),
            ("user"@, form.username@),
            ("timeout"@, timeout_text(form)),
            ("notes"@, form.notes@),
        ]),
    ]
}

/// The details of a database whose driver has no live inspector: what the
/// form itself tells.
pub fn fallback_database_details(form: &ConnectionForm, database: &str) -> (r: DatabaseDetails)
    ensures
        r.database@ == database@,
        r.driver == form.driver,
        sections_view(r.sections@) == fallback_database_sections(*form, database@),
{
    let core = section4(
        DatabaseDetailSectionKind::Core,
        field("database", owned(database)),
        field("driver", owned(form.driver.display_name())),
        field("metadata", owned("native driver pending")),
        field("mode", owned("read-only fallback")),
    );
    let runtime = section4(
        DatabaseDetailSectionKind::Runtime,
        field("host", host_label(form)),
        field("user", form.username.clone()),
        field("timeout", timeout_label(form)),
        field("notes", form.notes.clone()),
    );
    let ghost cv = section_view(core);
    let ghost rv = section_view(runtime);
    let mut sections: Vec<DatabaseDetailSection> = Vec::new();
    sections.push(core);
    sections.push(runtime);
    assert(sections_view(sections@) =~= seq![cv, rv]);
    DatabaseDetails { database: owned(database), driver: form.driver, sections }
}

/// The one section shown for a table whose driver has no live inspector.
pub open spec fn fallback_table_sections(form: ConnectionForm, table: Seq<char>) -> Seq<
    (DatabaseDetailSectionKind, Seq<(Seq<char>, Seq<char>)>),
> {
    seq![
        (DatabaseDetailSectionKind::Core, seq![
            ("table"@, table),
            ("driver"@, form.driver.display_name_spec()),
            ("metadata"@, "native driver pending"@),
            ("mode"@, "read-only fallback"@),
        ]),
    ]
}

/// The details of a table whose driver has no live inspector: no columns,
/// no indexes and a note in place of the statement.
pub fn fallback_table_details(form: &ConnectionForm, table: &str) -> (r: TableDetails)
    ensures
        r.table@ == table@,
        r.driver == form.driver,
        sections_view(r.sections@) == fallback_table_sections(*form, table@),
        r.columns@.len() == 0,
        r.indexes@.len() == 0,
        r.create_statement@ == "Native driver metadata is not connected yet."@,
{
    let core = section4(
        DatabaseDetailSectionKind::Core,
        field("table", owned(table)),
        field("driver", owned(form.driver.display_name())),
        field("metadata", owned("native driver pending")),
        field("mode", owned("read-only fallback")),
    );
    let ghost cv = section_view(core);
    let mut sections: Vec<DatabaseDetailSection> = Vec::new();
    sections.push(core);
    assert(sections_view(sections@) =~= seq![cv]);
    TableDetails {
        table: owned(table),
        driver: form.driver,
        sections,
        columns: Vec::new(),
        indexes: Vec::new(),
        create_statement: owned("Native driver metadata is not connected yet."),
    }
}

// ---------------------------------------------------------------------------
// Numbers and flags as shown
// ---------------------------------------------------------------------------

/// A signed number in decimal, with a minus sign when negative.
pub open spec fn signed_decimal(i: int) -> Seq<char> {
    if i < 0 {
        seq!['-'] + decimal((-i) as nat)
    } else {
        decimal(i as nat)
    }
}

fn i64_text(v: i64) -> (r: String)
    ensures
        r@ == signed_decimal(v as int),
{
    if v < 0 {
        let magnitude: u128 = (0i128 - (v as i128)) as u128;
        let mut r = String::new();
        push_char(&mut r, '-');
        r.append(u128_to_decimal(magnitude).as_str());
        r
    } else {
        u128_to_decimal(v as u128)
    }
}

/// A flag as Rust writes it.
pub open spec fn bool_text(b: bool) -> Seq<char> {
    if b {
        "true"@
    } else {
        "false"@
    }
}

/// An optional byte count as a size, or `unknown`.
pub open spec fn optional_size_text(bytes: Option<u64>) -> Seq<char> {
    match bytes {
        Some(b) => bytes_text(b as nat),
        None => "unknown"@,
    }
}

/// An optional flag, or `unknown`.
pub open spec fn optional_flag_text(flag: Option<bool>) -> Seq<char> {
    match flag {
        Some(b) => bool_text(b),
        None => "unknown"@,
    }
}

// ---------------------------------------------------------------------------
// SQLite
// ---------------------------------------------------------------------------

/// What a SQLite file reports about itself: its size and whether it is
/// read-only (when the file can be inspected), and its pragmas and counts.
#[derive(Debug)]
pub struct SqliteDatabaseFacts {
    pub file_size: Option<u64>,
    pub read_only: Option<bool>,
    pub encoding: String,
    pub journal_mode: String,
    pub page_size: i64,
    pub page_count: i64,
    pub user_version: i64,
    pub tables: i64,
    pub views: i64,
    pub indexes: i64,
}

/// The sections shown for a SQLite database file.
pub open spec fn sqlite_database_sections(path: Seq<char>, f: SqliteDatabaseFacts) -> Seq<
    (DatabaseDetailSectionKind, Seq<(Seq<char>, Seq<char>)>),
> {
    seq![
        (DatabaseDetailSectionKind::Core, seq![
            ("database file"@, path),
            ("driver"@, "SQLite"@),
            ("encoding"@, f.encoding@),
            ("read only"@, optional_flag_text(f.read_only)),
        ]),
        (DatabaseDetailSectionKind::Storage, seq![
            ("file size"@, optional_size_text(f.file_size)),
            ("page size"@, signed_decimal(f.page_size as int)),
            ("page count"@, signed_decimal(f.page_count as int)),
            ("journal mode"@, f.journal_mode@),
        ]),
        (DatabaseDetailSectionKind::Objects, seq![
            ("tables"@, signed_decimal(f.tables as int)),
            ("views"@, signed_decimal(f.views as int)),
            ("indexes"@, signed_decimal(f.indexes as int)),
            ("user version"@, signed_decimal(f.user_version as int)),
        ]),
    ]
}

fn size_or_unknown(bytes: Option<u64>) -> (r: String)
    ensures
        r@ == optional_size_text(bytes),
{
    match bytes {
        Some(b) => format_bytes(b),
        None => owned("unknown"),
    }
}

fn flag_or_unknown(flag: Option<bool>) -> (r: String)
    ensures
        r@ == optional_flag_text(flag),
{
    match flag {
        Some(true) => owned("true"),
        Some(false) => owned("false"),
        None => owned("unknown"),
    }
}

fn push_section(sections: &mut Vec<DatabaseDetailSection>, s: DatabaseDetailSection)
    ensures
        sections_view(final(sections)@) == sections_view(old(sections)@).push(section_view(s)),
{
    let ghost before = sections_view(sections@);
    let ghost sv = section_view(s);
    sections.push(s);
    assert(sections_view(sections@) =~= before.push(sv));
}

/// The details of a SQLite database: named by `database` when it is given,
/// else by the file's path.
pub fn sqlite_database_details(form: &ConnectionForm, database: &str, facts: SqliteDatabaseFacts) -> (r:
    DatabaseDetails)
    ensures
        r.database@ == (if trim(database@).len() == 0 {
            trim(form.location@)
        } else {
            database@
        }),
        r.driver == DatabaseDriver::Sqlite,
        sections_view(r.sections@) == sqlite_database_sections(trim(form.location@), facts),
{
    let ghost spec_sections = sqlite_database_sections(trim(form.location@), facts);
    let path = trim_str(form.location.as_str());
    let mut sections: Vec<DatabaseDetailSection> = Vec::new();
    push_section(
        &mut sections,
        section4(
            DatabaseDetailSectionKind::Core,
            field("database file", owned(path)),
            field("driver", owned("SQLite")),
            field("encoding", facts.encoding),
            field("read only", flag_or_unknown(facts.read_only)),
        ),
    );
    push_section(
        &mut sections,
        section4(
            DatabaseDetailSectionKind::Storage,
            field("file size", size_or_unknown(facts.file_size)),
            field("page size", i64_text(facts.page_size)),
            field("page count", i64_text(facts.page_count)),
            field("journal mode", facts.journal_mode),
        ),
    );
    push_section(
        &mut sections,
        section4(
            DatabaseDetailSectionKind::Objects,
            field("tables", i64_text(facts.tables)),
            field("views", i64_text(facts.views)),
            field("indexes", i64_text(facts.indexes)),
            field("user version", i64_text(facts.user_version)),
        ),
    );
    assert(sections_view(sections@) =~= spec_sections);
    let label = if is_empty_text(trim_str(database)) {
        owned(path)
    } else {
        owned(database)
    };
    DatabaseDetails { database: label, driver: DatabaseDriver::Sqlite, sections }
}

// ---------------------------------------------------------------------------
// MySQL
// ---------------------------------------------------------------------------

/// The object counts of a MySQL schema as the server writes them: objects,
/// base tables, views and bytes of data and indexes.
pub open spec fn counts_or_zero(counts: Option<(String, String, String, String)>) -> (
    Seq<char>,
    Seq<char>,
    Seq<char>,
    Seq<char>,
) {
    match counts {
        Some((a, b, c, d)) => (a@, b@, c@, d@),
        None => ("0"@, "0"@, "0"@, "0"@),
    }
}

/// The server facts of MySQL: version, version comment and SQL mode.
pub open spec fn runtime_or_unknown(runtime: Option<(String, String, String)>) -> (
    Seq<char>,
    Seq<char>,
    Seq<char>,
) {
    match runtime {
        Some((a, b, c)) => (a@, b@, c@),
        None => ("unknown"@, "unknown"@, "unknown"@),
    }
}

/// A byte count as the server wrote it, read as a number (zero when it is
/// none) and shown as a size.
pub open spec fn written_size_text(bytes: Seq<char>) -> Seq<char> {
    bytes_text(
        match parse_unsigned(bytes, u64::MAX as nat) {
            Some(v) => v,
            None => 0,
        },
    )
}

/// The sections shown for a MySQL schema.
pub open spec fn mysql_database_sections(
    form: ConnectionForm,
    schema: Seq<char>,
    charset: Seq<char>,
    collation: Seq<char>,
    counts: (Seq<char>, Seq<char>, Seq<char>, Seq<char>),
    runtime: (Seq<char>, Seq<char>, Seq<char>),
) -> Seq<(DatabaseDetailSectionKind, Seq<(Seq<char>, Seq<char>)>)> {
    seq![
        (DatabaseDetailSectionKind::Core, seq![
            ("database"@, schema),
            ("driver"@, form.driver.display_name_spec()),
            ("server"@, runtime.0),
            ("version comment"@, runtime.1),
        ]),
        (DatabaseDetailSectionKind::Storage, seq![
            ("default charset"@, charset),
            ("default collation"@, collation),
            ("data + index size"@, written_size_text(counts.3)),
            ("engine policy"@, "per table"@),
        ]),
        (DatabaseDetailSectionKind::Objects, seq![
            ("schema objects"@, counts.0),
            ("base tables"@, counts.1),
            ("views"@, counts.2),
            ("routines"@, "inspect information_schema.routines"@),
        ]),
        (DatabaseDetailSectionKind::Runtime, seq![
            ("host"@, host_text(form)),
            ("user"@, form.username@),
            ("sql mode"@, runtime.2),
            ("timeout"@, timeout_text(form)),
        ]),
    ]
}

/// The details of a MySQL schema from its row in `information_schema`, its
/// object counts and the server's runtime facts, either of which may be
/// missing.
pub fn mysql_database_details(
    form: &ConnectionForm,
    schema: String,
    charset: String,
    collation: String,
    counts: Option<(String, String, String, String)>,
    runtime: Option<(String, String, String)>,
) -> (r: DatabaseDetails)
    ensures
        r.database == schema,
        r.driver == form.driver,
        sections_view(r.sections@) == mysql_database_sections(
            *form,
            schema@,
            charset@,
            collation@,
            counts_or_zero(counts),
            runtime_or_unknown(runtime),
        ),
{
    let ghost spec_sections = mysql_database_sections(
        *form,
        schema@,
        charset@,
        collation@,
        counts_or_zero(counts),
        runtime_or_unknown(runtime),
    );
    let (objects, tables, views, bytes) = match counts {
        Some(c) => c,
        None => (owned("0"), owned("0"), owned("0"), owned("0")),
    };
    let (version, comment, sql_mode) = match runtime {
        Some(r) => r,
        None => (owned("unknown"), owned("unknown"), owned("unknown")),
    };
    let size = match parse_unsigned_str(bytes.as_str(), u64::MAX) {
        Some(v) => format_bytes(v),
        None => format_bytes(0),
    };
    let mut sections: Vec<DatabaseDetailSection> = Vec::new();
    push_section(
        &mut sections,
        section4(
            DatabaseDetailSectionKind::Core,
            field("database", schema.clone()),
            field("driver", owned(form.driver.display_name())),
            field("server", version),
            field("version comment", comment),
        ),
    );
    push_section(
        &mut sections,
        section4(
            DatabaseDetailSectionKind::Storage,
            field("default charset", charset),
            field("default collation", collation),
            field("data + index size", size),
            field("engine policy", owned("per table")),
        ),
    );
    push_section(
        &mut sections,
        section4(
            DatabaseDetailSectionKind::Objects,
            field("schema objects", objects),
            field("base tables", tables),
            field("views", views),
            field("routines", owned("inspect information_schema.routines")),
        ),
    );
    push_section(
        &mut sections,
        section4(
            DatabaseDetailSectionKind::Runtime,
            field("host", host_label(form)),
            field("user", form.username.clone()),
            field("sql mode", sql_mode),
            field("timeout", timeout_label(form)),
        ),
    );
    assert(sections_view(sections@) =~= spec_sections);
    DatabaseDetails { database: schema, driver: form.driver, sections }
}

// ---------------------------------------------------------------------------
// PostgreSQL
// ---------------------------------------------------------------------------

/// The row of `pg_database` for one database, each value as text.
#[derive(Debug)]
pub struct PostgresDatabaseRow {
    pub name: String,
    pub encoding: String,
    pub collate: String,
    pub ctype: String,
    pub owner: String,
    pub connection_limit: String,
    pub size: String,
}

/// The sections shown for a PostgreSQL database.
pub open spec fn postgres_database_sections(
    form: ConnectionForm,
    row: PostgresDatabaseRow,
    counts: (Seq<char>, Seq<char>, Seq<char>),
    server_version: Seq<char>,
) -> Seq<(DatabaseDetailSectionKind, Seq<(Seq<char>, Seq<char>)>)> {
    seq![
        (DatabaseDetailSectionKind::Core, seq![
            ("database"@, row.name@),
            ("driver"@, form.driver.display_name_spec()),
            ("owner"@, row.owner@),
            ("encoding"@, row.encoding@),
        ]),
        (DatabaseDetailSectionKind::Storage, seq![
            ("size"@, row.size@),
            ("collate"@, row.collate@),
            ("ctype"@, row.ctype@),
            ("connection limit"@, row.connection_limit@),
        ]),
        (DatabaseDetailSectionKind::Objects, seq![
            ("schema objects"@, counts.0),
            ("base tables"@, counts.1),
            ("views"@, counts.2),
            ("schemas"@, "inspect pg_namespace"@),
        ]),
        (DatabaseDetailSectionKind::Runtime, seq![
            ("host"@, host_text(form)),
            ("user"@, form.username@),
            ("server version"@, server_version),
            ("timeout"@, timeout_text(form)),
        ]),
    ]
}

/// The details of a PostgreSQL database from its `pg_database` row, the
/// counts of its objects (all, base tables, views) and the server version.
pub fn postgres_database_details(
    form: &ConnectionForm,
    row: PostgresDatabaseRow,
    counts: (String, String, String),
    server_version: String,
) -> (r: DatabaseDetails)
    ensures
        r.database == row.name,
        r.driver == form.driver,
        sections_view(r.sections@) == postgres_database_sections(
            *form,
            row,
            (counts.0@, counts.1@, counts.2@),
            server_version@,
        ),
{
    let ghost spec_sections = postgres_database_sections(
        *form,
        row,
        (counts.0@, counts.1@, counts.2@),
        server_version@,
    );
    let (objects, tables, views) = counts;
    let database = row.name.clone();
    let mut sections: Vec<DatabaseDetailSection> = Vec::new();
    push_section(
        &mut sections,
        section4(
            DatabaseDetailSectionKind::Core,
            field("database", row.name),
            field("driver", owned(form.driver.display_name())),
            field("owner", row.owner),
            field("encoding", row.encoding),
        ),
    );
    push_section(
        &mut sections,
        section4(
            DatabaseDetailSectionKind::Storage,
            field("size", row.size),
            field("collate", row.collate),
            field("ctype", row.ctype),
            field("connection limit", row.connection_limit),
        ),
    );
    push_section(
        &mut sections,
        section4(
            DatabaseDetailSectionKind::Objects,
            field("schema objects", objects),
            field("base tables", tables),
            field("views", views),
            field("schemas", owned("inspect pg_namespace")),
        ),
    );
    push_section(
        &mut sections,
        section4(
            DatabaseDetailSectionKind::Runtime,
            field("host", host_label(form)),
            field("user", form.username.clone()),
            field("server version", server_version),
            field("timeout", timeout_label(form)),
        ),
    );
    assert(sections_view(sections@) =~= spec_sections);
    DatabaseDetails { database, driver: form.driver, sections }
}

// ---------------------------------------------------------------------------
// MongoDB
// ---------------------------------------------------------------------------

/// What `dbStats` and `buildInfo` report of a MongoDB database, each value
/// already written out.
#[derive(Debug)]
pub struct MongoDatabaseFacts {
    pub server_version: String,
    pub storage_engine: String,
    pub data_size: String,
    pub storage_size: String,
    pub index_size: String,
    pub scale_factor: String,
    pub collections: String,
    pub views: String,
    pub documents: String,
    pub indexes: String,
}

/// The sections shown for a MongoDB database.
pub open spec fn mongodb_database_sections(
    form: ConnectionForm,
    database: Seq<char>,
    f: MongoDatabaseFacts,
) -> Seq<(DatabaseDetailSectionKind, Seq<(Seq<char>, Seq<char>)>)> {
    seq![
        (DatabaseDetailSectionKind::Core, seq![
            ("database"@, database),
            ("driver"@, "MongoDB"@),
            ("server version"@, f.server_version@),
            ("storage engine"@, f.storage_engine@),
        ]),
        (DatabaseDetailSectionKind::Storage, seq![
            ("data size"@, f.data_size@),
            ("storage size"@, f.storage_size@),
            ("index size"@, f.index_size@),
            ("scale factor"@, f.scale_factor@),
        ]),
        (DatabaseDetailSectionKind::Objects, seq![
            ("collections"@, f.collections@),
            ("views"@, f.views@),
            ("documents"@, f.documents@),
            ("indexes"@, f.indexes@),
        ]),
        (DatabaseDetailSectionKind::Runtime, seq![
            ("host"@, host_text(form)),
            ("user"@, form.username@),
            ("auth source"@, "admin"@),
            ("timeout"@, timeout_text(form)),
        ]),
    ]
}

/// The details of a MongoDB database from its statistics.
pub fn mongodb_database_details(form: &ConnectionForm, database: &str, facts: MongoDatabaseFacts) -> (r:
    DatabaseDetails)
    ensures
        r.database@ == database@,
        r.driver == DatabaseDriver::MongoDb,
        sections_view(r.sections@) == mongodb_database_sections(*form, database@, facts),
{
    let ghost spec_sections = mongodb_database_sections(*form, database@, facts);
    let mut sections: Vec<DatabaseDetailSection> = Vec::new();
    push_section(
        &mut sections,
        section4(
            DatabaseDetailSectionKind::Core,
            field("database", owned(database)),
            field("driver", owned("MongoDB")),
            field("server version", facts.server_version),
            field("storage engine", facts.storage_engine),
        ),
    );
    push_section(
        &mut sections,
        section4(
            DatabaseDetailSectionKind::Storage,
            field("data size", facts.data_size),
            field("storage size", facts.storage_size),
            field("index size", facts.index_size),
            field("scale factor", facts.scale_factor),
        ),
    );
    push_section(
        &mut sections,
        section4(
            DatabaseDetailSectionKind::Objects,
            field("collections", facts.collections),
            field("views", facts.views),
            field("documents", facts.documents),
            field("indexes", facts.indexes),
        ),
    );
    push_section(
        &mut sections,
        section4(
            DatabaseDetailSectionKind::Runtime,
            field("host", host_label(form)),
            field("user", form.username.clone()),
            field("auth source", owned("admin")),
            field("timeout", timeout_label(form)),
        ),
    );
    assert(sections_view(sections@) =~= spec_sections);
    DatabaseDetails { database: owned(database), driver: DatabaseDriver::MongoDb, sections }
}

// ---------------------------------------------------------------------------
// Tables
// ---------------------------------------------------------------------------

/// The count of a list as shown.
pub open spec fn count_text(n: nat) -> Seq<char> {
    decimal(n)
}

/// A column as SQLite's `table_xinfo` reports it: nullable unless flagged
/// not-null, the default or nothing, and `hidden=<n>` for a hidden column.
pub fn sqlite_column_detail(
    name: String,
    data_type: String,
    not_null: i64,
    default_value: Option<String>,
    hidden: i64,
) -> (r: TableColumnDetail)
    ensures
        r.name == name,
        r.data_type == data_type,
        r.nullable@ == (if not_null == 0 {
            "YES"@
        } else {
            "NO"@
        }),
        r.default_value@ == (match default_value {
            Some(v) => v@,
            None => Seq::<char>::empty(),
        }),
        r.extra@ == (if hidden == 0 {
            Seq::<char>::empty()
        } else {
            "hidden="@ + signed_decimal(hidden as int)
        }),
{
    let extra = if hidden == 0 {
        String::new()
    } else {
        let mut e = owned("hidden=");
        e.append(i64_text(hidden).as_str());
        e
    };
    TableColumnDetail {
        name,
        data_type,
        nullable: owned(
            if not_null == 0 {
                "YES"
            } else {
                "NO"
            },
        ),
        default_value: match default_value {
            Some(v) => v,
            None => String::new(),
        },
        extra,
    }
}

/// An index as SQLite's `index_list` reports it.
pub fn sqlite_index_detail(name: String, unique: i64) -> (r: TableIndexDetail)
    ensures
        r.name == name,
        r.columns@ == "inspect index_xinfo"@,
        r.unique@ == (if unique == 1 {
            "YES"@
        } else {
            "NO"@
        }),
{
    TableIndexDetail {
        name,
        columns: owned("inspect index_xinfo"),
        unique: owned(
            if unique == 1 {
                "YES"
            } else {
                "NO"
            },
        ),
    }
}

/// The sections shown for a SQLite table.
pub open spec fn sqlite_table_sections(
    form: ConnectionForm,
    table: Seq<char>,
    row_count: Option<i64>,
    columns: nat,
    indexes: nat,
) -> Seq<(DatabaseDetailSectionKind, Seq<(Seq<char>, Seq<char>)>)> {
    seq![
        (DatabaseDetailSectionKind::Core, seq![
            ("table"@, table),
            ("driver"@, "SQLite"@),
            ("object type"@, "table/view"@),
            ("row count"@, match row_count {
                Some(n) => signed_decimal(n as int),
                None => "unknown"@,
            }),
        ]),
        (DatabaseDetailSectionKind::Objects, seq![
            ("columns"@, count_text(columns)),
            ("indexes"@, count_text(indexes)),
            ("database file"@, form.location@),
            ("ddl source"@, "sqlite_schema.sql"@),
        ]),
    ]
}

/// The details of a SQLite table from its stored statement, its columns,
/// its indexes and its row count when that could be read.
pub fn sqlite_table_details(
    form: &ConnectionForm,
    table: &str,
    table_sql: Option<String>,
    columns: Vec<TableColumnDetail>,
    indexes: Vec<TableIndexDetail>,
    row_count: Option<i64>,
) -> (r: TableDetails)
    ensures
        r.table@ == table@,
        r.driver == DatabaseDriver::Sqlite,
        sections_view(r.sections@) == sqlite_table_sections(
            *form,
            table@,
            row_count,
            columns@.len(),
            indexes@.len(),
        ),
        r.columns == columns,
        r.indexes == indexes,
        r.create_statement@ == (match table_sql {
            Some(s) => s@,
            None => Seq::<char>::empty(),
        }),
{
    let ghost spec_sections = sqlite_table_sections(
        *form,
        table@,
        row_count,
        columns@.len(),
        indexes@.len(),
    );
    let rows = match row_count {
        Some(n) => i64_text(n),
        None => owned("unknown"),
    };
    assert(rows@ == spec_sections[0].1[3].1);
    let mut sections: Vec<DatabaseDetailSection> = Vec::new();
    push_section(
        &mut sections,
        section4(
            DatabaseDetailSectionKind::Core,
            field("table", owned(table)),
            field("driver", owned("SQLite")),
            field("object type", owned("table/view")),
            field("row count", rows),
        ),
    );
    push_section(
        &mut sections,
        section4(
            DatabaseDetailSectionKind::Objects,
            field("columns", usize_to_decimal(columns.len())),
            field("indexes", usize_to_decimal(indexes.len())),
            field("database file", form.location.clone()),
            field("ddl source", owned("sqlite_schema.sql")),
        ),
    );
    assert(sections_view(sections@)[0] == spec_sections[0]);
    assert(sections_view(sections@)[1] == spec_sections[1]);
    assert(sections_view(sections@) =~= spec_sections);
    TableDetails {
        table: owned(table),
        driver: DatabaseDriver::Sqlite,
        sections,
        columns,
        indexes,
        create_statement: match table_sql {
            Some(s) => s,
            None => String::new(),
        },
    }
}

/// The schema a MySQL table is described in: the form's database, which
/// must be chosen.
pub fn mysql_table_database(form: &ConnectionForm) -> (r: Result<String, String>)
    ensures
        match r {
            Ok(d) => d@ == trim(form.database@) && d@.len() > 0,
            Err(e) => trim(form.database@).len() == 0 && e@
                == "Select a database before describing a table."@,
        },
{
    let d = trim_str(form.database.as_str());
    if is_empty_text(d) {
        Err(owned("Select a database before describing a table."))
    } else {
        Ok(owned(d))
    }
}

/// The row of `information_schema.tables` for one MySQL table.
#[derive(Debug)]
pub struct MysqlTableRow {
    pub name: String,
    pub table_type: String,
    pub engine: Option<String>,
    pub collation: Option<String>,
    pub rows: Option<u64>,
    pub data_length: Option<u64>,
    pub index_length: Option<u64>,
}

/// An optional text, or nothing.
pub open spec fn text_or_empty(v: Option<String>) -> Seq<char> {
    match v {
        Some(s) => s@,
        None => Seq::<char>::empty(),
    }
}

/// An optional count, or zero.
pub open spec fn count_or_zero(v: Option<u64>) -> nat {
    match v {
        Some(n) => n as nat,
        None => 0,
    }
}

/// The sections shown for a MySQL table.
pub open spec fn mysql_table_sections(
    database: Seq<char>,
    row: MysqlTableRow,
    columns: nat,
    indexes: nat,
) -> Seq<(DatabaseDetailSectionKind, Seq<(Seq<char>, Seq<char>)>)> {
    seq![
        (DatabaseDetailSectionKind::Core, seq![
            ("table"@, row.name@),
            ("database"@, database),
            ("object type"@, row.table_type@),
            ("engine"@, text_or_empty(row.engine)),
        ]),
        (DatabaseDetailSectionKind::Storage, seq![
            ("collation"@, text_or_empty(row.collation)),
            ("estimated rows"@, decimal(count_or_zero(row.rows))),
            ("data size"@, bytes_text(count_or_zero(row.data_length))),
            ("index size"@, bytes_text(count_or_zero(row.index_length))),
        ]),
        (DatabaseDetailSectionKind::Objects, seq![
            ("columns"@, count_text(columns)),
            ("indexes"@, count_text(indexes)),
            ("ddl source"@, "SHOW CREATE TABLE"@),
            ("row read page"@, "100"@),
        ]),
    ]
}

fn text_of(v: Option<String>) -> (r: String)
    ensures
        r@ == text_or_empty(v),
{
    match v {
        Some(s) => s,
        None => String::new(),
    }
}

fn count_of(v: Option<u64>) -> (r: u64)
    ensures
        r as nat == count_or_zero(v),
{
    match v {
        Some(n) => n,
        None => 0,
    }
}

/// The details of a MySQL table from its `information_schema` row, its
/// columns, its indexes and its `SHOW CREATE TABLE` statement.
pub fn mysql_table_details(
    form: &ConnectionForm,
    database: &str,
    row: MysqlTableRow,
    columns: Vec<TableColumnDetail>,
    indexes: Vec<TableIndexDetail>,
    create_statement: String,
) -> (r: TableDetails)
    ensures
        r.table == row.name,
        r.driver == form.driver,
        sections_view(r.sections@) == mysql_table_sections(
            database@,
            row,
            columns@.len(),
            indexes@.len(),
        ),
        r.columns == columns,
        r.indexes == indexes,
        r.create_statement == create_statement,
{
    let ghost spec_sections = mysql_table_sections(database@, row, columns@.len(), indexes@.len());
    let table = row.name.clone();
    let mut sections: Vec<DatabaseDetailSection> = Vec::new();
    push_section(
        &mut sections,
        section4(
            DatabaseDetailSectionKind::Core,
            field("table", row.name),
            field("database", owned(database)),
            field("object type", row.table_type),
            field("engine", text_of(row.engine)),
        ),
    );
    push_section(
        &mut sections,
        section4(
            DatabaseDetailSectionKind::Storage,
            field("collation", text_of(row.collation)),
            field("estimated rows", u128_to_decimal(count_of(row.rows) as u128)),
            field("data size", format_bytes(count_of(row.data_length))),
            field("index size", format_bytes(count_of(row.index_length))),
        ),
    );
    push_section(
        &mut sections,
        section4(
            DatabaseDetailSectionKind::Objects,
            field("columns", usize_to_decimal(columns.len())),
            field("indexes", usize_to_decimal(indexes.len())),
            field("ddl source", owned("SHOW CREATE TABLE")),
            field("row read page", owned("100")),
        ),
    );
    assert(sections_view(sections@) =~= spec_sections);
    TableDetails { table, driver: form.driver, sections, columns, indexes, create_statement }
}

/// A PostgreSQL column's type: with its maximum length in brackets when it
/// has one.
pub open spec fn postgres_type_text(data_type: Seq<char>, max_len: Seq<char>) -> Seq<char> {
    if max_len.len() == 0 {
        data_type
    } else {
        data_type + "("@ + max_len + ")"@
    }
}

/// A column as `information_schema.columns` reports it for PostgreSQL.
pub fn postgres_column_detail(
    name: String,
    data_type: String,
    nullable: String,
    default_value: String,
    max_len: String,
) -> (r: TableColumnDetail)
    ensures
        r.name == name,
        r.data_type@ == postgres_type_text(data_type@, max_len@),
        r.nullable == nullable,
        r.default_value == default_value,
        r.extra@.len() == 0,
{
    let data_type = if is_empty_text(max_len.as_str()) {
        data_type
    } else {
        let mut t = data_type;
        t.append("(");
        t.append(max_len.as_str());
        t.append(")");
        t
    };
    TableColumnDetail { name, data_type, nullable, default_value, extra: String::new() }
}

/// An index as `pg_indexes` reports it: its definition in place of its
/// columns.
pub fn postgres_index_detail(name: String, definition: String) -> (r: TableIndexDetail)
    ensures
        r.name == name,
        r.columns == definition,
        r.unique@ == "see definition"@,
{
    TableIndexDetail { name, columns: definition, unique: owned("see definition") }
}

/// The statistics of a PostgreSQL table: estimated rows, total size and
/// comment; zero, unknown and nothing when it has none.
pub open spec fn stats_or_default(stats: Option<(String, String, String)>) -> (
    Seq<char>,
    Seq<char>,
    Seq<char>,
) {
    match stats {
        Some((a, b, c)) => (a@, b@, c@),
        None => ("0"@, "unknown"@, Seq::<char>::empty()),
    }
}

/// The sections shown for a PostgreSQL table.
pub open spec fn postgres_table_sections(
    form: ConnectionForm,
    schema: Seq<char>,
    name: Seq<char>,
    table_type: Seq<char>,
    stats: (Seq<char>, Seq<char>, Seq<char>),
    columns: nat,
    indexes: nat,
) -> Seq<(DatabaseDetailSectionKind, Seq<(Seq<char>, Seq<char>)>)> {
    seq![
        (DatabaseDetailSectionKind::Core, seq![
            ("table"@, schema + "."@ + name),
            ("schema"@, schema),
            ("object type"@, table_type),
            ("comment"@, stats.2),
        ]),
        (DatabaseDetailSectionKind::Storage, seq![
            ("estimated rows"@, stats.0),
            ("total size"@, stats.1),
            ("database"@, form.database@),
            ("ddl source"@, "pg_catalog reconstruction"@),
        ]),
        (DatabaseDetailSectionKind::Objects, seq![
            ("columns"@, count_text(columns)),
            ("indexes"@, count_text(indexes)),
            ("constraints"@, "inspect pg_constraint"@),
            ("row read page"@, "100"@),
        ]),
    ]
}

/// The details of a PostgreSQL table `schema.name` from its type, columns,
/// indexes, statistics and reconstructed statement.
pub fn postgres_table_details(
    form: &ConnectionForm,
    schema: &str,
    name: &str,
    table_type: String,
    columns: Vec<TableColumnDetail>,
    indexes: Vec<TableIndexDetail>,
    stats: Option<(String, String, String)>,
    create_statement: String,
) -> (r: TableDetails)
    ensures
        r.table@ == schema@ + "."@ + name@,
        r.driver == form.driver,
        sections_view(r.sections@) == postgres_table_sections(
            *form,
            schema@,
            name@,
            table_type@,
            stats_or_default(stats),
            columns@.len(),
            indexes@.len(),
        ),
        r.columns == columns,
        r.indexes == indexes,
        r.create_statement == create_statement,
{
    let ghost spec_sections = postgres_table_sections(
        *form,
        schema@,
        name@,
        table_type@,
        stats_or_default(stats),
        columns@.len(),
        indexes@.len(),
    );
    let (estimated, total, comment) = match stats {
        Some(s) => s,
        None => (owned("0"), owned("unknown"), String::new()),
    };
    let mut qualified = owned(schema);
    qualified.append(".");
    qualified.append(name);
    let mut sections: Vec<DatabaseDetailSection> = Vec::new();
    push_section(
        &mut sections,
        section4(
            DatabaseDetailSectionKind::Core,
            field("table", qualified.clone()),
            field("schema", owned(schema)),
            field("object type", table_type),
            field("comment", comment),
        ),
    );
    push_section(
        &mut sections,
        section4(
            DatabaseDetailSectionKind::Storage,
            field("estimated rows", estimated),
            field("total size", total),
            field("database", form.database.clone()),
            field("ddl source", owned("pg_catalog reconstruction")),
        ),
    );
    push_section(
        &mut sections,
        section4(
            DatabaseDetailSectionKind::Objects,
            field("columns", usize_to_decimal(columns.len())),
            field("indexes", usize_to_decimal(indexes.len())),
            field("constraints", owned("inspect pg_constraint")),
            field("row read page", owned("100")),
        ),
    );
    assert(sections_view(sections@) =~= spec_sections);
    TableDetails {
        table: qualified,
        driver: form.driver,
        sections,
        columns,
        indexes,
        create_statement,
    }
}

/// One column row of `information_schema.columns` that a PostgreSQL
/// statement is rebuilt from.
#[derive(Debug)]
pub struct PgColumnRow {
    pub name: String,
    pub data_type: String,
    pub nullable: String,
    pub default_value: Option<String>,
}

/// The line of one column in a rebuilt statement: quoted name and type, a
/// default when it has one that is not blank, and `NOT NULL` when it is
/// not nullable.
pub open spec fn pg_column_line(c: PgColumnRow) -> Seq<char> {
    let head = "    "@ + quote_plain(c.name@) + " "@ + c.data_type@;
    let with_default = match c.default_value {
        Some(v) => if trim(v@).len() > 0 {
            head + " DEFAULT "@ + v@
        } else {
            head
        },
        None => head,
    };
    if c.nullable@ == "NO"@ {
        with_default + " NOT NULL"@
    } else {
        with_default
    }
}

/// The statement that creates a PostgreSQL table, rebuilt from its
/// columns.
pub open spec fn pg_create_table_text(schema: Seq<char>, table: Seq<char>, columns: Seq<PgColumnRow>) -> Seq<
    char,
> {
    "CREATE TABLE "@ + quote_plain(schema) + "."@ + quote_plain(table) + " (\n"@ + join(
        columns.map_values(|c: PgColumnRow| pg_column_line(c)),
        ",\n"@,
    ) + "\n);"@
}

fn pg_column_line_text(c: &PgColumnRow) -> (r: String)
    ensures
        r@ == pg_column_line(*c),
{
    let mut line = owned("    ");
    line.append(quote_sql_identifier(c.name.as_str()).as_str());
    line.append(" ");
    line.append(c.data_type.as_str());
    match &c.default_value {
        Some(v) => {
            if !is_empty_text(trim_str(v.as_str())) {
                line.append(" DEFAULT ");
                line.append(v.as_str());
            }
        },
        None => {},
    }
    if str_eq(c.nullable.as_str(), "NO") {
        line.append(" NOT NULL");
    }
    line
}

/// The statement that creates a PostgreSQL table, rebuilt from the rows of
/// its columns in order.
pub fn postgres_create_table_statement(schema: &str, table: &str, columns: &Vec<PgColumnRow>) -> (r:
    String)
    ensures
        r@ == pg_create_table_text(schema@, table@, columns@),
{
    let mut lines: Vec<String> = Vec::new();
    let mut i: usize = 0;
    while i < columns.len()
        invariant
            i <= columns.len(),
            views(lines@) == columns@.take(i as int).map_values(|c: PgColumnRow| pg_column_line(c)),
        decreases columns.len() - i,
    {
        let line = pg_column_line_text(&columns[i]);
        let ghost before = views(lines@);
        let ghost lv = line@;
        lines.push(line);
        assert(views(lines@) =~= before.push(lv));
        assert(columns@.take(i + 1) == columns@.take(i as int).push(columns@[i as int]));
        assert(views(lines@) =~= columns@.take(i + 1).map_values(|c: PgColumnRow| pg_column_line(c)));
        i += 1;
    }
    assert(columns@.take(columns.len() as int) == columns@);
    let mut r = owned("CREATE TABLE ");
    r.append(quote_sql_identifier(schema).as_str());
    r.append(".");
    r.append(quote_sql_identifier(table).as_str());
    r.append(" (\n");
    r.append(join_strings(&lines, ",\n").as_str());
    r.append("\n);");
    r
}

/// What `collStats` reports of a MongoDB collection, each value already
/// written out.
#[derive(Debug)]
pub struct MongoCollectionFacts {
    pub documents: String,
    pub size: String,
    pub storage_size: String,
    pub total_index_size: String,
    pub avg_object_size: String,
    pub nindexes: String,
    pub capped: String,
}

/// A text inside a JSON string: backslashes and double quotes escaped.
pub open spec fn json_escaped(value: Seq<char>) -> Seq<char> {
    replace(replace(value, '\\', "\\\\"@), '"', "\\\""@)
}

/// Escapes a text for a JSON string.
pub fn json_escape(value: &str) -> (r: String)
    ensures
        r@ == json_escaped(value@),
{
    let once = replace_char(value, '\\', "\\\\");
    replace_char(once.as_str(), '"', "\\\"")
}

/// The sections shown for a MongoDB collection.
pub open spec fn mongodb_collection_sections(
    form: ConnectionForm,
    table: Seq<char>,
    f: MongoCollectionFacts,
    indexes: nat,
) -> Seq<(DatabaseDetailSectionKind, Seq<(Seq<char>, Seq<char>)>)> {
    seq![
        (DatabaseDetailSectionKind::Core, seq![
            ("collection"@, table),
            ("database"@, probe_database(form)),
            ("type"@, "collection"@),
            ("documents"@, f.documents@),
        ]),
        (DatabaseDetailSectionKind::Storage, seq![
            ("size"@, f.size@),
            ("storage size"@, f.storage_size@),
            ("total index size"@, f.total_index_size@),
            ("avg object size"@, f.avg_object_size@),
        ]),
        (DatabaseDetailSectionKind::Objects, seq![
            ("indexes"@, count_text(indexes)),
            ("nindexes"@, f.nindexes@),
            ("capped"@, f.capped@),
            ("row read page"@, "100"@),
        ]),
    ]
}

/// The details of a MongoDB collection from its statistics and indexes; no
/// columns, and the command that creates it as its statement.
pub fn mongodb_table_details(
    form: &ConnectionForm,
    table: &str,
    facts: MongoCollectionFacts,
    indexes: Vec<TableIndexDetail>,
) -> (r: TableDetails)
    ensures
        r.table@ == table@,
        r.driver == DatabaseDriver::MongoDb,
        sections_view(r.sections@) == mongodb_collection_sections(*form, table@, facts, indexes@.len()),
        r.columns@.len() == 0,
        r.indexes == indexes,
        r.create_statement@ == "{ \"create\": \""@ + json_escaped(table@) + "\" }"@,
{
    let ghost spec_sections = mongodb_collection_sections(*form, table@, facts, indexes@.len());
    let mut sections: Vec<DatabaseDetailSection> = Vec::new();
    push_section(
        &mut sections,
        section4(
            DatabaseDetailSectionKind::Core,
            field("collection", owned(table)),
            field("database", database_name(form)),
            field("type", owned("collection")),
            field("documents", facts.documents),
        ),
    );
    push_section(
        &mut sections,
        section4(
            DatabaseDetailSectionKind::Storage,
            field("size", facts.size),
            field("storage size", facts.storage_size),
            field("total index size", facts.total_index_size),
            field("avg object size", facts.avg_object_size),
        ),
    );
    push_section(
        &mut sections,
        section4(
            DatabaseDetailSectionKind::Objects,
            field("indexes", usize_to_decimal(indexes.len())),
            field("nindexes", facts.nindexes),
            field("capped", facts.capped),
            field("row read page", owned("100")),
        ),
    );
    assert(sections_view(sections@) =~= spec_sections);
    let mut statement = owned("{ \"create\": \"");
    statement.append(json_escape(table).as_str());
    statement.append("\" }");
    TableDetails {
        table: owned(table),
        driver: DatabaseDriver::MongoDb,
        sections,
        columns: Vec::new(),
        indexes,
        create_statement: statement,
    }
}

// ---------------------------------------------------------------------------
// Which source answers a request
// ---------------------------------------------------------------------------

/// Where the details of a database or table come from.
#[derive(Debug, Clone, Copy, PartialEq, Eq, Structural)]
pub enum DetailsSource {
    Sqlite,
    MySql,
    Postgres,
    MongoDb,
    /// No live inspector: the form alone is shown.
    Fallback,
}

/// The source for a driver.
pub open spec fn source_for(driver: DatabaseDriver) -> DetailsSource {
    match driver {
        DatabaseDriver::Sqlite => DetailsSource::Sqlite,
        DatabaseDriver::MySql | DatabaseDriver::MariaDb | DatabaseDriver::TiDb => DetailsSource::MySql,
        DatabaseDriver::PostgreSql | DatabaseDriver::CockroachDb => DetailsSource::Postgres,
        DatabaseDriver::MongoDb => DetailsSource::MongoDb,
        DatabaseDriver::SqlServer | DatabaseDriver::Oracle => DetailsSource::Fallback,
    }
}

fn source_of(driver: DatabaseDriver) -> (r: DetailsSource)
    ensures
        r == source_for(driver),
{
    match driver {
        DatabaseDriver::Sqlite => DetailsSource::Sqlite,
        DatabaseDriver::MySql | DatabaseDriver::MariaDb | DatabaseDriver::TiDb => DetailsSource::MySql,
        DatabaseDriver::PostgreSql | DatabaseDriver::CockroachDb => DetailsSource::Postgres,
        DatabaseDriver::MongoDb => DetailsSource::MongoDb,
        DatabaseDriver::SqlServer | DatabaseDriver::Oracle => DetailsSource::Fallback,
    }
}

/// The answer to a request for a database's details: a name is needed
/// except for SQLite, then a valid form; the trimmed name and the source.
pub open spec fn database_request(form: ConnectionForm, database: Seq<char>) -> Result<
    (Seq<char>, DetailsSource),
    Seq<Seq<char>>,
> {
    if trim(database).len() == 0 && form.driver != DatabaseDriver::Sqlite {
        Err(seq!["Database name is required."@])
    } else if validation_messages(form).len() > 0 {
        Err(validation_messages(form))
    } else {
        Ok((trim(database), source_for(form.driver)))
    }
}

/// Where the details of `database` are read from, and its trimmed name, or
/// the errors that stop the request.
pub fn database_details_source(form: &ConnectionForm, database: &str) -> (r: Result<
    (String, DetailsSource),
    Vec<String>,
>)
    ensures
        match r {
            Ok((name, source)) => database_request(*form, database@) == Ok::<
                (Seq<char>, DetailsSource),
                Seq<Seq<char>>,
            >((name@, source)),
            Err(errors) => database_request(*form, database@) == Err::<
                (Seq<char>, DetailsSource),
                Seq<Seq<char>>,
            >(views(errors@)),
        },
{
    let name = trim_str(database);
    if is_empty_text(name) && form.driver != DatabaseDriver::Sqlite {
        let mut errors: Vec<String> = Vec::new();
        errors.push(owned("Database name is required."));
        assert(views(errors@) =~= seq!["Database name is required."@]);
        return Err(errors);
    }
    match form.validate() {
        Ok(()) => {},
        Err(errors) => {
            return Err(errors);
        },
    }
    Ok((owned(name), source_of(form.driver)))
}

/// The answer to a request for a table's details: a name is needed, then a
/// valid form; the trimmed name and the source.
pub open spec fn table_request(form: ConnectionForm, table: Seq<char>) -> Result<
    (Seq<char>, DetailsSource),
    Seq<Seq<char>>,
> {
    if trim(table).len() == 0 {
        Err(seq!["Table name is required."@])
    } else if validation_messages(form).len() > 0 {
        Err(validation_messages(form))
    } else {
        Ok((trim(table), source_for(form.driver)))
    }
}

/// Where the details of `table` are read from, and its trimmed name, or the
/// errors that stop the request.
pub fn table_details_source(form: &ConnectionForm, table: &str) -> (r: Result<
    (String, DetailsSource),
    Vec<String>,
>)
    ensures
        match r {
            Ok((name, source)) => table_request(*form, table@) == Ok::<
                (Seq<char>, DetailsSource),
                Seq<Seq<char>>,
            >((name@, source)),
            Err(errors) => table_request(*form, table@) == Err::<
                (Seq<char>, DetailsSource),
                Seq<Seq<char>>,
            >(views(errors@)),
        },
{
    let name = trim_str(table);
    if is_empty_text(name) {
        let mut errors: Vec<String> = Vec::new();
        errors.push(owned("Table name is required."));
        assert(views(errors@) =~= seq!["Table name is required."@]);
        return Err(errors);
    }
    match form.validate() {
        Ok(()) => {},
        Err(errors) => {
            return Err(errors);
        },
    }
    Ok((owned(name), source_of(form.driver)))
}

} // verus!
