//! The statements and commands that create a designed table, with its
//! columns, constraints and indexes.
use vstd::prelude::*;
use crate::connection::ConnectionForm;
use crate::dialect::{
    json_escape, json_escaped, mysql_charset_or_default, mysql_collation_or_default, or_default,
    quote_dotted_identifier, quote_mysql, quote_mysql_identifier, quote_plain,
    quote_plain_identifier, quote_sql_server, quote_sql_server_identifier, quote_sql_server_table,
    quote_with, quoted, sql_string_literal, string_literal, Quoting,
};
use crate::drafts::{
    CreateTableColumnDraft, CreateTableConstraintDraft, CreateTableDraft, CreateTableIndexDraft,
};
use crate::driver::{is_mysql_family, DatabaseDriver};
use crate::schema::{
    column_entries, column_list, first_or, index_types, mongodb_index_keys, mongodb_keys,
    mysql_index_keywords, mysql_index_type_sql, normalized_index_type, normalized_option,
    oracle_index_keyword, oracle_index_type_sql, postgres_index_keywords, postgres_index_type_sql,
    sql_server_index_keyword, sql_server_index_type_sql, sqlite_index_keyword,
    sqlite_index_type_sql,
};
use crate::sql_database::text_result;
use crate::text::{
    contains, ends_with, ends_with_str, eq_ci, lemma_contains_grow, lemma_contains_middle,
    lemma_contains_trans, lemma_ends_with_concat, lemma_join_contains, lemma_join_contains_after_sep,
    lemma_join_starts_with_first, lemma_starts_with_concat, lemma_starts_with_trans, starts_with, eq_ignore_ascii_case, is_empty_text, join, join_strings,
    lower, owned, str_eq, to_ascii_lower, to_ascii_upper_string, to_uppercase, trim, trim_str,
    unicode_upper, upper, views,
};

verus! {

// ---------------------------------------------------------------------------
// Columns
// ---------------------------------------------------------------------------

/// How column and constraint names are quoted for a driver.
pub open spec fn column_quoting(driver: DatabaseDriver) -> Quoting {
    match driver {
        DatabaseDriver::MySql | DatabaseDriver::MariaDb | DatabaseDriver::TiDb => Quoting::MySql,
        DatabaseDriver::SqlServer => Quoting::SqlServer,
        _ => Quoting::Plain,
    }
}

/// A column or constraint name quoted for a driver.
pub fn quote_column_name(driver: DatabaseDriver, name: &str) -> (r: String)
    ensures
        r@ == quoted(column_quoting(driver), name@),
{
    let q = match driver {
        DatabaseDriver::MySql | DatabaseDriver::MariaDb | DatabaseDriver::TiDb => Quoting::MySql,
        DatabaseDriver::SqlServer => Quoting::SqlServer,
        _ => Quoting::Plain,
    };
    quote_with(q, name)
}

/// `prefix` then `value`, or nothing when `value` is empty.
pub open spec fn prefixed(prefix: Seq<char>, value: Seq<char>) -> Seq<char> {
    if value.len() == 0 {
        Seq::<char>::empty()
    } else {
        prefix + value
    }
}

/// ` NOT NULL` unless the nullable flag reads `YES` (any ASCII case).
pub open spec fn not_null_clause(nullable: Seq<char>) -> Seq<char> {
    if eq_ci(trim(nullable), "YES"@) {
        Seq::<char>::empty()
    } else {
        " NOT NULL"@
    }
}

/// The definition of one designed column, or why it has none.
pub open spec fn column_sql(driver: DatabaseDriver, c: CreateTableColumnDraft) -> Result<
    Seq<char>,
    Seq<char>,
> {
    let name = trim(c.name@);
    let data_type = trim(c.data_type@);
    if name.len() == 0 || data_type.len() == 0 {
        Err("Column name and data type are required."@)
    } else {
        Ok(quoted(column_quoting(driver), name) + " "@ + data_type + not_null_clause(c.nullable@)
            + prefixed(" DEFAULT "@, trim(c.default_value@)) + prefixed(" "@, trim(c.extra@)))
    }
}

/// A designed column row left entirely blank, which is skipped.
pub open spec fn is_blank_column(c: CreateTableColumnDraft) -> bool {
    trim(c.name@).len() == 0 && trim(c.data_type@).len() == 0
}

/// The definitions of the non-blank columns in order, or the first error.
pub open spec fn columns_sql(driver: DatabaseDriver, cols: Seq<CreateTableColumnDraft>) -> Result<
    Seq<Seq<char>>,
    Seq<char>,
>
    decreases cols.len(),
{
    if cols.len() == 0 {
        Ok(Seq::<Seq<char>>::empty())
    } else {
        match columns_sql(driver, cols.drop_last()) {
            Err(e) => Err(e),
            Ok(v) => if is_blank_column(cols.last()) {
                Ok(v)
            } else {
                match column_sql(driver, cols.last()) {
                    Err(e) => Err(e),
                    Ok(s) => Ok(v.push(s)),
                }
            },
        }
    }
}

/// The column definitions of a table: none for MongoDB; an error when no
/// column is given.
pub open spec fn table_columns_sql(driver: DatabaseDriver, cols: Seq<CreateTableColumnDraft>) -> Result<
    Seq<Seq<char>>,
    Seq<char>,
> {
    if driver == DatabaseDriver::MongoDb {
        Ok(Seq::<Seq<char>>::empty())
    } else {
        match columns_sql(driver, cols) {
            Err(e) => Err(e),
            Ok(v) => if v.len() == 0 {
                Err("At least one column is required."@)
            } else {
                Ok(v)
            },
        }
    }
}

/// The result of a list of strings as views.
pub open spec fn texts_result(r: Result<Vec<String>, String>) -> Result<Seq<Seq<char>>, Seq<char>> {
    match r {
        Ok(v) => Ok(views(v@)),
        Err(e) => Err(e@),
    }
}

/// The definition of one column: its quoted name, its type, ` NOT NULL`
/// unless it is nullable, and its default and extra clauses.
pub fn create_table_column(driver: DatabaseDriver, column: &CreateTableColumnDraft) -> (r: Result<
    String,
    String,
>)
    ensures
        text_result(r) == column_sql(driver, *column),
{
    let name = trim_str(column.name.as_str());
    let data_type = trim_str(column.data_type.as_str());
    if is_empty_text(name) || is_empty_text(data_type) {
        return Err(owned("Column name and data type are required."));
    }
    let mut r = quote_column_name(driver, name);
    r.append(" ");
    r.append(data_type);
    let ghost head = r@;
    if !eq_ignore_ascii_case(trim_str(column.nullable.as_str()), "YES") {
        r.append(" NOT NULL");
    }
    assert(r@ =~= head + not_null_clause(column.nullable@));
    let ghost head = r@;
    let default_value = trim_str(column.default_value.as_str());
    if !is_empty_text(default_value) {
        r.append(" DEFAULT ");
        r.append(default_value);
    }
    assert(r@ =~= head + prefixed(" DEFAULT "@, trim(column.default_value@)));
    let ghost head = r@;
    let extra = trim_str(column.extra.as_str());
    if !is_empty_text(extra) {
        r.append(" ");
        r.append(extra);
    }
    assert(r@ =~= head + prefixed(" "@, trim(column.extra@)));
    Ok(r)
}

/// A designed column's default always reaches its definition: the definition
/// begins with the quoted name and the type, and when the trimmed default `d`
/// is not blank it ends with the ` NOT NULL` clause, ` DEFAULT `, `d` and then
/// only the extra clause.
#[verifier::spinoff_prover]
pub proof fn column_default_reaches_definition(driver: DatabaseDriver, c: CreateTableColumnDraft)
    requires
        trim(c.name@).len() > 0,
        trim(c.data_type@).len() > 0,
    ensures
        column_sql(driver, c) matches Ok(s) && starts_with(
            s,
            quoted(column_quoting(driver), trim(c.name@)) + " "@ + trim(c.data_type@),
        ) && (trim(c.default_value@).len() > 0 ==> ends_with(
            s,
            not_null_clause(c.nullable@) + " DEFAULT "@ + trim(c.default_value@) + prefixed(
                " "@,
                trim(c.extra@),
            ),
        )),
{
    let head = quoted(column_quoting(driver), trim(c.name@)) + " "@ + trim(c.data_type@);
    let rest = not_null_clause(c.nullable@) + prefixed(" DEFAULT "@, trim(c.default_value@))
        + prefixed(" "@, trim(c.extra@));
    match column_sql(driver, c) {
        Ok(s) => {
            assert(s =~= head + rest);
            lemma_starts_with_concat(head, rest);
            if trim(c.default_value@).len() > 0 {
                let tail = not_null_clause(c.nullable@) + " DEFAULT "@ + trim(c.default_value@)
                    + prefixed(" "@, trim(c.extra@));
                assert(s =~= head + tail);
                lemma_ends_with_concat(head, tail);
            }
        },
        Err(_) => {},
    }
}

proof fn lemma_column_error_persists(
    driver: DatabaseDriver,
    cols: Seq<CreateTableColumnDraft>,
    i: int,
)
    requires
        0 <= i <= cols.len(),
        columns_sql(driver, cols.take(i)) is Err,
    ensures
        columns_sql(driver, cols) == columns_sql(driver, cols.take(i)),
    decreases cols.len() - i,
{
    if i < cols.len() {
        assert(cols.take(i + 1).drop_last() == cols.take(i));
        lemma_column_error_persists(driver, cols, i + 1);
    } else {
        assert(cols.take(i) == cols);
    }
}

/// The definitions of the table's columns; blank rows are skipped, the first
/// column in error fails the whole, and at least one column is required
/// (MongoDB collections have none).
pub fn create_table_columns(driver: DatabaseDriver, draft: &CreateTableDraft) -> (r: Result<
    Vec<String>,
    String,
>)
    ensures
        texts_result(r) == table_columns_sql(driver, draft.columns@),
{
    if driver == DatabaseDriver::MongoDb {
        let none: Vec<String> = Vec::new();
        assert(views(none@) =~= Seq::<Seq<char>>::empty());
        return Ok(none);
    }
    let cols = &draft.columns;
    let mut out: Vec<String> = Vec::new();
    assert(views(out@) =~= Seq::<Seq<char>>::empty());
    assert(cols@.take(0) =~= Seq::<CreateTableColumnDraft>::empty());
    let mut i: usize = 0;
    while i < cols.len()
        invariant
            i <= cols.len(),
            cols@ == draft.columns@,
            driver != DatabaseDriver::MongoDb,
            columns_sql(driver, cols@.take(i as int)) == Ok::<Seq<Seq<char>>, Seq<char>>(
                views(out@),
            ),
        decreases cols.len() - i,
    {
        let c = &cols[i];
        proof {
            assert(cols@.take(i + 1).drop_last() == cols@.take(i as int));
            assert(cols@.take(i + 1).last() == cols@[i as int]);
        }
        if !(is_empty_text(trim_str(c.name.as_str())) && is_empty_text(
            trim_str(c.data_type.as_str()),
        )) {
            match create_table_column(driver, c) {
                Ok(s) => {
                    let ghost before = views(out@);
                    let ghost sv = s@;
                    out.push(s);
                    proof {
                        assert(views(out@) =~= before.push(sv));
                    }
                },
                Err(e) => {
                    proof {
                        assert(!is_blank_column(cols@[i as int]));
                        assert(columns_sql(driver, cols@.take(i + 1)) == Err::<Seq<Seq<char>>, Seq<char>>(e@));
                        lemma_column_error_persists(driver, cols@, i + 1);
                    }
                    return Err(e);
                },
            }
        }
        i += 1;
    }
    proof {
        assert(cols@.take(cols.len() as int) == cols@);
    }
    if out.len() == 0 {
        Err(owned("At least one column is required."))
    } else {
        Ok(out)
    }
}

// ---------------------------------------------------------------------------
// Constraints
// ---------------------------------------------------------------------------

/// The clause of a constraint whose kind is already upper-cased: `None` when
/// the kind or the expression is blank.
pub open spec fn constraint_text(
    driver: DatabaseDriver,
    name: Seq<char>,
    kind: Seq<char>,
    expression: Seq<char>,
) -> Option<Seq<char>> {
    let e = trim(expression);
    let n = trim(name);
    if kind.len() == 0 || e.len() == 0 {
        None
    } else {
        let name_clause = if n.len() == 0 {
            Seq::<char>::empty()
        } else {
            "CONSTRAINT "@ + quoted(column_quoting(driver), n) + " "@
        };
        let clause = if kind == "PRIMARY KEY"@ || kind == "UNIQUE"@ {
            kind + " ("@ + e + ")"@
        } else if kind == "CHECK"@ {
            "CHECK ("@ + e + ")"@
        } else if kind == "FOREIGN KEY"@ {
            "FOREIGN KEY "@ + e
        } else {
            kind + " "@ + e
        };
        Some(name_clause + clause)
    }
}

/// The clause of a designed constraint; its kind is trimmed and upper-cased
/// first.
pub open spec fn constraint_sql(driver: DatabaseDriver, c: CreateTableConstraintDraft) -> Option<
    Seq<char>,
> {
    constraint_text(driver, c.name@, unicode_upper(trim(c.kind@)), c.expression@)
}

/// The clauses of the constraints that produce one, in order.
pub open spec fn constraints_sql(
    driver: DatabaseDriver,
    cs: Seq<CreateTableConstraintDraft>,
) -> Seq<Seq<char>>
    decreases cs.len(),
{
    if cs.len() == 0 {
        Seq::<Seq<char>>::empty()
    } else {
        let rest = constraints_sql(driver, cs.drop_last());
        match constraint_sql(driver, cs.last()) {
            Some(s) => rest.push(s),
            None => rest,
        }
    }
}

/// The text of an optional string.
pub open spec fn opt_text(r: Option<String>) -> Option<Seq<char>> {
    match r {
        Some(s) => Some(s@),
        None => None,
    }
}

/// The clause of a constraint of the upper-cased `kind`, named when `name`
/// is not blank: `PRIMARY KEY (..)` and `UNIQUE (..)` and `CHECK (..)` wrap
/// the expression, `FOREIGN KEY ..` and any other kind precede it.
pub fn constraint_definition(
    driver: DatabaseDriver,
    name: &str,
    kind: &str,
    expression: &str,
) -> (r: Option<String>)
    ensures
        opt_text(r) == constraint_text(driver, name@, kind@, expression@),
{
    let expression = trim_str(expression);
    if is_empty_text(kind) || is_empty_text(expression) {
        return None;
    }
    let name = trim_str(name);
    let mut r = String::new();
    if !is_empty_text(name) {
        r.append("CONSTRAINT ");
        r.append(quote_column_name(driver, name).as_str());
        r.append(" ");
    }
    if str_eq(kind, "PRIMARY KEY") || str_eq(kind, "UNIQUE") {
        r.append(kind);
        r.append(" (");
        r.append(expression);
        r.append(")");
    } else if str_eq(kind, "CHECK") {
        r.append("CHECK (");
        r.append(expression);
        r.append(")");
    } else if str_eq(kind, "FOREIGN KEY") {
        r.append("FOREIGN KEY ");
        r.append(expression);
    } else {
        r.append(kind);
        r.append(" ");
        r.append(expression);
    }
    Some(r)
}

/// The clause of one designed constraint, or `None` when its kind or its
/// expression is blank.
pub fn create_table_constraint(
    driver: DatabaseDriver,
    constraint: &CreateTableConstraintDraft,
) -> (r: Option<String>)
    ensures
        opt_text(r) == constraint_sql(driver, *constraint),
{
    let kind = to_uppercase(trim_str(constraint.kind.as_str()));
    constraint_definition(driver, constraint.name.as_str(), kind.as_str(), constraint.expression.as_str())
}

/// The clauses of the table's constraints, skipping those without kind or
/// expression.
pub fn create_table_constraints(driver: DatabaseDriver, draft: &CreateTableDraft) -> (r: Vec<String>)
    ensures
        views(r@) == constraints_sql(driver, draft.constraints@),
{
    let cs = &draft.constraints;
    let mut out: Vec<String> = Vec::new();
    let mut i: usize = 0;
    while i < cs.len()
        invariant
            i <= cs.len(),
            cs@ == draft.constraints@,
            views(out@) == constraints_sql(driver, cs@.take(i as int)),
        decreases cs.len() - i,
    {
        proof {
            assert(cs@.take(i + 1).drop_last() == cs@.take(i as int));
            assert(cs@.take(i + 1).last() == cs@[i as int]);
        }
        match create_table_constraint(driver, &cs[i]) {
            Some(s) => {
                let ghost before = views(out@);
                let ghost sv = s@;
                out.push(s);
                proof {
                    assert(views(out@) =~= before.push(sv));
                }
            },
            None => {},
        }
        i += 1;
    }
    proof {
        assert(cs@.take(cs.len() as int) == cs@);
    }
    out
}

/// The column definitions, then the constraint clauses, one per line.
pub fn join_table_parts(columns: Vec<String>, constraints: Vec<String>) -> (r: String)
    ensures
        r@ == join(views(columns@) + views(constraints@), ",\n    "@),
{
    let mut parts = columns;
    let ghost first = views(parts@);
    let mut i: usize = 0;
    while i < constraints.len()
        invariant
            i <= constraints.len(),
            views(parts@) == first + views(constraints@).take(i as int),
        decreases constraints.len() - i,
    {
        let ghost before = views(parts@);
        let item = constraints[i].clone();
        let ghost iv = item@;
        parts.push(item);
        proof {
            assert(views(parts@) =~= before.push(iv));
            assert(views(constraints@).take(i + 1) =~= views(constraints@).take(i as int).push(
                constraints@[i as int]@,
            ));
        }
        i += 1;
    }
    proof {
        assert(views(constraints@).take(constraints.len() as int) == views(constraints@));
    }
    join_strings(&parts, ",\n    ")
}

// ---------------------------------------------------------------------------
// Indexes
// ---------------------------------------------------------------------------

/// The names and data types of the table's columns, as texts.
pub open spec fn pair_views(v: Seq<(String, String)>) -> Seq<(Seq<char>, Seq<char>)> {
    v.map_values(|p: (String, String)| (p.0@, p.1@))
}

/// The data type of the first column whose trimmed name equals `name` up to
/// ASCII case.
pub open spec fn column_type_of(cols: Seq<(Seq<char>, Seq<char>)>, name: Seq<char>) -> Option<
    Seq<char>,
>
    decreases cols.len(),
{
    if cols.len() == 0 {
        None
    } else if eq_ci(trim(cols[0].0), name) {
        Some(cols[0].1)
    } else {
        column_type_of(cols.drop_first(), name)
    }
}

/// A TEXT or BLOB type (of any size), which MySQL indexes only by a prefix.
pub open spec fn is_long_text_type(data_type: Seq<char>) -> bool {
    let t = lower(trim(data_type));
    ends_with(t, "text"@) || ends_with(t, "blob"@)
}

/// The column is indexed by its first 191 characters: the index is neither
/// FULLTEXT nor SPATIAL and the column holds long text.
pub open spec fn indexed_by_prefix(
    name: Seq<char>,
    cols: Seq<(Seq<char>, Seq<char>)>,
    index_type: Seq<char>,
) -> bool {
    let t = upper(index_type);
    &&& t != "FULLTEXT"@
    &&& t != "SPATIAL"@
    &&& match column_type_of(cols, name) {
        Some(data_type) => is_long_text_type(data_type),
        None => false,
    }
}

/// One indexed column in MySQL.
pub open spec fn mysql_index_column(
    name: Seq<char>,
    cols: Seq<(Seq<char>, Seq<char>)>,
    index_type: Seq<char>,
) -> Seq<char> {
    if indexed_by_prefix(name, cols, index_type) {
        quote_mysql(name) + "(191)"@
    } else {
        quote_mysql(name)
    }
}

/// The indexed columns of a comma-separated list in MySQL.
pub open spec fn mysql_index_columns(
    columns: Seq<char>,
    cols: Seq<(Seq<char>, Seq<char>)>,
    index_type: Seq<char>,
) -> Seq<char> {
    join(
        column_entries(columns).map_values(|e: Seq<char>| mysql_index_column(e, cols, index_type)),
        ", "@,
    )
}

fn find_column_type(cols: &Vec<(String, String)>, name: &str) -> (r: Option<usize>)
    ensures
        match r {
            Some(i) => i < cols.len() && column_type_of(pair_views(cols@), name@) == Some(
                cols@[i as int].1@,
            ),
            None => column_type_of(pair_views(cols@), name@) is None,
        },
{
    let ghost pv = pair_views(cols@);
    let mut i: usize = 0;
    assert(pv.skip(0) =~= pv);
    while i < cols.len()
        invariant
            i <= cols.len(),
            pv == pair_views(cols@),
            column_type_of(pv, name@) == column_type_of(pv.skip(i as int), name@),
        decreases cols.len() - i,
    {
        proof {
            assert(pv.skip(i as int)[0] == pv[i as int]);
            assert(pv.skip(i as int).drop_first() =~= pv.skip(i + 1));
        }
        if eq_ignore_ascii_case(trim_str(cols[i].0.as_str()), name) {
            return Some(i);
        }
        i += 1;
    }
    None
}

/// The indexed columns for MySQL: each listed column quoted, with a prefix
/// length of 191 for TEXT and BLOB columns unless the index is FULLTEXT or
/// SPATIAL.
pub fn mysql_index_columns_sql(
    columns: &str,
    table_columns: &Vec<(String, String)>,
    index_type: &str,
) -> (r: String)
    ensures
        r@ == mysql_index_columns(columns@, pair_views(table_columns@), index_type@),
{
    let t = to_ascii_upper_string(index_type);
    let whole = str_eq(t.as_str(), "FULLTEXT") || str_eq(t.as_str(), "SPATIAL");
    let entries = column_list(columns);
    let ghost cols = pair_views(table_columns@);
    let mut parts: Vec<String> = Vec::new();
    let mut i: usize = 0;
    while i < entries.len()
        invariant
            i <= entries.len(),
            cols == pair_views(table_columns@),
            whole == (upper(index_type@) == "FULLTEXT"@ || upper(index_type@) == "SPATIAL"@),
            views(entries@) == column_entries(columns@),
            views(parts@) == views(entries@).take(i as int).map_values(
                |e: Seq<char>| mysql_index_column(e, cols, index_type@),
            ),
        decreases entries.len() - i,
    {
        let name = entries[i].as_str();
        let mut part = quote_mysql_identifier(name);
        let prefix = if whole {
            false
        } else {
            match find_column_type(table_columns, name) {
                Some(k) => {
                    let data_type = to_ascii_lower(trim_str(table_columns[k].1.as_str()));
                    ends_with_str(data_type.as_str(), "text") || ends_with_str(
                        data_type.as_str(),
                        "blob",
                    )
                },
                None => false,
            }
        };
        if prefix {
            part.append("(191)");
        }
        let ghost before = views(parts@);
        let ghost pv = part@;
        proof {
            assert(prefix == indexed_by_prefix(name@, cols, index_type@));
            assert(pv == mysql_index_column(name@, cols, index_type@));
        }
        parts.push(part);
        proof {
            assert(views(parts@) =~= before.push(pv));
            assert(views(entries@).take(i + 1) == views(entries@).take(i as int).push(
                entries@[i as int]@,
            ));
            assert(views(parts@) =~= views(entries@).take(i + 1).map_values(
                |e: Seq<char>| mysql_index_column(e, cols, index_type@),
            ));
        }
        i += 1;
    }
    proof {
        assert(views(entries@).take(entries.len() as int) == views(entries@));
    }
    join_strings(&parts, ", ")
}

/// The statement (for MongoDB, the command) that creates an index of the
/// normalized `index_type` named `name` on the listed columns of `table`.
pub open spec fn index_sql(
    driver: DatabaseDriver,
    database: Seq<char>,
    table: Seq<char>,
    name: Seq<char>,
    columns: Seq<char>,
    index_type: Seq<char>,
    cols: Seq<(Seq<char>, Seq<char>)>,
) -> Seq<char> {
    match driver {
        DatabaseDriver::MySql | DatabaseDriver::MariaDb | DatabaseDriver::TiDb => "CREATE "@
            + mysql_index_keywords(index_type).0 + "INDEX "@ + quote_mysql(name)
            + mysql_index_keywords(index_type).1 + " ON "@ + quote_mysql(database) + "."@
            + quote_mysql(table) + " ("@ + mysql_index_columns(columns, cols, index_type) + ");"@,
        DatabaseDriver::PostgreSql | DatabaseDriver::CockroachDb => "CREATE "@
            + postgres_index_keywords(index_type).0 + "INDEX "@ + quote_plain(name) + " ON "@
            + quoted(Quoting::Dotted, table) + " USING "@ + postgres_index_keywords(index_type).1
            + " ("@ + columns + ");"@,
        DatabaseDriver::Sqlite => "CREATE "@ + sqlite_index_keyword(index_type) + "INDEX "@
            + quote_plain(name) + " ON "@ + quote_plain(table) + " ("@ + columns + ");"@,
        DatabaseDriver::SqlServer => "CREATE "@ + sql_server_index_keyword(index_type)
            + " INDEX "@ + quote_sql_server(name) + " ON "@ + quoted(Quoting::SqlServerTable, table)
            + " ("@ + columns + ");"@,
        DatabaseDriver::Oracle => "CREATE "@ + oracle_index_keyword(index_type) + "INDEX "@
            + quote_plain(name) + " ON "@ + quote_plain(table) + " ("@ + columns + ");"@,
        DatabaseDriver::MongoDb => "{\"createIndexes\":\""@ + json_escaped(table)
            + "\",\"indexes\":[{\"key\":{"@ + mongodb_keys(columns, index_type) + "},\"name\":\""@
            + json_escaped(name) + "\"}]}"@,
    }
}

/// An index statement names its index, its table and its columns in their
/// places: `INDEX `, the index name, ` ON ` and the table (each quoted for
/// the driver; for the MySQL family the table inside the database), and the
/// column list in brackets at the end. MongoDB's command names the
/// collection first and the index last.
#[verifier::spinoff_prover]
#[verifier::rlimit(50)]
pub proof fn index_names_its_table_and_columns(
    driver: DatabaseDriver,
    database: Seq<char>,
    table: Seq<char>,
    name: Seq<char>,
    columns: Seq<char>,
    index_type: Seq<char>,
    cols: Seq<(Seq<char>, Seq<char>)>,
)
    ensures
        ({
            let s = index_sql(driver, database, table, name, columns, index_type, cols);
            match driver {
                DatabaseDriver::MySql | DatabaseDriver::MariaDb | DatabaseDriver::TiDb => contains(
                    s,
                    "INDEX "@ + quote_mysql(name),
                ) && contains(s, " ON "@ + quote_mysql(database) + "."@ + quote_mysql(table) + " ("@)
                    && ends_with(s, ");"@),
                DatabaseDriver::PostgreSql | DatabaseDriver::CockroachDb => contains(
                    s,
                    "INDEX "@ + quote_plain(name) + " ON "@ + quoted(Quoting::Dotted, table)
                        + " USING "@,
                ) && ends_with(s, " ("@ + columns + ");"@),
                DatabaseDriver::Sqlite | DatabaseDriver::Oracle => ends_with(
                    s,
                    "INDEX "@ + quote_plain(name) + " ON "@ + quote_plain(table) + " ("@ + columns
                        + ");"@,
                ),
                DatabaseDriver::SqlServer => ends_with(
                    s,
                    " INDEX "@ + quote_sql_server(name) + " ON "@ + quoted(
                        Quoting::SqlServerTable,
                        table,
                    ) + " ("@ + columns + ");"@,
                ),
                DatabaseDriver::MongoDb => starts_with(
                    s,
                    "{\"createIndexes\":\""@ + json_escaped(table) + "\",\"indexes\":[{\"key\":{"@,
                ) && ends_with(s, "},\"name\":\""@ + json_escaped(name) + "\"}]}"@),
            }
        }),
{
    let s = index_sql(driver, database, table, name, columns, index_type, cols);
    match driver {
        DatabaseDriver::MySql | DatabaseDriver::MariaDb | DatabaseDriver::TiDb => {
            let a = "CREATE "@ + mysql_index_keywords(index_type).0;
            let n = "INDEX "@ + quote_mysql(name);
            let k = mysql_index_keywords(index_type).1;
            let o = " ON "@ + quote_mysql(database) + "."@ + quote_mysql(table) + " ("@;
            let m = mysql_index_columns(columns, cols, index_type);
            assert(s =~= a + n + (k + o + m + ");"@));
            lemma_contains_middle(a, n, k + o + m + ");"@);
            assert(s =~= (a + n + k) + o + (m + ");"@));
            lemma_contains_middle(a + n + k, o, m + ");"@);
            assert(s =~= (a + n + k + o + m) + ");"@);
            lemma_ends_with_concat(a + n + k + o + m, ");"@);
        },
        DatabaseDriver::PostgreSql | DatabaseDriver::CockroachDb => {
            let a = "CREATE "@ + postgres_index_keywords(index_type).0;
            let n = "INDEX "@ + quote_plain(name) + " ON "@ + quoted(Quoting::Dotted, table)
                + " USING "@;
            let k = postgres_index_keywords(index_type).1;
            let e = " ("@ + columns + ");"@;
            assert(s =~= a + n + (k + e));
            lemma_contains_middle(a, n, k + e);
            assert(s =~= (a + n + k) + e);
            lemma_ends_with_concat(a + n + k, e);
        },
        DatabaseDriver::Sqlite | DatabaseDriver::Oracle => {
            let a = "CREATE "@ + (if driver == DatabaseDriver::Sqlite {
                sqlite_index_keyword(index_type)
            } else {
                oracle_index_keyword(index_type)
            });
            let e = "INDEX "@ + quote_plain(name) + " ON "@ + quote_plain(table) + " ("@ + columns
                + ");"@;
            assert(s =~= a + e);
            lemma_ends_with_concat(a, e);
        },
        DatabaseDriver::SqlServer => {
            let a = "CREATE "@ + sql_server_index_keyword(index_type);
            let e = " INDEX "@ + quote_sql_server(name) + " ON "@ + quoted(
                Quoting::SqlServerTable,
                table,
            ) + " ("@ + columns + ");"@;
            assert(s =~= a + e);
            lemma_ends_with_concat(a, e);
        },
        DatabaseDriver::MongoDb => {
            let p = "{\"createIndexes\":\""@ + json_escaped(table) + "\",\"indexes\":[{\"key\":{"@;
            let k = mongodb_keys(columns, index_type);
            let e = "},\"name\":\""@ + json_escaped(name) + "\"}]}"@;
            assert(s =~= p + (k + e));
            lemma_starts_with_concat(p, k + e);
            assert(s =~= (p + k) + e);
            lemma_ends_with_concat(p + k, e);
        },
    }
}

/// The statement that creates one index; the name and columns are trimmed
/// and the index type normalized by the caller.
pub fn index_statement(
    driver: DatabaseDriver,
    database: &str,
    table: &str,
    name: &str,
    columns: &str,
    index_type: &str,
    table_columns: &Vec<(String, String)>,
) -> (r: String)
    ensures
        r@ == index_sql(
            driver,
            database@,
            table@,
            name@,
            columns@,
            index_type@,
            pair_views(table_columns@),
        ),
{
    match driver {
        DatabaseDriver::MySql | DatabaseDriver::MariaDb | DatabaseDriver::TiDb => {
            let (prefix, using) = mysql_index_type_sql(index_type);
            let mut r = owned("CREATE ");
            r.append(prefix);
            r.append("INDEX ");
            r.append(quote_mysql_identifier(name).as_str());
            r.append(using);
            r.append(" ON ");
            r.append(quote_mysql_identifier(database).as_str());
            r.append(".");
            r.append(quote_mysql_identifier(table).as_str());
            r.append(" (");
            r.append(mysql_index_columns_sql(columns, table_columns, index_type).as_str());
            r.append(");");
            r
        },
        DatabaseDriver::PostgreSql | DatabaseDriver::CockroachDb => {
            let (unique, using) = postgres_index_type_sql(index_type);
            let mut r = owned("CREATE ");
            r.append(unique);
            r.append("INDEX ");
            r.append(quote_plain_identifier(name).as_str());
            r.append(" ON ");
            r.append(quote_dotted_identifier(table).as_str());
            r.append(" USING ");
            r.append(using);
            r.append(" (");
            r.append(columns);
            r.append(");");
            r
        },
        DatabaseDriver::Sqlite => {
            let mut r = owned("CREATE ");
            r.append(sqlite_index_type_sql(index_type));
            r.append("INDEX ");
            r.append(quote_plain_identifier(name).as_str());
            r.append(" ON ");
            r.append(quote_plain_identifier(table).as_str());
            r.append(" (");
            r.append(columns);
            r.append(");");
            r
        },
        DatabaseDriver::SqlServer => {
            let mut r = owned("CREATE ");
            r.append(sql_server_index_type_sql(index_type));
            r.append(" INDEX ");
            r.append(quote_sql_server_identifier(name).as_str());
            r.append(" ON ");
            r.append(quote_sql_server_table(table).as_str());
            r.append(" (");
            r.append(columns);
            r.append(");");
            r
        },
        DatabaseDriver::Oracle => {
            let mut r = owned("CREATE ");
            r.append(oracle_index_type_sql(index_type));
            r.append("INDEX ");
            r.append(quote_plain_identifier(name).as_str());
            r.append(" ON ");
            r.append(quote_plain_identifier(table).as_str());
            r.append(" (");
            r.append(columns);
            r.append(");");
            r
        },
        DatabaseDriver::MongoDb => {
            let mut r = owned("{\"createIndexes\":\"");
            r.append(json_escape(table).as_str());
            r.append("\",\"indexes\":[{\"key\":{");
            r.append(mongodb_index_keys(columns, index_type).as_str());
            r.append("},\"name\":\"");
            r.append(json_escape(name).as_str());
            r.append("\"}]}");
            r
        },
    }
}

/// The index type stored in a draft, normalized for the driver.
pub open spec fn normalized_index(driver: DatabaseDriver, value: Seq<char>) -> Seq<char> {
    normalized_option(index_types(driver), value, first_or(index_types(driver), "INDEX"@))
}

/// The names and data types of designed columns.
pub open spec fn draft_pairs(cols: Seq<CreateTableColumnDraft>) -> Seq<(Seq<char>, Seq<char>)> {
    cols.map_values(|c: CreateTableColumnDraft| (c.name@, c.data_type@))
}

/// The statement that creates one designed index: `None` when its name or
/// columns are blank, and for MongoDB, whose indexes go with the collection.
pub open spec fn create_index_sql(
    driver: DatabaseDriver,
    database: Seq<char>,
    table: Seq<char>,
    index: CreateTableIndexDraft,
    cols: Seq<CreateTableColumnDraft>,
) -> Option<Seq<char>> {
    let name = trim(index.name@);
    let columns = trim(index.columns@);
    if name.len() == 0 || columns.len() == 0 || driver == DatabaseDriver::MongoDb {
        None
    } else {
        Some(
            index_sql(
                driver,
                database,
                table,
                name,
                columns,
                normalized_index(driver, index.index_type@),
                draft_pairs(cols),
            ),
        )
    }
}

fn column_pairs(cols: &Vec<CreateTableColumnDraft>) -> (r: Vec<(String, String)>)
    ensures
        pair_views(r@) == draft_pairs(cols@),
{
    let mut r: Vec<(String, String)> = Vec::new();
    let mut i: usize = 0;
    while i < cols.len()
        invariant
            i <= cols.len(),
            pair_views(r@) == draft_pairs(cols@.take(i as int)),
        decreases cols.len() - i,
    {
        let pair = (cols[i].name.clone(), cols[i].data_type.clone());
        let ghost before = pair_views(r@);
        let ghost pv = (pair.0@, pair.1@);
        r.push(pair);
        proof {
            assert(pair_views(r@) =~= before.push(pv));
            assert(draft_pairs(cols@.take(i + 1)) =~= draft_pairs(cols@.take(i as int)).push(pv));
        }
        i += 1;
    }
    proof {
        assert(cols@.take(cols.len() as int) == cols@);
    }
    r
}

/// The statement that creates one designed index, or `None` when its name or
/// columns are blank or the driver is MongoDB.
pub fn create_index_statement(
    driver: DatabaseDriver,
    database: &str,
    table: &str,
    index: &CreateTableIndexDraft,
    table_columns: &Vec<CreateTableColumnDraft>,
) -> (r: Option<String>)
    ensures
        opt_text(r) == create_index_sql(driver, database@, table@, *index, table_columns@),
{
    let name = trim_str(index.name.as_str());
    let columns = trim_str(index.columns.as_str());
    if is_empty_text(name) || is_empty_text(columns) || driver == DatabaseDriver::MongoDb {
        return None;
    }
    let index_type = normalized_index_type(driver, index.index_type.as_str());
    let pairs = column_pairs(table_columns);
    Some(index_statement(driver, database, table, name, columns, index_type.as_str(), &pairs))
}

/// The statements that create the designed indexes, in order.
pub open spec fn create_indexes_sql(
    driver: DatabaseDriver,
    database: Seq<char>,
    table: Seq<char>,
    indexes: Seq<CreateTableIndexDraft>,
    cols: Seq<CreateTableColumnDraft>,
) -> Seq<Seq<char>>
    decreases indexes.len(),
{
    if indexes.len() == 0 {
        Seq::<Seq<char>>::empty()
    } else {
        let rest = create_indexes_sql(driver, database, table, indexes.drop_last(), cols);
        match create_index_sql(driver, database, table, indexes.last(), cols) {
            Some(s) => rest.push(s),
            None => rest,
        }
    }
}

/// The statements that create the draft's indexes, skipping the blank ones.
pub fn create_index_statements(
    driver: DatabaseDriver,
    database: &str,
    table: &str,
    draft: &CreateTableDraft,
) -> (r: Vec<String>)
    ensures
        views(r@) == create_indexes_sql(driver, database@, table@, draft.indexes@, draft.columns@),
{
    let indexes = &draft.indexes;
    let mut out: Vec<String> = Vec::new();
    let mut i: usize = 0;
    assert(views(out@) =~= Seq::<Seq<char>>::empty());
    while i < indexes.len()
        invariant
            i <= indexes.len(),
            indexes@ == draft.indexes@,
            views(out@) == create_indexes_sql(
                driver,
                database@,
                table@,
                indexes@.take(i as int),
                draft.columns@,
            ),
        decreases indexes.len() - i,
    {
        proof {
            assert(indexes@.take(i + 1).drop_last() == indexes@.take(i as int));
            assert(indexes@.take(i + 1).last() == indexes@[i as int]);
        }
        match create_index_statement(driver, database, table, &indexes[i], &draft.columns) {
            Some(s) => {
                let ghost before = views(out@);
                let ghost sv = s@;
                out.push(s);
                proof {
                    assert(views(out@) =~= before.push(sv));
                }
            },
            None => {},
        }
        i += 1;
    }
    proof {
        assert(indexes@.take(indexes.len() as int) == indexes@);
    }
    out
}

// ---------------------------------------------------------------------------
// MongoDB collections
// ---------------------------------------------------------------------------

/// The index document of one designed MongoDB index.
pub open spec fn mongodb_index_doc(index: CreateTableIndexDraft) -> Seq<char> {
    "{\"key\":{"@ + mongodb_keys(
        index.columns@,
        normalized_index(DatabaseDriver::MongoDb, index.index_type@),
    ) + "},\"name\":\""@ + json_escaped(index.name@) + "\"}"@
}

/// The index documents of the designed indexes with a name and columns.
pub open spec fn mongodb_index_docs(indexes: Seq<CreateTableIndexDraft>) -> Seq<Seq<char>>
    decreases indexes.len(),
{
    if indexes.len() == 0 {
        Seq::<Seq<char>>::empty()
    } else {
        let rest = mongodb_index_docs(indexes.drop_last());
        let index = indexes.last();
        if trim(index.name@).len() == 0 || trim(index.columns@).len() == 0 {
            rest
        } else {
            rest.push(mongodb_index_doc(index))
        }
    }
}

/// The command that creates a collection, and, when indexes are designed,
/// the list of that command and the one that creates them.
pub open spec fn mongodb_create_sql(table: Seq<char>, indexes: Seq<CreateTableIndexDraft>) -> Seq<
    char,
> {
    let create = "{\"create\":\""@ + json_escaped(table) + "\"}"@;
    let docs = mongodb_index_docs(indexes);
    if docs.len() == 0 {
        create
    } else {
        "["@ + create + ","@ + "{\"createIndexes\":\""@ + json_escaped(table)
            + "\",\"indexes\":["@ + join(docs, ","@) + "]}"@ + "]"@
    }
}

proof fn lemma_index_docs_hold(indexes: Seq<CreateTableIndexDraft>)
    ensures
        forall|i: int|
            0 <= i < indexes.len() && trim(indexes[i].name@).len() > 0 && trim(
                indexes[i].columns@,
            ).len() > 0 ==> mongodb_index_docs(indexes).contains(
                mongodb_index_doc(#[trigger] indexes[i]),
            ),
    decreases indexes.len(),
{
    if indexes.len() > 0 {
        let init = indexes.drop_last();
        lemma_index_docs_hold(init);
        let v0 = mongodb_index_docs(init);
        let v = mongodb_index_docs(indexes);
        assert forall|i: int|
            0 <= i < indexes.len() && trim(indexes[i].name@).len() > 0 && trim(
                indexes[i].columns@,
            ).len() > 0 implies v.contains(mongodb_index_doc(#[trigger] indexes[i])) by {
            let x = mongodb_index_doc(indexes[i]);
            if i < indexes.len() - 1 {
                assert(init[i] == indexes[i]);
                let k = choose|k: int| 0 <= k < v0.len() && v0[k] == x;
                assert(v[k] == x);
            } else {
                assert(v[v.len() - 1] == x);
            }
        }
    }
}

/// A MongoDB collection is created with the indexes designed for it: the
/// command always holds the `create` command of the collection, and every
/// index with a name and columns is created under its (escaped) name; with
/// no such index the `create` command stands alone.
#[verifier::spinoff_prover]
pub proof fn mongodb_collection_gets_its_indexes(
    table: Seq<char>,
    indexes: Seq<CreateTableIndexDraft>,
)
    ensures
        contains(
            mongodb_create_sql(table, indexes),
            "{\"create\":\""@ + json_escaped(table) + "\"}"@,
        ),
        forall|i: int|
            0 <= i < indexes.len() && trim(indexes[i].name@).len() > 0 && trim(
                indexes[i].columns@,
            ).len() > 0 ==> contains(
                mongodb_create_sql(table, indexes),
                "},\"name\":\""@ + json_escaped(#[trigger] indexes[i].name@) + "\"}"@,
            ),
        (forall|i: int|
            0 <= i < indexes.len() ==> trim(#[trigger] indexes[i].name@).len() == 0 || trim(
                indexes[i].columns@,
            ).len() == 0) ==> mongodb_create_sql(table, indexes) == "{\"create\":\""@
            + json_escaped(table) + "\"}"@,
{
    let create = "{\"create\":\""@ + json_escaped(table) + "\"}"@;
    let docs = mongodb_index_docs(indexes);
    let s = mongodb_create_sql(table, indexes);
    let e = Seq::<char>::empty();
    lemma_index_docs_hold(indexes);
    if docs.len() == 0 {
        lemma_contains_middle(e, create, e);
        assert(e + create + e =~= create);
    } else {
        let j = join(docs, ","@);
        let pre = "["@ + create + ","@ + "{\"createIndexes\":\""@ + json_escaped(table)
            + "\",\"indexes\":["@;
        let post = "]}"@ + "]"@;
        assert(s =~= pre + j + post);
        assert(s =~= "["@ + create + (","@ + "{\"createIndexes\":\""@ + json_escaped(table)
            + "\",\"indexes\":["@ + j + post));
        lemma_contains_middle("["@, create, ","@ + "{\"createIndexes\":\""@ + json_escaped(table)
            + "\",\"indexes\":["@ + j + post);
        assert forall|i: int|
            0 <= i < indexes.len() && trim(indexes[i].name@).len() > 0 && trim(
                indexes[i].columns@,
            ).len() > 0 implies contains(
            s,
            "},\"name\":\""@ + json_escaped(#[trigger] indexes[i].name@) + "\"}"@,
        ) by {
            let doc = mongodb_index_doc(indexes[i]);
            let tail = "},\"name\":\""@ + json_escaped(indexes[i].name@) + "\"}"@;
            let k = choose|k: int| 0 <= k < docs.len() && docs[k] == doc;
            lemma_join_contains(docs, ","@, k);
            lemma_contains_grow(j, doc, pre, post);
            let head = "{\"key\":{"@ + mongodb_keys(
                indexes[i].columns@,
                normalized_index(DatabaseDriver::MongoDb, indexes[i].index_type@),
            );
            assert(doc =~= head + tail + e);
            lemma_contains_middle(head, tail, e);
            lemma_contains_trans(s, doc, tail);
        }
    }
    if forall|i: int|
        0 <= i < indexes.len() ==> trim(#[trigger] indexes[i].name@).len() == 0 || trim(
            indexes[i].columns@,
        ).len() == 0 {
        lemma_index_docs_none(indexes);
    }
}

proof fn lemma_index_docs_none(indexes: Seq<CreateTableIndexDraft>)
    requires
        forall|i: int|
            0 <= i < indexes.len() ==> trim(#[trigger] indexes[i].name@).len() == 0 || trim(
                indexes[i].columns@,
            ).len() == 0,
    ensures
        mongodb_index_docs(indexes).len() == 0,
    decreases indexes.len(),
{
    if indexes.len() > 0 {
        let init = indexes.drop_last();
        assert forall|i: int| 0 <= i < init.len() implies trim(#[trigger] init[i].name@).len() == 0
            || trim(init[i].columns@).len() == 0 by {
            assert(init[i] == indexes[i]);
        }
        lemma_index_docs_none(init);
        assert(indexes.last() == indexes[indexes.len() - 1]);
    }
}

/// The MongoDB command (or list of commands) that creates the collection
/// `table` with the draft's indexes.
pub fn mongodb_create_collection_commands(table: &str, draft: &CreateTableDraft) -> (r: String)
    ensures
        r@ == mongodb_create_sql(table@, draft.indexes@),
{
    let mut create = owned("{\"create\":\"");
    create.append(json_escape(table).as_str());
    create.append("\"}");
    let indexes = &draft.indexes;
    let mut docs: Vec<String> = Vec::new();
    let mut i: usize = 0;
    assert(views(docs@) =~= Seq::<Seq<char>>::empty());
    while i < indexes.len()
        invariant
            i <= indexes.len(),
            indexes@ == draft.indexes@,
            views(docs@) == mongodb_index_docs(indexes@.take(i as int)),
        decreases indexes.len() - i,
    {
        proof {
            assert(indexes@.take(i + 1).drop_last() == indexes@.take(i as int));
            assert(indexes@.take(i + 1).last() == indexes@[i as int]);
        }
        let index = &indexes[i];
        if !is_empty_text(trim_str(index.name.as_str())) && !is_empty_text(
            trim_str(index.columns.as_str()),
        ) {
            let index_type = normalized_index_type(DatabaseDriver::MongoDb, index.index_type.as_str());
            let mut doc = owned("{\"key\":{");
            doc.append(mongodb_index_keys(index.columns.as_str(), index_type.as_str()).as_str());
            doc.append("},\"name\":\"");
            doc.append(json_escape(index.name.as_str()).as_str());
            doc.append("\"}");
            let ghost before = views(docs@);
            let ghost dv = doc@;
            docs.push(doc);
            proof {
                assert(views(docs@) =~= before.push(dv));
            }
        }
        i += 1;
    }
    proof {
        assert(indexes@.take(indexes.len() as int) == indexes@);
    }
    if docs.len() == 0 {
        create
    } else {
        let mut r = owned("[");
        r.append(create.as_str());
        r.append(",");
        r.append("{\"createIndexes\":\"");
        r.append(json_escape(table).as_str());
        r.append("\",\"indexes\":[");
        r.append(join_strings(&docs, ",").as_str());
        r.append("]}");
        r.append("]");
        r
    }
}

// ---------------------------------------------------------------------------
// The whole table
// ---------------------------------------------------------------------------

/// ` COMMENT='..'` for a MySQL-family table with a comment; nothing
/// otherwise.
pub open spec fn comment_clause(driver: DatabaseDriver, comment: Seq<char>) -> Seq<char> {
    let c = trim(comment);
    if c.len() == 0 {
        Seq::<char>::empty()
    } else {
        match driver {
            DatabaseDriver::MySql | DatabaseDriver::MariaDb | DatabaseDriver::TiDb => " COMMENT="@
                + string_literal(c),
            _ => Seq::<char>::empty(),
        }
    }
}

/// The table comment clause: ` COMMENT='..'` for the MySQL family when the
/// trimmed comment is not empty.
pub fn table_comment_clause(driver: DatabaseDriver, comment: &str) -> (r: String)
    ensures
        r@ == comment_clause(driver, comment@),
{
    let comment = trim_str(comment);
    if is_empty_text(comment) {
        return String::new();
    }
    match driver {
        DatabaseDriver::MySql | DatabaseDriver::MariaDb | DatabaseDriver::TiDb => {
            let mut r = owned(" COMMENT=");
            r.append(sql_string_literal(comment).as_str());
            r
        },
        _ => String::new(),
    }
}

/// The database in which a MongoDB collection is created: the trimmed
/// database of the form, which must not be empty.
pub open spec fn collection_database(database: Seq<char>) -> Result<Seq<char>, Seq<char>> {
    if trim(database).len() == 0 {
        Err("Select a MongoDB database before creating a collection."@)
    } else {
        Ok(trim(database))
    }
}

/// The trimmed database of the form, or an error when it is empty.
pub fn database_name_for_create_collection(form: &ConnectionForm) -> (r: Result<String, String>)
    ensures
        text_result(r) == collection_database(form.database@),
{
    let database = trim_str(form.database.as_str());
    if is_empty_text(database) {
        Err(owned("Select a MongoDB database before creating a collection."))
    } else {
        Ok(owned(database))
    }
}

/// `head`, then the other statements, one per line.
fn lines(head: String, rest: Vec<String>) -> (r: String)
    ensures
        r@ == join(seq![head@] + views(rest@), "\n"@),
{
    let ghost hv = head@;
    let ghost rv = views(rest@);
    let mut all: Vec<String> = Vec::new();
    all.push(head);
    let mut rest = rest;
    all.append(&mut rest);
    assert(views(all@) =~= seq![hv] + rv);
    join_strings(&all, "\n")
}

/// The statement (or MongoDB command) that creates the designed table, or
/// the reason it cannot be generated.
pub open spec fn create_table_sql(
    driver: DatabaseDriver,
    database: Seq<char>,
    draft: CreateTableDraft,
) -> Result<Seq<char>, Seq<char>> {
    let table = trim(draft.name@);
    if table.len() == 0 {
        Err("Table name is required."@)
    } else {
        match table_columns_sql(driver, draft.columns@) {
            Err(e) => Err(e),
            Ok(cols) => {
                let body = join(cols + constraints_sql(driver, draft.constraints@), ",\n    "@);
                let db = trim(database);
                match driver {
                    DatabaseDriver::MySql | DatabaseDriver::MariaDb | DatabaseDriver::TiDb => {
                        if db.len() == 0 {
                            Err("Select a database before creating a table."@)
                        } else {
                            Ok(
                                join(
                                    seq![
                                        "CREATE TABLE "@ + quote_mysql(db) + "."@ + quote_mysql(
                                            table,
                                        ) + " (\n    "@ + body + "\n) ENGINE="@ + or_default(
                                            trim(draft.engine@),
                                            "InnoDB"@,
                                        ) + " DEFAULT CHARSET="@ + or_default(
                                            draft.charset@,
                                            "utf8mb4"@,
                                        ) + " COLLATE="@ + or_default(
                                            draft.collation@,
                                            "utf8mb4_unicode_ci"@,
                                        ) + comment_clause(driver, draft.comment@) + ";"@,
                                    ] + create_indexes_sql(
                                        driver,
                                        db,
                                        table,
                                        draft.indexes@,
                                        draft.columns@,
                                    ),
                                    "\n"@,
                                ),
                            )
                        }
                    },
                    DatabaseDriver::PostgreSql | DatabaseDriver::CockroachDb => Ok(
                        join(
                            seq![
                                "CREATE TABLE "@ + quoted(Quoting::Dotted, table) + " (\n    "@
                                    + body + "\n);"@,
                            ] + create_indexes_sql(
                                driver,
                                ""@,
                                table,
                                draft.indexes@,
                                draft.columns@,
                            ),
                            "\n"@,
                        ),
                    ),
                    DatabaseDriver::MongoDb => match collection_database(database) {
                        Err(e) => Err(e),
                        Ok(_) => Ok(mongodb_create_sql(table, draft.indexes@)),
                    },
                    DatabaseDriver::Sqlite => Ok(
                        join(
                            seq![
                                "CREATE TABLE "@ + quote_plain(table) + " (\n    "@ + body
                                    + comment_clause(driver, draft.comment@) + "\n);"@,
                            ] + create_indexes_sql(
                                driver,
                                ""@,
                                table,
                                draft.indexes@,
                                draft.columns@,
                            ),
                            "\n"@,
                        ),
                    ),
                    DatabaseDriver::SqlServer => Err(
                        "SQL Server create table needs a native driver before direct execution is available."@,
                    ),
                    DatabaseDriver::Oracle => Err(
                        "Oracle create table needs a native driver before direct execution is available."@,
                    ),
                }
            },
        }
    }
}

#[verifier::spinoff_prover]
#[verifier::rlimit(40)]
proof fn lemma_columns_sql_holds(driver: DatabaseDriver, cols: Seq<CreateTableColumnDraft>)
    ensures
        columns_sql(driver, cols) matches Ok(v) ==> forall|i: int|
            0 <= i < cols.len() && !is_blank_column(#[trigger] cols[i]) ==> (column_sql(
                driver,
                cols[i],
            ) matches Ok(c) && v.contains(c)),
    decreases cols.len(),
{
    if cols.len() > 0 {
        let init = cols.drop_last();
        lemma_columns_sql_holds(driver, init);
        match columns_sql(driver, cols) {
            Ok(v) => {
                let v0 = columns_sql(driver, init)->Ok_0;
                assert forall|i: int|
                    0 <= i < cols.len() && !is_blank_column(#[trigger] cols[i]) implies (column_sql(
                    driver,
                    cols[i],
                ) matches Ok(c) && v.contains(c)) by {
                    if i < cols.len() - 1 {
                        assert(init[i] == cols[i]);
                        let c = column_sql(driver, cols[i])->Ok_0;
                        let k = choose|k: int| 0 <= k < v0.len() && v0[k] == c;
                        assert(v[k] == c);
                    } else {
                        assert(v[v.len() - 1] == column_sql(driver, cols[i])->Ok_0);
                    }
                }
            },
            Err(_) => {},
        }
    }
}

#[verifier::spinoff_prover]
#[verifier::rlimit(40)]
proof fn lemma_constraints_sql_holds(driver: DatabaseDriver, cs: Seq<CreateTableConstraintDraft>)
    ensures
        forall|i: int|
            0 <= i < cs.len() ==> (constraint_sql(driver, #[trigger] cs[i]) matches Some(c)
                ==> constraints_sql(driver, cs).contains(c)),
    decreases cs.len(),
{
    if cs.len() > 0 {
        let init = cs.drop_last();
        lemma_constraints_sql_holds(driver, init);
        let v0 = constraints_sql(driver, init);
        let v = constraints_sql(driver, cs);
        assert forall|i: int|
            0 <= i < cs.len() implies (constraint_sql(driver, #[trigger] cs[i]) matches Some(c)
            ==> v.contains(c)) by {
            if constraint_sql(driver, cs[i]) is Some {
                let c = constraint_sql(driver, cs[i])->Some_0;
                if i < cs.len() - 1 {
                    assert(init[i] == cs[i]);
                    let k = choose|k: int| 0 <= k < v0.len() && v0[k] == c;
                    assert(v[k] == c);
                } else {
                    assert(v[v.len() - 1] == c);
                }
            }
        }
    }
}

#[verifier::spinoff_prover]
#[verifier::rlimit(40)]
proof fn lemma_indexes_sql_holds(
    driver: DatabaseDriver,
    database: Seq<char>,
    table: Seq<char>,
    indexes: Seq<CreateTableIndexDraft>,
    cols: Seq<CreateTableColumnDraft>,
)
    ensures
        forall|i: int|
            0 <= i < indexes.len() ==> (create_index_sql(
                driver,
                database,
                table,
                #[trigger] indexes[i],
                cols,
            ) matches Some(x) ==> create_indexes_sql(driver, database, table, indexes, cols).contains(
                x,
            )),
    decreases indexes.len(),
{
    if indexes.len() > 0 {
        let init = indexes.drop_last();
        lemma_indexes_sql_holds(driver, database, table, init, cols);
        let v0 = create_indexes_sql(driver, database, table, init, cols);
        let v = create_indexes_sql(driver, database, table, indexes, cols);
        assert forall|i: int|
            0 <= i < indexes.len() implies (create_index_sql(
            driver,
            database,
            table,
            #[trigger] indexes[i],
            cols,
        ) matches Some(x) ==> v.contains(x)) by {
            if create_index_sql(driver, database, table, indexes[i], cols) is Some {
                let x = create_index_sql(driver, database, table, indexes[i], cols)->Some_0;
                if i < indexes.len() - 1 {
                    assert(init[i] == indexes[i]);
                    let k = choose|k: int| 0 <= k < v0.len() && v0[k] == x;
                    assert(v[k] == x);
                } else {
                    assert(v[v.len() - 1] == x);
                }
            }
        }
    }
}

/// A statement made of a head, the joined column and constraint clauses and a
/// tail, followed by further statements on lines of their own, begins with
/// the head and holds every clause and every further statement.
#[verifier::spinoff_prover]
#[verifier::rlimit(40)]
proof fn lemma_table_statement_parts(
    front: Seq<char>,
    v: Seq<Seq<char>>,
    cons: Seq<Seq<char>>,
    back: Seq<char>,
    idx: Seq<Seq<char>>,
)
    ensures
        ({
            let s = join(seq![front + join(v + cons, ",\n    "@) + back] + idx, "\n"@);
            &&& starts_with(s, front)
            &&& forall|k: int| 0 <= k < v.len() ==> contains(s, #[trigger] v[k])
            &&& forall|k: int| 0 <= k < cons.len() ==> contains(s, #[trigger] cons[k])
            &&& forall|k: int| 0 <= k < idx.len() ==> contains(s, "\n"@ + #[trigger] idx[k])
        }),
{
    let body = join(v + cons, ",\n    "@);
    let stmt = front + body + back;
    let parts = seq![stmt] + idx;
    let s = join(parts, "\n"@);
    assert(parts[0] == stmt);
    lemma_join_starts_with_first(parts, "\n"@);
    assert(stmt =~= front + (body + back));
    lemma_starts_with_concat(front, body + back);
    lemma_starts_with_trans(s, stmt, front);
    lemma_join_contains(parts, "\n"@, 0);
    assert forall|k: int| 0 <= k < v.len() implies contains(s, #[trigger] v[k]) by {
        assert((v + cons)[k] == v[k]);
        lemma_join_contains(v + cons, ",\n    "@, k);
        lemma_contains_grow(body, v[k], front, back);
        lemma_contains_trans(s, stmt, v[k]);
    }
    assert forall|k: int| 0 <= k < cons.len() implies contains(s, #[trigger] cons[k]) by {
        assert((v + cons)[v.len() + k] == cons[k]);
        lemma_join_contains(v + cons, ",\n    "@, v.len() + k);
        lemma_contains_grow(body, cons[k], front, back);
        lemma_contains_trans(s, stmt, cons[k]);
    }
    assert forall|k: int| 0 <= k < idx.len() implies contains(s, "\n"@ + #[trigger] idx[k]) by {
        assert(parts[1 + k] == idx[k]);
        lemma_join_contains_after_sep(parts, "\n"@, 1 + k);
    }
}

/// A created table holds everything designed for it. The statement begins
/// `CREATE TABLE ` and the trimmed table name quoted for the driver (inside
/// the database for the MySQL family) with its opening bracket; it holds the
/// definition of every column that is not left blank and the clause of every
/// constraint that has one, and each index statement follows on a line of its
/// own.
#[verifier::spinoff_prover]
#[verifier::rlimit(40)]
pub proof fn created_table_holds_its_parts(
    driver: DatabaseDriver,
    database: Seq<char>,
    draft: CreateTableDraft,
)
    requires
        is_mysql_family(driver) || driver == DatabaseDriver::PostgreSql || driver
            == DatabaseDriver::CockroachDb || driver == DatabaseDriver::Sqlite,
    ensures
        create_table_sql(driver, database, draft) matches Ok(s) ==> {
            &&& starts_with(
                s,
                "CREATE TABLE "@ + match driver {
                    DatabaseDriver::MySql | DatabaseDriver::MariaDb | DatabaseDriver::TiDb => quote_mysql(
                        trim(database),
                    ) + "."@ + quote_mysql(trim(draft.name@)),
                    DatabaseDriver::PostgreSql | DatabaseDriver::CockroachDb => quoted(
                        Quoting::Dotted,
                        trim(draft.name@),
                    ),
                    _ => quote_plain(trim(draft.name@)),
                } + " (\n    "@,
            )
            &&& forall|i: int|
                0 <= i < draft.columns@.len() && !is_blank_column(#[trigger] draft.columns@[i])
                    ==> (column_sql(driver, draft.columns@[i]) matches Ok(c) && contains(s, c))
            &&& forall|i: int|
                0 <= i < draft.constraints@.len() ==> (constraint_sql(
                    driver,
                    #[trigger] draft.constraints@[i],
                ) matches Some(c) ==> contains(s, c))
            &&& forall|i: int|
                0 <= i < draft.indexes@.len() ==> (create_index_sql(
                    driver,
                    if is_mysql_family(driver) {
                        trim(database)
                    } else {
                        ""@
                    },
                    trim(draft.name@),
                    #[trigger] draft.indexes@[i],
                    draft.columns@,
                ) matches Some(x) ==> contains(s, "\n"@ + x))
        },
{
    match create_table_sql(driver, database, draft) {
        Ok(s) => {
            let t = trim(draft.name@);
            let db = trim(database);
            let v = columns_sql(driver, draft.columns@)->Ok_0;
            let cons = constraints_sql(driver, draft.constraints@);
            let idx_db = if is_mysql_family(driver) {
                db
            } else {
                ""@
            };
            let idx = create_indexes_sql(driver, idx_db, t, draft.indexes@, draft.columns@);
            let front = "CREATE TABLE "@ + match driver {
                DatabaseDriver::MySql | DatabaseDriver::MariaDb | DatabaseDriver::TiDb => quote_mysql(
                    db,
                ) + "."@ + quote_mysql(t),
                DatabaseDriver::PostgreSql | DatabaseDriver::CockroachDb => quoted(
                    Quoting::Dotted,
                    t,
                ),
                _ => quote_plain(t),
            } + " (\n    "@;
            let back = match driver {
                DatabaseDriver::MySql | DatabaseDriver::MariaDb | DatabaseDriver::TiDb => "\n) ENGINE="@
                    + or_default(trim(draft.engine@), "InnoDB"@) + " DEFAULT CHARSET="@ + or_default(
                    draft.charset@,
                    "utf8mb4"@,
                ) + " COLLATE="@ + or_default(draft.collation@, "utf8mb4_unicode_ci"@)
                    + comment_clause(driver, draft.comment@) + ";"@,
                DatabaseDriver::PostgreSql | DatabaseDriver::CockroachDb => "\n);"@,
                _ => comment_clause(driver, draft.comment@) + "\n);"@,
            };
            let body = join(v + cons, ",\n    "@);
            let stmt = match driver {
                DatabaseDriver::MySql | DatabaseDriver::MariaDb | DatabaseDriver::TiDb =>
                    "CREATE TABLE "@ + quote_mysql(db) + "."@ + quote_mysql(t) + " (\n    "@ + body
                        + "\n) ENGINE="@ + or_default(trim(draft.engine@), "InnoDB"@)
                        + " DEFAULT CHARSET="@ + or_default(draft.charset@, "utf8mb4"@)
                        + " COLLATE="@ + or_default(draft.collation@, "utf8mb4_unicode_ci"@)
                        + comment_clause(driver, draft.comment@) + ";"@,
                DatabaseDriver::PostgreSql | DatabaseDriver::CockroachDb =>
                    "CREATE TABLE "@ + quoted(Quoting::Dotted, t) + " (\n    "@ + body + "\n);"@,
                _ => "CREATE TABLE "@ + quote_plain(t) + " (\n    "@ + body + comment_clause(
                    driver,
                    draft.comment@,
                ) + "\n);"@,
            };
            assert(front + body + back =~= stmt);
            assert(s == join(seq![stmt] + idx, "\n"@));
            assert(s == join(seq![front + body + back] + idx, "\n"@));
            lemma_table_statement_parts(front, v, cons, back, idx);
            lemma_columns_sql_holds(driver, draft.columns@);
            lemma_constraints_sql_holds(driver, draft.constraints@);
            lemma_indexes_sql_holds(driver, idx_db, t, draft.indexes@, draft.columns@);
            assert forall|i: int|
                0 <= i < draft.columns@.len() && !is_blank_column(#[trigger] draft.columns@[i])
                    implies (column_sql(driver, draft.columns@[i]) matches Ok(c) && contains(s, c)) by {
                let c = column_sql(driver, draft.columns@[i])->Ok_0;
                let k = choose|k: int| 0 <= k < v.len() && v[k] == c;
                assert(contains(s, v[k]));
            }
            assert forall|i: int|
                0 <= i < draft.constraints@.len() implies (constraint_sql(
                    driver,
                    #[trigger] draft.constraints@[i],
                ) matches Some(c) ==> contains(s, c)) by {
                if constraint_sql(driver, draft.constraints@[i]) is Some {
                    let c = constraint_sql(driver, draft.constraints@[i])->Some_0;
                    let k = choose|k: int| 0 <= k < cons.len() && cons[k] == c;
                    assert(contains(s, cons[k]));
                }
            }
            assert forall|i: int|
                0 <= i < draft.indexes@.len() implies (create_index_sql(
                    driver,
                    idx_db,
                    t,
                    #[trigger] draft.indexes@[i],
                    draft.columns@,
                ) matches Some(x) ==> contains(s, "\n"@ + x)) by {
                if create_index_sql(driver, idx_db, t, draft.indexes@[i], draft.columns@) is Some {
                    let x = create_index_sql(driver, idx_db, t, draft.indexes@[i], draft.columns@)->Some_0;
                    let k = choose|k: int| 0 <= k < idx.len() && idx[k] == x;
                    assert(contains(s, "\n"@ + idx[k]));
                }
            }
        },
        Err(_) => {},
    }
}

/// `b` equals `a` in every field but the database.
pub open spec fn same_but_database(a: ConnectionForm, b: ConnectionForm) -> bool {
    &&& b.name == a.name
    &&& b.driver == a.driver
    &&& b.location == a.location
    &&& b.port == a.port
    &&& b.username == a.username
    &&& b.password == a.password
    &&& b.charset == a.charset
    &&& b.collation == a.collation
    &&& b.ssl_enabled == a.ssl_enabled
    &&& b.ssh_tunnel_enabled == a.ssh_tunnel_enabled
    &&& b.timeout_seconds == a.timeout_seconds
    &&& b.notes == a.notes
}

fn mysql_create_table(
    database: &str,
    table: &str,
    body: &str,
    draft: &CreateTableDraft,
) -> (r: String)
    ensures
        r@ == "CREATE TABLE "@ + quote_mysql(database@) + "."@ + quote_mysql(table@) + " (\n    "@
            + body@ + "\n) ENGINE="@ + or_default(trim(draft.engine@), "InnoDB"@)
            + " DEFAULT CHARSET="@ + or_default(draft.charset@, "utf8mb4"@) + " COLLATE="@
            + or_default(draft.collation@, "utf8mb4_unicode_ci"@) + comment_clause(
            DatabaseDriver::MySql,
            draft.comment@,
        ) + ";"@,
{
    let engine = trim_str(draft.engine.as_str());
    let mut r = owned("CREATE TABLE ");
    r.append(quote_mysql_identifier(database).as_str());
    r.append(".");
    r.append(quote_mysql_identifier(table).as_str());
    r.append(" (\n    ");
    r.append(body);
    r.append("\n) ENGINE=");
    if is_empty_text(engine) {
        r.append("InnoDB");
    } else {
        r.append(engine);
    }
    r.append(" DEFAULT CHARSET=");
    r.append(mysql_charset_or_default(draft.charset.as_str()));
    r.append(" COLLATE=");
    r.append(mysql_collation_or_default(draft.collation.as_str()));
    r.append(table_comment_clause(DatabaseDriver::MySql, draft.comment.as_str()).as_str());
    r.append(";");
    r
}

/// The statement that creates the designed table, with the statements that
/// create its indexes on the following lines (for MongoDB, the collection
/// commands). For MongoDB the form's database is trimmed in place when the
/// command is generated; the form is otherwise unchanged.
pub fn create_table_statement(form: &mut ConnectionForm, draft: &CreateTableDraft) -> (r: Result<
    String,
    String,
>)
    ensures
        text_result(r) == create_table_sql(old(form).driver, old(form).database@, *draft),
        same_but_database(*old(form), *final(form)),
        final(form).database@ == (if old(form).driver == DatabaseDriver::MongoDb && r is Ok {
            trim(old(form).database@)
        } else {
            old(form).database@
        }),
{
    let table = trim_str(draft.name.as_str());
    if is_empty_text(table) {
        return Err(owned("Table name is required."));
    }
    let driver = form.driver;
    let columns = match create_table_columns(driver, draft) {
        Ok(c) => c,
        Err(e) => {
            return Err(e);
        },
    };
    let constraints = create_table_constraints(driver, draft);
    let ghost parts = views(columns@) + views(constraints@);
    let body = join_table_parts(columns, constraints);
    match driver {
        DatabaseDriver::MySql | DatabaseDriver::MariaDb | DatabaseDriver::TiDb => {
            let database = trim_str(form.database.as_str());
            if is_empty_text(database) {
                return Err(owned("Select a database before creating a table."));
            }
            let head = mysql_create_table(database, table, body.as_str(), draft);
            proof {
                assert(comment_clause(driver, draft.comment@) == comment_clause(
                    DatabaseDriver::MySql,
                    draft.comment@,
                ));
            }
            let rest = create_index_statements(driver, database, table, draft);
            Ok(lines(head, rest))
        },
        DatabaseDriver::PostgreSql | DatabaseDriver::CockroachDb => {
            let mut head = owned("CREATE TABLE ");
            head.append(quote_dotted_identifier(table).as_str());
            head.append(" (\n    ");
            head.append(body.as_str());
            head.append("\n);");
            let rest = create_index_statements(driver, "", table, draft);
            Ok(lines(head, rest))
        },
        DatabaseDriver::MongoDb => {
            match database_name_for_create_collection(form) {
                Ok(database) => {
                    form.database = database;
                },
                Err(e) => {
                    return Err(e);
                },
            }
            Ok(mongodb_create_collection_commands(table, draft))
        },
        DatabaseDriver::Sqlite => {
            let mut head = owned("CREATE TABLE ");
            head.append(quote_plain_identifier(table).as_str());
            head.append(" (\n    ");
            head.append(body.as_str());
            head.append(table_comment_clause(driver, draft.comment.as_str()).as_str());
            head.append("\n);");
            let rest = create_index_statements(driver, "", table, draft);
            Ok(lines(head, rest))
        },
        DatabaseDriver::SqlServer => Err(
            owned(
                "SQL Server create table needs a native driver before direct execution is available.",
            ),
        ),
        DatabaseDriver::Oracle => Err(
            owned("Oracle create table needs a native driver before direct execution is available."),
        ),
    }
}

} // verus!
