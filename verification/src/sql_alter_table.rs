//! The statements and commands that change an existing table: rename, add
//! and move columns, add indexes and constraints, and rebuild a table with
//! its columns in a new order.
use vstd::prelude::*;
use crate::connection::ConnectionForm;
use crate::dialect::{
    json_escape, json_escaped, quote_dotted_identifier, quote_mysql, quote_mysql_identifier,
    quote_plain, quote_plain_identifier, quote_sql_server, quote_sql_server_identifier,
    quote_sql_server_table, quote_with, quoted, sql_string_literal, string_literal, Quoting,
};
use crate::drafts::{AlterTableDraft, AlterTableOperation, TableColumnDetail};
use crate::driver::{is_mysql_family, DatabaseDriver};
use crate::schema::{
    constraint_types, first_or, has_ci, nonblank_trimmed, normalized_constraint_type,
    normalized_index_type, normalized_option,
};
use crate::sql_create_table::{
    column_quoting, index_sql, index_statement, normalized_index, pair_views, prefixed,
    quote_column_name,
};
use crate::sql_database::text_result;
use crate::text::{
    contains, contains_str, ends_with, eq_ci, eq_ignore_ascii_case, lemma_contains_grow,
    lemma_contains_middle, lemma_ends_with_concat, lemma_join_contains, lemma_starts_with_concat, lemma_trim_idempotent, is_empty_text, join, join_strings,
    lemma_split_nonempty, lower, owned, split, split_char, starts_with, starts_with_str, str_eq,
    to_ascii_lower, to_ascii_upper_string, to_uppercase, trim, trim_str, unicode_upper, upper,
    views,
};

verus! {

// ---------------------------------------------------------------------------
// Column names
// ---------------------------------------------------------------------------

/// The trimmed column is not empty and some trimmed name equals it up to
/// ASCII case.
pub open spec fn name_listed(existing: Seq<Seq<char>>, column: Seq<char>) -> bool {
    let c = trim(column);
    c.len() > 0 && exists|i: int| 0 <= i < existing.len() && eq_ci(trim(existing[i]), c)
}

/// Whether the trimmed column name is not empty and already names a column.
pub fn column_name_exists(existing: &Vec<String>, column: &str) -> (r: bool)
    ensures
        r == name_listed(views(existing@), column@),
{
    let c = trim_str(column);
    if is_empty_text(c) {
        return false;
    }
    let mut i: usize = 0;
    while i < existing.len()
        invariant
            i <= existing.len(),
            c@ == trim(column@),
            c@.len() > 0,
            forall|j: int| 0 <= j < i ==> !eq_ci(trim(views(existing@)[j]), c@),
        decreases existing.len() - i,
    {
        if eq_ignore_ascii_case(trim_str(existing[i].as_str()), c) {
            assert(eq_ci(trim(views(existing@)[i as int]), c@));
            assert(name_listed(views(existing@), column@));
            return true;
        }
        i += 1;
    }
    false
}

/// The trimmed names of columns.
pub open spec fn trimmed_names(cols: Seq<TableColumnDetail>) -> Seq<Seq<char>> {
    cols.map_values(|c: TableColumnDetail| trim(c.name@))
}

/// The first blank or repeated (up to ASCII case) column name, as an error.
pub open spec fn unique_names_check(cols: Seq<TableColumnDetail>) -> Result<(), Seq<char>>
    decreases cols.len(),
{
    if cols.len() == 0 {
        Ok(())
    } else {
        match unique_names_check(cols.drop_last()) {
            Err(e) => Err(e),
            Ok(_) => {
                let n = trim(cols.last().name@);
                if n.len() == 0 {
                    Err("Column name is required."@)
                } else if has_ci(trimmed_names(cols.drop_last()), n) {
                    Err("Duplicate column name: "@ + n + "."@)
                } else {
                    Ok(())
                }
            },
        }
    }
}

/// The text of a `Result` without a value.
pub open spec fn unit_result(r: Result<(), String>) -> Result<(), Seq<char>> {
    match r {
        Ok(_) => Ok(()),
        Err(e) => Err(e@),
    }
}

proof fn lemma_names_error_persists(cols: Seq<TableColumnDetail>, i: int)
    requires
        0 <= i <= cols.len(),
        unique_names_check(cols.take(i)) is Err,
    ensures
        unique_names_check(cols) == unique_names_check(cols.take(i)),
    decreases cols.len() - i,
{
    if i < cols.len() {
        assert(cols.take(i + 1).drop_last() == cols.take(i));
        lemma_names_error_persists(cols, i + 1);
    } else {
        assert(cols.take(i) == cols);
    }
}

/// Every column has a name, and no two names are equal up to ASCII case;
/// the first offending column is reported.
pub fn validate_unique_column_names(columns: &Vec<TableColumnDetail>) -> (r: Result<(), String>)
    ensures
        unit_result(r) == unique_names_check(columns@),
{
    let mut i: usize = 0;
    assert(columns@.take(0) =~= Seq::<TableColumnDetail>::empty());
    while i < columns.len()
        invariant
            i <= columns.len(),
            unique_names_check(columns@.take(i as int)) == Ok::<(), Seq<char>>(()),
        decreases columns.len() - i,
    {
        let name = trim_str(columns[i].name.as_str());
        proof {
            assert(columns@.take(i + 1).drop_last() == columns@.take(i as int));
            assert(columns@.take(i + 1).last() == columns@[i as int]);
        }
        if is_empty_text(name) {
            proof {
                lemma_names_error_persists(columns@, i + 1);
            }
            return Err(owned("Column name is required."));
        }
        let mut j: usize = 0;
        while j < i
            invariant
                j <= i,
                i < columns.len(),
                name@ == trim(columns@[i as int].name@),
                name@.len() > 0,
                unique_names_check(columns@.take(i as int)) == Ok::<(), Seq<char>>(()),
                columns@.take(i + 1).drop_last() == columns@.take(i as int),
                columns@.take(i + 1).last() == columns@[i as int],
                forall|k: int|
                    0 <= k < j ==> !eq_ci(trimmed_names(columns@.take(i as int))[k], name@),
            decreases i - j,
        {
            if eq_ignore_ascii_case(trim_str(columns[j].name.as_str()), name) {
                proof {
                    assert(eq_ci(trimmed_names(columns@.take(i as int))[j as int], name@));
                    lemma_names_error_persists(columns@, i + 1);
                }
                let mut e = owned("Duplicate column name: ");
                e.append(name);
                e.append(".");
                return Err(e);
            }
            j += 1;
        }
        i += 1;
    }
    proof {
        assert(columns@.take(columns.len() as int) == columns@);
    }
    Ok(())
}

// ---------------------------------------------------------------------------
// Table names
// ---------------------------------------------------------------------------

/// The name of the table a rebuild writes to before it takes the place of
/// `table`.
pub open spec fn temp_table(table: Seq<char>) -> Seq<char> {
    table + "__aktsql_reorder"@
}

/// The temporary table of a rebuild, in the same schema as `table`.
pub fn temporary_table_name(table: &str) -> (r: String)
    ensures
        r@ == temp_table(table@),
{
    let mut r = owned(table);
    r.append("__aktsql_reorder");
    r
}

/// The part of a dotted table name after the last dot.
pub open spec fn last_part(table: Seq<char>) -> Seq<char> {
    split(table, '.').last()
}

/// The table name without its schema.
pub fn last_table_part(table: &str) -> (r: String)
    ensures
        r@ == last_part(table@),
{
    let parts = split_char(table, '.');
    proof {
        lemma_split_nonempty(table@, '.');
    }
    parts[parts.len() - 1].clone()
}

// ---------------------------------------------------------------------------
// Column definitions
// ---------------------------------------------------------------------------

/// The type a rebuilt column gets: its own, or a text type of the driver
/// when none is known.
pub open spec fn reorder_type(driver: DatabaseDriver, data_type: Seq<char>) -> Seq<char> {
    let t = trim(data_type);
    if t.len() == 0 {
        match driver {
            DatabaseDriver::SqlServer => "NVARCHAR(MAX)"@,
            DatabaseDriver::Oracle => "CLOB"@,
            _ => "TEXT"@,
        }
    } else {
        t
    }
}

/// The data type of a rebuilt column.
pub fn normalized_reorder_type(driver: DatabaseDriver, data_type: &str) -> (r: String)
    ensures
        r@ == reorder_type(driver, data_type@),
{
    let t = trim_str(data_type);
    if is_empty_text(t) {
        match driver {
            DatabaseDriver::SqlServer => owned("NVARCHAR(MAX)"),
            DatabaseDriver::Oracle => owned("CLOB"),
            _ => owned("TEXT"),
        }
    } else {
        owned(t)
    }
}

/// A character, text or enumeration type, whose defaults are string
/// literals.
pub open spec fn is_text_type(data_type: Seq<char>) -> bool {
    let t = lower(trim(data_type));
    contains(t, "char"@) || contains(t, "text"@) || starts_with(t, "enum"@)
}

/// A default value as SQL: for a text column a bare value becomes a string
/// literal; quoted values, calls and `CURRENT_TIMESTAMP` stay as they are.
pub open spec fn column_default(data_type: Seq<char>, d: Seq<char>) -> Seq<char> {
    if is_text_type(data_type) && !starts_with(d, "'"@) && !contains(d, "("@) && !eq_ci(
        d,
        "CURRENT_TIMESTAMP"@,
    ) {
        string_literal(d)
    } else {
        d
    }
}

/// The default value of a column written as SQL.
pub fn normalized_column_default(column: &TableColumnDetail, default_value: &str) -> (r: String)
    ensures
        r@ == column_default(column.data_type@, default_value@),
{
    let t = to_ascii_lower(trim_str(column.data_type.as_str()));
    let text = contains_str(t.as_str(), "char") || contains_str(t.as_str(), "text")
        || starts_with_str(t.as_str(), "enum");
    if text && !starts_with_str(default_value, "'") && !contains_str(default_value, "(")
        && !eq_ignore_ascii_case(default_value, "CURRENT_TIMESTAMP") {
        sql_string_literal(default_value)
    } else {
        owned(default_value)
    }
}

/// The words of an extra clause without the `DEFAULT_GENERATED` marker that
/// MySQL reports for generated defaults.
pub open spec fn without_generated(words: Seq<Seq<char>>) -> Seq<Seq<char>>
    decreases words.len(),
{
    if words.len() == 0 {
        Seq::<Seq<char>>::empty()
    } else {
        let rest = without_generated(words.drop_last());
        if eq_ci(words.last(), "DEFAULT_GENERATED"@) {
            rest
        } else {
            rest.push(words.last())
        }
    }
}

/// The extra clause of a column as it can be written back.
pub open spec fn extra_clause(extra: Seq<char>) -> Seq<char> {
    join(without_generated(nonblank_trimmed(split(extra, ' '))), " "@)
}

/// The pieces after the type in a column definition: `NOT NULL`, the
/// default, the extra clause.
pub open spec fn tail_parts(c: TableColumnDetail) -> Seq<Seq<char>> {
    let a = if eq_ci(trim(c.nullable@), "YES"@) {
        Seq::<Seq<char>>::empty()
    } else {
        seq!["NOT NULL"@]
    };
    let d = trim(c.default_value@);
    let b = if d.len() == 0 || eq_ci(d, "NULL"@) {
        a
    } else {
        a.push("DEFAULT "@ + column_default(c.data_type@, d))
    };
    let x = extra_clause(c.extra@);
    if x.len() == 0 {
        b
    } else {
        b.push(x)
    }
}

/// What follows the type in the definition of an existing column.
pub open spec fn definition_tail(c: TableColumnDetail) -> Seq<char> {
    join(tail_parts(c), " "@)
}

fn extra_words(extra: &str) -> (r: String)
    ensures
        r@ == extra_clause(extra@),
{
    let parts = split_char(extra, ' ');
    let mut words: Vec<String> = Vec::new();
    let mut kept: Vec<String> = Vec::new();
    let mut i: usize = 0;
    assert(views(kept@) =~= Seq::<Seq<char>>::empty());
    while i < parts.len()
        invariant
            i <= parts.len(),
            views(parts@) == split(extra@, ' '),
            views(words@) == nonblank_trimmed(views(parts@).take(i as int)),
            views(kept@) == without_generated(views(words@)),
        decreases parts.len() - i,
    {
        let t = trim_str(parts[i].as_str());
        proof {
            let p = views(parts@).take(i + 1);
            assert(p.drop_last() == views(parts@).take(i as int));
            assert(p.last() == parts@[i as int]@);
        }
        if !is_empty_text(t) {
            let ghost wb = views(words@);
            let ghost kb = views(kept@);
            words.push(owned(t));
            proof {
                assert(views(words@) =~= wb.push(t@));
                assert(views(words@).drop_last() == wb);
            }
            if !eq_ignore_ascii_case(t, "DEFAULT_GENERATED") {
                kept.push(owned(t));
                proof {
                    assert(views(kept@) =~= kb.push(t@));
                }
            }
        }
        i += 1;
    }
    proof {
        assert(views(parts@).take(parts.len() as int) == views(parts@));
    }
    join_strings(&kept, " ")
}

/// What follows the type in the definition of an existing column:
/// `NOT NULL` unless it is nullable, its default unless none or `NULL`, and
/// its extra clause without the `DEFAULT_GENERATED` marker.
pub fn table_column_definition_tail(column: &TableColumnDetail) -> (r: String)
    ensures
        r@ == definition_tail(*column),
{
    let mut parts: Vec<String> = Vec::new();
    if !eq_ignore_ascii_case(trim_str(column.nullable.as_str()), "YES") {
        parts.push(owned("NOT NULL"));
    }
    let ghost a = views(parts@);
    assert(a =~= (if eq_ci(trim(column.nullable@), "YES"@) {
        Seq::<Seq<char>>::empty()
    } else {
        seq!["NOT NULL"@]
    }));
    let d = trim_str(column.default_value.as_str());
    if !is_empty_text(d) && !eq_ignore_ascii_case(d, "NULL") {
        let mut p = owned("DEFAULT ");
        p.append(normalized_column_default(column, d).as_str());
        let ghost pv = p@;
        parts.push(p);
        assert(views(parts@) =~= a.push(pv));
    }
    let ghost b = views(parts@);
    let x = extra_words(column.extra.as_str());
    if !is_empty_text(x.as_str()) {
        let ghost xv = x@;
        parts.push(x);
        assert(views(parts@) =~= b.push(xv));
    }
    join_strings(&parts, " ")
}

/// What an added column holds in the rows copied by a rebuild: its default
/// written as SQL, or `NULL`.
pub open spec fn inserted_expr(c: TableColumnDetail) -> Seq<char> {
    let d = trim(c.default_value@);
    if d.len() > 0 && !eq_ci(d, "NULL"@) {
        column_default(c.data_type@, d)
    } else {
        "NULL"@
    }
}

/// The value an added column gets in the copied rows.
pub fn inserted_column_expression(column: &TableColumnDetail) -> (r: String)
    ensures
        r@ == inserted_expr(*column),
{
    let d = trim_str(column.default_value.as_str());
    if !is_empty_text(d) && !eq_ignore_ascii_case(d, "NULL") {
        return normalized_column_default(column, d);
    }
    owned("NULL")
}

/// The pieces of a rebuilt column's definition; an auto-increment column of
/// the MySQL family becomes the primary key unless a piece says so already.
pub open spec fn reorder_parts(driver: DatabaseDriver, c: TableColumnDetail, q: Quoting) -> Seq<
    Seq<char>,
> {
    let base = seq![quoted(q, c.name@), reorder_type(driver, c.data_type@)];
    let tail = definition_tail(c);
    let parts = if tail.len() == 0 {
        base
    } else {
        base.push(tail)
    };
    if is_mysql_family(driver) && contains(lower(c.extra@), "auto_increment"@) && !has_primary_key(
        parts,
    ) {
        parts.push("PRIMARY KEY"@)
    } else {
        parts
    }
}

/// Some piece mentions `primary key` (any ASCII case).
pub open spec fn has_primary_key(parts: Seq<Seq<char>>) -> bool {
    exists|i: int| 0 <= i < parts.len() && contains(lower(parts[i]), "primary key"@)
}

/// The definition of a column of a rebuilt table.
pub open spec fn reordered_definition(driver: DatabaseDriver, c: TableColumnDetail, q: Quoting) -> Seq<
    char,
> {
    join(reorder_parts(driver, c, q), " "@)
}

/// The definition of a column in the rebuilt table: name, type, the rest
/// of its definition, and `PRIMARY KEY` for a MySQL auto-increment column.
pub fn reordered_column_definition(
    driver: DatabaseDriver,
    column: &TableColumnDetail,
    quote_column: Quoting,
) -> (r: String)
    ensures
        r@ == reordered_definition(driver, *column, quote_column),
{
    let mut parts: Vec<String> = Vec::new();
    parts.push(quote_with(quote_column, column.name.as_str()));
    parts.push(normalized_reorder_type(driver, column.data_type.as_str()));
    let ghost base = views(parts@);
    assert(base =~= seq![
        quoted(quote_column, column.name@),
        reorder_type(driver, column.data_type@),
    ]);
    let tail = table_column_definition_tail(column);
    if !is_empty_text(tail.as_str()) {
        let ghost tv = tail@;
        parts.push(tail);
        assert(views(parts@) =~= base.push(tv));
    }
    let ghost p1 = views(parts@);
    assert(p1 == (if definition_tail(*column).len() == 0 {
        base
    } else {
        base.push(definition_tail(*column))
    }));
    let mysql = match driver {
        DatabaseDriver::MySql | DatabaseDriver::MariaDb | DatabaseDriver::TiDb => true,
        _ => false,
    };
    let auto = contains_str(to_ascii_lower(column.extra.as_str()).as_str(), "auto_increment");
    if mysql && auto {
        let mut k: usize = 0;
        let mut found = false;
        while k < parts.len()
            invariant
                k <= parts.len(),
                views(parts@) == p1,
                found ==> exists|i: int|
                    0 <= i < k && contains(lower(views(parts@)[i]), "primary key"@),
                !found ==> forall|i: int|
                    0 <= i < k ==> !contains(lower(views(parts@)[i]), "primary key"@),
            decreases parts.len() - k,
        {
            if contains_str(to_ascii_lower(parts[k].as_str()).as_str(), "primary key") {
                assert(contains(lower(views(parts@)[k as int]), "primary key"@));
                found = true;
            }
            k += 1;
        }
        if !found {
            parts.push(owned("PRIMARY KEY"));
            assert(views(parts@) =~= p1.push("PRIMARY KEY"@));
        }
    }
    assert(views(parts@) == reorder_parts(driver, *column, quote_column));
    join_strings(&parts, " ")
}

// ---------------------------------------------------------------------------
// Rebuilding a table
// ---------------------------------------------------------------------------

/// The column a rebuilt column is copied from: the source name at the same
/// position when it is not blank, else the column's own name.
pub open spec fn source_name(source: Seq<Seq<char>>, cols: Seq<TableColumnDetail>, i: int) -> Seq<
    char,
> {
    if i < source.len() && trim(source[i]).len() > 0 {
        source[i]
    } else {
        cols[i].name@
    }
}

/// The quoted source columns of a rebuild, in the order of the new columns.
pub open spec fn source_list(source: Seq<Seq<char>>, cols: Seq<TableColumnDetail>, q: Quoting) -> Seq<
    char,
> {
    join(Seq::new(cols.len(), |i: int| quoted(q, source_name(source, cols, i))), ", "@)
}

/// The columns to copy from, by position: a renamed or moved column is read
/// under its old name.
pub fn source_column_list(
    source_names: &Vec<String>,
    columns: &Vec<TableColumnDetail>,
    quote_column: Quoting,
) -> (r: String)
    ensures
        r@ == source_list(views(source_names@), columns@, quote_column),
{
    let ghost src = views(source_names@);
    let mut parts: Vec<String> = Vec::new();
    let mut i: usize = 0;
    assert(views(parts@) =~= Seq::new(0, |k: int| quoted(quote_column, source_name(src, columns@, k))));
    while i < columns.len()
        invariant
            i <= columns.len(),
            src == views(source_names@),
            views(parts@) == Seq::new(
                i as nat,
                |k: int| quoted(quote_column, source_name(src, columns@, k)),
            ),
        decreases columns.len() - i,
    {
        let use_source = i < source_names.len() && !is_empty_text(
            trim_str(source_names[i].as_str()),
        );
        let name = if use_source {
            source_names[i].as_str()
        } else {
            columns[i].name.as_str()
        };
        let part = quote_with(quote_column, name);
        let ghost before = views(parts@);
        let ghost pv = part@;
        assert(pv == quoted(quote_column, source_name(src, columns@, i as int)));
        parts.push(part);
        assert(views(parts@) =~= before.push(pv));
        assert(views(parts@) =~= Seq::new(
            (i + 1) as nat,
            |k: int| quoted(quote_column, source_name(src, columns@, k)),
        ));
        i += 1;
    }
    join_strings(&parts, ", ")
}

/// What a rebuilt column is filled from when a column is added: an existing
/// column by its name, or the new column's default.
pub open spec fn add_source_item(original: Seq<Seq<char>>, c: TableColumnDetail, q: Quoting) -> Seq<
    char,
> {
    if has_ci(original, c.name@) {
        quoted(q, c.name@)
    } else {
        inserted_expr(c)
    }
}

/// The values copied into a rebuilt table that gains a column.
pub open spec fn add_source_list(
    original: Seq<Seq<char>>,
    cols: Seq<TableColumnDetail>,
    q: Quoting,
) -> Seq<char> {
    join(cols.map_values(|c: TableColumnDetail| add_source_item(original, c, q)), ", "@)
}

fn listed_ignoring_case(names: &Vec<String>, name: &str) -> (r: bool)
    ensures
        r == has_ci(views(names@), name@),
{
    let mut i: usize = 0;
    while i < names.len()
        invariant
            i <= names.len(),
            forall|j: int| 0 <= j < i ==> !eq_ci(views(names@)[j], name@),
        decreases names.len() - i,
    {
        if eq_ignore_ascii_case(names[i].as_str(), name) {
            assert(eq_ci(views(names@)[i as int], name@));
            return true;
        }
        i += 1;
    }
    false
}

/// The values copied into the rebuilt table: existing columns by name (up
/// to ASCII case), the added column by its default or `NULL`.
pub fn add_column_source_column_list(
    original_column_names: &Vec<String>,
    columns: &Vec<TableColumnDetail>,
    quote_column: Quoting,
) -> (r: String)
    ensures
        r@ == add_source_list(views(original_column_names@), columns@, quote_column),
{
    let ghost orig = views(original_column_names@);
    let mut parts: Vec<String> = Vec::new();
    let mut i: usize = 0;
    assert(views(parts@) =~= columns@.take(0).map_values(
        |c: TableColumnDetail| add_source_item(orig, c, quote_column),
    ));
    while i < columns.len()
        invariant
            i <= columns.len(),
            orig == views(original_column_names@),
            views(parts@) == columns@.take(i as int).map_values(
                |c: TableColumnDetail| add_source_item(orig, c, quote_column),
            ),
        decreases columns.len() - i,
    {
        let column = &columns[i];
        let part = if listed_ignoring_case(original_column_names, column.name.as_str()) {
            quote_with(quote_column, column.name.as_str())
        } else {
            inserted_column_expression(column)
        };
        let ghost before = views(parts@);
        let ghost pv = part@;
        parts.push(part);
        assert(views(parts@) =~= before.push(pv));
        assert(columns@.take(i + 1) == columns@.take(i as int).push(columns@[i as int]));
        assert(views(parts@) =~= columns@.take(i + 1).map_values(
            |c: TableColumnDetail| add_source_item(orig, c, quote_column),
        ));
        i += 1;
    }
    assert(columns@.take(columns.len() as int) == columns@);
    join_strings(&parts, ", ")
}

/// The definitions of the rebuilt table's columns.
pub open spec fn column_defs(driver: DatabaseDriver, cols: Seq<TableColumnDetail>, q: Quoting) -> Seq<
    char,
> {
    join(cols.map_values(|c: TableColumnDetail| reordered_definition(driver, c, q)), ", "@)
}

/// The quoted names of the rebuilt table's columns.
pub open spec fn column_names(cols: Seq<TableColumnDetail>, q: Quoting) -> Seq<char> {
    join(cols.map_values(|c: TableColumnDetail| quoted(q, c.name@)), ", "@)
}

fn definitions_sql(driver: DatabaseDriver, columns: &Vec<TableColumnDetail>, q: Quoting) -> (r:
    String)
    ensures
        r@ == column_defs(driver, columns@, q),
{
    let mut parts: Vec<String> = Vec::new();
    let mut i: usize = 0;
    assert(views(parts@) =~= columns@.take(0).map_values(
        |c: TableColumnDetail| reordered_definition(driver, c, q),
    ));
    while i < columns.len()
        invariant
            i <= columns.len(),
            views(parts@) == columns@.take(i as int).map_values(
                |c: TableColumnDetail| reordered_definition(driver, c, q),
            ),
        decreases columns.len() - i,
    {
        let part = reordered_column_definition(driver, &columns[i], q);
        let ghost before = views(parts@);
        let ghost pv = part@;
        parts.push(part);
        assert(views(parts@) =~= before.push(pv));
        assert(columns@.take(i + 1) == columns@.take(i as int).push(columns@[i as int]));
        assert(views(parts@) =~= columns@.take(i + 1).map_values(
            |c: TableColumnDetail| reordered_definition(driver, c, q),
        ));
        i += 1;
    }
    assert(columns@.take(columns.len() as int) == columns@);
    join_strings(&parts, ", ")
}

fn names_sql(columns: &Vec<TableColumnDetail>, q: Quoting) -> (r: String)
    ensures
        r@ == column_names(columns@, q),
{
    let mut parts: Vec<String> = Vec::new();
    let mut i: usize = 0;
    assert(views(parts@) =~= columns@.take(0).map_values(
        |c: TableColumnDetail| quoted(q, c.name@),
    ));
    while i < columns.len()
        invariant
            i <= columns.len(),
            views(parts@) == columns@.take(i as int).map_values(
                |c: TableColumnDetail| quoted(q, c.name@),
            ),
        decreases columns.len() - i,
    {
        let part = quote_with(q, columns[i].name.as_str());
        let ghost before = views(parts@);
        let ghost pv = part@;
        parts.push(part);
        assert(views(parts@) =~= before.push(pv));
        assert(columns@.take(i + 1) == columns@.take(i as int).push(columns@[i as int]));
        assert(views(parts@) =~= columns@.take(i + 1).map_values(
            |c: TableColumnDetail| quoted(q, c.name@),
        ));
        i += 1;
    }
    assert(columns@.take(columns.len() as int) == columns@);
    join_strings(&parts, ", ")
}

/// The statements that rebuild `table` with the columns in their new order,
/// copying the rows from the `source` expressions, then put the new table
/// in its place.
pub open spec fn rebuild_sql(
    driver: DatabaseDriver,
    table: Seq<char>,
    cols: Seq<TableColumnDetail>,
    qt: Quoting,
    qc: Quoting,
    source: Seq<char>,
) -> Seq<char> {
    let tmp = temp_table(table);
    let rename = if driver == DatabaseDriver::SqlServer {
        "EXEC sp_rename "@ + string_literal(tmp) + ", "@ + string_literal(last_part(table)) + ";"@
    } else {
        "ALTER TABLE "@ + quoted(qt, tmp) + " RENAME TO "@ + quote_plain(last_part(table)) + ";"@
    };
    "CREATE TABLE "@ + quoted(qt, tmp) + " ("@ + column_defs(driver, cols, qc) + "); INSERT INTO "@
        + quoted(qt, tmp) + " ("@ + column_names(cols, qc) + ") SELECT "@ + source + " FROM "@
        + quoted(qt, table) + "; DROP TABLE "@ + quoted(qt, table) + "; "@ + rename
}

/// A rebuild keeps the rows and then replaces the table: the statements
/// begin by creating the temporary table, copy the rows into its columns in
/// their new order from the source expressions read from the table, drop that
/// table right after, and end by giving the temporary table the table's name.
#[verifier::spinoff_prover]
#[verifier::rlimit(40)]
pub proof fn rebuilt_table_copies_then_replaces(
    driver: DatabaseDriver,
    table: Seq<char>,
    cols: Seq<TableColumnDetail>,
    qt: Quoting,
    qc: Quoting,
    source: Seq<char>,
)
    ensures
        ({
            let s = rebuild_sql(driver, table, cols, qt, qc, source);
            let tmp = temp_table(table);
            &&& starts_with(s, "CREATE TABLE "@ + quoted(qt, tmp) + " ("@)
            &&& contains(
                s,
                "); INSERT INTO "@ + quoted(qt, tmp) + " ("@ + column_names(cols, qc) + ") SELECT "@
                    + source + " FROM "@ + quoted(qt, table) + "; DROP TABLE "@ + quoted(qt, table)
                    + "; "@,
            )
            &&& ends_with(
                s,
                if driver == DatabaseDriver::SqlServer {
                    "EXEC sp_rename "@ + string_literal(tmp) + ", "@ + string_literal(last_part(table))
                        + ";"@
                } else {
                    "ALTER TABLE "@ + quoted(qt, tmp) + " RENAME TO "@ + quote_plain(last_part(table))
                        + ";"@
                },
            )
        }),
{
    let s = rebuild_sql(driver, table, cols, qt, qc, source);
    let tmp = temp_table(table);
    let rename = if driver == DatabaseDriver::SqlServer {
        "EXEC sp_rename "@ + string_literal(tmp) + ", "@ + string_literal(last_part(table)) + ";"@
    } else {
        "ALTER TABLE "@ + quoted(qt, tmp) + " RENAME TO "@ + quote_plain(last_part(table)) + ";"@
    };
    let p = "CREATE TABLE "@ + quoted(qt, tmp) + " ("@;
    let d = column_defs(driver, cols, qc);
    let m = "); INSERT INTO "@ + quoted(qt, tmp) + " ("@ + column_names(cols, qc) + ") SELECT "@
        + source + " FROM "@ + quoted(qt, table) + "; DROP TABLE "@ + quoted(qt, table) + "; "@;
    assert(s == p + d + m + rename);
    assert(starts_with(s, p)) by {
        assert(p + d + m + rename =~= p + (d + m + rename));
        lemma_starts_with_concat(p, d + m + rename);
    }
    assert(contains(s, m)) by {
        assert(p + d + m + rename =~= (p + d) + m + rename);
        lemma_contains_middle(p + d, m, rename);
    }
    assert(ends_with(s, rename)) by {
        lemma_ends_with_concat(p + d + m, rename);
    }
}

/// The MySQL and SQLite rebuilds keep the rows and then replace the table.
/// MySQL copies the rows from the table into the temporary one, swaps the two
/// names in one `RENAME TABLE` (the old table becoming the backup) and ends by
/// dropping the backup. SQLite does the same inside one transaction with
/// foreign keys switched off, dropping the old table right after the copy and
/// giving the temporary table the table's name. MongoDB keeps every field of the new
/// order under its own name.
#[verifier::spinoff_prover]
#[verifier::rlimit(40)]
pub proof fn mysql_and_sqlite_rebuilds_copy_then_replace(
    database: Seq<char>,
    table: Seq<char>,
    cols: Seq<TableColumnDetail>,
    source: Seq<Seq<char>>,
    sqlite_source: Seq<char>,
)
    ensures
        ({
            let d = quote_mysql(database) + "."@;
            ends_with(
                mysql_rebuild_sql(database, table, cols, source),
                " FROM "@ + d + quote_mysql(table) + "; RENAME TABLE "@ + d + quote_mysql(table)
                    + " TO "@ + d + quote_mysql(table + "__aktsql_backup"@) + ", "@ + d
                    + quote_mysql(table + "__aktsql_reorder"@) + " TO "@ + d + quote_mysql(table)
                    + "; DROP TABLE "@ + d + quote_mysql(table + "__aktsql_backup"@) + ";"@,
            )
        }),
        ({
            let s = sqlite_rebuild_sql(table, cols, sqlite_source);
            &&& starts_with(s, "PRAGMA foreign_keys=OFF; BEGIN TRANSACTION; CREATE TABLE "@)
            &&& contains(
                s,
                ") SELECT "@ + sqlite_source + " FROM "@ + quote_plain(table) + "; DROP TABLE "@
                    + quote_plain(table) + "; ALTER TABLE "@ + quote_plain(temp_table(table))
                    + " RENAME TO "@ + quote_plain(last_part(table)) + "; COMMIT; PRAGMA foreign_keys=ON;"@,
            )
        }),
        forall|i: int|
            0 <= i < cols.len() ==> contains(
                mongodb_reorder_sql(table, cols),
                "\""@ + json_escaped(#[trigger] cols[i].name@) + "\":\"$"@ + json_escaped(
                    cols[i].name@,
                ) + "\""@,
            ),
{
    lemma_mysql_rebuild_shape(database, table, cols, source);
    lemma_sqlite_rebuild_shape(table, cols, sqlite_source);
    lemma_mongodb_reorder_fields(table, cols);
}

#[verifier::spinoff_prover]
proof fn lemma_mysql_rebuild_shape(
    database: Seq<char>,
    table: Seq<char>,
    cols: Seq<TableColumnDetail>,
    source: Seq<Seq<char>>,
)
    ensures
        ({
            let d = quote_mysql(database) + "."@;
            ends_with(
                mysql_rebuild_sql(database, table, cols, source),
                " FROM "@ + d + quote_mysql(table) + "; RENAME TABLE "@ + d + quote_mysql(table)
                    + " TO "@ + d + quote_mysql(table + "__aktsql_backup"@) + ", "@ + d
                    + quote_mysql(table + "__aktsql_reorder"@) + " TO "@ + d + quote_mysql(table)
                    + "; DROP TABLE "@ + d + quote_mysql(table + "__aktsql_backup"@) + ";"@,
            )
        }),
{
    let d = quote_mysql(database) + "."@;
    let tmp = quote_mysql(table + "__aktsql_reorder"@);
    let backup = quote_mysql(table + "__aktsql_backup"@);
    let t = quote_mysql(table);
    let s = mysql_rebuild_sql(database, table, cols, source);
    let a = "CREATE TABLE "@ + d + tmp + " ("@ + column_defs(DatabaseDriver::MySql, cols, Quoting::MySql)
        + "); INSERT INTO "@ + d + tmp + " ("@ + column_names(cols, Quoting::MySql) + ") SELECT "@
        + source_list(source, cols, Quoting::MySql);
    let e = " FROM "@ + d + t + "; RENAME TABLE "@ + d + t + " TO "@ + d + backup + ", "@ + d + tmp
        + " TO "@ + d + t + "; DROP TABLE "@ + d + backup + ";"@;
    assert(s =~= a + e);
    lemma_ends_with_concat(a, e);
}

#[verifier::spinoff_prover]
proof fn lemma_sqlite_rebuild_shape(table: Seq<char>, cols: Seq<TableColumnDetail>, sqlite_source: Seq<char>)
    ensures
        ({
            let s = sqlite_rebuild_sql(table, cols, sqlite_source);
            &&& starts_with(s, "PRAGMA foreign_keys=OFF; BEGIN TRANSACTION; CREATE TABLE "@)
            &&& contains(
                s,
                ") SELECT "@ + sqlite_source + " FROM "@ + quote_plain(table) + "; DROP TABLE "@
                    + quote_plain(table) + "; ALTER TABLE "@ + quote_plain(temp_table(table))
                    + " RENAME TO "@ + quote_plain(last_part(table)) + "; COMMIT; PRAGMA foreign_keys=ON;"@,
            )
        }),
{
    let q = sqlite_rebuild_sql(table, cols, sqlite_source);
    let tq = quote_plain(temp_table(table));
    let p0 = "PRAGMA foreign_keys=OFF; BEGIN TRANSACTION; CREATE TABLE "@;
    let mid = tq + " ("@ + column_defs(DatabaseDriver::Sqlite, cols, Quoting::Plain)
        + "); INSERT INTO "@ + tq + " ("@ + column_names(cols, Quoting::Plain);
    let w = ") SELECT "@ + sqlite_source + " FROM "@ + quote_plain(table) + "; DROP TABLE "@
        + quote_plain(table) + "; ALTER TABLE "@ + tq + " RENAME TO "@ + quote_plain(last_part(table))
        + "; COMMIT; PRAGMA foreign_keys=ON;"@;
    assert(q == p0 + mid + w) by {
        assert(q =~= p0 + mid + w);
    }
    assert(starts_with(q, p0)) by {
        assert(p0 + mid + w =~= p0 + (mid + w));
        lemma_starts_with_concat(p0, mid + w);
    }
    assert(contains(q, w)) by {
        assert(p0 + mid + w =~= (p0 + mid) + w + Seq::<char>::empty());
        lemma_contains_middle(p0 + mid, w, Seq::<char>::empty());
    }
}

#[verifier::spinoff_prover]
proof fn lemma_mongodb_reorder_fields(table: Seq<char>, cols: Seq<TableColumnDetail>)
    ensures
        forall|i: int|
            0 <= i < cols.len() ==> contains(
                mongodb_reorder_sql(table, cols),
                "\""@ + json_escaped(#[trigger] cols[i].name@) + "\":\"$"@ + json_escaped(
                    cols[i].name@,
                ) + "\""@,
            ),
{
    let fields = cols.map_values(|c: TableColumnDetail| mongodb_field(c));
    let j = join(fields, ","@);
    let pre = "{\"update\":\""@ + json_escaped(table)
        + "\",\"updates\":[{\"q\":{},\"u\":[{\"$replaceRoot\":{\"newRoot\":{"@;
    let post = "}}}],\"multi\":true}]}"@;
    assert forall|i: int| 0 <= i < cols.len() implies contains(
        mongodb_reorder_sql(table, cols),
        "\""@ + json_escaped(#[trigger] cols[i].name@) + "\":\"$"@ + json_escaped(cols[i].name@)
            + "\""@,
    ) by {
        lemma_join_contains(fields, ","@, i);
        lemma_contains_grow(j, fields[i], pre, post);
        assert(pre + j + post =~= mongodb_reorder_sql(table, cols));
    }
}

fn rebuild_with_source(
    driver: DatabaseDriver,
    table: &str,
    columns: &Vec<TableColumnDetail>,
    quote_table: Quoting,
    quote_column: Quoting,
    source: String,
) -> (r: String)
    ensures
        r@ == rebuild_sql(driver, table@, columns@, quote_table, quote_column, source@),
{
    let temp = temporary_table_name(table);
    let last = last_table_part(table);
    let mut r = owned("CREATE TABLE ");
    r.append(quote_with(quote_table, temp.as_str()).as_str());
    r.append(" (");
    r.append(definitions_sql(driver, columns, quote_column).as_str());
    r.append("); INSERT INTO ");
    r.append(quote_with(quote_table, temp.as_str()).as_str());
    r.append(" (");
    r.append(names_sql(columns, quote_column).as_str());
    r.append(") SELECT ");
    r.append(source.as_str());
    r.append(" FROM ");
    r.append(quote_with(quote_table, table).as_str());
    r.append("; DROP TABLE ");
    r.append(quote_with(quote_table, table).as_str());
    r.append("; ");
    if driver == DatabaseDriver::SqlServer {
        r.append("EXEC sp_rename ");
        r.append(sql_string_literal(temp.as_str()).as_str());
        r.append(", ");
        r.append(sql_string_literal(last.as_str()).as_str());
        r.append(";");
    } else {
        r.append("ALTER TABLE ");
        r.append(quote_with(quote_table, temp.as_str()).as_str());
        r.append(" RENAME TO ");
        r.append(quote_plain_identifier(last.as_str()).as_str());
        r.append(";");
    }
    r
}

/// The statements that rebuild a table with its columns reordered, copying
/// each from its source column.
pub fn rebuild_table_statement(
    driver: DatabaseDriver,
    table: &str,
    columns: &Vec<TableColumnDetail>,
    source_names: &Vec<String>,
    quote_table: Quoting,
    quote_column: Quoting,
) -> (r: String)
    ensures
        r@ == rebuild_sql(
            driver,
            table@,
            columns@,
            quote_table,
            quote_column,
            source_list(views(source_names@), columns@, quote_column),
        ),
{
    let source = source_column_list(source_names, columns, quote_column);
    rebuild_with_source(driver, table, columns, quote_table, quote_column, source)
}

/// The statements that rebuild a table with a column added at its place.
pub fn rebuild_table_with_added_column_statement(
    driver: DatabaseDriver,
    table: &str,
    columns: &Vec<TableColumnDetail>,
    original_column_names: &Vec<String>,
    quote_table: Quoting,
    quote_column: Quoting,
) -> (r: String)
    ensures
        r@ == rebuild_sql(
            driver,
            table@,
            columns@,
            quote_table,
            quote_column,
            add_source_list(views(original_column_names@), columns@, quote_column),
        ),
{
    let source = add_column_source_column_list(original_column_names, columns, quote_column);
    rebuild_with_source(driver, table, columns, quote_table, quote_column, source)
}

/// The MySQL rebuild: the new table is filled, then swapped in by one
/// `RENAME TABLE`, and the old one is dropped.
pub open spec fn mysql_rebuild_sql(
    database: Seq<char>,
    table: Seq<char>,
    cols: Seq<TableColumnDetail>,
    source: Seq<Seq<char>>,
) -> Seq<char> {
    let d = quote_mysql(database) + "."@;
    let tmp = quote_mysql(table + "__aktsql_reorder"@);
    let backup = quote_mysql(table + "__aktsql_backup"@);
    let t = quote_mysql(table);
    "CREATE TABLE "@ + d + tmp + " ("@ + column_defs(DatabaseDriver::MySql, cols, Quoting::MySql)
        + "); INSERT INTO "@ + d + tmp + " ("@ + column_names(cols, Quoting::MySql) + ") SELECT "@
        + source_list(source, cols, Quoting::MySql) + " FROM "@ + d + t + "; RENAME TABLE "@ + d + t
        + " TO "@ + d + backup + ", "@ + d + tmp + " TO "@ + d + t + "; DROP TABLE "@ + d + backup
        + ";"@
}

/// The statements that rebuild a MySQL table with its columns reordered.
pub fn mysql_rebuild_table_statement(
    database: &str,
    table: &str,
    columns: &Vec<TableColumnDetail>,
    source_names: &Vec<String>,
) -> (r: String)
    ensures
        r@ == mysql_rebuild_sql(database@, table@, columns@, views(source_names@)),
{
    let mut d = quote_mysql_identifier(database);
    d.append(".");
    let mut temp = owned(table);
    temp.append("__aktsql_reorder");
    let mut backup = owned(table);
    backup.append("__aktsql_backup");
    let tmp = quote_mysql_identifier(temp.as_str());
    let bak = quote_mysql_identifier(backup.as_str());
    let t = quote_mysql_identifier(table);
    let mut r = owned("CREATE TABLE ");
    r.append(d.as_str());
    r.append(tmp.as_str());
    r.append(" (");
    r.append(definitions_sql(DatabaseDriver::MySql, columns, Quoting::MySql).as_str());
    r.append("); INSERT INTO ");
    r.append(d.as_str());
    r.append(tmp.as_str());
    r.append(" (");
    r.append(names_sql(columns, Quoting::MySql).as_str());
    r.append(") SELECT ");
    r.append(source_column_list(source_names, columns, Quoting::MySql).as_str());
    r.append(" FROM ");
    r.append(d.as_str());
    r.append(t.as_str());
    r.append("; RENAME TABLE ");
    r.append(d.as_str());
    r.append(t.as_str());
    r.append(" TO ");
    r.append(d.as_str());
    r.append(bak.as_str());
    r.append(", ");
    r.append(d.as_str());
    r.append(tmp.as_str());
    r.append(" TO ");
    r.append(d.as_str());
    r.append(t.as_str());
    r.append("; DROP TABLE ");
    r.append(d.as_str());
    r.append(bak.as_str());
    r.append(";");
    r
}

/// The SQLite rebuild, inside a transaction with foreign keys off.
pub open spec fn sqlite_rebuild_sql(
    table: Seq<char>,
    cols: Seq<TableColumnDetail>,
    source: Seq<char>,
) -> Seq<char> {
    let tmp = quote_plain(temp_table(table));
    "PRAGMA foreign_keys=OFF; BEGIN TRANSACTION; CREATE TABLE "@ + tmp + " ("@ + column_defs(
        DatabaseDriver::Sqlite,
        cols,
        Quoting::Plain,
    ) + "); INSERT INTO "@ + tmp + " ("@ + column_names(cols, Quoting::Plain) + ") SELECT "@
        + source + " FROM "@ + quote_plain(table) + "; DROP TABLE "@ + quote_plain(table)
        + "; ALTER TABLE "@ + tmp + " RENAME TO "@ + quote_plain(last_part(table))
        + "; COMMIT; PRAGMA foreign_keys=ON;"@
}

fn sqlite_rebuild_with_source(table: &str, columns: &Vec<TableColumnDetail>, source: String) -> (r:
    String)
    ensures
        r@ == sqlite_rebuild_sql(table@, columns@, source@),
{
    let temp = temporary_table_name(table);
    let tmp = quote_plain_identifier(temp.as_str());
    let t = quote_plain_identifier(table);
    let mut r = owned("PRAGMA foreign_keys=OFF; BEGIN TRANSACTION; CREATE TABLE ");
    r.append(tmp.as_str());
    r.append(" (");
    r.append(definitions_sql(DatabaseDriver::Sqlite, columns, Quoting::Plain).as_str());
    r.append("); INSERT INTO ");
    r.append(tmp.as_str());
    r.append(" (");
    r.append(names_sql(columns, Quoting::Plain).as_str());
    r.append(") SELECT ");
    r.append(source.as_str());
    r.append(" FROM ");
    r.append(t.as_str());
    r.append("; DROP TABLE ");
    r.append(t.as_str());
    r.append("; ALTER TABLE ");
    r.append(tmp.as_str());
    r.append(" RENAME TO ");
    r.append(quote_plain_identifier(last_table_part(table).as_str()).as_str());
    r.append("; COMMIT; PRAGMA foreign_keys=ON;");
    r
}

/// The SQLite statements that rebuild a table with its columns reordered.
pub fn sqlite_rebuild_table_statement(
    table: &str,
    columns: &Vec<TableColumnDetail>,
    source_names: &Vec<String>,
) -> (r: String)
    ensures
        r@ == sqlite_rebuild_sql(
            table@,
            columns@,
            source_list(views(source_names@), columns@, Quoting::Plain),
        ),
{
    let source = source_column_list(source_names, columns, Quoting::Plain);
    sqlite_rebuild_with_source(table, columns, source)
}

/// The SQLite statements that rebuild a table with a column added at its
/// place.
pub fn sqlite_rebuild_table_with_added_column_statement(
    table: &str,
    columns: &Vec<TableColumnDetail>,
    original_column_names: &Vec<String>,
) -> (r: String)
    ensures
        r@ == sqlite_rebuild_sql(
            table@,
            columns@,
            add_source_list(views(original_column_names@), columns@, Quoting::Plain),
        ),
{
    let source = add_column_source_column_list(original_column_names, columns, Quoting::Plain);
    sqlite_rebuild_with_source(table, columns, source)
}

/// One field of the projection that reorders a MongoDB document.
pub open spec fn mongodb_field(c: TableColumnDetail) -> Seq<char> {
    "\""@ + json_escaped(c.name@) + "\":\"$"@ + json_escaped(c.name@) + "\""@
}

/// The update command that rewrites every document of the collection with
/// its fields in the new order.
pub open spec fn mongodb_reorder_sql(table: Seq<char>, cols: Seq<TableColumnDetail>) -> Seq<char> {
    "{\"update\":\""@ + json_escaped(table)
        + "\",\"updates\":[{\"q\":{},\"u\":[{\"$replaceRoot\":{\"newRoot\":{"@ + join(
        cols.map_values(|c: TableColumnDetail| mongodb_field(c)),
        ","@,
    ) + "}}}],\"multi\":true}]}"@
}

/// The MongoDB command that reorders the fields of every document.
pub fn mongodb_reorder_fields_command(table: &str, columns: &Vec<TableColumnDetail>) -> (r: String)
    ensures
        r@ == mongodb_reorder_sql(table@, columns@),
{
    let mut parts: Vec<String> = Vec::new();
    let mut i: usize = 0;
    assert(views(parts@) =~= columns@.take(0).map_values(|c: TableColumnDetail| mongodb_field(c)));
    while i < columns.len()
        invariant
            i <= columns.len(),
            views(parts@) == columns@.take(i as int).map_values(
                |c: TableColumnDetail| mongodb_field(c),
            ),
        decreases columns.len() - i,
    {
        let name = json_escape(columns[i].name.as_str());
        let mut part = owned("\"");
        part.append(name.as_str());
        part.append("\":\"$");
        part.append(name.as_str());
        part.append("\"");
        let ghost before = views(parts@);
        let ghost pv = part@;
        parts.push(part);
        assert(views(parts@) =~= before.push(pv));
        assert(columns@.take(i + 1) == columns@.take(i as int).push(columns@[i as int]));
        assert(views(parts@) =~= columns@.take(i + 1).map_values(
            |c: TableColumnDetail| mongodb_field(c),
        ));
        i += 1;
    }
    assert(columns@.take(columns.len() as int) == columns@);
    let mut r = owned("{\"update\":\"");
    r.append(json_escape(table).as_str());
    r.append("\",\"updates\":[{\"q\":{},\"u\":[{\"$replaceRoot\":{\"newRoot\":{");
    r.append(join_strings(&parts, ",").as_str());
    r.append("}}}],\"multi\":true}]}");
    r
}

// ---------------------------------------------------------------------------
// Added columns
// ---------------------------------------------------------------------------

/// The definition of the column an alter draft adds: name and type with the
/// rest of the definition, or the definition alone.
pub open spec fn added_column_sql(driver: DatabaseDriver, draft: AlterTableDraft) -> Result<
    Seq<char>,
    Seq<char>,
> {
    let column = trim(draft.column_name@);
    let column_type = trim(draft.column_type@);
    let extra = trim(draft.column_definition@);
    if column.len() > 0 && column_type.len() > 0 {
        Ok(quoted(column_quoting(driver), column) + " "@ + column_type + prefixed(" "@, extra))
    } else if extra.len() > 0 {
        Ok(extra)
    } else {
        Err("Column name and data type are required."@)
    }
}

/// The definition of the added column, or an error when neither a name and
/// type nor a definition is given.
pub fn alter_column_definition(driver: DatabaseDriver, draft: &AlterTableDraft) -> (r: Result<
    String,
    String,
>)
    ensures
        text_result(r) == added_column_sql(driver, *draft),
{
    let column = trim_str(draft.column_name.as_str());
    let column_type = trim_str(draft.column_type.as_str());
    let extra = trim_str(draft.column_definition.as_str());
    if !is_empty_text(column) && !is_empty_text(column_type) {
        let mut r = quote_column_name(driver, column);
        r.append(" ");
        r.append(column_type);
        let ghost head = r@;
        if !is_empty_text(extra) {
            r.append(" ");
            r.append(extra);
        }
        assert(r@ =~= head + prefixed(" "@, extra@));
        return Ok(r);
    }
    if !is_empty_text(extra) {
        Ok(owned(extra))
    } else {
        Err(owned("Column name and data type are required."))
    }
}

/// The MySQL clause that places an added column, given the position
/// already upper-cased: ` FIRST`, ` AFTER` a named column, or nothing.
pub open spec fn position_sql(position: Seq<char>, after: Seq<char>) -> Seq<char> {
    if position == "FIRST"@ {
        " FIRST"@
    } else if position == "AFTER"@ {
        let a = trim(after);
        if a.len() == 0 {
            Seq::<char>::empty()
        } else {
            " AFTER "@ + quote_mysql(a)
        }
    } else {
        Seq::<char>::empty()
    }
}

/// The placing clause for an upper-cased position and the column to place
/// the new one after.
pub fn position_clause(position: &str, after: &str) -> (r: String)
    ensures
        r@ == position_sql(position@, after@),
{
    if str_eq(position, "FIRST") {
        owned(" FIRST")
    } else if str_eq(position, "AFTER") {
        let a = trim_str(after);
        if is_empty_text(a) {
            String::new()
        } else {
            let mut r = owned(" AFTER ");
            r.append(quote_mysql_identifier(a).as_str());
            r
        }
    } else {
        String::new()
    }
}

/// Where MySQL places the added column, from the draft's trimmed and
/// upper-cased position.
pub fn mysql_column_position_clause(draft: &AlterTableDraft) -> (r: String)
    ensures
        r@ == position_sql(unicode_upper(trim(draft.column_position@)), draft.after_column@),
{
    let position = to_uppercase(trim_str(draft.column_position.as_str()));
    position_clause(position.as_str(), draft.after_column.as_str())
}

// ---------------------------------------------------------------------------
// Statements
// ---------------------------------------------------------------------------

/// The statement that renames a column, or why it cannot be generated.
pub open spec fn rename_column_sql(
    driver: DatabaseDriver,
    database: Seq<char>,
    table: Seq<char>,
    draft: AlterTableDraft,
) -> Result<Seq<char>, Seq<char>> {
    let column = trim(draft.column_name@);
    let new_column = trim(draft.new_column_name@);
    let db = trim(database);
    if column.len() == 0 || new_column.len() == 0 {
        Err("Old and new column names are required."@)
    } else if !eq_ci(column, new_column) && name_listed(
        views(draft.original_column_names@),
        new_column,
    ) {
        Err("Column already exists: "@ + new_column + "."@)
    } else {
        match driver {
            DatabaseDriver::MySql | DatabaseDriver::MariaDb | DatabaseDriver::TiDb => if db.len()
                == 0 {
                Err("Select a database before altering a table."@)
            } else {
                Ok(
                    "ALTER TABLE "@ + quote_mysql(db) + "."@ + quote_mysql(table)
                        + " RENAME COLUMN "@ + quote_mysql(column) + " TO "@ + quote_mysql(
                        new_column,
                    ) + ";"@,
                )
            },
            DatabaseDriver::PostgreSql | DatabaseDriver::CockroachDb => Ok(
                "ALTER TABLE "@ + quoted(Quoting::Dotted, table) + " RENAME COLUMN "@ + quote_plain(
                    column,
                ) + " TO "@ + quote_plain(new_column) + ";"@,
            ),
            DatabaseDriver::Sqlite | DatabaseDriver::Oracle => Ok(
                "ALTER TABLE "@ + quote_plain(table) + " RENAME COLUMN "@ + quote_plain(column)
                    + " TO "@ + quote_plain(new_column) + ";"@,
            ),
            DatabaseDriver::SqlServer => Ok(
                "EXEC sp_rename "@ + string_literal(table + "."@ + column) + ", "@ + string_literal(
                    new_column,
                ) + ", 'COLUMN';"@,
            ),
            DatabaseDriver::MongoDb => Err(
                "MongoDB collection field rename needs an updateMany pipeline and a filter; it is not a table structure operation."@,
            ),
        }
    }
}

/// The statement that renames the draft's column of `table`.
pub fn rename_column_statement(
    form: &mut ConnectionForm,
    table: &str,
    draft: &AlterTableDraft,
) -> (r: Result<String, String>)
    ensures
        text_result(r) == rename_column_sql(old(form).driver, old(form).database@, table@, *draft),
        *final(form) == *old(form),
{
    let column = trim_str(draft.column_name.as_str());
    let new_column = trim_str(draft.new_column_name.as_str());
    if is_empty_text(column) || is_empty_text(new_column) {
        return Err(owned("Old and new column names are required."));
    }
    if !eq_ignore_ascii_case(column, new_column) && column_name_exists(
        &draft.original_column_names,
        new_column,
    ) {
        let mut e = owned("Column already exists: ");
        e.append(new_column);
        e.append(".");
        return Err(e);
    }
    match form.driver {
        DatabaseDriver::MySql | DatabaseDriver::MariaDb | DatabaseDriver::TiDb => {
            let database = trim_str(form.database.as_str());
            if is_empty_text(database) {
                return Err(owned("Select a database before altering a table."));
            }
            let mut r = owned("ALTER TABLE ");
            r.append(quote_mysql_identifier(database).as_str());
            r.append(".");
            r.append(quote_mysql_identifier(table).as_str());
            r.append(" RENAME COLUMN ");
            r.append(quote_mysql_identifier(column).as_str());
            r.append(" TO ");
            r.append(quote_mysql_identifier(new_column).as_str());
            r.append(";");
            Ok(r)
        },
        DatabaseDriver::PostgreSql | DatabaseDriver::CockroachDb => {
            let mut r = owned("ALTER TABLE ");
            r.append(quote_dotted_identifier(table).as_str());
            r.append(" RENAME COLUMN ");
            r.append(quote_plain_identifier(column).as_str());
            r.append(" TO ");
            r.append(quote_plain_identifier(new_column).as_str());
            r.append(";");
            Ok(r)
        },
        DatabaseDriver::Sqlite | DatabaseDriver::Oracle => {
            let mut r = owned("ALTER TABLE ");
            r.append(quote_plain_identifier(table).as_str());
            r.append(" RENAME COLUMN ");
            r.append(quote_plain_identifier(column).as_str());
            r.append(" TO ");
            r.append(quote_plain_identifier(new_column).as_str());
            r.append(";");
            Ok(r)
        },
        DatabaseDriver::SqlServer => {
            let mut target = owned(table);
            target.append(".");
            target.append(column);
            let mut r = owned("EXEC sp_rename ");
            r.append(sql_string_literal(target.as_str()).as_str());
            r.append(", ");
            r.append(sql_string_literal(new_column).as_str());
            r.append(", 'COLUMN';");
            Ok(r)
        },
        DatabaseDriver::MongoDb => Err(
            owned(
                "MongoDB collection field rename needs an updateMany pipeline and a filter; it is not a table structure operation.",
            ),
        ),
    }
}

/// A column is added at a given place, among columns that already exist:
/// the table is rebuilt rather than altered.
pub open spec fn positioned_rebuild(draft: AlterTableDraft) -> bool {
    draft.reordered_columns@.len() > 0 && draft.reordered_columns@.len()
        > draft.original_column_names@.len() && draft.column_position@ != "LAST"@
}

/// The statement that adds a column once its definition is known.
pub open spec fn add_column_for_driver(
    driver: DatabaseDriver,
    database: Seq<char>,
    table: Seq<char>,
    draft: AlterTableDraft,
    definition: Seq<char>,
) -> Result<Seq<char>, Seq<char>> {
    let db = trim(database);
    let cols = draft.reordered_columns@;
    let orig = views(draft.original_column_names@);
    let rebuild = positioned_rebuild(draft);
    match driver {
        DatabaseDriver::MySql | DatabaseDriver::MariaDb | DatabaseDriver::TiDb => if db.len() == 0 {
            Err("Select a database before altering a table."@)
        } else {
            Ok(
                "ALTER TABLE "@ + quote_mysql(db) + "."@ + quote_mysql(table) + " ADD COLUMN "@
                    + definition + position_sql(
                    unicode_upper(trim(draft.column_position@)),
                    draft.after_column@,
                ) + ";"@,
            )
        },
        DatabaseDriver::PostgreSql | DatabaseDriver::CockroachDb => if rebuild {
            Ok(
                rebuild_sql(
                    driver,
                    table,
                    cols,
                    Quoting::Dotted,
                    Quoting::Plain,
                    add_source_list(orig, cols, Quoting::Plain),
                ),
            )
        } else {
            Ok("ALTER TABLE "@ + quoted(Quoting::Dotted, table) + " ADD COLUMN "@ + definition + ";"@)
        },
        DatabaseDriver::Sqlite => if rebuild {
            Ok(sqlite_rebuild_sql(table, cols, add_source_list(orig, cols, Quoting::Plain)))
        } else {
            Ok("ALTER TABLE "@ + quote_plain(table) + " ADD COLUMN "@ + definition + ";"@)
        },
        DatabaseDriver::SqlServer => if rebuild {
            Ok(
                rebuild_sql(
                    driver,
                    table,
                    cols,
                    Quoting::SqlServerTable,
                    Quoting::SqlServer,
                    add_source_list(orig, cols, Quoting::SqlServer),
                ),
            )
        } else {
            Ok(
                "ALTER TABLE "@ + quoted(Quoting::SqlServerTable, table) + " ADD "@ + definition
                    + ";"@,
            )
        },
        DatabaseDriver::Oracle => if rebuild {
            Ok(
                rebuild_sql(
                    driver,
                    table,
                    cols,
                    Quoting::Plain,
                    Quoting::Plain,
                    add_source_list(orig, cols, Quoting::Plain),
                ),
            )
        } else {
            Ok("ALTER TABLE "@ + quote_plain(table) + " ADD ("@ + definition + ");"@)
        },
        DatabaseDriver::MongoDb => Err(
            "MongoDB has no relational add-column operation. Add fields with updateMany or schema validation."@,
        ),
    }
}

/// The statement that adds a column, or why it cannot be generated.
pub open spec fn add_column_sql(
    driver: DatabaseDriver,
    database: Seq<char>,
    table: Seq<char>,
    draft: AlterTableDraft,
) -> Result<Seq<char>, Seq<char>> {
    let column = trim(draft.column_name@);
    if name_listed(views(draft.original_column_names@), column) {
        Err("Column already exists: "@ + column + "."@)
    } else {
        match unique_names_check(draft.reordered_columns@) {
            Err(e) => Err(e),
            Ok(_) => match added_column_sql(driver, draft) {
                Err(e) => Err(e),
                Ok(definition) => add_column_for_driver(driver, database, table, draft, definition),
            },
        }
    }
}

fn add_column_with_definition(
    driver: DatabaseDriver,
    database: &str,
    table: &str,
    draft: &AlterTableDraft,
    definition: String,
) -> (r: Result<String, String>)
    ensures
        text_result(r) == add_column_for_driver(driver, database@, table@, *draft, definition@),
{
    let rebuild = draft.reordered_columns.len() > 0 && draft.reordered_columns.len()
        > draft.original_column_names.len() && !str_eq(draft.column_position.as_str(), "LAST");
    let cols = &draft.reordered_columns;
    let orig = &draft.original_column_names;
    match driver {
        DatabaseDriver::MySql | DatabaseDriver::MariaDb | DatabaseDriver::TiDb => {
            let database = trim_str(database);
            if is_empty_text(database) {
                return Err(owned("Select a database before altering a table."));
            }
            let position = mysql_column_position_clause(draft);
            let mut r = owned("ALTER TABLE ");
            r.append(quote_mysql_identifier(database).as_str());
            r.append(".");
            r.append(quote_mysql_identifier(table).as_str());
            r.append(" ADD COLUMN ");
            r.append(definition.as_str());
            r.append(position.as_str());
            r.append(";");
            Ok(r)
        },
        DatabaseDriver::PostgreSql | DatabaseDriver::CockroachDb => {
            if rebuild {
                Ok(
                    rebuild_table_with_added_column_statement(
                        driver,
                        table,
                        cols,
                        orig,
                        Quoting::Dotted,
                        Quoting::Plain,
                    ),
                )
            } else {
                let mut r = owned("ALTER TABLE ");
                r.append(quote_dotted_identifier(table).as_str());
                r.append(" ADD COLUMN ");
                r.append(definition.as_str());
                r.append(";");
                Ok(r)
            }
        },
        DatabaseDriver::Sqlite => {
            if rebuild {
                Ok(sqlite_rebuild_table_with_added_column_statement(table, cols, orig))
            } else {
                let mut r = owned("ALTER TABLE ");
                r.append(quote_plain_identifier(table).as_str());
                r.append(" ADD COLUMN ");
                r.append(definition.as_str());
                r.append(";");
                Ok(r)
            }
        },
        DatabaseDriver::SqlServer => {
            if rebuild {
                Ok(
                    rebuild_table_with_added_column_statement(
                        driver,
                        table,
                        cols,
                        orig,
                        Quoting::SqlServerTable,
                        Quoting::SqlServer,
                    ),
                )
            } else {
                let mut r = owned("ALTER TABLE ");
                r.append(quote_sql_server_table(table).as_str());
                r.append(" ADD ");
                r.append(definition.as_str());
                r.append(";");
                Ok(r)
            }
        },
        DatabaseDriver::Oracle => {
            if rebuild {
                Ok(
                    rebuild_table_with_added_column_statement(
                        driver,
                        table,
                        cols,
                        orig,
                        Quoting::Plain,
                        Quoting::Plain,
                    ),
                )
            } else {
                let mut r = owned("ALTER TABLE ");
                r.append(quote_plain_identifier(table).as_str());
                r.append(" ADD (");
                r.append(definition.as_str());
                r.append(");");
                Ok(r)
            }
        },
        DatabaseDriver::MongoDb => Err(
            owned(
                "MongoDB has no relational add-column operation. Add fields with updateMany or schema validation.",
            ),
        ),
    }
}

/// The statement that adds the draft's column to `table`; among existing
/// columns the table is rebuilt to place it.
pub fn add_column_statement(
    form: &mut ConnectionForm,
    table: &str,
    draft: &AlterTableDraft,
) -> (r: Result<String, String>)
    ensures
        text_result(r) == add_column_sql(old(form).driver, old(form).database@, table@, *draft),
        *final(form) == *old(form),
{
    let column = trim_str(draft.column_name.as_str());
    if column_name_exists(&draft.original_column_names, column) {
        let mut e = owned("Column already exists: ");
        e.append(column);
        e.append(".");
        return Err(e);
    }
    match validate_unique_column_names(&draft.reordered_columns) {
        Ok(()) => {},
        Err(e) => {
            return Err(e);
        },
    }
    let definition = match alter_column_definition(form.driver, draft) {
        Ok(d) => d,
        Err(e) => {
            return Err(e);
        },
    };
    add_column_with_definition(form.driver, form.database.as_str(), table, draft, definition)
}

/// The names and data types of existing columns.
pub open spec fn detail_pairs(cols: Seq<TableColumnDetail>) -> Seq<(Seq<char>, Seq<char>)> {
    cols.map_values(|c: TableColumnDetail| (c.name@, c.data_type@))
}

fn detail_column_pairs(cols: &Vec<TableColumnDetail>) -> (r: Vec<(String, String)>)
    ensures
        pair_views(r@) == detail_pairs(cols@),
{
    let mut r: Vec<(String, String)> = Vec::new();
    let mut i: usize = 0;
    while i < cols.len()
        invariant
            i <= cols.len(),
            pair_views(r@) == detail_pairs(cols@.take(i as int)),
        decreases cols.len() - i,
    {
        let pair = (cols[i].name.clone(), cols[i].data_type.clone());
        let ghost before = pair_views(r@);
        let ghost pv = (pair.0@, pair.1@);
        r.push(pair);
        proof {
            assert(pair_views(r@) =~= before.push(pv));
            assert(detail_pairs(cols@.take(i + 1)) =~= detail_pairs(cols@.take(i as int)).push(pv));
        }
        i += 1;
    }
    proof {
        assert(cols@.take(cols.len() as int) == cols@);
    }
    r
}

/// The statement that adds an index, or why it cannot be generated.
pub open spec fn add_index_sql(
    driver: DatabaseDriver,
    database: Seq<char>,
    table: Seq<char>,
    draft: AlterTableDraft,
) -> Result<Seq<char>, Seq<char>> {
    let index = trim(draft.index_name@);
    let columns = trim(draft.index_columns@);
    let t = normalized_index(driver, draft.index_type@);
    let pairs = detail_pairs(draft.reordered_columns@);
    if index.len() == 0 || columns.len() == 0 {
        Err("Index name and index columns are required."@)
    } else if is_mysql_family(driver) {
        if trim(database).len() == 0 {
            Err("Select a database before creating an index."@)
        } else {
            Ok(index_sql(driver, trim(database), table, index, columns, t, pairs))
        }
    } else {
        Ok(index_sql(driver, ""@, table, index, columns, t, pairs))
    }
}

/// The statement (for MongoDB, the command) that adds the draft's index.
pub fn add_index_statement(
    form: &mut ConnectionForm,
    table: &str,
    draft: &AlterTableDraft,
) -> (r: Result<String, String>)
    ensures
        text_result(r) == add_index_sql(old(form).driver, old(form).database@, table@, *draft),
        *final(form) == *old(form),
{
    let index = trim_str(draft.index_name.as_str());
    let columns = trim_str(draft.index_columns.as_str());
    if is_empty_text(index) || is_empty_text(columns) {
        return Err(owned("Index name and index columns are required."));
    }
    let driver = form.driver;
    let index_type = normalized_index_type(driver, draft.index_type.as_str());
    let pairs = detail_column_pairs(&draft.reordered_columns);
    match driver {
        DatabaseDriver::MySql | DatabaseDriver::MariaDb | DatabaseDriver::TiDb => {
            let database = trim_str(form.database.as_str());
            if is_empty_text(database) {
                return Err(owned("Select a database before creating an index."));
            }
            Ok(index_statement(driver, database, table, index, columns, index_type.as_str(), &pairs))
        },
        _ => Ok(index_statement(driver, "", table, index, columns, index_type.as_str(), &pairs)),
    }
}

/// The clause of a constraint of a supported kind: the expression as it is
/// when it starts with the kind's keywords (any ASCII case), else wrapped.
pub open spec fn constraint_clause_sql(kind: Seq<char>, expression: Seq<char>) -> Result<
    Seq<char>,
    Seq<char>,
> {
    let e = trim(expression);
    let ue = upper(e);
    let k = upper(kind);
    if e.len() == 0 {
        Err("Constraint expression is required."@)
    } else if k == "PRIMARY KEY"@ {
        Ok(
            if starts_with(ue, "PRIMARY KEY"@) {
                e
            } else {
                "PRIMARY KEY"@ + " ("@ + e + ")"@
            },
        )
    } else if k == "UNIQUE"@ {
        Ok(
            if starts_with(ue, "UNIQUE"@) {
                e
            } else {
                "UNIQUE"@ + " ("@ + e + ")"@
            },
        )
    } else if k == "CHECK"@ {
        Ok(
            if starts_with(ue, "CHECK"@) {
                e
            } else {
                "CHECK"@ + " ("@ + e + ")"@
            },
        )
    } else if k == "FOREIGN KEY"@ {
        Ok(
            if starts_with(ue, "FOREIGN KEY"@) {
                e
            } else {
                "FOREIGN KEY"@ + " ("@ + e + ")"@
            },
        )
    } else {
        Err("Unsupported constraint type: "@ + kind + "."@)
    }
}

fn keyword_clause(keyword: &str, upper_expression: &str, expression: &str) -> (r: String)
    ensures
        r@ == (if starts_with(upper_expression@, keyword@) {
            expression@
        } else {
            keyword@ + " ("@ + expression@ + ")"@
        }),
{
    if starts_with_str(upper_expression, keyword) {
        owned(expression)
    } else {
        let mut r = owned(keyword);
        r.append(" (");
        r.append(expression);
        r.append(")");
        r
    }
}

fn constraint_clause(kind: &str, expression: &str) -> (r: Result<String, String>)
    ensures
        text_result(r) == constraint_clause_sql(kind@, expression@),
{
    let expression = trim_str(expression);
    if is_empty_text(expression) {
        return Err(owned("Constraint expression is required."));
    }
    let upper_expression = to_ascii_upper_string(expression);
    let k = to_ascii_upper_string(kind);
    let ue = upper_expression.as_str();
    if str_eq(k.as_str(), "PRIMARY KEY") {
        Ok(keyword_clause("PRIMARY KEY", ue, expression))
    } else if str_eq(k.as_str(), "UNIQUE") {
        Ok(keyword_clause("UNIQUE", ue, expression))
    } else if str_eq(k.as_str(), "CHECK") {
        Ok(keyword_clause("CHECK", ue, expression))
    } else if str_eq(k.as_str(), "FOREIGN KEY") {
        Ok(keyword_clause("FOREIGN KEY", ue, expression))
    } else {
        let mut e = owned("Unsupported constraint type: ");
        e.append(kind);
        e.append(".");
        Err(e)
    }
}

/// The constraint kind stored in a draft, normalized for the driver.
pub open spec fn normalized_constraint(driver: DatabaseDriver, value: Seq<char>) -> Seq<char> {
    normalized_option(constraint_types(driver), value, first_or(constraint_types(driver), "CHECK"@))
}

/// The statement that adds a constraint, or why it cannot be generated.
pub open spec fn add_constraint_sql(
    driver: DatabaseDriver,
    database: Seq<char>,
    table: Seq<char>,
    draft: AlterTableDraft,
) -> Result<Seq<char>, Seq<char>> {
    let name = trim(draft.constraint_name@);
    let e = trim(draft.constraint_expression@);
    if name.len() == 0 || e.len() == 0 {
        Err("Constraint name and constraint expression are required."@)
    } else if driver == DatabaseDriver::Sqlite {
        Err("SQLite cannot add table constraints in-place. Rebuild the table instead."@)
    } else if driver == DatabaseDriver::MongoDb {
        Err(
            "MongoDB constraints must be modeled with collection validators, not relational table changes."@,
        )
    } else {
        match constraint_clause_sql(normalized_constraint(driver, draft.constraint_kind@), e) {
            Err(x) => Err(x),
            Ok(c) => if is_mysql_family(driver) {
                if trim(database).len() == 0 {
                    Err("Select a database before adding a constraint."@)
                } else {
                    Ok(
                        "ALTER TABLE "@ + quote_mysql(trim(database)) + "."@ + quote_mysql(table)
                            + " ADD CONSTRAINT "@ + quote_mysql(name) + " "@ + c + ";"@,
                    )
                }
            } else if driver == DatabaseDriver::PostgreSql || driver == DatabaseDriver::CockroachDb {
                Ok(
                    "ALTER TABLE "@ + quoted(Quoting::Dotted, table) + " ADD CONSTRAINT "@
                        + quote_plain(name) + " "@ + c + ";"@,
                )
            } else if driver == DatabaseDriver::SqlServer {
                Ok(
                    "ALTER TABLE "@ + quoted(Quoting::SqlServerTable, table) + " ADD CONSTRAINT "@
                        + quote_sql_server(name) + " "@ + c + ";"@,
                )
            } else {
                Ok(
                    "ALTER TABLE "@ + quote_plain(table) + " ADD CONSTRAINT "@ + quote_plain(name)
                        + " "@ + c + ";"@,
                )
            },
        }
    }
}

/// The statement that adds the draft's named constraint; SQLite and
/// MongoDB refuse it.
pub fn add_constraint_statement(
    form: &mut ConnectionForm,
    table: &str,
    draft: &AlterTableDraft,
) -> (r: Result<String, String>)
    ensures
        text_result(r) == add_constraint_sql(old(form).driver, old(form).database@, table@, *draft),
        *final(form) == *old(form),
{
    let name = trim_str(draft.constraint_name.as_str());
    let expression = trim_str(draft.constraint_expression.as_str());
    if is_empty_text(name) || is_empty_text(expression) {
        return Err(owned("Constraint name and constraint expression are required."));
    }
    let driver = form.driver;
    if driver == DatabaseDriver::Sqlite {
        return Err(owned("SQLite cannot add table constraints in-place. Rebuild the table instead."));
    }
    if driver == DatabaseDriver::MongoDb {
        return Err(
            owned(
                "MongoDB constraints must be modeled with collection validators, not relational table changes.",
            ),
        );
    }
    let kind = normalized_constraint_type(driver, draft.constraint_kind.as_str());
    let constraint = match constraint_clause(kind.as_str(), expression) {
        Ok(c) => c,
        Err(e) => {
            return Err(e);
        },
    };
    let mut r = owned("ALTER TABLE ");
    match driver {
        DatabaseDriver::MySql | DatabaseDriver::MariaDb | DatabaseDriver::TiDb => {
            let database = trim_str(form.database.as_str());
            if is_empty_text(database) {
                return Err(owned("Select a database before adding a constraint."));
            }
            r.append(quote_mysql_identifier(database).as_str());
            r.append(".");
            r.append(quote_mysql_identifier(table).as_str());
            r.append(" ADD CONSTRAINT ");
            r.append(quote_mysql_identifier(name).as_str());
        },
        DatabaseDriver::PostgreSql | DatabaseDriver::CockroachDb => {
            r.append(quote_dotted_identifier(table).as_str());
            r.append(" ADD CONSTRAINT ");
            r.append(quote_plain_identifier(name).as_str());
        },
        DatabaseDriver::SqlServer => {
            r.append(quote_sql_server_table(table).as_str());
            r.append(" ADD CONSTRAINT ");
            r.append(quote_sql_server_identifier(name).as_str());
        },
        _ => {
            r.append(quote_plain_identifier(table).as_str());
            r.append(" ADD CONSTRAINT ");
            r.append(quote_plain_identifier(name).as_str());
        },
    }
    r.append(" ");
    r.append(constraint.as_str());
    r.append(";");
    Ok(r)
}

/// The statements (for MongoDB, the command) that put the columns in their
/// new order, or why they cannot be generated.
pub open spec fn move_column_sql(
    driver: DatabaseDriver,
    database: Seq<char>,
    table: Seq<char>,
    draft: AlterTableDraft,
) -> Result<Seq<char>, Seq<char>> {
    let cols = draft.reordered_columns@;
    let src = views(draft.original_column_names@);
    if cols.len() == 0 {
        Err("Move a column with the arrow controls before applying."@)
    } else {
        match unique_names_check(cols) {
            Err(e) => Err(e),
            Ok(_) => match driver {
                DatabaseDriver::MySql | DatabaseDriver::MariaDb | DatabaseDriver::TiDb => if trim(
                    database,
                ).len() == 0 {
                    Err("Select a database before moving a column."@)
                } else {
                    Ok(mysql_rebuild_sql(trim(database), table, cols, src))
                },
                DatabaseDriver::PostgreSql | DatabaseDriver::CockroachDb => Ok(
                    rebuild_sql(
                        driver,
                        table,
                        cols,
                        Quoting::Dotted,
                        Quoting::Plain,
                        source_list(src, cols, Quoting::Plain),
                    ),
                ),
                DatabaseDriver::Sqlite => Ok(
                    sqlite_rebuild_sql(table, cols, source_list(src, cols, Quoting::Plain)),
                ),
                DatabaseDriver::SqlServer => Ok(
                    rebuild_sql(
                        driver,
                        table,
                        cols,
                        Quoting::SqlServerTable,
                        Quoting::SqlServer,
                        source_list(src, cols, Quoting::SqlServer),
                    ),
                ),
                DatabaseDriver::Oracle => Ok(
                    rebuild_sql(
                        driver,
                        table,
                        cols,
                        Quoting::Plain,
                        Quoting::Plain,
                        source_list(src, cols, Quoting::Plain),
                    ),
                ),
                DatabaseDriver::MongoDb => Ok(mongodb_reorder_sql(table, cols)),
            },
        }
    }
}

/// The statements that give `table` the draft's column order.
pub fn move_column_statement(
    form: &mut ConnectionForm,
    table: &str,
    draft: &AlterTableDraft,
) -> (r: Result<String, String>)
    ensures
        text_result(r) == move_column_sql(old(form).driver, old(form).database@, table@, *draft),
        *final(form) == *old(form),
{
    let cols = &draft.reordered_columns;
    let src = &draft.original_column_names;
    if cols.len() == 0 {
        return Err(owned("Move a column with the arrow controls before applying."));
    }
    match validate_unique_column_names(cols) {
        Ok(()) => {},
        Err(e) => {
            return Err(e);
        },
    }
    let driver = form.driver;
    match driver {
        DatabaseDriver::MySql | DatabaseDriver::MariaDb | DatabaseDriver::TiDb => {
            let database = trim_str(form.database.as_str());
            if is_empty_text(database) {
                return Err(owned("Select a database before moving a column."));
            }
            Ok(mysql_rebuild_table_statement(database, table, cols, src))
        },
        DatabaseDriver::PostgreSql | DatabaseDriver::CockroachDb => Ok(
            rebuild_table_statement(driver, table, cols, src, Quoting::Dotted, Quoting::Plain),
        ),
        DatabaseDriver::Sqlite => Ok(sqlite_rebuild_table_statement(table, cols, src)),
        DatabaseDriver::SqlServer => Ok(
            rebuild_table_statement(
                driver,
                table,
                cols,
                src,
                Quoting::SqlServerTable,
                Quoting::SqlServer,
            ),
        ),
        DatabaseDriver::Oracle => Ok(
            rebuild_table_statement(driver, table, cols, src, Quoting::Plain, Quoting::Plain),
        ),
        DatabaseDriver::MongoDb => Ok(mongodb_reorder_fields_command(table, cols)),
    }
}

/// The statement (or command) that applies an alter draft, or why it
/// cannot be generated.
pub open spec fn alter_table_sql(
    driver: DatabaseDriver,
    database: Seq<char>,
    draft: AlterTableDraft,
) -> Result<Seq<char>, Seq<char>> {
    let table = trim(draft.table@);
    if table.len() == 0 {
        Err("Table name is required."@)
    } else {
        match draft.operation {
            AlterTableOperation::RenameColumn => rename_column_sql(driver, database, table, draft),
            AlterTableOperation::AddColumn => add_column_sql(driver, database, table, draft),
            AlterTableOperation::AddIndex => add_index_sql(driver, database, table, draft),
            AlterTableOperation::AddConstraint => add_constraint_sql(driver, database, table, draft),
            AlterTableOperation::MoveColumn => move_column_sql(driver, database, table, draft),
        }
    }
}

/// The statement that applies the draft's change to its table.
pub fn alter_table_statement(form: &mut ConnectionForm, draft: &AlterTableDraft) -> (r: Result<
    String,
    String,
>)
    ensures
        text_result(r) == alter_table_sql(old(form).driver, old(form).database@, *draft),
        *final(form) == *old(form),
{
    let table = trim_str(draft.table.as_str());
    if is_empty_text(table) {
        return Err(owned("Table name is required."));
    }
    match draft.operation {
        AlterTableOperation::RenameColumn => rename_column_statement(form, table, draft),
        AlterTableOperation::AddColumn => add_column_statement(form, table, draft),
        AlterTableOperation::AddIndex => add_index_statement(form, table, draft),
        AlterTableOperation::AddConstraint => add_constraint_statement(form, table, draft),
        AlterTableOperation::MoveColumn => move_column_statement(form, table, draft),
    }
}

#[verifier::spinoff_prover]
proof fn lemma_rename_column_shape(
    driver: DatabaseDriver,
    database: Seq<char>,
    table: Seq<char>,
    draft: AlterTableDraft,
)
    ensures
        rename_column_sql(driver, database, table, draft) is Ok <==> {
            &&& trim(draft.column_name@).len() > 0
            &&& trim(draft.new_column_name@).len() > 0
            &&& (eq_ci(trim(draft.column_name@), trim(draft.new_column_name@)) || !name_listed(
                views(draft.original_column_names@),
                trim(draft.new_column_name@),
            ))
            &&& driver != DatabaseDriver::MongoDb
            &&& (is_mysql_family(driver) ==> trim(database).len() > 0)
        },
        rename_column_sql(driver, database, table, draft) matches Ok(s) ==> match driver {
            DatabaseDriver::Sqlite | DatabaseDriver::Oracle => starts_with(
                s,
                "ALTER TABLE "@ + quote_plain(table) + " RENAME COLUMN "@,
            ) && ends_with(
                s,
                " RENAME COLUMN "@ + quote_plain(trim(draft.column_name@)) + " TO "@ + quote_plain(
                    trim(draft.new_column_name@),
                ) + ";"@,
            ),
            DatabaseDriver::PostgreSql | DatabaseDriver::CockroachDb => starts_with(
                s,
                "ALTER TABLE "@ + quoted(Quoting::Dotted, table) + " RENAME COLUMN "@,
            ) && ends_with(
                s,
                " RENAME COLUMN "@ + quote_plain(trim(draft.column_name@)) + " TO "@ + quote_plain(
                    trim(draft.new_column_name@),
                ) + ";"@,
            ),
            DatabaseDriver::MySql | DatabaseDriver::MariaDb | DatabaseDriver::TiDb => starts_with(
                s,
                "ALTER TABLE "@ + quote_mysql(trim(database)) + "."@ + quote_mysql(
                    table,
                ) + " RENAME COLUMN "@,
            ) && ends_with(
                s,
                " RENAME COLUMN "@ + quote_mysql(trim(draft.column_name@)) + " TO "@ + quote_mysql(
                    trim(draft.new_column_name@),
                ) + ";"@,
            ),
            DatabaseDriver::SqlServer => starts_with(
                s,
                "EXEC sp_rename "@ + string_literal(
                    table + "."@ + trim(draft.column_name@),
                ) + ", "@,
            ) && ends_with(
                s,
                ", "@ + string_literal(trim(draft.new_column_name@)) + ", 'COLUMN';"@,
            ),
            DatabaseDriver::MongoDb => false,
        },
{
    let t = table;
    let a = trim(draft.column_name@);
    let b = trim(draft.new_column_name@);
    let db = trim(database);
    match rename_column_sql(driver, database, table, draft) {
        Ok(s) => {
            match driver {
                DatabaseDriver::Sqlite | DatabaseDriver::Oracle => {
                    let p = "ALTER TABLE "@ + quote_plain(t) + " RENAME COLUMN "@;
                    let q = quote_plain(a) + " TO "@ + quote_plain(b) + ";"@;
                    assert(s =~= p + q);
                    lemma_starts_with_concat(p, q);
                    let e = " RENAME COLUMN "@ + quote_plain(a) + " TO "@ + quote_plain(b) + ";"@;
                    assert(s =~= ("ALTER TABLE "@ + quote_plain(t)) + e);
                    lemma_ends_with_concat("ALTER TABLE "@ + quote_plain(t), e);
                },
                DatabaseDriver::PostgreSql | DatabaseDriver::CockroachDb => {
                    let p = "ALTER TABLE "@ + quoted(Quoting::Dotted, t) + " RENAME COLUMN "@;
                    let q = quote_plain(a) + " TO "@ + quote_plain(b) + ";"@;
                    assert(s =~= p + q);
                    lemma_starts_with_concat(p, q);
                    let e = " RENAME COLUMN "@ + quote_plain(a) + " TO "@ + quote_plain(b) + ";"@;
                    assert(s =~= ("ALTER TABLE "@ + quoted(Quoting::Dotted, t)) + e);
                    lemma_ends_with_concat("ALTER TABLE "@ + quoted(Quoting::Dotted, t), e);
                },
                DatabaseDriver::MySql | DatabaseDriver::MariaDb | DatabaseDriver::TiDb => {
                    let h = "ALTER TABLE "@ + quote_mysql(db) + "."@ + quote_mysql(t);
                    let p = h + " RENAME COLUMN "@;
                    let q = quote_mysql(a) + " TO "@ + quote_mysql(b) + ";"@;
                    assert(s =~= p + q);
                    lemma_starts_with_concat(p, q);
                    let e = " RENAME COLUMN "@ + quote_mysql(a) + " TO "@ + quote_mysql(b) + ";"@;
                    assert(s =~= h + e);
                    lemma_ends_with_concat(h, e);
                },
                DatabaseDriver::SqlServer => {
                    let p = "EXEC sp_rename "@ + string_literal(t + "."@ + a) + ", "@;
                    let q = string_literal(b) + ", 'COLUMN';"@;
                    assert(s =~= p + q);
                    lemma_starts_with_concat(p, q);
                    let h = "EXEC sp_rename "@ + string_literal(t + "."@ + a);
                    let e = ", "@ + string_literal(b) + ", 'COLUMN';"@;
                    assert(s =~= h + e);
                    lemma_ends_with_concat(h, e);
                },
                DatabaseDriver::MongoDb => {},
            }
        },
        Err(_) => {},
    }
}


/// Renaming column `a` to `b` of the draft's table `t` (trimmed) names the old
/// column first and the new one second. For SQLite and Oracle the statement
/// begins `ALTER TABLE ` and `t` quoted, and ends ` RENAME COLUMN `, `a`
/// quoted, ` TO `, `b` quoted and `;`; PostgreSQL and CockroachDB quote `t` as
/// a dotted name; the MySQL family names `t` inside the selected database; SQL
/// Server passes `t.a` and then `b` to `sp_rename`. The statement is generated
/// exactly when `t`, `a` and `b` are given, `b` is not another column's name
/// (up to ASCII case, unless it is `a` itself), the driver is not MongoDB and,
/// for the MySQL family, a database is selected.
#[verifier::spinoff_prover]
pub proof fn renamed_column_is_old_then_new(
    driver: DatabaseDriver,
    database: Seq<char>,
    draft: AlterTableDraft,
)
    requires
        draft.operation == AlterTableOperation::RenameColumn,
    ensures
        alter_table_sql(driver, database, draft) is Ok <==> {
            &&& trim(draft.table@).len() > 0
            &&& trim(draft.column_name@).len() > 0
            &&& trim(draft.new_column_name@).len() > 0
            &&& (eq_ci(trim(draft.column_name@), trim(draft.new_column_name@)) || !name_listed(
                views(draft.original_column_names@),
                trim(draft.new_column_name@),
            ))
            &&& driver != DatabaseDriver::MongoDb
            &&& (is_mysql_family(driver) ==> trim(database).len() > 0)
        },
        alter_table_sql(driver, database, draft) matches Ok(s) ==> match driver {
            DatabaseDriver::Sqlite | DatabaseDriver::Oracle => starts_with(
                s,
                "ALTER TABLE "@ + quote_plain(trim(draft.table@)) + " RENAME COLUMN "@,
            ) && ends_with(
                s,
                " RENAME COLUMN "@ + quote_plain(trim(draft.column_name@)) + " TO "@ + quote_plain(
                    trim(draft.new_column_name@),
                ) + ";"@,
            ),
            DatabaseDriver::PostgreSql | DatabaseDriver::CockroachDb => starts_with(
                s,
                "ALTER TABLE "@ + quoted(Quoting::Dotted, trim(draft.table@)) + " RENAME COLUMN "@,
            ) && ends_with(
                s,
                " RENAME COLUMN "@ + quote_plain(trim(draft.column_name@)) + " TO "@ + quote_plain(
                    trim(draft.new_column_name@),
                ) + ";"@,
            ),
            DatabaseDriver::MySql | DatabaseDriver::MariaDb | DatabaseDriver::TiDb => starts_with(
                s,
                "ALTER TABLE "@ + quote_mysql(trim(database)) + "."@ + quote_mysql(
                    trim(draft.table@),
                ) + " RENAME COLUMN "@,
            ) && ends_with(
                s,
                " RENAME COLUMN "@ + quote_mysql(trim(draft.column_name@)) + " TO "@ + quote_mysql(
                    trim(draft.new_column_name@),
                ) + ";"@,
            ),
            DatabaseDriver::SqlServer => starts_with(
                s,
                "EXEC sp_rename "@ + string_literal(
                    trim(draft.table@) + "."@ + trim(draft.column_name@),
                ) + ", "@,
            ) && ends_with(
                s,
                ", "@ + string_literal(trim(draft.new_column_name@)) + ", 'COLUMN';"@,
            ),
            DatabaseDriver::MongoDb => false,
        },
{
    let t = trim(draft.table@);
    if t.len() > 0 {
        assert(alter_table_sql(driver, database, draft) == rename_column_sql(driver, database, t, draft));
        lemma_rename_column_shape(driver, database, t, draft);
    }
}

/// The column an alter draft adds reaches the statement whole. With a name
/// `c` and a type `y` (trimmed), its definition `d` is `c` quoted for the
/// driver, a space and `y`, then a space and the extra definition when one is
/// given. Unless the table is rebuilt to place it, the statement begins
/// `ALTER TABLE `, the table quoted for the driver and the driver's `ADD`
/// keyword followed by `d`, and ends with `d` and `;` (Oracle: `);`; the MySQL
/// family puts the placing clause between `d` and `;`).
#[verifier::spinoff_prover]
#[verifier::rlimit(50)]
pub proof fn added_column_reaches_statement(
    driver: DatabaseDriver,
    database: Seq<char>,
    table: Seq<char>,
    draft: AlterTableDraft,
)
    requires
        !positioned_rebuild(draft) || is_mysql_family(driver),
        trim(draft.column_name@).len() > 0,
        trim(draft.column_type@).len() > 0,
    ensures
        add_column_sql(driver, database, table, draft) matches Ok(s) ==> {
            let d = quoted(column_quoting(driver), trim(draft.column_name@)) + " "@ + trim(
                draft.column_type@,
            ) + (if trim(draft.column_definition@).len() == 0 {
                Seq::<char>::empty()
            } else {
                " "@ + trim(draft.column_definition@)
            });
            match driver {
                DatabaseDriver::MySql | DatabaseDriver::MariaDb | DatabaseDriver::TiDb => starts_with(
                    s,
                    "ALTER TABLE "@ + quote_mysql(trim(database)) + "."@ + quote_mysql(table)
                        + " ADD COLUMN "@ + d,
                ) && ends_with(
                    s,
                    d + position_sql(
                        unicode_upper(trim(draft.column_position@)),
                        draft.after_column@,
                    ) + ";"@,
                ),
                DatabaseDriver::PostgreSql | DatabaseDriver::CockroachDb => starts_with(
                    s,
                    "ALTER TABLE "@ + quoted(Quoting::Dotted, table) + " ADD COLUMN "@ + d,
                ) && ends_with(s, d + ";"@),
                DatabaseDriver::Sqlite => starts_with(
                    s,
                    "ALTER TABLE "@ + quote_plain(table) + " ADD COLUMN "@ + d,
                ) && ends_with(s, d + ";"@),
                DatabaseDriver::SqlServer => starts_with(
                    s,
                    "ALTER TABLE "@ + quoted(Quoting::SqlServerTable, table) + " ADD "@ + d,
                ) && ends_with(s, d + ";"@),
                DatabaseDriver::Oracle => starts_with(
                    s,
                    "ALTER TABLE "@ + quote_plain(table) + " ADD ("@ + d,
                ) && ends_with(s, d + ");"@),
                DatabaseDriver::MongoDb => false,
            }
        },
{
    let d = quoted(column_quoting(driver), trim(draft.column_name@)) + " "@ + trim(
        draft.column_type@,
    ) + prefixed(" "@, trim(draft.column_definition@));
    assert(added_column_sql(driver, draft) == Ok::<Seq<char>, Seq<char>>(d));
    match add_column_sql(driver, database, table, draft) {
        Ok(s) => {
            assert(Ok::<Seq<char>, Seq<char>>(s) == add_column_for_driver(driver, database, table, draft, d));
            let (p, q) = match driver {
                DatabaseDriver::MySql | DatabaseDriver::MariaDb | DatabaseDriver::TiDb => (
                    "ALTER TABLE "@ + quote_mysql(trim(database)) + "."@ + quote_mysql(table)
                        + " ADD COLUMN "@,
                    position_sql(unicode_upper(trim(draft.column_position@)), draft.after_column@)
                        + ";"@,
                ),
                DatabaseDriver::PostgreSql | DatabaseDriver::CockroachDb => (
                    "ALTER TABLE "@ + quoted(Quoting::Dotted, table) + " ADD COLUMN "@,
                    ";"@,
                ),
                DatabaseDriver::Sqlite => ("ALTER TABLE "@ + quote_plain(table) + " ADD COLUMN "@, ";"@),
                DatabaseDriver::SqlServer => (
                    "ALTER TABLE "@ + quoted(Quoting::SqlServerTable, table) + " ADD "@,
                    ";"@,
                ),
                _ => ("ALTER TABLE "@ + quote_plain(table) + " ADD ("@, ");"@),
            };
            if driver != DatabaseDriver::MongoDb {
                assert(s =~= (p + d) + q);
                lemma_starts_with_concat(p + d, q);
                assert(s =~= p + (d + q));
                lemma_ends_with_concat(p, d + q);
                assert(d + q =~= d + position_sql(
                    unicode_upper(trim(draft.column_position@)),
                    draft.after_column@,
                ) + ";"@ || !is_mysql_family(driver));
            }
        },
        Err(_) => {},
    }
}

/// A constraint an alter draft adds reaches the statement: it begins
/// `ALTER TABLE `, the table and ` ADD CONSTRAINT ` with the trimmed name, each
/// quoted for the driver, and it holds the trimmed constraint expression.
/// A statement made of a head, a constraint clause and `;` begins with the
/// head and holds the trimmed expression.
#[verifier::spinoff_prover]
#[verifier::rlimit(40)]
proof fn lemma_constraint_statement(h: Seq<char>, kind: Seq<char>, expression: Seq<char>)
    ensures
        constraint_clause_sql(kind, trim(expression)) matches Ok(c) ==> {
            &&& starts_with(h + c + ";"@, h)
            &&& contains(h + c + ";"@, trim(expression))
        },
{
    let e = trim(expression);
    match constraint_clause_sql(kind, e) {
        Ok(c) => {
            let k = upper(kind);
            assert(trim(e) == e) by {
                lemma_trim_idempotent(expression);
            }
            assert(contains(c, e)) by {
                let w = Seq::<char>::empty();
                if c == e {
                    lemma_contains_middle(w, e, w);
                    assert(w + e + w =~= e);
                } else if k == "PRIMARY KEY"@ {
                    lemma_contains_middle("PRIMARY KEY"@ + " ("@, e, ")"@);
                } else if k == "UNIQUE"@ {
                    lemma_contains_middle("UNIQUE"@ + " ("@, e, ")"@);
                } else if k == "CHECK"@ {
                    lemma_contains_middle("CHECK"@ + " ("@, e, ")"@);
                } else {
                    lemma_contains_middle("FOREIGN KEY"@ + " ("@, e, ")"@);
                }
            }
            lemma_contains_grow(c, e, h, ";"@);
            assert(h + c + ";"@ =~= h + (c + ";"@));
            lemma_starts_with_concat(h, c + ";"@);
        },
        Err(_) => {},
    }
}

#[verifier::spinoff_prover]
#[verifier::rlimit(50)]
pub proof fn added_constraint_reaches_statement(
    driver: DatabaseDriver,
    database: Seq<char>,
    table: Seq<char>,
    draft: AlterTableDraft,
)
    ensures
        add_constraint_sql(driver, database, table, draft) matches Ok(s) ==> {
            &&& contains(s, trim(draft.constraint_expression@))
            &&& starts_with(
                s,
                "ALTER TABLE "@ + match driver {
                    DatabaseDriver::MySql | DatabaseDriver::MariaDb | DatabaseDriver::TiDb => quote_mysql(
                        trim(database),
                    ) + "."@ + quote_mysql(table) + " ADD CONSTRAINT "@ + quote_mysql(
                        trim(draft.constraint_name@),
                    ),
                    DatabaseDriver::PostgreSql | DatabaseDriver::CockroachDb => quoted(
                        Quoting::Dotted,
                        table,
                    ) + " ADD CONSTRAINT "@ + quote_plain(trim(draft.constraint_name@)),
                    DatabaseDriver::SqlServer => quoted(Quoting::SqlServerTable, table)
                        + " ADD CONSTRAINT "@ + quote_sql_server(trim(draft.constraint_name@)),
                    _ => quote_plain(table) + " ADD CONSTRAINT "@ + quote_plain(
                        trim(draft.constraint_name@),
                    ),
                } + " "@,
            )
        },
{
    let name = trim(draft.constraint_name@);
    let e = trim(draft.constraint_expression@);
    match add_constraint_sql(driver, database, table, draft) {
        Ok(s) => {
            let kind = normalized_constraint(driver, draft.constraint_kind@);
            let h = "ALTER TABLE "@ + match driver {
                DatabaseDriver::MySql | DatabaseDriver::MariaDb | DatabaseDriver::TiDb => quote_mysql(
                    trim(database),
                ) + "."@ + quote_mysql(table) + " ADD CONSTRAINT "@ + quote_mysql(name),
                DatabaseDriver::PostgreSql | DatabaseDriver::CockroachDb => quoted(
                    Quoting::Dotted,
                    table,
                ) + " ADD CONSTRAINT "@ + quote_plain(name),
                DatabaseDriver::SqlServer => quoted(Quoting::SqlServerTable, table)
                    + " ADD CONSTRAINT "@ + quote_sql_server(name),
                _ => quote_plain(table) + " ADD CONSTRAINT "@ + quote_plain(name),
            } + " "@;
            let c = constraint_clause_sql(kind, e)->Ok_0;
            assert(s =~= h + c + ";"@);
            lemma_constraint_statement(h, kind, draft.constraint_expression@);
        },
        Err(_) => {},
    }
}

} // verus!
