//! Query results, their sort order, the statements that page through a
//! table's rows, and the text forms of results (messages, labels, CSV).
use vstd::prelude::*;
use crate::connection::{validation_messages, ConnectionForm};
use crate::dialect::{
    json_escape, json_escaped, quote_dotted_identifier, quote_mysql, quote_mysql_identifier,
    quote_plain, quote_plain_identifier, quote_sql_server_table, quoted, sql_string_literal,
    string_literal, Quoting,
};
use crate::driver::DatabaseDriver;
use crate::schema::nonblank_trimmed;
use crate::sql_create_table::{column_quoting, quote_column_name};
use crate::sql_database::text_result;
use crate::text::{
    contains, decimal, ends_with, lemma_contains_grow, lemma_contains_middle,
    lemma_ends_with_append, lemma_join_contains, lemma_prefix_part_contained, lemma_split_concat,
    lemma_split_no_sep, lemma_split_pieces, lemma_trim_idempotent, lemma_trim_keeps_absent,
    lemma_ends_with_concat, lemma_join_ends_with_last, lemma_join_starts_with_first,
    lemma_starts_with_concat, starts_with, eq_ci, eq_ignore_ascii_case, replace, is_empty_text, join, join_strings, owned, prefix_string,
    push_char, replace_char, split, split_char, trim, trim_str, u128_to_decimal, usize_to_decimal,
    views,
};

verus! {

// ---------------------------------------------------------------------------
// Results
// ---------------------------------------------------------------------------

/// The most rows a result keeps for display.
pub const MAX_RESULT_ROWS: usize = 200;

/// The outcome of one executed query or statement.
#[derive(Debug)]
pub struct QueryResult {
    pub columns: Vec<String>,
    pub rows: Vec<Vec<String>>,
    pub rows_affected: Option<usize>,
    pub elapsed_ms: u128,
    pub message: String,
    pub truncated: bool,
}

impl QueryResult {
    /// The rows affected by a statement, or else the rows returned.
    pub open spec fn row_count_spec(&self) -> nat {
        match self.rows_affected {
            Some(n) => n as nat,
            None => self.rows@.len(),
        }
    }

    /// The rows affected by a statement, or else the number of rows kept.
    pub fn row_count(&self) -> (r: usize)
        ensures
            r == self.row_count_spec(),
    {
        match self.rows_affected {
            Some(n) => n,
            None => self.rows.len(),
        }
    }
}

/// The message of an executed statement.
pub open spec fn statement_message(driver: Seq<char>, rows_affected: nat) -> Seq<char> {
    driver + " statement executed. "@ + decimal(rows_affected) + " row(s) affected."@
}

/// The result of a statement that returns no rows.
pub fn statement_result(driver: &str, rows_affected: usize, elapsed_ms: u128) -> (r: QueryResult)
    ensures
        r.columns@.len() == 0,
        r.rows@.len() == 0,
        r.rows_affected == Some(rows_affected),
        r.elapsed_ms == elapsed_ms,
        r.message@ == statement_message(driver@, rows_affected as nat),
        !r.truncated,
{
    let mut message = owned(driver);
    message.append(" statement executed. ");
    message.append(usize_to_decimal(rows_affected).as_str());
    message.append(" row(s) affected.");
    QueryResult {
        columns: Vec::new(),
        rows: Vec::new(),
        rows_affected: Some(rows_affected),
        elapsed_ms,
        message,
        truncated: false,
    }
}

/// The message of a query that returned rows.
pub open spec fn tabular_message(driver: Seq<char>, rows: nat, truncated: bool, elapsed_ms: nat) -> Seq<
    char,
> {
    let head = driver + " query returned "@ + decimal(rows) + " row(s) in "@ + decimal(elapsed_ms);
    if truncated {
        head + " ms; display capped at "@ + decimal(MAX_RESULT_ROWS as nat) + "."@
    } else {
        head + " ms."@
    }
}

/// The result of a query that returned rows.
pub fn tabular_result(
    driver: &str,
    columns: Vec<String>,
    rows: Vec<Vec<String>>,
    truncated: bool,
    elapsed_ms: u128,
) -> (r: QueryResult)
    ensures
        r.columns == columns,
        r.rows == rows,
        r.rows_affected is None,
        r.elapsed_ms == elapsed_ms,
        r.message@ == tabular_message(driver@, rows@.len(), truncated, elapsed_ms as nat),
        r.truncated == truncated,
{
    let mut message = owned(driver);
    message.append(" query returned ");
    message.append(usize_to_decimal(rows.len()).as_str());
    message.append(" row(s) in ");
    message.append(u128_to_decimal(elapsed_ms).as_str());
    if truncated {
        message.append(" ms; display capped at ");
        message.append(usize_to_decimal(MAX_RESULT_ROWS).as_str());
        message.append(".");
    } else {
        message.append(" ms.");
    }
    QueryResult { columns, rows, rows_affected: None, elapsed_ms, message, truncated }
}

/// The statements of a script: the pieces between semicolons, trimmed,
/// blanks dropped.
pub fn split_sql_statements(sql: &str) -> (r: Vec<String>)
    ensures
        views(r@) == nonblank_trimmed(split(sql@, ';')),
{
    let parts = split_char(sql, ';');
    let mut r: Vec<String> = Vec::new();
    let mut i: usize = 0;
    while i < parts.len()
        invariant
            i <= parts.len(),
            views(parts@) == split(sql@, ';'),
            views(r@) == nonblank_trimmed(views(parts@).take(i as int)),
        decreases parts.len() - i,
    {
        let t = trim_str(parts[i].as_str());
        let ghost before = views(r@);
        proof {
            let p = views(parts@).take(i + 1);
            assert(p.drop_last() == views(parts@).take(i as int));
            assert(p.last() == parts@[i as int]@);
        }
        if !is_empty_text(t) {
            r.push(owned(t));
            assert(views(r@) =~= before.push(t@));
        }
        i += 1;
    }
    assert(views(parts@).take(parts.len() as int) == views(parts@));
    r
}

/// A statement of a script: not empty, trimmed, and free of semicolons.
pub open spec fn clean_statement(x: Seq<char>) -> bool {
    &&& x.len() > 0
    &&& trim(x) == x
    &&& forall|j: int| 0 <= j < x.len() ==> x[j] != ';'
}

proof fn lemma_statements_clean(parts: Seq<Seq<char>>)
    requires
        forall|i: int, j: int| 0 <= i < parts.len() && 0 <= j < parts[i].len() ==> parts[i][j] != ';',
    ensures
        forall|i: int|
            0 <= i < nonblank_trimmed(parts).len() ==> clean_statement(
                #[trigger] nonblank_trimmed(parts)[i],
            ),
    decreases parts.len(),
{
    if parts.len() > 0 {
        let p = parts.drop_last();
        assert forall|i: int, j: int| 0 <= i < p.len() && 0 <= j < p[i].len() implies p[i][j] != ';' by {
            assert(p[i] == parts[i]);
        }
        lemma_statements_clean(p);
        let x = parts.last();
        assert forall|j: int| 0 <= j < x.len() implies x[j] != ';' by {
            assert(x == parts[parts.len() - 1]);
        }
        lemma_trim_keeps_absent(x, ';');
        lemma_trim_idempotent(x);
        let rest = nonblank_trimmed(p);
        if trim(x).len() > 0 {
            assert(clean_statement(trim(x)));
            assert(nonblank_trimmed(parts) == rest.push(trim(x)));
            assert forall|i: int|
                0 <= i < nonblank_trimmed(parts).len() implies clean_statement(
                #[trigger] nonblank_trimmed(parts)[i],
            ) by {
                if i < rest.len() {
                    assert(nonblank_trimmed(parts)[i] == rest[i]);
                }
            }
        } else {
            assert(nonblank_trimmed(parts) == rest);
        }
    }
}

proof fn lemma_nonblank_trimmed_concat(x: Seq<Seq<char>>, y: Seq<Seq<char>>)
    ensures
        nonblank_trimmed(x + y) == nonblank_trimmed(x) + nonblank_trimmed(y),
    decreases y.len(),
{
    if y.len() == 0 {
        assert(x + y =~= x);
        assert(nonblank_trimmed(x) + nonblank_trimmed(y) =~= nonblank_trimmed(x));
    } else {
        lemma_nonblank_trimmed_concat(x, y.drop_last());
        assert((x + y).drop_last() =~= x + y.drop_last());
        assert((x + y).last() == y.last());
        if trim(y.last()).len() > 0 {
            assert(nonblank_trimmed(x) + nonblank_trimmed(y) =~= (nonblank_trimmed(x)
                + nonblank_trimmed(y.drop_last())).push(trim(y.last())));
        }
    }
}

/// The statements of a script are each not empty, trimmed and free of
/// semicolons; two scripts joined by a semicolon give the statements of the
/// first followed by those of the second; and a script without a semicolon
/// is one statement, itself trimmed, unless it is blank.
#[verifier::spinoff_prover]
pub proof fn script_statements_split_at_semicolons(a: Seq<char>, b: Seq<char>)
    ensures
        forall|i: int|
            0 <= i < nonblank_trimmed(split(a, ';')).len() ==> clean_statement(
                #[trigger] nonblank_trimmed(split(a, ';'))[i],
            ),
        nonblank_trimmed(split(a + seq![';'] + b, ';')) == nonblank_trimmed(split(a, ';'))
            + nonblank_trimmed(split(b, ';')),
        (forall|j: int| 0 <= j < a.len() ==> a[j] != ';') ==> nonblank_trimmed(split(a, ';')) == (
        if trim(a).len() == 0 {
            Seq::<Seq<char>>::empty()
        } else {
            seq![trim(a)]
        }),
{
    lemma_split_pieces(a, ';');
    lemma_statements_clean(split(a, ';'));
    lemma_split_concat(a, b, ';');
    lemma_nonblank_trimmed_concat(split(a, ';'), split(b, ';'));
    if forall|j: int| 0 <= j < a.len() ==> a[j] != ';' {
        lemma_split_no_sep(a, ';');
        assert(seq![a].drop_last() =~= Seq::<Seq<char>>::empty());
        assert(seq![a].last() == a);
        assert(nonblank_trimmed(Seq::<Seq<char>>::empty()) == Seq::<Seq<char>>::empty());
        assert(Seq::<Seq<char>>::empty().push(trim(a)) =~= seq![trim(a)]);
    }
}

/// The label of a result column: its name, then its type when known.
pub open spec fn column_label_text(name: Seq<char>, data_type: Seq<char>) -> Seq<char> {
    let t = trim(data_type);
    if t.len() == 0 {
        name
    } else {
        name + " : "@ + t
    }
}

/// A column's name with its trimmed data type, as `name : type`.
pub fn column_label(name: &str, data_type: &str) -> (r: String)
    ensures
        r@ == column_label_text(name@, data_type@),
{
    let t = trim_str(data_type);
    if is_empty_text(t) {
        owned(name)
    } else {
        let mut r = owned(name);
        r.append(" : ");
        r.append(t);
        r
    }
}

/// An identifier in double quotes, inner double quotes doubled.
pub fn quote_sql_identifier(value: &str) -> (r: String)
    ensures
        r@ == quote_plain(value@),
{
    quote_plain_identifier(value)
}

/// The query that lists the tables of a MySQL database.
pub open spec fn mysql_preview_sql(database: Seq<char>) -> Seq<char> {
    "select table_name, table_type\nfrom information_schema.tables\nwhere table_schema = "@
        + string_literal(database) + "\norder by table_name\nlimit 300;"@
}

/// The query that lists the first tables of a MySQL database.
pub fn mysql_database_preview(database: &str) -> (r: String)
    ensures
        r@ == mysql_preview_sql(database@),
{
    let mut r = owned(
        "select table_name, table_type\nfrom information_schema.tables\nwhere table_schema = ",
    );
    r.append(sql_string_literal(database).as_str());
    r.append("\norder by table_name\nlimit 300;");
    r
}

/// The query that lists the first user tables of a PostgreSQL database.
pub fn postgres_database_preview() -> (r: String)
    ensures
        r@ == "select table_schema, table_name, table_type\nfrom information_schema.tables\nwhere table_schema not in ('pg_catalog', 'information_schema')\norder by table_schema, table_name\nlimit 300;"@,
{
    owned(
        "select table_schema, table_name, table_type\nfrom information_schema.tables\nwhere table_schema not in ('pg_catalog', 'information_schema')\norder by table_schema, table_name\nlimit 300;",
    )
}

/// The schema and the table of a PostgreSQL table name; `public` when no
/// schema is given. Only the first dot separates them.
pub open spec fn postgres_table_parts(table: Seq<char>) -> (Seq<char>, Seq<char>) {
    if exists|i: int| 0 <= i < table.len() && table[i] == '.' {
        let i = choose|i: int|
            0 <= i < table.len() && table[i] == '.' && forall|j: int| 0 <= j < i ==> table[j] != '.';
        (table.take(i), table.skip(i + 1))
    } else {
        ("public"@, table)
    }
}

/// The schema and table of a PostgreSQL table name.
pub fn split_postgres_table(table: &str) -> (r: (String, String))
    ensures
        (r.0@, r.1@) == postgres_table_parts(table@),
{
    let v = crate::text::chars_of(table);
    let mut i: usize = 0;
    while i < v.len()
        invariant
            v@ == table@,
            i <= v.len(),
            forall|j: int| 0 <= j < i ==> table@[j] != '.',
        decreases v.len() - i,
    {
        if v[i] == '.' {
            let schema = prefix_string(table, i);
            let mut name = String::new();
            let mut k: usize = i + 1;
            while k < v.len()
                invariant
                    v@ == table@,
                    i < k <= v.len(),
                    name@ == table@.subrange(i + 1, k as int),
                decreases v.len() - k,
            {
                push_char(&mut name, v[k]);
                assert(table@.subrange(i + 1, k + 1) == table@.subrange(i + 1, k as int).push(
                    v@[k as int],
                ));
                k += 1;
            }
            proof {
                let w = choose|w: int|
                    0 <= w < table@.len() && table@[w] == '.' && forall|j: int|
                        0 <= j < w ==> table@[j] != '.';
                assert(0 <= i < table@.len() && table@[i as int] == '.' && forall|j: int|
                    0 <= j < i ==> table@[j] != '.');
                if w < i {
                    assert(table@[w] != '.');
                }
                if w > i {
                    assert(table@[i as int] != '.');
                }
                assert(w == i);
                assert(name@ == table@.skip(i + 1));
            }
            return (schema, name);
        }
        i += 1;
    }
    (owned("public"), owned(table))
}

// ---------------------------------------------------------------------------
// CSV
// ---------------------------------------------------------------------------

/// A CSV cell: quoted, with inner quotes doubled, when it holds a comma, a
/// quote or a line break.
pub open spec fn csv_cell_text(v: Seq<char>) -> Seq<char> {
    if contains(v, ","@) || contains(v, "\""@) || contains(v, "\n"@) || contains(v, "\r"@) {
        "\""@ + replace(v, '"', "\"\""@) + "\""@
    } else {
        v
    }
}

/// One value as a CSV cell.
pub fn csv_cell(value: &str) -> (r: String)
    ensures
        r@ == csv_cell_text(value@),
{
    if crate::text::contains_str(value, ",") || crate::text::contains_str(value, "\"")
        || crate::text::contains_str(value, "\n") || crate::text::contains_str(value, "\r") {
        let mut r = owned("\"");
        r.append(replace_char(value, '"', "\"\"").as_str());
        r.append("\"");
        r
    } else {
        owned(value)
    }
}

/// A CSV line: the cells joined by commas, then a line break.
pub open spec fn csv_row_text(values: Seq<Seq<char>>) -> Seq<char> {
    join(values.map_values(|v: Seq<char>| csv_cell_text(v)), ","@).push('\n')
}

/// One row of values as a CSV line.
pub fn csv_row(values: &Vec<String>) -> (r: String)
    ensures
        r@ == csv_row_text(views(values@)),
{
    let mut cells: Vec<String> = Vec::new();
    let mut i: usize = 0;
    while i < values.len()
        invariant
            i <= values.len(),
            views(cells@) == views(values@).take(i as int).map_values(
                |v: Seq<char>| csv_cell_text(v),
            ),
        decreases values.len() - i,
    {
        let cell = csv_cell(values[i].as_str());
        let ghost before = views(cells@);
        let ghost cv = cell@;
        cells.push(cell);
        assert(views(cells@) =~= before.push(cv));
        assert(views(values@).take(i + 1) == views(values@).take(i as int).push(values@[i as int]@));
        assert(views(cells@) =~= views(values@).take(i + 1).map_values(
            |v: Seq<char>| csv_cell_text(v),
        ));
        i += 1;
    }
    assert(views(values@).take(values.len() as int) == views(values@));
    let mut row = join_strings(&cells, ",");
    push_char(&mut row, '\n');
    row
}

/// The CSV lines of rows, one after another.
pub open spec fn csv_rows_text(rows: Seq<Seq<Seq<char>>>) -> Seq<char>
    decreases rows.len(),
{
    if rows.len() == 0 {
        Seq::empty()
    } else {
        csv_rows_text(rows.drop_last()) + csv_row_text(rows.last())
    }
}

/// A result as a CSV document: the header line of its columns, then a line
/// per row.
pub open spec fn csv_document(columns: Seq<Seq<char>>, rows: Seq<Seq<Seq<char>>>) -> Seq<char> {
    csv_row_text(columns) + csv_rows_text(rows)
}

proof fn lemma_rows_text_holds(rows: Seq<Seq<Seq<char>>>)
    ensures
        forall|i: int| 0 <= i < rows.len() ==> contains(csv_rows_text(rows), csv_row_text(#[trigger] rows[i])),
        rows.len() > 0 ==> ends_with(csv_rows_text(rows), csv_row_text(rows.last())),
    decreases rows.len(),
{
    if rows.len() > 0 {
        let init = rows.drop_last();
        lemma_rows_text_holds(init);
        let a = csv_rows_text(init);
        let b = csv_row_text(rows.last());
        lemma_ends_with_concat(a, b);
        assert forall|i: int| 0 <= i < rows.len() implies contains(
            csv_rows_text(rows),
            csv_row_text(#[trigger] rows[i]),
        ) by {
            let e = Seq::<char>::empty();
            if i < rows.len() - 1 {
                assert(init[i] == rows[i]);
                lemma_contains_grow(a, csv_row_text(rows[i]), e, b);
                assert(e + a + b =~= a + b);
            } else {
                lemma_contains_middle(a, b, e);
                assert(a + b + e =~= a + b);
            }
        }
    }
}

/// A CSV export is the header line of the columns followed by one line per
/// row: it begins with the header line, holds the line of every row, ends
/// with the last row's line, and is the header line alone when there are no
/// rows. A value is written as it is unless it holds a comma, a double quote
/// or a line break; then it is written between double quotes.
#[verifier::spinoff_prover]
pub proof fn csv_export_lists_header_then_rows(
    columns: Seq<Seq<char>>,
    rows: Seq<Seq<Seq<char>>>,
    v: Seq<char>,
)
    ensures
        starts_with(csv_document(columns, rows), csv_row_text(columns)),
        forall|i: int|
            0 <= i < rows.len() ==> contains(csv_document(columns, rows), csv_row_text(#[trigger] rows[i])),
        rows.len() > 0 ==> ends_with(csv_document(columns, rows), csv_row_text(rows.last())),
        rows.len() == 0 ==> csv_document(columns, rows) == csv_row_text(columns),
        !(contains(v, ","@) || contains(v, "\""@) || contains(v, "\n"@) || contains(v, "\r"@))
            ==> csv_cell_text(v) == v,
        (contains(v, ","@) || contains(v, "\""@) || contains(v, "\n"@) || contains(v, "\r"@))
            ==> starts_with(csv_cell_text(v), "\""@) && ends_with(csv_cell_text(v), "\""@),
{
    let h = csv_row_text(columns);
    let r = csv_rows_text(rows);
    lemma_starts_with_concat(h, r);
    lemma_rows_text_holds(rows);
    assert forall|i: int| 0 <= i < rows.len() implies contains(
        csv_document(columns, rows),
        csv_row_text(#[trigger] rows[i]),
    ) by {
        lemma_contains_grow(r, csv_row_text(rows[i]), h, Seq::<char>::empty());
        assert(h + r + Seq::<char>::empty() =~= h + r);
    }
    if rows.len() > 0 {
        let last = csv_row_text(rows.last());
        let x = r.subrange(0, r.len() - last.len());
        assert(r =~= x + last);
        assert(h + r =~= (h + x) + last);
        lemma_ends_with_concat(h + x, last);
    } else {
        assert(h + r =~= h);
    }
    let q = "\""@;
    let m = replace(v, '"', "\"\""@);
    lemma_starts_with_concat(q, m + q);
    assert(q + m + q =~= q + (m + q));
    lemma_ends_with_concat(q + m, q);
}

/// The CSV document of the last result, or why there is none: no result, or
/// one without columns.
pub fn result_csv(result: Option<&QueryResult>) -> (r: Result<String, String>)
    ensures
        match result {
            None => r matches Err(e) && e@ == "No result set is available for CSV export."@,
            Some(res) => if res.columns@.len() == 0 {
                r matches Err(e) && e@ == "Current result has no tabular rows to export."@
            } else {
                r matches Ok(doc) && doc@ == csv_document(views(res.columns@), rows_view(res.rows@))
            },
        },
{
    let res = match result {
        None => {
            return Err(owned("No result set is available for CSV export."));
        },
        Some(res) => res,
    };
    if res.columns.len() == 0 {
        return Err(owned("Current result has no tabular rows to export."));
    }
    let mut csv = csv_row(&res.columns);
    let ghost all = rows_view(res.rows@);
    let mut i: usize = 0;
    while i < res.rows.len()
        invariant
            i <= res.rows@.len(),
            all == rows_view(res.rows@),
            csv@ == csv_row_text(views(res.columns@)) + csv_rows_text(all.take(i as int)),
        decreases res.rows.len() - i,
    {
        let line = csv_row(&res.rows[i]);
        proof {
            assert(all.take(i + 1).drop_last() == all.take(i as int));
            assert(all.take(i + 1).last() == views(res.rows@[i as int]@));
        }
        csv.append(line.as_str());
        i += 1;
    }
    assert(all.take(res.rows@.len() as int) == all);
    Ok(csv)
}

/// The message once the CSV document was written to `path`, or the writing
/// failed with `failure`.
pub fn csv_export_message(path: &str, failure: Option<&str>) -> (r: String)
    ensures
        r@ == match failure {
            None => "CSV exported to "@ + path@ + "."@,
            Some(e) => "CSV export failed: "@ + e@,
        },
{
    match failure {
        None => {
            let mut m = owned("CSV exported to ");
            m.append(path);
            m.append(".");
            m
        },
        Some(e) => {
            let mut m = owned("CSV export failed: ");
            m.append(e);
            m
        },
    }
}

/// A cell value shown as a status: ok, done, ready, active, failed or
/// pending, in any case.
pub open spec fn status_value(value: Seq<char>) -> bool {
    eq_ci(value, "ok"@) || eq_ci(value, "done"@) || eq_ci(value, "ready"@) || eq_ci(value, "active"@)
        || eq_ci(value, "failed"@) || eq_ci(value, "pending"@)
}

/// Whether a cell value reads as a status.
pub fn is_status_value(value: &str) -> (r: bool)
    ensures
        r == status_value(value@),
{
    eq_ignore_ascii_case(value, "ok") || eq_ignore_ascii_case(value, "done") || eq_ignore_ascii_case(
        value,
        "ready",
    ) || eq_ignore_ascii_case(value, "active") || eq_ignore_ascii_case(value, "failed")
        || eq_ignore_ascii_case(value, "pending")
}

// ---------------------------------------------------------------------------
// Sort order
// ---------------------------------------------------------------------------

/// The direction of one sort key.
#[derive(Debug, Clone, Copy, PartialEq, Eq, Structural)]
pub enum SortDirection {
    Asc,
    Desc,
}

impl SortDirection {
    /// The direction a click moves to: descending, then ascending, then off.
    pub open spec fn next_spec(self) -> Option<SortDirection> {
        match self {
            SortDirection::Desc => Some(SortDirection::Asc),
            SortDirection::Asc => None,
        }
    }

    /// The next direction of a sort key, `None` when the key is dropped.
    pub fn next(self) -> (r: Option<SortDirection>)
        ensures
            r == self.next_spec(),
    {
        match self {
            SortDirection::Desc => Some(SortDirection::Asc),
            SortDirection::Asc => None,
        }
    }

    /// The SQL keyword of the direction.
    pub open spec fn keyword_spec(self) -> Seq<char> {
        match self {
            SortDirection::Asc => "ASC"@,
            SortDirection::Desc => "DESC"@,
        }
    }

    /// `ASC` or `DESC`.
    pub fn keyword(self) -> (r: &'static str)
        ensures
            r@ == self.keyword_spec(),
    {
        match self {
            SortDirection::Asc => "ASC",
            SortDirection::Desc => "DESC",
        }
    }
}

/// One column of a result's sort order.
#[derive(Debug)]
pub struct ResultSortKey {
    pub column_index: usize,
    pub column_name: String,
    pub direction: SortDirection,
}

impl Clone for ResultSortKey {
    fn clone(&self) -> (r: Self)
        ensures
            r == *self,
    {
        ResultSortKey {
            column_index: self.column_index,
            column_name: self.column_name.clone(),
            direction: self.direction,
        }
    }
}

/// A sort key as values.
pub open spec fn key_view(k: ResultSortKey) -> (usize, Seq<char>, SortDirection) {
    (k.column_index, k.column_name@, k.direction)
}

/// Sort keys as values.
pub open spec fn keys_view(keys: Seq<ResultSortKey>) -> Seq<(usize, Seq<char>, SortDirection)> {
    keys.map_values(|k: ResultSortKey| key_view(k))
}

impl ResultSortKey {
    /// A key on a column that sorts descending first.
    pub fn new(column_index: usize, column_name: String) -> (r: Self)
        ensures
            r.column_index == column_index,
            r.column_name == column_name,
            r.direction == SortDirection::Desc,
    {
        ResultSortKey { column_index, column_name, direction: SortDirection::Desc }
    }

    pub fn column_index(&self) -> (r: usize)
        ensures
            r == self.column_index,
    {
        self.column_index
    }

    pub fn column_name(&self) -> (r: &str)
        ensures
            r@ == self.column_name@,
    {
        self.column_name.as_str()
    }

    pub fn direction(&self) -> (r: SortDirection)
        ensures
            r == self.direction,
    {
        self.direction
    }
}

/// The first position of a key on the column.
pub open spec fn key_position(keys: Seq<(usize, Seq<char>, SortDirection)>, column_index: usize) -> Option<
    int,
> {
    if exists|i: int| 0 <= i < keys.len() && keys[i].0 == column_index {
        Some(
            choose|i: int|
                0 <= i < keys.len() && keys[i].0 == column_index && forall|j: int|
                    0 <= j < i ==> keys[j].0 != column_index,
        )
    } else {
        None
    }
}

/// The sort order after a click on a column: a new column is added last,
/// descending; a descending key turns ascending; an ascending key is
/// dropped.
pub open spec fn toggled_keys(
    keys: Seq<(usize, Seq<char>, SortDirection)>,
    column_index: usize,
    column_name: Seq<char>,
) -> Seq<(usize, Seq<char>, SortDirection)> {
    match key_position(keys, column_index) {
        Some(p) => match keys[p].2.next_spec() {
            Some(d) => keys.update(p, (keys[p].0, keys[p].1, d)),
            None => keys.remove(p),
        },
        None => keys.push((column_index, column_name, SortDirection::Desc)),
    }
}

fn find_key(order_by: &Vec<ResultSortKey>, column_index: usize) -> (r: Option<usize>)
    ensures
        match r {
            Some(i) => i < order_by@.len() && key_position(keys_view(order_by@), column_index) == Some(
                i as int,
            ),
            None => key_position(keys_view(order_by@), column_index) is None,
        },
{
    let ghost kv = keys_view(order_by@);
    let mut i: usize = 0;
    while i < order_by.len()
        invariant
            i <= order_by.len(),
            kv == keys_view(order_by@),
            forall|j: int| 0 <= j < i ==> kv[j].0 != column_index,
        decreases order_by.len() - i,
    {
        if order_by[i].column_index == column_index {
            proof {
                assert(kv[i as int].0 == column_index);
                let w = choose|w: int|
                    0 <= w < kv.len() && kv[w].0 == column_index && forall|j: int|
                        0 <= j < w ==> kv[j].0 != column_index;
                if w < i {
                    assert(kv[w].0 != column_index);
                }
                if w > i {
                    assert(kv[i as int].0 != column_index);
                }
            }
            return Some(i);
        }
        i += 1;
    }
    None
}

/// Cycles the sort on a column: added descending, then ascending, then
/// removed; the other keys keep their places.
pub fn toggle_order_key(order_by: &mut Vec<ResultSortKey>, column_index: usize, column_name: String)
    ensures
        keys_view(final(order_by)@) == toggled_keys(
            keys_view(old(order_by)@),
            column_index,
            column_name@,
        ),
{
    let ghost kv = keys_view(order_by@);
    match find_key(order_by, column_index) {
        Some(i) => {
            match order_by[i].direction.next() {
                Some(next) => {
                    let mut key = order_by[i].clone();
                    key.direction = next;
                    order_by.set(i, key);
                    assert(keys_view(order_by@) =~= kv.update(
                        i as int,
                        (kv[i as int].0, kv[i as int].1, next),
                    ));
                },
                None => {
                    let _ = order_by.remove(i);
                    assert(keys_view(order_by@) =~= kv.remove(i as int));
                },
            }
        },
        None => {
            let ghost name = column_name@;
            order_by.push(ResultSortKey::new(column_index, column_name));
            assert(keys_view(order_by@) =~= kv.push((column_index, name, SortDirection::Desc)));
        },
    }
}

/// Clicking a column that is not sorted three times cycles it: it is added
/// descending, turns ascending, then is dropped, and the sort order is as
/// it was.
pub proof fn toggle_order_key_cycle(
    keys: Seq<(usize, Seq<char>, SortDirection)>,
    column_index: usize,
    column_name: Seq<char>,
)
    requires
        key_position(keys, column_index) is None,
    ensures
        toggled_keys(keys, column_index, column_name) == keys.push(
            (column_index, column_name, SortDirection::Desc),
        ),
        toggled_keys(toggled_keys(keys, column_index, column_name), column_index, column_name)
            == keys.push((column_index, column_name, SortDirection::Asc)),
        toggled_keys(
            toggled_keys(toggled_keys(keys, column_index, column_name), column_index, column_name),
            column_index,
            column_name,
        ) == keys,
{
    let n = keys.len() as int;
    assert(!exists|i: int| 0 <= i < keys.len() && keys[i].0 == column_index);
    let k1 = keys.push((column_index, column_name, SortDirection::Desc));
    assert(k1[n].0 == column_index);
    assert forall|j: int| 0 <= j < n implies k1[j].0 != column_index by {
        assert(k1[j] == keys[j]);
    }
    let p1 = choose|i: int|
        0 <= i < k1.len() && k1[i].0 == column_index && forall|j: int|
            0 <= j < i ==> k1[j].0 != column_index;
    if p1 < n {
        assert(k1[p1] == keys[p1]);
    }
    assert(key_position(k1, column_index) == Some(n));
    let k2 = k1.update(n, (column_index, column_name, SortDirection::Asc));
    assert(k2 =~= keys.push((column_index, column_name, SortDirection::Asc)));
    assert(k2[n].0 == column_index);
    assert forall|j: int| 0 <= j < n implies k2[j].0 != column_index by {
        assert(k2[j] == keys[j]);
    }
    let p2 = choose|i: int|
        0 <= i < k2.len() && k2[i].0 == column_index && forall|j: int|
            0 <= j < i ==> k2[j].0 != column_index;
    if p2 < n {
        assert(k2[p2] == keys[p2]);
    }
    assert(key_position(k2, column_index) == Some(n));
    assert(k2.remove(n) =~= keys);
}

// ---------------------------------------------------------------------------
// Paging through a table
// ---------------------------------------------------------------------------

/// One key of an `ORDER BY` clause.
pub open spec fn order_item(driver: DatabaseDriver, k: ResultSortKey) -> Seq<char> {
    quoted(column_quoting(driver), k.column_name@) + " "@ + k.direction.keyword_spec()
}

/// The `ORDER BY` clause of the keys, or nothing when there are none.
pub open spec fn order_sql(driver: DatabaseDriver, keys: Seq<ResultSortKey>) -> Seq<char> {
    if keys.len() == 0 {
        Seq::<char>::empty()
    } else {
        " ORDER BY "@ + join(keys.map_values(|k: ResultSortKey| order_item(driver, k)), ", "@)
    }
}

fn order_clause(driver: DatabaseDriver, keys: &Vec<ResultSortKey>) -> (r: String)
    ensures
        r@ == order_sql(driver, keys@),
{
    if keys.len() == 0 {
        return String::new();
    }
    let mut items: Vec<String> = Vec::new();
    let mut i: usize = 0;
    while i < keys.len()
        invariant
            i <= keys.len(),
            views(items@) == keys@.take(i as int).map_values(
                |k: ResultSortKey| order_item(driver, k),
            ),
        decreases keys.len() - i,
    {
        let mut item = quote_column_name(driver, keys[i].column_name.as_str());
        item.append(" ");
        item.append(keys[i].direction.keyword());
        let ghost before = views(items@);
        let ghost iv = item@;
        items.push(item);
        assert(views(items@) =~= before.push(iv));
        assert(keys@.take(i + 1) == keys@.take(i as int).push(keys@[i as int]));
        assert(views(items@) =~= keys@.take(i + 1).map_values(
            |k: ResultSortKey| order_item(driver, k),
        ));
        i += 1;
    }
    assert(keys@.take(keys.len() as int) == keys@);
    let mut r = owned(" ORDER BY ");
    r.append(join_strings(&items, ", ").as_str());
    r
}

/// One key of a MongoDB sort document.
pub open spec fn mongodb_sort_item(k: ResultSortKey) -> Seq<char> {
    "\""@ + json_escaped(k.column_name@) + "\":"@ + (match k.direction {
        SortDirection::Asc => "1"@,
        SortDirection::Desc => "-1"@,
    })
}

fn mongodb_sort_items(keys: &Vec<ResultSortKey>) -> (r: String)
    ensures
        r@ == join(keys@.map_values(|k: ResultSortKey| mongodb_sort_item(k)), ","@),
{
    let mut items: Vec<String> = Vec::new();
    let mut i: usize = 0;
    while i < keys.len()
        invariant
            i <= keys.len(),
            views(items@) == keys@.take(i as int).map_values(|k: ResultSortKey| mongodb_sort_item(k)),
        decreases keys.len() - i,
    {
        let mut item = owned("\"");
        item.append(json_escape(keys[i].column_name.as_str()).as_str());
        item.append("\":");
        match keys[i].direction {
            SortDirection::Asc => item.append("1"),
            SortDirection::Desc => item.append("-1"),
        }
        let ghost before = views(items@);
        let ghost iv = item@;
        items.push(item);
        assert(views(items@) =~= before.push(iv));
        assert(keys@.take(i + 1) == keys@.take(i as int).push(keys@[i as int]));
        assert(views(items@) =~= keys@.take(i + 1).map_values(|k: ResultSortKey| mongodb_sort_item(k)));
        i += 1;
    }
    assert(keys@.take(keys.len() as int) == keys@);
    join_strings(&items, ",")
}

/// The first row of a page: `page * page_size`, or the largest `usize`
/// when that is larger.
pub open spec fn page_offset(page: usize, page_size: usize) -> nat {
    if page * page_size > usize::MAX {
        usize::MAX as nat
    } else {
        (page * page_size) as nat
    }
}

/// The `LIMIT .. OFFSET ..` tail of a page.
pub open spec fn limit_offset(page_size: nat, offset: nat) -> Seq<char> {
    " LIMIT "@ + decimal(page_size) + " OFFSET "@ + decimal(offset) + ";"@
}

/// The `OFFSET .. ROWS FETCH NEXT .. ROWS ONLY` tail of a page.
pub open spec fn offset_fetch(page_size: nat, offset: nat) -> Seq<char> {
    " OFFSET "@ + decimal(offset) + " ROWS FETCH NEXT "@ + decimal(page_size) + " ROWS ONLY;"@
}

/// The statement (for MongoDB, the `find` command) that reads one page of a
/// table's rows in the given order, or why it cannot be generated.
pub open spec fn select_rows_sql(
    driver: DatabaseDriver,
    database: Seq<char>,
    table: Seq<char>,
    page: usize,
    page_size: usize,
    keys: Seq<ResultSortKey>,
) -> Result<Seq<char>, Seq<char>> {
    let t = trim(table);
    let offset = page_offset(page, page_size);
    let order = order_sql(driver, keys);
    if t.len() == 0 {
        Err("Table name is required."@)
    } else {
        match driver {
            DatabaseDriver::MySql | DatabaseDriver::MariaDb | DatabaseDriver::TiDb => if trim(
                database,
            ).len() == 0 {
                Err("Select a database before browsing table rows."@)
            } else {
                Ok(
                    "SELECT * FROM "@ + quote_mysql(trim(database)) + "."@ + quote_mysql(t) + order
                        + limit_offset(page_size as nat, offset),
                )
            },
            DatabaseDriver::PostgreSql | DatabaseDriver::CockroachDb => Ok(
                "SELECT * FROM "@ + quoted(Quoting::Dotted, t) + order + limit_offset(
                    page_size as nat,
                    offset,
                ),
            ),
            DatabaseDriver::Sqlite => Ok(
                "SELECT * FROM "@ + quote_plain(t) + order + limit_offset(page_size as nat, offset),
            ),
            DatabaseDriver::SqlServer => Ok(
                "SELECT * FROM "@ + quoted(Quoting::SqlServerTable, t) + (if keys.len() == 0 {
                    " ORDER BY (SELECT NULL)"@
                } else {
                    order
                }) + offset_fetch(page_size as nat, offset),
            ),
            DatabaseDriver::Oracle => Ok(
                "SELECT * FROM "@ + quote_plain(t) + order + offset_fetch(page_size as nat, offset),
            ),
            DatabaseDriver::MongoDb => Ok(
                "{\"find\":\""@ + json_escaped(t) + "\",\"filter\":{}"@ + (if keys.len() == 0 {
                    Seq::<char>::empty()
                } else {
                    ",\"sort\":{"@ + join(
                        keys.map_values(|k: ResultSortKey| mongodb_sort_item(k)),
                        ","@,
                    ) + "}"@
                }) + ",\"skip\":"@ + decimal(offset) + ",\"limit\":"@ + decimal(page_size as nat)
                    + "}"@,
            ),
        }
    }
}

fn page_tail(sql_limit: bool, page_size: usize, offset: usize) -> (r: String)
    ensures
        r@ == (if sql_limit {
            limit_offset(page_size as nat, offset as nat)
        } else {
            offset_fetch(page_size as nat, offset as nat)
        }),
{
    if sql_limit {
        let mut r = owned(" LIMIT ");
        r.append(usize_to_decimal(page_size).as_str());
        r.append(" OFFSET ");
        r.append(usize_to_decimal(offset).as_str());
        r.append(";");
        r
    } else {
        let mut r = owned(" OFFSET ");
        r.append(usize_to_decimal(offset).as_str());
        r.append(" ROWS FETCH NEXT ");
        r.append(usize_to_decimal(page_size).as_str());
        r.append(" ROWS ONLY;");
        r
    }
}

/// The statement that reads page `page` (from 0) of `page_size` rows of
/// the table, sorted by `order_by`; the form is left as it is.
pub fn select_rows_statement(
    form: &mut ConnectionForm,
    table: &str,
    page: usize,
    page_size: usize,
    order_by: &Vec<ResultSortKey>,
) -> (r: Result<String, String>)
    ensures
        text_result(r) == select_rows_sql(
            old(form).driver,
            old(form).database@,
            table@,
            page,
            page_size,
            order_by@,
        ),
        *final(form) == *old(form),
{
    let t = trim_str(table);
    if is_empty_text(t) {
        return Err(owned("Table name is required."));
    }
    let offset = match page.checked_mul(page_size) {
        Some(o) => o,
        None => usize::MAX,
    };
    let driver = form.driver;
    let order = order_clause(driver, order_by);
    let mut r = owned("SELECT * FROM ");
    match driver {
        DatabaseDriver::MySql | DatabaseDriver::MariaDb | DatabaseDriver::TiDb => {
            let database = trim_str(form.database.as_str());
            if is_empty_text(database) {
                return Err(owned("Select a database before browsing table rows."));
            }
            r.append(quote_mysql_identifier(database).as_str());
            r.append(".");
            r.append(quote_mysql_identifier(t).as_str());
            r.append(order.as_str());
            r.append(page_tail(true, page_size, offset).as_str());
        },
        DatabaseDriver::PostgreSql | DatabaseDriver::CockroachDb => {
            r.append(quote_dotted_identifier(t).as_str());
            r.append(order.as_str());
            r.append(page_tail(true, page_size, offset).as_str());
        },
        DatabaseDriver::Sqlite => {
            r.append(quote_plain_identifier(t).as_str());
            r.append(order.as_str());
            r.append(page_tail(true, page_size, offset).as_str());
        },
        DatabaseDriver::SqlServer => {
            r.append(quote_sql_server_table(t).as_str());
            if order_by.len() == 0 {
                r.append(" ORDER BY (SELECT NULL)");
            } else {
                r.append(order.as_str());
            }
            r.append(page_tail(false, page_size, offset).as_str());
        },
        DatabaseDriver::Oracle => {
            r.append(quote_plain_identifier(t).as_str());
            r.append(order.as_str());
            r.append(page_tail(false, page_size, offset).as_str());
        },
        DatabaseDriver::MongoDb => {
            let mut c = owned("{\"find\":\"");
            c.append(json_escape(t).as_str());
            c.append("\",\"filter\":{}");
            let ghost head = c@;
            if order_by.len() > 0 {
                c.append(",\"sort\":{");
                c.append(mongodb_sort_items(order_by).as_str());
                c.append("}");
            }
            assert(c@ =~= head + (if order_by@.len() == 0 {
                Seq::<char>::empty()
            } else {
                ",\"sort\":{"@ + join(
                    order_by@.map_values(|k: ResultSortKey| mongodb_sort_item(k)),
                    ","@,
                ) + "}"@
            }));
            c.append(",\"skip\":");
            c.append(usize_to_decimal(offset).as_str());
            c.append(",\"limit\":");
            c.append(usize_to_decimal(page_size).as_str());
            c.append("}");
            return Ok(c);
        },
    }
    Ok(r)
}

/// With keys, text followed by their `ORDER BY` clause begins with that text,
/// ` ORDER BY ` and the first key, ends with the last key, and holds every key.
#[verifier::spinoff_prover]
proof fn lemma_order_clause_keys(driver: DatabaseDriver, keys: Seq<ResultSortKey>, from: Seq<char>)
    requires
        keys.len() > 0,
    ensures
        starts_with(
            from + order_sql(driver, keys),
            from + " ORDER BY "@ + quoted(column_quoting(driver), keys[0].column_name@) + " "@
                + keys[0].direction.keyword_spec(),
        ),
        ends_with(
            from + order_sql(driver, keys),
            quoted(column_quoting(driver), keys.last().column_name@) + " "@
                + keys.last().direction.keyword_spec(),
        ),
        forall|i: int|
            0 <= i < keys.len() ==> contains(
                from + order_sql(driver, keys),
                quoted(column_quoting(driver), #[trigger] keys[i].column_name@) + " "@
                    + keys[i].direction.keyword_spec(),
            ),
{
    lemma_order_clause_first(driver, keys, from);
    lemma_order_clause_last(driver, keys, from);
    lemma_order_clause_every(driver, keys, from);
}

#[verifier::spinoff_prover]
proof fn lemma_order_clause_first(driver: DatabaseDriver, keys: Seq<ResultSortKey>, from: Seq<char>)
    requires
        keys.len() > 0,
    ensures
        starts_with(
            from + order_sql(driver, keys),
            from + " ORDER BY "@ + quoted(column_quoting(driver), keys[0].column_name@) + " "@
                + keys[0].direction.keyword_spec(),
        ),
{
    let head = from + order_sql(driver, keys);
    let items = keys.map_values(|k: ResultSortKey| order_item(driver, k));
    let j = join(items, ", "@);
    let pre = from + " ORDER BY "@;
    assert(head =~= pre + j);
    lemma_join_starts_with_first(items, ", "@);
    let rest = j.subrange(items[0].len() as int, j.len() as int);
    assert(j =~= items[0] + rest);
    assert(head =~= (pre + items[0]) + rest);
    lemma_starts_with_concat(pre + items[0], rest);
    assert(pre + items[0] =~= from + " ORDER BY "@ + quoted(
        column_quoting(driver),
        keys[0].column_name@,
    ) + " "@ + keys[0].direction.keyword_spec());
}

#[verifier::spinoff_prover]
proof fn lemma_order_clause_last(driver: DatabaseDriver, keys: Seq<ResultSortKey>, from: Seq<char>)
    requires
        keys.len() > 0,
    ensures
        ends_with(
            from + order_sql(driver, keys),
            quoted(column_quoting(driver), keys.last().column_name@) + " "@
                + keys.last().direction.keyword_spec(),
        ),
{
    let head = from + order_sql(driver, keys);
    let items = keys.map_values(|k: ResultSortKey| order_item(driver, k));
    let j = join(items, ", "@);
    let pre = from + " ORDER BY "@;
    assert(head =~= pre + j);
    lemma_join_ends_with_last(items, ", "@);
    let last = items.last();
    assert(head.subrange(head.len() - last.len(), head.len() as int) =~= j.subrange(
        j.len() - last.len(),
        j.len() as int,
    ));
}

#[verifier::spinoff_prover]
proof fn lemma_order_clause_every(driver: DatabaseDriver, keys: Seq<ResultSortKey>, from: Seq<char>)
    requires
        keys.len() > 0,
    ensures
        forall|i: int|
            0 <= i < keys.len() ==> contains(
                from + order_sql(driver, keys),
                quoted(column_quoting(driver), #[trigger] keys[i].column_name@) + " "@
                    + keys[i].direction.keyword_spec(),
            ),
{
    let head = from + order_sql(driver, keys);
    let items = keys.map_values(|k: ResultSortKey| order_item(driver, k));
    let j = join(items, ", "@);
    let pre = from + " ORDER BY "@;
    assert(head =~= pre + j);
    assert forall|i: int| 0 <= i < keys.len() implies contains(
        head,
        quoted(column_quoting(driver), #[trigger] keys[i].column_name@) + " "@
            + keys[i].direction.keyword_spec(),
    ) by {
        lemma_join_contains(items, ", "@, i);
        lemma_contains_grow(j, items[i], pre, Seq::<char>::empty());
        assert(pre + j + Seq::<char>::empty() =~= head);
    }
}

/// A page of a SQL table is read in the order asked. The statement ends with
/// its page tail (`LIMIT .. OFFSET ..`; `OFFSET .. ROWS FETCH NEXT ..` for SQL
/// Server and Oracle). Before the tail stands `SELECT * FROM ` and the table
/// quoted for the driver (inside the database for the MySQL family), then,
/// with keys, ` ORDER BY ` and the first key, every key (its column name quoted
/// for the driver, a space and its direction), and the last key right before
/// the tail. With no keys nothing stands between the table and the tail but,
/// for SQL Server, ` ORDER BY (SELECT NULL)`.
#[verifier::spinoff_prover]
#[verifier::rlimit(40)]
pub proof fn page_statement_orders_before_its_tail(
    driver: DatabaseDriver,
    database: Seq<char>,
    table: Seq<char>,
    page: usize,
    page_size: usize,
    keys: Seq<ResultSortKey>,
)
    requires
        driver != DatabaseDriver::MongoDb,
    ensures
        select_rows_sql(driver, database, table, page, page_size, keys) matches Ok(s) ==> {
            let tail = if driver == DatabaseDriver::SqlServer || driver == DatabaseDriver::Oracle {
                offset_fetch(page_size as nat, page_offset(page, page_size))
            } else {
                limit_offset(page_size as nat, page_offset(page, page_size))
            };
            let head = s.subrange(0, s.len() - tail.len());
            let from = "SELECT * FROM "@ + match driver {
                DatabaseDriver::MySql | DatabaseDriver::MariaDb | DatabaseDriver::TiDb => quote_mysql(
                    trim(database),
                ) + "."@ + quote_mysql(trim(table)),
                DatabaseDriver::PostgreSql | DatabaseDriver::CockroachDb => quoted(
                    Quoting::Dotted,
                    trim(table),
                ),
                DatabaseDriver::SqlServer => quoted(Quoting::SqlServerTable, trim(table)),
                _ => quote_plain(trim(table)),
            };
            &&& ends_with(s, tail)
            &&& keys.len() == 0 ==> head == from + (if driver == DatabaseDriver::SqlServer {
                " ORDER BY (SELECT NULL)"@
            } else {
                Seq::<char>::empty()
            })
            &&& keys.len() > 0 ==> starts_with(
                head,
                from + " ORDER BY "@ + quoted(column_quoting(driver), keys[0].column_name@) + " "@
                    + keys[0].direction.keyword_spec(),
            )
            &&& keys.len() > 0 ==> ends_with(
                head,
                quoted(column_quoting(driver), keys.last().column_name@) + " "@
                    + keys.last().direction.keyword_spec(),
            )
            &&& forall|i: int|
                0 <= i < keys.len() ==> contains(
                    head,
                    quoted(column_quoting(driver), #[trigger] keys[i].column_name@) + " "@
                        + keys[i].direction.keyword_spec(),
                )
        },
{
    match select_rows_sql(driver, database, table, page, page_size, keys) {
        Ok(s) => {
            let tail = if driver == DatabaseDriver::SqlServer || driver == DatabaseDriver::Oracle {
                offset_fetch(page_size as nat, page_offset(page, page_size))
            } else {
                limit_offset(page_size as nat, page_offset(page, page_size))
            };
            let from = "SELECT * FROM "@ + match driver {
                DatabaseDriver::MySql | DatabaseDriver::MariaDb | DatabaseDriver::TiDb => quote_mysql(
                    trim(database),
                ) + "."@ + quote_mysql(trim(table)),
                DatabaseDriver::PostgreSql | DatabaseDriver::CockroachDb => quoted(
                    Quoting::Dotted,
                    trim(table),
                ),
                DatabaseDriver::SqlServer => quoted(Quoting::SqlServerTable, trim(table)),
                _ => quote_plain(trim(table)),
            };
            let order = if keys.len() == 0 && driver == DatabaseDriver::SqlServer {
                " ORDER BY (SELECT NULL)"@
            } else {
                order_sql(driver, keys)
            };
            let head = s.subrange(0, s.len() - tail.len());
            assert(s =~= from + order + tail);
            assert(head =~= from + order);
            lemma_ends_with_concat(from + order, tail);
            if keys.len() > 0 {
                lemma_order_clause_keys(driver, keys, from);
            }
        },
        Err(_) => {},
    }
}

/// A query without surrounding white space and one trailing semicolon.
pub open spec fn query_body(sql: Seq<char>) -> Seq<char> {
    let t = trim(sql);
    if t.len() > 0 && t.last() == ';' {
        trim(t.drop_last())
    } else {
        t
    }
}

/// An ad-hoc query sorted by the keys: wrapped as a derived table and
/// ordered outside it; unchanged without keys; MongoDB commands are not
/// sorted.
pub open spec fn ordered_query(driver: DatabaseDriver, sql: Seq<char>, keys: Seq<ResultSortKey>) -> Result<
    Seq<char>,
    Seq<char>,
> {
    let body = query_body(sql);
    if body.len() == 0 {
        Err("Query is empty."@)
    } else if keys.len() == 0 {
        Ok(sql)
    } else if driver == DatabaseDriver::MongoDb {
        Err("Sorting is not available for MongoDB commands."@)
    } else {
        Ok(
            "SELECT * FROM ("@ + body + (if driver == DatabaseDriver::Oracle {
                ") aktsql_result"@
            } else {
                ") AS aktsql_result"@
            }) + order_sql(driver, keys) + ";"@,
        )
    }
}

/// A query re-run with sort keys is wrapped and sorted by every key: the
/// statement begins `SELECT * FROM (` and the query without its trailing
/// semicolon and surrounding white space, holds ` ORDER BY ` and the first
/// key, holds every key (its column name quoted for the driver, a space and
/// its direction), and ends with the last key and `;`. With no keys the query
/// is run as it is; MongoDB commands cannot be sorted.
#[verifier::spinoff_prover]
#[verifier::rlimit(40)]
pub proof fn sorted_query_orders_by_every_key(
    driver: DatabaseDriver,
    sql: Seq<char>,
    keys: Seq<ResultSortKey>,
)
    requires
        query_body(sql).len() > 0,
    ensures
        keys.len() == 0 ==> ordered_query(driver, sql, keys) == Ok::<Seq<char>, Seq<char>>(sql),
        keys.len() > 0 && driver == DatabaseDriver::MongoDb ==> ordered_query(
            driver,
            sql,
            keys,
        ) is Err,
        keys.len() > 0 && driver != DatabaseDriver::MongoDb ==> (ordered_query(
            driver,
            sql,
            keys,
        ) matches Ok(s) && {
            &&& starts_with(s, "SELECT * FROM ("@ + query_body(sql))
            &&& contains(
                s,
                " ORDER BY "@ + quoted(column_quoting(driver), keys[0].column_name@) + " "@
                    + keys[0].direction.keyword_spec(),
            )
            &&& ends_with(
                s,
                quoted(column_quoting(driver), keys.last().column_name@) + " "@
                    + keys.last().direction.keyword_spec() + ";"@,
            )
            &&& forall|i: int|
                0 <= i < keys.len() ==> contains(
                    s,
                    quoted(column_quoting(driver), #[trigger] keys[i].column_name@) + " "@
                        + keys[i].direction.keyword_spec(),
                )
        }),
{
    if keys.len() > 0 && driver != DatabaseDriver::MongoDb {
        let body = query_body(sql);
        let alias = if driver == DatabaseDriver::Oracle {
            ") aktsql_result"@
        } else {
            ") AS aktsql_result"@
        };
        let s = ordered_query(driver, sql, keys)->Ok_0;
        assert(s == "SELECT * FROM ("@ + body + alias + order_sql(driver, keys) + ";"@);
        lemma_sorted_statement("SELECT * FROM ("@ + body, alias, driver, keys);
    }
}

/// The text `p`, an alias, the keys' `ORDER BY` clause and `;` begins with
/// `p`, holds ` ORDER BY ` and the first key and every key, and ends with the
/// last key and `;`.
#[verifier::spinoff_prover]
proof fn lemma_sorted_statement(
    p: Seq<char>,
    alias: Seq<char>,
    driver: DatabaseDriver,
    keys: Seq<ResultSortKey>,
)
    requires
        keys.len() > 0,
    ensures
        ({
            let s = p + alias + order_sql(driver, keys) + ";"@;
            &&& starts_with(s, p)
            &&& contains(
                s,
                " ORDER BY "@ + quoted(column_quoting(driver), keys[0].column_name@) + " "@
                    + keys[0].direction.keyword_spec(),
            )
            &&& ends_with(
                s,
                quoted(column_quoting(driver), keys.last().column_name@) + " "@
                    + keys.last().direction.keyword_spec() + ";"@,
            )
            &&& forall|i: int|
                0 <= i < keys.len() ==> contains(
                    s,
                    quoted(column_quoting(driver), #[trigger] keys[i].column_name@) + " "@
                        + keys[i].direction.keyword_spec(),
                )
        }),
{
    let from = p + alias;
    let s = p + alias + order_sql(driver, keys) + ";"@;
    assert(s =~= p + (alias + order_sql(driver, keys) + ";"@));
    lemma_starts_with_concat(p, alias + order_sql(driver, keys) + ";"@);
    lemma_sorted_first_key(from, driver, keys);
    lemma_sorted_last_key(from, driver, keys);
    lemma_sorted_every_key(from, driver, keys);
}

#[verifier::spinoff_prover]
proof fn lemma_sorted_first_key(from: Seq<char>, driver: DatabaseDriver, keys: Seq<ResultSortKey>)
    requires
        keys.len() > 0,
    ensures
        contains(
            from + order_sql(driver, keys) + ";"@,
            " ORDER BY "@ + quoted(column_quoting(driver), keys[0].column_name@) + " "@
                + keys[0].direction.keyword_spec(),
        ),
{
    let h = from + order_sql(driver, keys);
    let first = quoted(column_quoting(driver), keys[0].column_name@) + " "@
        + keys[0].direction.keyword_spec();
    lemma_order_clause_first(driver, keys, from);
    assert(from + " ORDER BY "@ + quoted(column_quoting(driver), keys[0].column_name@) + " "@
        + keys[0].direction.keyword_spec() =~= from + (" ORDER BY "@ + first));
    lemma_prefix_part_contained(h, from, " ORDER BY "@ + first, ";"@);
    assert(" ORDER BY "@ + first =~= " ORDER BY "@ + quoted(
        column_quoting(driver),
        keys[0].column_name@,
    ) + " "@ + keys[0].direction.keyword_spec());
}

#[verifier::spinoff_prover]
proof fn lemma_sorted_last_key(from: Seq<char>, driver: DatabaseDriver, keys: Seq<ResultSortKey>)
    requires
        keys.len() > 0,
    ensures
        ends_with(
            from + order_sql(driver, keys) + ";"@,
            quoted(column_quoting(driver), keys.last().column_name@) + " "@
                + keys.last().direction.keyword_spec() + ";"@,
        ),
{
    let h = from + order_sql(driver, keys);
    let last = quoted(column_quoting(driver), keys.last().column_name@) + " "@
        + keys.last().direction.keyword_spec();
    lemma_order_clause_last(driver, keys, from);
    lemma_ends_with_append(h, last, ";"@);
}

#[verifier::spinoff_prover]
proof fn lemma_sorted_every_key(from: Seq<char>, driver: DatabaseDriver, keys: Seq<ResultSortKey>)
    requires
        keys.len() > 0,
    ensures
        forall|i: int|
            0 <= i < keys.len() ==> contains(
                from + order_sql(driver, keys) + ";"@,
                quoted(column_quoting(driver), #[trigger] keys[i].column_name@) + " "@
                    + keys[i].direction.keyword_spec(),
            ),
{
    let h = from + order_sql(driver, keys);
    lemma_order_clause_every(driver, keys, from);
    assert forall|i: int| 0 <= i < keys.len() implies contains(
        h + ";"@,
        quoted(column_quoting(driver), #[trigger] keys[i].column_name@) + " "@
            + keys[i].direction.keyword_spec(),
    ) by {
        let item = quoted(column_quoting(driver), keys[i].column_name@) + " "@
            + keys[i].direction.keyword_spec();
        lemma_contains_grow(h, item, Seq::<char>::empty(), ";"@);
        assert(Seq::<char>::empty() + h + ";"@ =~= h + ";"@);
    }
}

/// A page of a MongoDB collection is found in the order asked: with keys
/// the `find` command holds a `sort` document with every key (its field name
/// escaped, then 1 ascending or -1 descending), and without keys it has no
/// `sort` after the empty filter.
#[verifier::spinoff_prover]
#[verifier::rlimit(40)]
pub proof fn mongodb_page_sorts_by_every_key(
    database: Seq<char>,
    table: Seq<char>,
    page: usize,
    page_size: usize,
    keys: Seq<ResultSortKey>,
)
    ensures
        select_rows_sql(DatabaseDriver::MongoDb, database, table, page, page_size, keys) matches Ok(
            s,
        ) ==> {
            &&& keys.len() == 0 ==> starts_with(
                s,
                "{\"find\":\""@ + json_escaped(trim(table)) + "\",\"filter\":{}"@ + ",\"skip\":"@,
            )
            &&& keys.len() > 0 ==> starts_with(
                s,
                "{\"find\":\""@ + json_escaped(trim(table)) + "\",\"filter\":{}"@
                    + ",\"sort\":{"@,
            )
            &&& forall|i: int|
                0 <= i < keys.len() ==> contains(
                    s,
                    "\""@ + json_escaped(#[trigger] keys[i].column_name@) + "\":"@ + (match keys[i].direction {
                        SortDirection::Asc => "1"@,
                        SortDirection::Desc => "-1"@,
                    }),
                )
        },
{
    match select_rows_sql(DatabaseDriver::MongoDb, database, table, page, page_size, keys) {
        Ok(s) => {
            let head = "{\"find\":\""@ + json_escaped(trim(table)) + "\",\"filter\":{}"@;
            let offset = page_offset(page, page_size);
            let tail = ",\"skip\":"@ + decimal(offset) + ",\"limit\":"@ + decimal(page_size as nat)
                + "}"@;
            if keys.len() == 0 {
                assert(s =~= (head + ",\"skip\":"@) + (decimal(offset) + ",\"limit\":"@ + decimal(
                    page_size as nat,
                ) + "}"@));
                lemma_starts_with_concat(
                    head + ",\"skip\":"@,
                    decimal(offset) + ",\"limit\":"@ + decimal(page_size as nat) + "}"@,
                );
            } else {
                let items = keys.map_values(|k: ResultSortKey| mongodb_sort_item(k));
                let j = join(items, ","@);
                let p = head + ",\"sort\":{"@;
                assert(s =~= p + (j + "}"@ + tail));
                lemma_starts_with_concat(p, j + "}"@ + tail);
                assert forall|i: int| 0 <= i < keys.len() implies contains(
                    s,
                    "\""@ + json_escaped(#[trigger] keys[i].column_name@) + "\":"@ + (match keys[i].direction {
                        SortDirection::Asc => "1"@,
                        SortDirection::Desc => "-1"@,
                    }),
                ) by {
                    lemma_join_contains(items, ","@, i);
                    lemma_contains_grow(j, items[i], p, "}"@ + tail);
                    assert(p + j + ("}"@ + tail) =~= s);
                }
            }
        },
        Err(_) => {},
    }
}

/// The query sorted by the keys, for re-running a result with a new order.
pub fn ordered_query_sql(driver: DatabaseDriver, sql: &str, order_by: &Vec<ResultSortKey>) -> (r:
    Result<String, String>)
    ensures
        text_result(r) == ordered_query(driver, sql@, order_by@),
{
    let t = trim_str(sql);
    let v = crate::text::chars_of(t);
    let body = if v.len() > 0 && v[v.len() - 1] == ';' {
        let cut = prefix_string(t, v.len() - 1);
        assert(cut@ == t@.drop_last());
        owned(trim_str(cut.as_str()))
    } else {
        owned(t)
    };
    assert(body@ == query_body(sql@));
    if is_empty_text(body.as_str()) {
        return Err(owned("Query is empty."));
    }
    if order_by.len() == 0 {
        return Ok(owned(sql));
    }
    if driver == DatabaseDriver::MongoDb {
        return Err(owned("Sorting is not available for MongoDB commands."));
    }
    let mut r = owned("SELECT * FROM (");
    r.append(body.as_str());
    if driver == DatabaseDriver::Oracle {
        r.append(") aktsql_result");
    } else {
        r.append(") AS aktsql_result");
    }
    r.append(order_clause(driver, order_by).as_str());
    r.append(";");
    Ok(r)
}

// ---------------------------------------------------------------------------
// Running queries
// ---------------------------------------------------------------------------

/// The engine a query runs on.
#[derive(Debug, Clone, Copy, PartialEq, Eq, Structural)]
pub enum QueryEngine {
    Sqlite,
    MySql,
    Postgres,
    MongoDb,
}

/// The engine that runs a query for a form, or why none does: an empty
/// query, the form's validation errors, or a driver without a native
/// engine.
pub open spec fn engine_for(form: ConnectionForm, sql: Seq<char>) -> Result<QueryEngine, Seq<Seq<char>>> {
    if trim(sql).len() == 0 {
        Err(seq!["SQL is required."@])
    } else if validation_messages(form).len() > 0 {
        Err(validation_messages(form))
    } else {
        match form.driver {
            DatabaseDriver::Sqlite => Ok(QueryEngine::Sqlite),
            DatabaseDriver::MySql | DatabaseDriver::MariaDb | DatabaseDriver::TiDb => Ok(
                QueryEngine::MySql,
            ),
            DatabaseDriver::PostgreSql | DatabaseDriver::CockroachDb => Ok(QueryEngine::Postgres),
            DatabaseDriver::MongoDb => Ok(QueryEngine::MongoDb),
            _ => Err(
                seq![
                    form.driver.display_name_spec()
                        + " query execution needs a native driver dependency before it can run live queries."@,
                ],
            ),
        }
    }
}

/// The engine that will run the query, or the errors that stop it.
pub fn query_engine(form: &ConnectionForm, sql: &str) -> (r: Result<QueryEngine, Vec<String>>)
    ensures
        crate::connector::errors_result(r) == engine_for(*form, sql@),
{
    if is_empty_text(trim_str(sql)) {
        let mut errors: Vec<String> = Vec::new();
        errors.push(owned("SQL is required."));
        assert(views(errors@) =~= seq!["SQL is required."@]);
        return Err(errors);
    }
    match form.validate() {
        Ok(()) => {},
        Err(errors) => {
            return Err(errors);
        },
    }
    match form.driver {
        DatabaseDriver::Sqlite => Ok(QueryEngine::Sqlite),
        DatabaseDriver::MySql | DatabaseDriver::MariaDb | DatabaseDriver::TiDb => Ok(
            QueryEngine::MySql,
        ),
        DatabaseDriver::PostgreSql | DatabaseDriver::CockroachDb => Ok(QueryEngine::Postgres),
        DatabaseDriver::MongoDb => Ok(QueryEngine::MongoDb),
        _ => {
            let mut m = owned(form.driver.display_name());
            m.append(
                " query execution needs a native driver dependency before it can run live queries.",
            );
            let ghost mv = m@;
            let mut errors: Vec<String> = Vec::new();
            errors.push(m);
            assert(views(errors@) =~= seq![mv]);
            Err(errors)
        },
    }
}

/// Keeps a fetched row unless the display cap is reached; `false` tells
/// the reader to stop, the result being truncated.
pub fn push_result_row(rows: &mut Vec<Vec<String>>, row: Vec<String>) -> (kept: bool)
    ensures
        kept == (old(rows)@.len() < MAX_RESULT_ROWS),
        kept ==> final(rows)@ == old(rows)@.push(row),
        !kept ==> final(rows)@ == old(rows)@,
{
    if rows.len() == MAX_RESULT_ROWS || rows.len() > MAX_RESULT_ROWS {
        return false;
    }
    rows.push(row);
    true
}

/// A MongoDB document as its fields, each a name and a value written out.
pub open spec fn field_views(d: Seq<(String, String)>) -> Seq<(Seq<char>, Seq<char>)> {
    d.map_values(|p: (String, String)| (p.0@, p.1@))
}

/// The batch of a MongoDB cursor as values: `None` for an entry that is no
/// document.
pub open spec fn batch_views(batch: Seq<Option<Vec<(String, String)>>>) -> Seq<
    Option<Seq<(Seq<char>, Seq<char>)>>,
> {
    batch.map_values(
        |e: Option<Vec<(String, String)>>|
            match e {
                Some(d) => Some(field_views(d@)),
                None => None,
            },
    )
}

/// The names of `fields` added, in order, to `names` when new.
pub open spec fn add_names(names: Seq<Seq<char>>, fields: Seq<(Seq<char>, Seq<char>)>) -> Seq<
    Seq<char>,
>
    decreases fields.len(),
{
    if fields.len() == 0 {
        names
    } else {
        let v = add_names(names, fields.drop_last());
        if v.contains(fields.last().0) {
            v
        } else {
            v.push(fields.last().0)
        }
    }
}

/// The field names of the documents, each once, in order of appearance.
pub open spec fn batch_columns(batch: Seq<Option<Seq<(Seq<char>, Seq<char>)>>>) -> Seq<Seq<char>>
    decreases batch.len(),
{
    if batch.len() == 0 {
        Seq::<Seq<char>>::empty()
    } else {
        let u = batch_columns(batch.drop_last());
        match batch.last() {
            Some(d) => add_names(u, d),
            None => u,
        }
    }
}

/// The value of the first field named `name`, or `NULL`.
pub open spec fn field_value(d: Seq<(Seq<char>, Seq<char>)>, name: Seq<char>) -> Seq<char>
    decreases d.len(),
{
    if d.len() == 0 {
        "NULL"@
    } else if d[0].0 == name {
        d[0].1
    } else {
        field_value(d.drop_first(), name)
    }
}

/// The rows of the documents among the batch entries, one cell per column.
pub open spec fn batch_rows(
    batch: Seq<Option<Seq<(Seq<char>, Seq<char>)>>>,
    columns: Seq<Seq<char>>,
) -> Seq<Seq<Seq<char>>>
    decreases batch.len(),
{
    if batch.len() == 0 {
        Seq::<Seq<Seq<char>>>::empty()
    } else {
        let rest = batch_rows(batch.drop_last(), columns);
        match batch.last() {
            Some(d) => rest.push(columns.map_values(|c: Seq<char>| field_value(d, c))),
            None => rest,
        }
    }
}

/// The rows of a result as values.
pub open spec fn rows_view(rows: Seq<Vec<String>>) -> Seq<Seq<Seq<char>>> {
    rows.map_values(|r: Vec<String>| views(r@))
}

fn contains_text(names: &Vec<String>, name: &str) -> (r: bool)
    ensures
        r == views(names@).contains(name@),
{
    let mut i: usize = 0;
    while i < names.len()
        invariant
            i <= names.len(),
            forall|j: int| 0 <= j < i ==> views(names@)[j] != name@,
        decreases names.len() - i,
    {
        if crate::text::str_eq(names[i].as_str(), name) {
            assert(views(names@)[i as int] == name@);
            return true;
        }
        i += 1;
    }
    false
}

fn add_field_names(names: &mut Vec<String>, fields: &Vec<(String, String)>)
    ensures
        views(final(names)@) == add_names(views(old(names)@), field_views(fields@)),
{
    let ghost start = views(names@);
    let mut i: usize = 0;
    while i < fields.len()
        invariant
            i <= fields.len(),
            views(names@) == add_names(start, field_views(fields@).take(i as int)),
        decreases fields.len() - i,
    {
        proof {
            let f = field_views(fields@).take(i + 1);
            assert(f.drop_last() == field_views(fields@).take(i as int));
            assert(f.last() == (fields@[i as int].0@, fields@[i as int].1@));
        }
        if !contains_text(names, fields[i].0.as_str()) {
            let ghost before = views(names@);
            let name = fields[i].0.clone();
            let ghost nv = name@;
            names.push(name);
            assert(views(names@) =~= before.push(nv));
        }
        i += 1;
    }
    assert(field_views(fields@).take(fields.len() as int) == field_views(fields@));
}

fn document_value(fields: &Vec<(String, String)>, name: &str) -> (r: String)
    ensures
        r@ == field_value(field_views(fields@), name@),
{
    let ghost fv = field_views(fields@);
    let mut i: usize = 0;
    assert(fv.skip(0) =~= fv);
    while i < fields.len()
        invariant
            i <= fields.len(),
            fv == field_views(fields@),
            field_value(fv, name@) == field_value(fv.skip(i as int), name@),
        decreases fields.len() - i,
    {
        proof {
            assert(fv.skip(i as int)[0] == fv[i as int]);
            assert(fv.skip(i as int).drop_first() =~= fv.skip(i + 1));
        }
        if crate::text::str_eq(fields[i].0.as_str(), name) {
            return fields[i].1.clone();
        }
        i += 1;
    }
    owned("NULL")
}

/// The result of a MongoDB cursor batch: a column for every field name in
/// the batch, in order of appearance, and a row for each of the first
/// `MAX_RESULT_ROWS` entries that is a document, `NULL` where it lacks a
/// field.
pub fn mongodb_batch_result(batch: &Vec<Option<Vec<(String, String)>>>, elapsed_ms: u128) -> (r:
    QueryResult)
    ensures
        views(r.columns@) == batch_columns(batch_views(batch@)),
        rows_view(r.rows@) == batch_rows(
            batch_views(batch@).take(
                if batch@.len() < MAX_RESULT_ROWS {
                    batch@.len() as int
                } else {
                    MAX_RESULT_ROWS as int
                },
            ),
            batch_columns(batch_views(batch@)),
        ),
        r.rows_affected is None,
        r.elapsed_ms == elapsed_ms,
        r.message@ == tabular_message("MongoDB"@, r.rows@.len(), false, elapsed_ms as nat),
        !r.truncated,
{
    let ghost bv = batch_views(batch@);
    let mut columns: Vec<String> = Vec::new();
    let mut i: usize = 0;
    assert(views(columns@) =~= Seq::<Seq<char>>::empty());
    while i < batch.len()
        invariant
            i <= batch.len(),
            bv == batch_views(batch@),
            views(columns@) == batch_columns(bv.take(i as int)),
        decreases batch.len() - i,
    {
        proof {
            assert(bv.take(i + 1).drop_last() == bv.take(i as int));
            assert(bv.take(i + 1).last() == bv[i as int]);
        }
        match &batch[i] {
            Some(fields) => {
                add_field_names(&mut columns, fields);
            },
            None => {},
        }
        i += 1;
    }
    assert(bv.take(batch.len() as int) == bv);
    let ghost cols = views(columns@);
    let limit = if batch.len() < MAX_RESULT_ROWS {
        batch.len()
    } else {
        MAX_RESULT_ROWS
    };
    let mut rows: Vec<Vec<String>> = Vec::new();
    let mut k: usize = 0;
    assert(rows_view(rows@) =~= Seq::<Seq<Seq<char>>>::empty());
    while k < limit
        invariant
            k <= limit <= batch.len(),
            bv == batch_views(batch@),
            cols == views(columns@),
            rows_view(rows@) == batch_rows(bv.take(k as int), cols),
        decreases limit - k,
    {
        proof {
            assert(bv.take(k + 1).drop_last() == bv.take(k as int));
            assert(bv.take(k + 1).last() == bv[k as int]);
        }
        match &batch[k] {
            Some(fields) => {
                let mut row: Vec<String> = Vec::new();
                let mut c: usize = 0;
                while c < columns.len()
                    invariant
                        c <= columns.len(),
                        cols == views(columns@),
                        views(row@) == cols.take(c as int).map_values(
                            |n: Seq<char>| field_value(field_views(fields@), n),
                        ),
                    decreases columns.len() - c,
                {
                    let v = document_value(fields, columns[c].as_str());
                    let ghost before = views(row@);
                    let ghost vv = v@;
                    row.push(v);
                    assert(views(row@) =~= before.push(vv));
                    assert(cols.take(c + 1) == cols.take(c as int).push(cols[c as int]));
                    assert(views(row@) =~= cols.take(c + 1).map_values(
                        |n: Seq<char>| field_value(field_views(fields@), n),
                    ));
                    c += 1;
                }
                assert(cols.take(columns.len() as int) == cols);
                let ghost before = rows_view(rows@);
                let ghost rv = views(row@);
                rows.push(row);
                assert(rows_view(rows@) =~= before.push(rv));
            },
            None => {},
        }
        k += 1;
    }
    tabular_result("MongoDB", columns, rows, false, elapsed_ms)
}

/// The result of a single MongoDB reply document: one column per field and
/// one row of their values.
pub fn mongodb_document_result(fields: &Vec<(String, String)>, elapsed_ms: u128) -> (r: QueryResult)
    ensures
        views(r.columns@) == field_views(fields@).map_values(|f: (Seq<char>, Seq<char>)| f.0),
        rows_view(r.rows@) == seq![
            field_views(fields@).map_values(|f: (Seq<char>, Seq<char>)| f.1),
        ],
        r.rows_affected is None,
        r.elapsed_ms == elapsed_ms,
        r.message@ == tabular_message("MongoDB"@, 1, false, elapsed_ms as nat),
        !r.truncated,
{
    let ghost fv = field_views(fields@);
    let mut columns: Vec<String> = Vec::new();
    let mut values: Vec<String> = Vec::new();
    let mut i: usize = 0;
    while i < fields.len()
        invariant
            i <= fields.len(),
            fv == field_views(fields@),
            views(columns@) == fv.take(i as int).map_values(|f: (Seq<char>, Seq<char>)| f.0),
            views(values@) == fv.take(i as int).map_values(|f: (Seq<char>, Seq<char>)| f.1),
        decreases fields.len() - i,
    {
        let ghost cb = views(columns@);
        let ghost vb = views(values@);
        let name = fields[i].0.clone();
        let value = fields[i].1.clone();
        let ghost nv = name@;
        let ghost vv = value@;
        columns.push(name);
        values.push(value);
        assert(views(columns@) =~= cb.push(nv));
        assert(views(values@) =~= vb.push(vv));
        assert(fv.take(i + 1) == fv.take(i as int).push(fv[i as int]));
        assert(views(columns@) =~= fv.take(i + 1).map_values(|f: (Seq<char>, Seq<char>)| f.0));
        assert(views(values@) =~= fv.take(i + 1).map_values(|f: (Seq<char>, Seq<char>)| f.1));
        i += 1;
    }
    assert(fv.take(fields.len() as int) == fv);
    let mut rows: Vec<Vec<String>> = Vec::new();
    let ghost rv = views(values@);
    rows.push(values);
    assert(rows_view(rows@) =~= seq![rv]);
    tabular_result("MongoDB", columns, rows, false, elapsed_ms)
}

/// One message of a PostgreSQL simple query, as values.
#[derive(Debug)]
pub enum PgMessage {
    /// The names of the columns of the rows that follow.
    RowDescription(Vec<String>),
    /// A row: the names of its columns and its values, `None` for SQL `NULL`.
    Row(Vec<String>, Vec<Option<String>>),
    /// A statement finished, having touched this many rows.
    CommandComplete(u64),
    /// Anything else the server sends.
    Other,
}

/// What the messages read so far give: the columns, the rows, the last
/// count of touched rows, and whether rows were dropped at the cap.
pub type PgState = (Seq<Seq<char>>, Seq<Seq<Seq<char>>>, Option<u64>, bool);

/// The values of a row, `NULL` for missing ones.
pub open spec fn cell_views(values: Seq<Option<String>>) -> Seq<Seq<char>> {
    values.map_values(
        |v: Option<String>|
            match v {
                Some(s) => s@,
                None => "NULL"@,
            },
    )
}

/// The state after one more message: the first description (or row) names
/// the columns, rows are kept up to the cap, the last count is kept.
pub open spec fn pg_step(st: PgState, m: PgMessage) -> PgState {
    let (cols, rows, affected, truncated) = st;
    match m {
        PgMessage::RowDescription(names) => if cols.len() == 0 {
            (views(names@), rows, affected, truncated)
        } else {
            st
        },
        PgMessage::Row(names, values) => if rows.len() == MAX_RESULT_ROWS {
            (cols, rows, affected, true)
        } else {
            (
                if cols.len() == 0 {
                    views(names@)
                } else {
                    cols
                },
                rows.push(cell_views(values@)),
                affected,
                truncated,
            )
        },
        PgMessage::CommandComplete(n) => (cols, rows, Some(n), truncated),
        PgMessage::Other => st,
    }
}

/// The state after all the messages.
pub open spec fn pg_fold(ms: Seq<PgMessage>) -> PgState
    decreases ms.len(),
{
    if ms.len() == 0 {
        (Seq::<Seq<char>>::empty(), Seq::<Seq<Seq<char>>>::empty(), None, false)
    } else {
        pg_step(pg_fold(ms.drop_last()), ms.last())
    }
}

fn cells(values: &Vec<Option<String>>) -> (r: Vec<String>)
    ensures
        views(r@) == cell_views(values@),
{
    let mut r: Vec<String> = Vec::new();
    let mut i: usize = 0;
    while i < values.len()
        invariant
            i <= values.len(),
            views(r@) == cell_views(values@.take(i as int)),
        decreases values.len() - i,
    {
        let v = match &values[i] {
            Some(s) => s.clone(),
            None => owned("NULL"),
        };
        let ghost before = views(r@);
        let ghost vv = v@;
        r.push(v);
        assert(views(r@) =~= before.push(vv));
        assert(cell_views(values@.take(i + 1)) =~= cell_views(values@.take(i as int)).push(vv));
        i += 1;
    }
    assert(values@.take(values.len() as int) == values@);
    r
}

fn copy_strings(v: &Vec<String>) -> (r: Vec<String>)
    ensures
        views(r@) == views(v@),
{
    let mut r: Vec<String> = Vec::new();
    let mut i: usize = 0;
    while i < v.len()
        invariant
            i <= v.len(),
            views(r@) == views(v@.take(i as int)),
        decreases v.len() - i,
    {
        let s = v[i].clone();
        let ghost before = views(r@);
        let ghost sv = s@;
        r.push(s);
        assert(views(r@) =~= before.push(sv));
        assert(views(v@.take(i + 1)) =~= views(v@.take(i as int)).push(sv));
        i += 1;
    }
    assert(v@.take(v.len() as int) == v@);
    r
}

/// The result of a PostgreSQL simple query from its messages: a statement
/// result with the last count when no columns were named, else the rows
/// (at most `MAX_RESULT_ROWS`) under the first column names.
pub fn postgres_messages_result(messages: &Vec<PgMessage>, elapsed_ms: u128) -> (r: QueryResult)
    ensures
        ({
            let (cols, rows, affected, truncated) = pg_fold(messages@);
            if cols.len() == 0 {
                &&& r.columns@.len() == 0
                &&& r.rows@.len() == 0
                &&& r.rows_affected == Some(
                    (match affected {
                        Some(n) => n,
                        None => 0,
                    }) as usize,
                )
                &&& r.message@ == statement_message(
                    "PostgreSQL"@,
                    ((match affected {
                        Some(n) => n,
                        None => 0,
                    }) as usize) as nat,
                )
                &&& !r.truncated
            } else {
                &&& views(r.columns@) == cols
                &&& rows_view(r.rows@) == rows
                &&& r.rows_affected is None
                &&& r.message@ == tabular_message("PostgreSQL"@, rows.len(), truncated, elapsed_ms as nat)
                &&& r.truncated == truncated
            }
        }),
        r.elapsed_ms == elapsed_ms,
{
    let mut columns: Vec<String> = Vec::new();
    let mut rows: Vec<Vec<String>> = Vec::new();
    let mut affected: Option<u64> = None;
    let mut truncated = false;
    let mut i: usize = 0;
    assert(views(columns@) =~= Seq::<Seq<char>>::empty());
    assert(rows_view(rows@) =~= Seq::<Seq<Seq<char>>>::empty());
    while i < messages.len()
        invariant
            i <= messages.len(),
            (views(columns@), rows_view(rows@), affected, truncated) == pg_fold(
                messages@.take(i as int),
            ),
        decreases messages.len() - i,
    {
        proof {
            assert(messages@.take(i + 1).drop_last() == messages@.take(i as int));
            assert(messages@.take(i + 1).last() == messages@[i as int]);
        }
        match &messages[i] {
            PgMessage::RowDescription(names) => {
                if columns.len() == 0 {
                    columns = copy_strings(names);
                }
            },
            PgMessage::Row(names, values) => {
                if rows.len() == MAX_RESULT_ROWS {
                    truncated = true;
                } else {
                    if columns.len() == 0 {
                        columns = copy_strings(names);
                    }
                    let row = cells(values);
                    let ghost before = rows_view(rows@);
                    let ghost rv = views(row@);
                    rows.push(row);
                    assert(rows_view(rows@) =~= before.push(rv));
                }
            },
            PgMessage::CommandComplete(n) => {
                affected = Some(*n);
            },
            PgMessage::Other => {},
        }
        i += 1;
    }
    assert(messages@.take(messages.len() as int) == messages@);
    if columns.len() == 0 {
        let count = match affected {
            Some(n) => n as usize,
            None => 0,
        };
        statement_result("PostgreSQL", count, elapsed_ms)
    } else {
        tabular_result("PostgreSQL", columns, rows, truncated, elapsed_ms)
    }
}


// ---------------------------------------------------------------------------
// MongoDB commands
// ---------------------------------------------------------------------------

/// A MongoDB command text read as JSON: one object, an array whose entries
/// are objects (`Some`) or other values (`None`), or another value.
#[derive(Debug)]
pub enum MongoCommandShape<D> {
    Object(D),
    Array(Vec<Option<D>>),
    Other,
}

/// Every entry of the array is an object.
pub open spec fn all_objects<D>(items: Seq<Option<D>>) -> bool {
    forall|i: int| 0 <= i < items.len() ==> items[i] is Some
}

/// The commands to run for a MongoDB command text: the object, or every
/// object of an array of objects; anything else is refused.
pub fn mongodb_commands<D>(shape: MongoCommandShape<D>) -> (r: Result<Vec<D>, String>)
    ensures
        match shape {
            MongoCommandShape::Object(d) => r matches Ok(v) && v@ == seq![d],
            MongoCommandShape::Array(items) => if all_objects(items@) {
                r matches Ok(v) && v@ == items@.map_values(|o: Option<D>| o->0)
            } else {
                r matches Err(e) && e@ == "MongoDB command arrays must contain JSON objects only."@
            },
            MongoCommandShape::Other => r matches Err(e) && e@
                == "MongoDB query must be a JSON object or object array."@,
        },
{
    match shape {
        MongoCommandShape::Object(d) => {
            let mut v: Vec<D> = Vec::new();
            v.push(d);
            assert(v@ =~= seq![d]);
            Ok(v)
        },
        MongoCommandShape::Array(items) => {
            let ghost all = items@;
            let count = items.len();
            let mut rest = items;
            let mut v: Vec<D> = Vec::new();
            let mut taken: usize = 0;
            while rest.len() > 0
                invariant
                    taken + rest@.len() == all.len(),
                    all.len() == count,
                    match shape {
                        MongoCommandShape::Array(x) => x@ == all,
                        _ => false,
                    },
                    rest@ == all.skip(taken as int),
                    all_objects(all.take(taken as int)),
                    v@ == all.take(taken as int).map_values(|o: Option<D>| o->0),
                decreases rest@.len(),
            {
                let item = rest.remove(0);
                proof {
                    assert(all[taken as int] == item);
                    assert(all.take(taken + 1) == all.take(taken as int).push(item));
                    assert(rest@ =~= all.skip(taken + 1));
                }
                match item {
                    Some(d) => {
                        v.push(d);
                        assert(v@ =~= all.take(taken + 1).map_values(|o: Option<D>| o->0));
                    },
                    None => {
                        assert(!all_objects(all));
                        return Err(owned("MongoDB command arrays must contain JSON objects only."));
                    },
                }
                taken += 1;
            }
            assert(all.take(taken as int) == all);
            Ok(v)
        },
        MongoCommandShape::Other => Err(owned("MongoDB query must be a JSON object or object array.")),
    }
}

// ---------------------------------------------------------------------------
// Browsing and sorting results
// ---------------------------------------------------------------------------

/// The largest `usize` at most.
pub open spec fn saturated(n: int) -> nat {
    if n > usize::MAX {
        usize::MAX as nat
    } else if n < 0 {
        0
    } else {
        n as nat
    }
}

/// The page `delta` pages from `page`: not before the first page nor past
/// the largest page number.
pub open spec fn paged(page: usize, delta: i32) -> nat {
    saturated(page + delta)
}

/// The page a row browser moves to.
pub fn rows_page_target(page: usize, delta: i32) -> (r: usize)
    ensures
        r == paged(page, delta),
{
    if delta < 0 {
        let back: usize = (0i64 - (delta as i64)) as usize;
        if back > page {
            0
        } else {
            page - back
        }
    } else {
        let ahead: usize = delta as usize;
        if ahead > usize::MAX - page {
            usize::MAX
        } else {
            page + ahead
        }
    }
}

/// The message while a page of rows loads: its first and last row
/// numbers (from 1) and the table.
pub open spec fn loading_message(page: usize, page_size: usize, table: Seq<char>) -> Seq<char> {
    "Loading rows "@ + decimal(saturated(saturated(page * page_size) + 1int)) + "-"@ + decimal(
        saturated(saturated(page + 1) * page_size),
    ) + " from "@ + table + "..."@
}

fn saturating_product(a: usize, b: usize) -> (r: usize)
    ensures
        r == saturated(a * b),
{
    match a.checked_mul(b) {
        Some(p) => p,
        None => usize::MAX,
    }
}

fn saturating_successor(a: usize) -> (r: usize)
    ensures
        r == saturated(a + 1),
{
    if a == usize::MAX {
        a
    } else {
        a + 1
    }
}

/// The row browser of one table: the page shown, its size and the order.
#[derive(Debug)]
pub struct TableRowsPage {
    pub table: String,
    pub page: usize,
    pub page_size: usize,
    pub order_by: Vec<ResultSortKey>,
}

/// A page of rows to load: its number, the statement and the message shown
/// meanwhile.
#[derive(Debug)]
pub struct PageLoad {
    pub page: usize,
    pub sql: String,
    pub status_message: String,
}

/// What moving a row browser by `delta` pages loads, or why nothing is
/// loaded: a query is running, no browser is open, or the statement cannot
/// be generated.
pub fn table_rows_page_load(
    query_running: bool,
    current: Option<&TableRowsPage>,
    form: &ConnectionForm,
    delta: i32,
) -> (r: Result<PageLoad, String>)
    ensures
        query_running ==> (r matches Err(e) && e@ == "Query is already running."@),
        !query_running && current is None ==> (r matches Err(e) && e@
            == "No table row browser is active."@),
        !query_running && current is Some ==> {
            let c = current->0;
            let p = paged(c.page, delta);
            match select_rows_sql(
                form.driver,
                form.database@,
                c.table@,
                p as usize,
                c.page_size,
                c.order_by@,
            ) {
                Ok(sql) => r matches Ok(load) && load.page == p && load.sql@ == sql
                    && load.status_message@ == loading_message(p as usize, c.page_size, c.table@),
                Err(message) => r matches Err(e) && e@ == message,
            }
        },
{
    if query_running {
        return Err(owned("Query is already running."));
    }
    let c = match current {
        Some(c) => c,
        None => {
            return Err(owned("No table row browser is active."));
        },
    };
    let page = rows_page_target(c.page, delta);
    let mut f = form.clone();
    let sql = match select_rows_statement(&mut f, c.table.as_str(), page, c.page_size, &c.order_by) {
        Ok(sql) => sql,
        Err(e) => {
            return Err(e);
        },
    };
    let mut m = owned("Loading rows ");
    m.append(usize_to_decimal(saturating_successor(saturating_product(page, c.page_size))).as_str());
    m.append("-");
    m.append(usize_to_decimal(saturating_product(saturating_successor(page), c.page_size)).as_str());
    m.append(" from ");
    m.append(c.table.as_str());
    m.append("...");
    Ok(PageLoad { page, sql, status_message: m })
}

/// Records that page `page` of `table` arrived: the row browser of that
/// table shows it; a browser of another table, or none, is left alone.
pub fn rows_page_loaded(current: &mut Option<TableRowsPage>, table: &str, page: usize)
    ensures
        match *old(current) {
            Some(c) => if c.table@ == table@ {
                *final(current) == Some(TableRowsPage { page, ..c })
            } else {
                *final(current) == Some(c)
            },
            None => *final(current) is None,
        },
{
    if let Some(c) = current {
        if crate::text::str_eq(c.table.as_str(), table) {
            c.page = page;
        }
    }
}

/// The pager under a table's rows: its label and which of its two buttons
/// work.
#[derive(Debug)]
pub struct Pagination {
    pub label: String,
    pub previous_enabled: bool,
    pub next_enabled: bool,
}

/// The pager of the row browser `page`: back works past the first page,
/// forward when the last result filled a whole page; neither while a query
/// runs.
pub fn pagination(page: &TableRowsPage, last_result: Option<&QueryResult>, query_running: bool) -> (r:
    Pagination)
    requires
        page.page < usize::MAX,
    ensures
        r.label@ == page.table@ + "  page "@ + decimal((page.page + 1) as nat) + "  rows/page "@
            + decimal(page.page_size as nat),
        r.previous_enabled == (page.page > 0 && !query_running),
        r.next_enabled == (match last_result {
            Some(res) => res.rows@.len() == page.page_size,
            None => false,
        } && !query_running),
{
    let has_next = match last_result {
        Some(res) => res.rows.len() == page.page_size,
        None => false,
    };
    let mut label = page.table.clone();
    label.append("  page ");
    label.append(usize_to_decimal(page.page + 1).as_str());
    label.append("  rows/page ");
    label.append(usize_to_decimal(page.page_size).as_str());
    Pagination {
        label,
        previous_enabled: page.page > 0 && !query_running,
        next_enabled: has_next && !query_running,
    }
}

/// The column a result is sorted by, or why it cannot be: a query is
/// running, there is no result, or it has no such column.
pub fn sort_column(query_running: bool, result: Option<&QueryResult>, column_index: usize) -> (r: Result<
    String,
    String,
>)
    ensures
        query_running ==> (r matches Err(e) && e@ == "Query is already running."@),
        !query_running && result is None ==> (r matches Err(e) && e@
            == "No result set is available for sorting."@),
        !query_running && result is Some ==> if column_index < result->0.columns@.len() {
            r matches Ok(name) && name == result->0.columns@[column_index as int]
        } else {
            r matches Err(e) && e@ == "Sort column was not found in the result set."@
        },
{
    if query_running {
        return Err(owned("Query is already running."));
    }
    match result {
        None => Err(owned("No result set is available for sorting.")),
        Some(res) => {
            if column_index < res.columns.len() {
                Ok(res.columns[column_index].clone())
            } else {
                Err(owned("Sort column was not found in the result set."))
            }
        },
    }
}

/// The statement a query run sends, or why it does not run: a query is
/// running, no saved connection is active, or the sorted query cannot be
/// generated.
pub fn query_run_sql(
    query_running: bool,
    connected: bool,
    driver: DatabaseDriver,
    sql: &str,
    order_by: &Vec<ResultSortKey>,
) -> (r: Result<String, String>)
    ensures
        query_running ==> (r matches Err(e) && e@ == "Query is already running."@),
        !query_running && !connected ==> (r matches Err(e) && e@
            == "No active connection. Connect a saved profile before querying."@),
        !query_running && connected ==> text_result(r) == ordered_query(driver, sql@, order_by@),
{
    if query_running {
        return Err(owned("Query is already running."));
    }
    if !connected {
        return Err(owned("No active connection. Connect a saved profile before querying."));
    }
    ordered_query_sql(driver, sql, order_by)
}

} // verus!
