//! Index and constraint types per driver, their SQL keywords, and the
//! comma-separated column lists of index drafts.
use vstd::prelude::*;
use crate::dialect::{json_escape, json_escaped};
use crate::driver::{strs, DatabaseDriver};
use crate::text::{
    eq_ci, eq_ignore_ascii_case, is_empty_text, is_ws, join, join_strings, lemma_split_concat,
    lemma_split_no_sep, lemma_split_pieces, lemma_trim_ends, lemma_trim_keeps_absent, owned, split,
    split_char, str_eq, to_ascii_upper_string, trim, trim_end, trim_start, trim_str, upper, views,
};

verus! {

pub open spec fn mysql_index_types() -> Seq<&'static str> {
    seq!["BTREE", "UNIQUE BTREE", "FULLTEXT", "SPATIAL", "HASH"]
}

pub open spec fn postgres_index_types() -> Seq<&'static str> {
    seq!["BTREE", "UNIQUE BTREE", "HASH", "GIN", "GIST", "SPGIST", "BRIN"]
}

pub open spec fn sqlite_index_types() -> Seq<&'static str> {
    seq!["INDEX", "UNIQUE"]
}

pub open spec fn sql_server_index_types() -> Seq<&'static str> {
    seq!["NONCLUSTERED", "UNIQUE NONCLUSTERED", "CLUSTERED", "UNIQUE CLUSTERED", "COLUMNSTORE"]
}

pub open spec fn oracle_index_types() -> Seq<&'static str> {
    seq!["NORMAL", "UNIQUE", "BITMAP"]
}

pub open spec fn mongodb_index_types() -> Seq<&'static str> {
    seq!["ASCENDING", "DESCENDING", "TEXT", "HASHED", "2DSPHERE"]
}

pub open spec fn sql_constraint_types() -> Seq<&'static str> {
    seq!["PRIMARY KEY", "UNIQUE", "CHECK", "FOREIGN KEY"]
}

/// The index types offered for a driver.
pub open spec fn index_types(driver: DatabaseDriver) -> Seq<&'static str> {
    match driver {
        DatabaseDriver::MySql | DatabaseDriver::MariaDb | DatabaseDriver::TiDb => mysql_index_types(),
        DatabaseDriver::PostgreSql | DatabaseDriver::CockroachDb => postgres_index_types(),
        DatabaseDriver::Sqlite => sqlite_index_types(),
        DatabaseDriver::SqlServer => sql_server_index_types(),
        DatabaseDriver::Oracle => oracle_index_types(),
        DatabaseDriver::MongoDb => mongodb_index_types(),
    }
}

/// The constraint types offered for a driver; SQLite and MongoDB offer none.
pub open spec fn constraint_types(driver: DatabaseDriver) -> Seq<&'static str> {
    match driver {
        DatabaseDriver::Sqlite | DatabaseDriver::MongoDb => Seq::<&'static str>::empty(),
        _ => sql_constraint_types(),
    }
}

/// The first offered option, or `fallback` when none is offered.
pub open spec fn first_or(options: Seq<&'static str>, fallback: Seq<char>) -> Seq<char> {
    if options.len() > 0 {
        options[0]@
    } else {
        fallback
    }
}

/// The first option equal, up to ASCII case, to the trimmed value; else the
/// default.
pub open spec fn normalized_option(
    options: Seq<&'static str>,
    value: Seq<char>,
    default: Seq<char>,
) -> Seq<char> {
    if exists|i: int| 0 <= i < options.len() && eq_ci(options[i]@, trim(value)) {
        options[first_ci(strs(options), trim(value))]@
    } else {
        default
    }
}

/// The first position of an entry equal to `c` up to ASCII case.
pub open spec fn first_ci(entries: Seq<Seq<char>>, c: Seq<char>) -> int {
    choose|i: int|
        0 <= i < entries.len() && eq_ci(entries[i], c) && forall|j: int|
            0 <= j < i ==> !eq_ci(entries[j], c)
}

/// Some entry equals `c` up to ASCII case.
pub open spec fn has_ci(entries: Seq<Seq<char>>, c: Seq<char>) -> bool {
    exists|i: int| 0 <= i < entries.len() && eq_ci(entries[i], c)
}

fn index_type_slice(driver: DatabaseDriver) -> (r: Vec<&'static str>)
    ensures
        r@ == index_types(driver),
{
    match driver {
        DatabaseDriver::MySql | DatabaseDriver::MariaDb | DatabaseDriver::TiDb => {
            vec!["BTREE", "UNIQUE BTREE", "FULLTEXT", "SPATIAL", "HASH"]
        },
        DatabaseDriver::PostgreSql | DatabaseDriver::CockroachDb => {
            vec!["BTREE", "UNIQUE BTREE", "HASH", "GIN", "GIST", "SPGIST", "BRIN"]
        },
        DatabaseDriver::Sqlite => vec!["INDEX", "UNIQUE"],
        DatabaseDriver::SqlServer => {
            vec![
                "NONCLUSTERED",
                "UNIQUE NONCLUSTERED",
                "CLUSTERED",
                "UNIQUE CLUSTERED",
                "COLUMNSTORE",
            ]
        },
        DatabaseDriver::Oracle => vec!["NORMAL", "UNIQUE", "BITMAP"],
        DatabaseDriver::MongoDb => vec!["ASCENDING", "DESCENDING", "TEXT", "HASHED", "2DSPHERE"],
    }
}

fn constraint_type_slice(driver: DatabaseDriver) -> (r: Vec<&'static str>)
    ensures
        r@ == constraint_types(driver),
{
    match driver {
        DatabaseDriver::Sqlite | DatabaseDriver::MongoDb => Vec::new(),
        _ => vec!["PRIMARY KEY", "UNIQUE", "CHECK", "FOREIGN KEY"],
    }
}

fn to_strings(v: &Vec<&'static str>) -> (r: Vec<String>)
    ensures
        views(r@) == strs(v@),
{
    let mut r: Vec<String> = Vec::new();
    let mut i: usize = 0;
    while i < v.len()
        invariant
            i <= v.len(),
            views(r@) == strs(v@.take(i as int)),
        decreases v.len() - i,
    {
        let item = owned(v[i]);
        let ghost before = views(r@);
        let ghost iv = item@;
        r.push(item);
        proof {
            assert(views(r@) =~= before.push(iv));
            assert(strs(v@.take(i + 1)) =~= strs(v@.take(i as int)).push(v@[i as int]@));
        }
        i += 1;
    }
    proof {
        assert(v@.take(v.len() as int) == v@);
    }
    r
}

/// The first position of an entry equal to `c` up to ASCII case.
fn find_ci(entries: &Vec<String>, c: &str) -> (r: Option<usize>)
    ensures
        match r {
            Some(i) => has_ci(views(entries@), c@) && i == first_ci(views(entries@), c@) && i
                < entries@.len() && eq_ci(views(entries@)[i as int], c@),
            None => !has_ci(views(entries@), c@),
        },
{
    let mut i: usize = 0;
    while i < entries.len()
        invariant
            i <= entries.len(),
            forall|j: int| 0 <= j < i ==> !eq_ci(views(entries@)[j], c@),
        decreases entries.len() - i,
    {
        if eq_ignore_ascii_case(entries[i].as_str(), c) {
            proof {
                let e = views(entries@);
                assert(eq_ci(e[i as int], c@));
                let w = first_ci(e, c@);
                if w > i {
                    assert(eq_ci(e[i as int], c@));
                }
            }
            return Some(i);
        }
        i += 1;
    }
    None
}

fn normalize_among(options: &Vec<&'static str>, value: &str, default: &'static str) -> (r: String)
    ensures
        r@ == normalized_option(options@, value@, default@),
{
    let wanted = trim_str(value);
    let names = to_strings(options);
    match find_ci(&names, wanted) {
        Some(i) => {
            proof {
                let k = i as int;
                assert(views(names@)[k] == options@[k]@);
                assert(eq_ci(options@[k]@, trim(value@)));
            }
            owned(options[i])
        },
        None => {
            proof {
                if exists|i: int| 0 <= i < options@.len() && eq_ci(options@[i]@, trim(value@)) {
                    let k = choose|i: int|
                        0 <= i < options@.len() && eq_ci(options@[i]@, trim(value@));
                    assert(views(names@)[k] == options@[k]@);
                }
            }
            owned(default)
        },
    }
}

/// The index types offered for a driver.
pub fn index_type_options(driver: DatabaseDriver) -> (r: Vec<String>)
    ensures
        views(r@) == strs(index_types(driver)),
{
    to_strings(&index_type_slice(driver))
}

/// The first index type offered for a driver.
pub fn default_index_type(driver: DatabaseDriver) -> (r: &'static str)
    ensures
        r@ == first_or(index_types(driver), "INDEX"@),
{
    let options = index_type_slice(driver);
    if options.len() > 0 {
        options[0]
    } else {
        "INDEX"
    }
}

/// The offered index type equal to the trimmed value up to ASCII case; the
/// driver's default when none is.
pub fn normalized_index_type(driver: DatabaseDriver, value: &str) -> (r: String)
    ensures
        r@ == normalized_option(
            index_types(driver),
            value@,
            first_or(index_types(driver), "INDEX"@),
        ),
{
    let options = index_type_slice(driver);
    normalize_among(&options, value, default_index_type(driver))
}

/// The constraint types offered for a driver.
pub fn constraint_type_options(driver: DatabaseDriver) -> (r: Vec<String>)
    ensures
        views(r@) == strs(constraint_types(driver)),
{
    to_strings(&constraint_type_slice(driver))
}

/// The first constraint type offered for a driver, `CHECK` when none is.
pub fn default_constraint_type(driver: DatabaseDriver) -> (r: &'static str)
    ensures
        r@ == first_or(constraint_types(driver), "CHECK"@),
{
    let options = constraint_type_slice(driver);
    if options.len() > 0 {
        options[0]
    } else {
        "CHECK"
    }
}

/// The offered constraint type equal to the trimmed value up to ASCII case;
/// the driver's default when none is.
pub fn normalized_constraint_type(driver: DatabaseDriver, value: &str) -> (r: String)
    ensures
        r@ == normalized_option(
            constraint_types(driver),
            value@,
            first_or(constraint_types(driver), "CHECK"@),
        ),
{
    let options = constraint_type_slice(driver);
    normalize_among(&options, value, default_constraint_type(driver))
}

/// The keyword before `INDEX` and the `USING` clause after the index name in
/// MySQL.
pub open spec fn mysql_index_keywords(index_type: Seq<char>) -> (Seq<char>, Seq<char>) {
    let t = upper(index_type);
    if t == "UNIQUE BTREE"@ {
        ("UNIQUE "@, " USING BTREE"@)
    } else if t == "FULLTEXT"@ {
        ("FULLTEXT "@, ""@)
    } else if t == "SPATIAL"@ {
        ("SPATIAL "@, ""@)
    } else if t == "HASH"@ {
        (""@, " USING HASH"@)
    } else {
        (""@, " USING BTREE"@)
    }
}

/// The keyword before `INDEX` and the access method in PostgreSQL.
pub open spec fn postgres_index_keywords(index_type: Seq<char>) -> (Seq<char>, Seq<char>) {
    let t = upper(index_type);
    if t == "UNIQUE BTREE"@ {
        ("UNIQUE "@, "btree"@)
    } else if t == "HASH"@ {
        (""@, "hash"@)
    } else if t == "GIN"@ {
        (""@, "gin"@)
    } else if t == "GIST"@ {
        (""@, "gist"@)
    } else if t == "SPGIST"@ {
        (""@, "spgist"@)
    } else if t == "BRIN"@ {
        (""@, "brin"@)
    } else {
        (""@, "btree"@)
    }
}

/// The keyword before `INDEX` in SQLite.
pub open spec fn sqlite_index_keyword(index_type: Seq<char>) -> Seq<char> {
    if eq_ci(index_type, "UNIQUE"@) {
        "UNIQUE "@
    } else {
        ""@
    }
}

/// The words before `INDEX` in SQL Server.
pub open spec fn sql_server_index_keyword(index_type: Seq<char>) -> Seq<char> {
    let t = upper(index_type);
    if t == "UNIQUE NONCLUSTERED"@ {
        "UNIQUE NONCLUSTERED"@
    } else if t == "CLUSTERED"@ {
        "CLUSTERED"@
    } else if t == "UNIQUE CLUSTERED"@ {
        "UNIQUE CLUSTERED"@
    } else if t == "COLUMNSTORE"@ {
        "COLUMNSTORE"@
    } else {
        "NONCLUSTERED"@
    }
}

/// The keyword before `INDEX` in Oracle.
pub open spec fn oracle_index_keyword(index_type: Seq<char>) -> Seq<char> {
    let t = upper(index_type);
    if t == "UNIQUE"@ {
        "UNIQUE "@
    } else if t == "BITMAP"@ {
        "BITMAP "@
    } else {
        ""@
    }
}

/// The value of each key of a MongoDB index of the given type.
pub open spec fn mongodb_key_value(index_type: Seq<char>) -> Seq<char> {
    let t = upper(index_type);
    if t == "DESCENDING"@ {
        "-1"@
    } else if t == "TEXT"@ {
        "\"text\""@
    } else if t == "HASHED"@ {
        "\"hashed\""@
    } else if t == "2DSPHERE"@ {
        "\"2dsphere\""@
    } else {
        "1"@
    }
}

pub fn mysql_index_type_sql(index_type: &str) -> (r: (&'static str, &'static str))
    ensures
        (r.0@, r.1@) == mysql_index_keywords(index_type@),
{
    let t = to_ascii_upper_string(index_type);
    let t = t.as_str();
    if str_eq(t, "UNIQUE BTREE") {
        ("UNIQUE ", " USING BTREE")
    } else if str_eq(t, "FULLTEXT") {
        ("FULLTEXT ", "")
    } else if str_eq(t, "SPATIAL") {
        ("SPATIAL ", "")
    } else if str_eq(t, "HASH") {
        ("", " USING HASH")
    } else {
        ("", " USING BTREE")
    }
}

pub fn postgres_index_type_sql(index_type: &str) -> (r: (&'static str, &'static str))
    ensures
        (r.0@, r.1@) == postgres_index_keywords(index_type@),
{
    let t = to_ascii_upper_string(index_type);
    let t = t.as_str();
    if str_eq(t, "UNIQUE BTREE") {
        ("UNIQUE ", "btree")
    } else if str_eq(t, "HASH") {
        ("", "hash")
    } else if str_eq(t, "GIN") {
        ("", "gin")
    } else if str_eq(t, "GIST") {
        ("", "gist")
    } else if str_eq(t, "SPGIST") {
        ("", "spgist")
    } else if str_eq(t, "BRIN") {
        ("", "brin")
    } else {
        ("", "btree")
    }
}

pub fn sqlite_index_type_sql(index_type: &str) -> (r: &'static str)
    ensures
        r@ == sqlite_index_keyword(index_type@),
{
    if eq_ignore_ascii_case(index_type, "UNIQUE") {
        "UNIQUE "
    } else {
        ""
    }
}

pub fn sql_server_index_type_sql(index_type: &str) -> (r: &'static str)
    ensures
        r@ == sql_server_index_keyword(index_type@),
{
    let t = to_ascii_upper_string(index_type);
    let t = t.as_str();
    if str_eq(t, "UNIQUE NONCLUSTERED") {
        "UNIQUE NONCLUSTERED"
    } else if str_eq(t, "CLUSTERED") {
        "CLUSTERED"
    } else if str_eq(t, "UNIQUE CLUSTERED") {
        "UNIQUE CLUSTERED"
    } else if str_eq(t, "COLUMNSTORE") {
        "COLUMNSTORE"
    } else {
        "NONCLUSTERED"
    }
}

pub fn oracle_index_type_sql(index_type: &str) -> (r: &'static str)
    ensures
        r@ == oracle_index_keyword(index_type@),
{
    let t = to_ascii_upper_string(index_type);
    let t = t.as_str();
    if str_eq(t, "UNIQUE") {
        "UNIQUE "
    } else if str_eq(t, "BITMAP") {
        "BITMAP "
    } else {
        ""
    }
}

/// The trimmed, non-empty pieces of a list of texts.
pub open spec fn nonblank_trimmed(parts: Seq<Seq<char>>) -> Seq<Seq<char>>
    decreases parts.len(),
{
    if parts.len() == 0 {
        Seq::<Seq<char>>::empty()
    } else {
        let rest = nonblank_trimmed(parts.drop_last());
        if trim(parts.last()).len() == 0 {
            rest
        } else {
            rest.push(trim(parts.last()))
        }
    }
}

/// The column names of a comma-separated list: trimmed, blanks dropped.
pub open spec fn column_entries(list: Seq<char>) -> Seq<Seq<char>> {
    nonblank_trimmed(split(list, ','))
}

/// The key of a MongoDB index document for one column.
pub open spec fn mongodb_key(column: Seq<char>, value: Seq<char>) -> Seq<char> {
    "\""@ + json_escaped(column) + "\":"@ + value
}

/// The keys of a MongoDB index document for the listed columns.
pub open spec fn mongodb_keys(columns: Seq<char>, index_type: Seq<char>) -> Seq<char> {
    join(
        column_entries(columns).map_values(
            |c: Seq<char>| mongodb_key(c, mongodb_key_value(index_type)),
        ),
        ","@,
    )
}

/// The trimmed, non-blank column names of a comma-separated list.
pub fn column_list(list: &str) -> (r: Vec<String>)
    ensures
        views(r@) == column_entries(list@),
{
    let parts = split_char(list, ',');
    let mut r: Vec<String> = Vec::new();
    let mut i: usize = 0;
    while i < parts.len()
        invariant
            i <= parts.len(),
            views(parts@) == split(list@, ','),
            views(r@) == nonblank_trimmed(views(parts@).take(i as int)),
        decreases parts.len() - i,
    {
        let t = trim_str(parts[i].as_str());
        let ghost before = views(r@);
        proof {
            let p = views(parts@).take(i + 1);
            assert(p.drop_last() == views(parts@).take(i as int));
            assert(p.last() == parts@[i as int]@);
        }
        if !is_empty_text(t) {
            r.push(owned(t));
            proof {
                assert(views(r@) =~= before.push(t@));
            }
        }
        i += 1;
    }
    proof {
        assert(views(parts@).take(parts.len() as int) == views(parts@));
    }
    r
}

fn mongodb_key_value_text(index_type: &str) -> (r: &'static str)
    ensures
        r@ == mongodb_key_value(index_type@),
{
    let t = to_ascii_upper_string(index_type);
    let t = t.as_str();
    if str_eq(t, "DESCENDING") {
        "-1"
    } else if str_eq(t, "TEXT") {
        "\"text\""
    } else if str_eq(t, "HASHED") {
        "\"hashed\""
    } else if str_eq(t, "2DSPHERE") {
        "\"2dsphere\""
    } else {
        "1"
    }
}

/// The keys of a MongoDB index on the listed columns: each column, escaped,
/// mapped to the direction or kind of the index type.
pub fn mongodb_index_keys(columns: &str, index_type: &str) -> (r: String)
    ensures
        r@ == mongodb_keys(columns@, index_type@),
{
    let value = mongodb_key_value_text(index_type);
    let entries = column_list(columns);
    let mut keys: Vec<String> = Vec::new();
    let mut i: usize = 0;
    while i < entries.len()
        invariant
            i <= entries.len(),
            value@ == mongodb_key_value(index_type@),
            views(entries@) == column_entries(columns@),
            views(keys@) == views(entries@).take(i as int).map_values(
                |c: Seq<char>| mongodb_key(c, mongodb_key_value(index_type@)),
            ),
        decreases entries.len() - i,
    {
        let mut k = owned("\"");
        k.append(json_escape(entries[i].as_str()).as_str());
        k.append("\":");
        k.append(value);
        let ghost before = views(keys@);
        let ghost kv = k@;
        keys.push(k);
        proof {
            assert(views(keys@) =~= before.push(kv));
            assert(views(entries@).take(i + 1) == views(entries@).take(i as int).push(
                entries@[i as int]@,
            ));
            assert(views(keys@) =~= views(entries@).take(i + 1).map_values(
                |c: Seq<char>| mongodb_key(c, mongodb_key_value(index_type@)),
            ));
        }
        i += 1;
    }
    proof {
        assert(views(entries@).take(entries.len() as int) == views(entries@));
    }
    join_strings(&keys, ",")
}

/// The column list after adding a column: unchanged (but normalized) when a
/// column equal up to ASCII case is listed, else with the column at the end.
pub open spec fn appended_columns(list: Seq<char>, column: Seq<char>) -> Seq<char> {
    let c = trim(column);
    let entries = column_entries(list);
    if c.len() == 0 {
        list
    } else if has_ci(entries, c) {
        join(entries, ", "@)
    } else {
        join(entries.push(c), ", "@)
    }
}

/// The column list after toggling a column: the first entry equal to it up to
/// ASCII case is removed, or the column is added at the end.
pub open spec fn toggled_columns(list: Seq<char>, column: Seq<char>) -> Seq<char> {
    let c = trim(column);
    let entries = column_entries(list);
    if c.len() == 0 {
        list
    } else if has_ci(entries, c) {
        join(entries.remove(first_ci(entries, c)), ", "@)
    } else {
        join(entries.push(c), ", "@)
    }
}

/// Adds a column to a comma-separated list unless it is listed already.
pub fn append_index_column(target: &mut String, column_name: &str)
    ensures
        final(target)@ == appended_columns(old(target)@, column_name@),
{
    let column_name = trim_str(column_name);
    if is_empty_text(column_name) {
        return;
    }
    let mut columns = column_list(target.as_str());
    match find_ci(&columns, column_name) {
        Some(_) => {
            *target = join_strings(&columns, ", ");
        },
        None => {
            let ghost before = views(columns@);
            let item = owned(column_name);
            let ghost iv = item@;
            columns.push(item);
            proof {
                assert(views(columns@) =~= before.push(iv));
            }
            *target = join_strings(&columns, ", ");
        },
    }
}

proof fn lemma_views_remove(v: Seq<String>, i: int)
    requires
        0 <= i < v.len(),
    ensures
        views(v.remove(i)) == views(v).remove(i),
{
    assert(views(v.remove(i)) =~= views(v).remove(i));
}

/// Removes a listed column, or adds it when it is not listed.
pub fn toggle_index_column(target: &mut String, column_name: &str)
    ensures
        final(target)@ == toggled_columns(old(target)@, column_name@),
{
    let column_name = trim_str(column_name);
    if is_empty_text(column_name) {
        return;
    }
    let mut columns = column_list(target.as_str());
    match find_ci(&columns, column_name) {
        Some(i) => {
            let ghost before = columns@;
            let _ = columns.remove(i);
            proof {
                lemma_views_remove(before, i as int);
            }
            *target = join_strings(&columns, ", ");
        },
        None => {
            let ghost before = views(columns@);
            let item = owned(column_name);
            let ghost iv = item@;
            columns.push(item);
            proof {
                assert(views(columns@) =~= before.push(iv));
            }
            *target = join_strings(&columns, ", ");
        },
    }
}

// ---------------------------------------------------------------------------
// Laws of column lists
// ---------------------------------------------------------------------------

/// A column entry as lists keep it: not empty, without a comma, and
/// without white space at either end.
pub open spec fn clean_entry(e: Seq<char>) -> bool {
    &&& e.len() > 0
    &&& !is_ws(e[0])
    &&& !is_ws(e.last())
    &&& forall|j: int| 0 <= j < e.len() ==> e[j] != ','
}

proof fn lemma_clean_trim(e: Seq<char>)
    requires
        clean_entry(e),
    ensures
        trim(e) == e,
        trim(seq![' '] + e) == e,
{
    assert(trim_start(e) == e);
    assert(trim_end(e) == e);
    let s = seq![' '] + e;
    assert(is_ws(' '));
    assert(s.drop_first() =~= e);
    assert(trim_start(s) == trim_start(e));
}

proof fn lemma_nonblank_clean(parts: Seq<Seq<char>>)
    requires
        forall|i: int, j: int| 0 <= i < parts.len() && 0 <= j < parts[i].len() ==> parts[i][j] != ',',
    ensures
        forall|i: int|
            0 <= i < nonblank_trimmed(parts).len() ==> clean_entry(#[trigger] nonblank_trimmed(parts)[i]),
    decreases parts.len(),
{
    if parts.len() > 0 {
        let p = parts.drop_last();
        assert forall|i: int, j: int| 0 <= i < p.len() && 0 <= j < p[i].len() implies p[i][j] != ',' by {
            assert(p[i] == parts[i]);
        }
        lemma_nonblank_clean(p);
        let x = parts.last();
        assert forall|j: int| 0 <= j < x.len() implies x[j] != ',' by {
            assert(x == parts[parts.len() - 1]);
        }
        lemma_trim_keeps_absent(x, ',');
        lemma_trim_ends(x);
        let rest = nonblank_trimmed(p);
        if trim(x).len() > 0 {
            assert(clean_entry(trim(x)));
            assert(nonblank_trimmed(parts) == rest.push(trim(x)));
            assert forall|i: int|
                0 <= i < nonblank_trimmed(parts).len() implies clean_entry(
                #[trigger] nonblank_trimmed(parts)[i],
            ) by {
                if i < rest.len() {
                    assert(nonblank_trimmed(parts)[i] == rest[i]);
                }
            }
        } else {
            assert(nonblank_trimmed(parts) == rest);
        }
    }
}

/// Every entry of a column list is clean.
pub proof fn lemma_entries_clean(list: Seq<char>)
    ensures
        forall|i: int|
            0 <= i < column_entries(list).len() ==> clean_entry(#[trigger] column_entries(list)[i]),
{
    lemma_split_pieces(list, ',');
    lemma_nonblank_clean(split(list, ','));
}

/// Clean entries joined with `, ` read back as the same entries.
#[verifier::rlimit(30)]
pub proof fn lemma_entries_round_trip(es: Seq<Seq<char>>)
    requires
        forall|i: int| 0 <= i < es.len() ==> clean_entry(#[trigger] es[i]),
    ensures
        column_entries(join(es, ", "@)) == es,
    decreases es.len(),
{
    reveal_strlit(", ");
    if es.len() == 0 {
        assert(join(es, ", "@) == Seq::<char>::empty());
        assert(split(Seq::<char>::empty(), ',') == seq![Seq::<char>::empty()]);
        assert(seq![Seq::<char>::empty()].drop_last() =~= Seq::<Seq<char>>::empty());
        assert(trim(Seq::<char>::empty()) =~= Seq::<char>::empty());
        let one = seq![Seq::<char>::empty()];
        assert(one.last() == Seq::<char>::empty());
        assert(nonblank_trimmed(Seq::<Seq<char>>::empty()) == Seq::<Seq<char>>::empty());
        assert(nonblank_trimmed(one) == nonblank_trimmed(one.drop_last()));
        assert(column_entries(join(es, ", "@)) =~= es);
    } else if es.len() == 1 {
        let e = es[0];
        lemma_clean_trim(e);
        lemma_split_no_sep(e, ',');
        assert(seq![e].drop_last() =~= Seq::<Seq<char>>::empty());
        assert(seq![e].last() == e);
        assert(nonblank_trimmed(Seq::<Seq<char>>::empty()) == Seq::<Seq<char>>::empty());
        assert(nonblank_trimmed(seq![e]) == nonblank_trimmed(Seq::<Seq<char>>::empty()).push(e));
        assert(join(es, ", "@) == e);
        assert(column_entries(e) == nonblank_trimmed(seq![e]));
        assert(es =~= seq![e]);
        assert(column_entries(join(es, ", "@)) =~= es);
    } else {
        let p = es.drop_last();
        let e = es.last();
        assert forall|i: int| 0 <= i < p.len() implies clean_entry(#[trigger] p[i]) by {
            assert(p[i] == es[i]);
        }
        lemma_entries_round_trip(p);
        assert(clean_entry(es[es.len() - 1]));
        lemma_clean_trim(e);
        let head = join(p, ", "@);
        let tail = seq![' '] + e;
        assert(join(es, ", "@) == head + ", "@ + e);
        assert(head + ", "@ + e =~= head + seq![','] + tail);
        lemma_split_concat(head, tail, ',');
        assert forall|j: int| 0 <= j < tail.len() implies tail[j] != ',' by {
            if j > 0 {
                assert(tail[j] == e[j - 1]);
            }
        }
        lemma_split_no_sep(tail, ',');
        let parts = split(head, ',') + seq![tail];
        assert(parts.drop_last() =~= split(head, ','));
        assert(parts.last() == tail);
        assert(column_entries(join(es, ", "@)) == nonblank_trimmed(parts));
        assert(nonblank_trimmed(parts) == p.push(e));
        assert(p.push(e) =~= es);
    }
}

/// Adding a column twice gives the list of adding it once: a column list
/// never holds the same column (up to ASCII case) twice because of it.
/// Column names are taken without commas, which would split them.
pub proof fn append_index_column_idempotent(list: Seq<char>, column: Seq<char>)
    requires
        forall|j: int| 0 <= j < trim(column).len() ==> trim(column)[j] != ',',
    ensures
        appended_columns(appended_columns(list, column), column) == appended_columns(list, column),
{
    let c = trim(column);
    let es = column_entries(list);
    if c.len() > 0 {
        lemma_entries_clean(list);
        lemma_trim_ends(column);
        assert(clean_entry(c));
        if has_ci(es, c) {
            lemma_entries_round_trip(es);
        } else {
            let es2 = es.push(c);
            assert forall|i: int| 0 <= i < es2.len() implies clean_entry(#[trigger] es2[i]) by {
                if i < es.len() {
                    assert(es2[i] == es[i]);
                }
            }
            lemma_entries_round_trip(es2);
            assert(eq_ci(es2[es.len() as int], c));
            assert(has_ci(es2, c));
        }
    }
}

/// Toggling a column that is not listed, then toggling it again, gives the
/// list back (in its normal form, entries joined by `, `). Column names are
/// taken without commas, which would split them.
pub proof fn toggle_index_column_twice(list: Seq<char>, column: Seq<char>)
    requires
        trim(column).len() > 0,
        forall|j: int| 0 <= j < trim(column).len() ==> trim(column)[j] != ',',
        !has_ci(column_entries(list), trim(column)),
    ensures
        toggled_columns(list, column) == join(column_entries(list).push(trim(column)), ", "@),
        toggled_columns(toggled_columns(list, column), column) == join(column_entries(list), ", "@),
{
    let c = trim(column);
    let es = column_entries(list);
    lemma_entries_clean(list);
    lemma_trim_ends(column);
    assert(clean_entry(c));
    let es2 = es.push(c);
    assert forall|i: int| 0 <= i < es2.len() implies clean_entry(#[trigger] es2[i]) by {
        if i < es.len() {
            assert(es2[i] == es[i]);
        }
    }
    lemma_entries_round_trip(es2);
    let n = es.len() as int;
    assert(eq_ci(es2[n], c));
    assert(has_ci(es2, c));
    assert forall|j: int| 0 <= j < n implies !eq_ci(es2[j], c) by {
        assert(es2[j] == es[j]);
    }
    let k = first_ci(es2, c);
    if k < n {
        assert(es2[k] == es[k]);
    }
    assert(k == n);
    assert(es2.remove(n) =~= es);
}

/// A text with no white space at either end is its own trim.
proof fn lemma_trim_edges(s: Seq<char>)
    requires
        s.len() > 0,
        !is_ws(s[0]),
        !is_ws(s.last()),
    ensures
        trim(s) == s,
{
}

/// The first entry equal to `c` up to ASCII case comes no later than any
/// such entry `w`, and is one.
proof fn lemma_first_ci_min(entries: Seq<Seq<char>>, c: Seq<char>, w: int)
    requires
        0 <= w < entries.len(),
        eq_ci(entries[w], c),
    ensures
        0 <= first_ci(entries, c) <= w,
        eq_ci(entries[first_ci(entries, c)], c),
        forall|j: int| 0 <= j < first_ci(entries, c) ==> !eq_ci(entries[j], c),
    decreases w,
{
    if exists|j: int| 0 <= j < w && eq_ci(entries[j], c) {
        let j = choose|j: int| 0 <= j < w && eq_ci(entries[j], c);
        lemma_first_ci_min(entries, c, j);
    } else {
        let f = first_ci(entries, c);
        assert(0 <= w < entries.len() && eq_ci(entries[w], c) && forall|j: int|
            0 <= j < w ==> !eq_ci(entries[j], c));
        if f > w {
            assert(!eq_ci(entries[w], c));
        }
    }
}

/// Normalizing an option twice gives what normalizing once gives, when the
/// options carry no white space at their ends and the first is the default.
pub proof fn normalizing_an_option_twice(options: Seq<&'static str>, value: Seq<char>)
    requires
        options.len() > 0,
        forall|i: int| 0 <= i < options.len() ==> trim(#[trigger] options[i]@) == options[i]@,
    ensures
        normalized_option(options, normalized_option(options, value, options[0]@), options[0]@)
            == normalized_option(options, value, options[0]@),
        exists|i: int| 0 <= i < options.len() && normalized_option(options, value, options[0]@)
            == #[trigger] options[i]@,
{
    let e = strs(options);
    let t = trim(value);
    let d = options[0]@;
    let r = normalized_option(options, value, d);
    let k = if exists|i: int| 0 <= i < options.len() && eq_ci(options[i]@, t) {
        let w = choose|i: int| 0 <= i < options.len() && eq_ci(options[i]@, t);
        assert(e[w] == options[w]@);
        lemma_first_ci_min(e, t, w);
        first_ci(e, t)
    } else {
        0
    };
    assert(r == options[k]@);
    assert(trim(r) == r);
    assert(e[k] == r);
    assert(eq_ci(options[k]@, trim(r)));
    lemma_first_ci_min(e, r, k);
    let k2 = first_ci(e, r);
    assert(e[k2] == options[k2]@);
    if k2 < k {
        // an earlier option equal to `r` would also equal the value, or, for
        // the default, come before the first option
        assert(eq_ci(e[k2], r));
        if exists|i: int| 0 <= i < options.len() && eq_ci(options[i]@, t) {
            assert(eq_ci(e[k2], t));
            let w = choose|i: int| 0 <= i < options.len() && eq_ci(options[i]@, t);
            assert(e[w] == options[w]@);
            lemma_first_ci_min(e, t, w);
        }
    }
    assert(k2 == k);
}

/// Every index type is its own trim, and every driver offers one.
proof fn lemma_index_types_trimmed(driver: DatabaseDriver)
    ensures
        index_types(driver).len() > 0,
        forall|i: int|
            0 <= i < index_types(driver).len() ==> trim(#[trigger] index_types(driver)[i]@)
                == index_types(driver)[i]@,
{
    reveal_strlit("BTREE");
    reveal_strlit("UNIQUE BTREE");
    reveal_strlit("FULLTEXT");
    reveal_strlit("SPATIAL");
    reveal_strlit("HASH");
    reveal_strlit("GIN");
    reveal_strlit("GIST");
    reveal_strlit("SPGIST");
    reveal_strlit("BRIN");
    reveal_strlit("INDEX");
    reveal_strlit("UNIQUE");
    reveal_strlit("NONCLUSTERED");
    reveal_strlit("UNIQUE NONCLUSTERED");
    reveal_strlit("CLUSTERED");
    reveal_strlit("UNIQUE CLUSTERED");
    reveal_strlit("COLUMNSTORE");
    reveal_strlit("NORMAL");
    reveal_strlit("BITMAP");
    reveal_strlit("ASCENDING");
    reveal_strlit("DESCENDING");
    reveal_strlit("TEXT");
    reveal_strlit("HASHED");
    reveal_strlit("2DSPHERE");
    let o = index_types(driver);
    assert forall|i: int| 0 <= i < o.len() implies trim(#[trigger] o[i]@) == o[i]@ by {
        lemma_trim_edges(o[i]@);
    }
}

/// A normalized index type is one the driver offers, and normalizing it
/// again keeps it; every driver offers a type, and its default is the first
/// (`normalized_option_is_first_match` says which one is chosen).
pub proof fn normalized_index_type_is_stable(driver: DatabaseDriver, value: Seq<char>)
    ensures
        ({
            let options = index_types(driver);
            let default = first_or(options, "INDEX"@);
            let r = normalized_option(options, value, default);
            &&& normalized_option(options, r, default) == r
            &&& exists|i: int| 0 <= i < options.len() && r == #[trigger] options[i]@
            &&& options.len() > 0 && default == options[0]@
        }),
{
    lemma_index_types_trimmed(driver);
    normalizing_an_option_twice(index_types(driver), value);
    normalized_option_is_first_match(index_types(driver), value, first_or(index_types(driver), "INDEX"@));
}

/// What normalizing gives: the first option equal to the trimmed value up
/// to ASCII case, or the default when no option is.
pub proof fn normalized_option_is_first_match(
    options: Seq<&'static str>,
    value: Seq<char>,
    default: Seq<char>,
)
    ensures
        (exists|i: int| 0 <= i < options.len() && eq_ci(#[trigger] options[i]@, trim(value))) ==> exists|k: int|
            0 <= k < options.len() && normalized_option(options, value, default) == #[trigger] options[k]@
                && eq_ci(options[k]@, trim(value)) && forall|j: int|
                0 <= j < k ==> !eq_ci(#[trigger] options[j]@, trim(value)),
        !(exists|i: int| 0 <= i < options.len() && eq_ci(#[trigger] options[i]@, trim(value)))
            ==> normalized_option(options, value, default) == default,
{
    let e = strs(options);
    let t = trim(value);
    if exists|i: int| 0 <= i < options.len() && eq_ci(options[i]@, t) {
        let w = choose|i: int| 0 <= i < options.len() && eq_ci(options[i]@, t);
        assert(e[w] == options[w]@);
        lemma_first_ci_min(e, t, w);
        let k = first_ci(e, t);
        assert(e[k] == options[k]@);
        assert forall|j: int| 0 <= j < k implies !eq_ci(#[trigger] options[j]@, t) by {
            assert(e[j] == options[j]@);
        }
    }
}

/// Normalizing a constraint type: SQLite and MongoDB offer none, so every
/// value becomes `CHECK`; elsewhere the result is the first offered type
/// equal to the trimmed value up to ASCII case, else `PRIMARY KEY`, and
/// normalizing it again keeps it.
pub proof fn normalized_constraint_type_is_offered(driver: DatabaseDriver, value: Seq<char>)
    ensures
        ({
            let options = constraint_types(driver);
            let default = first_or(options, "CHECK"@);
            let r = normalized_option(options, value, default);
            &&& (driver == DatabaseDriver::Sqlite || driver == DatabaseDriver::MongoDb) ==> r
                == "CHECK"@
            &&& !(driver == DatabaseDriver::Sqlite || driver == DatabaseDriver::MongoDb) ==> {
                &&& options == sql_constraint_types()
                &&& default == "PRIMARY KEY"@
                &&& exists|i: int| 0 <= i < options.len() && r == #[trigger] options[i]@
                &&& normalized_option(options, r, default) == r
            }
        }),
{
    let options = constraint_types(driver);
    normalized_option_is_first_match(options, value, first_or(options, "CHECK"@));
    if !(driver == DatabaseDriver::Sqlite || driver == DatabaseDriver::MongoDb) {
        reveal_strlit("PRIMARY KEY");
        reveal_strlit("UNIQUE");
        reveal_strlit("CHECK");
        reveal_strlit("FOREIGN KEY");
        assert forall|i: int| 0 <= i < options.len() implies trim(#[trigger] options[i]@)
            == options[i]@ by {
            lemma_trim_edges(options[i]@);
        }
        normalizing_an_option_twice(options, value);
    }
}

} // verus!
