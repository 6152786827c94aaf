//! Identifier quoting, literals and defaults of the SQL dialects.
use vstd::prelude::*;
use crate::text::{join, join_strings, replace, replace_char, split, split_char, views};

verus! {

/// `value`, or `default` when `value` is empty.
pub open spec fn or_default(value: Seq<char>, default: Seq<char>) -> Seq<char> {
    if value.len() == 0 {
        default
    } else {
        value
    }
}

/// An identifier in double quotes, inner double quotes doubled.
pub open spec fn quote_plain(v: Seq<char>) -> Seq<char> {
    "\""@ + replace(v, '"', "\"\""@) + "\""@
}

/// An identifier in backticks, inner backticks doubled.
pub open spec fn quote_mysql(v: Seq<char>) -> Seq<char> {
    "`"@ + replace(v, '`', "``"@) + "`"@
}

/// An identifier in square brackets, inner closing brackets doubled.
pub open spec fn quote_sql_server(v: Seq<char>) -> Seq<char> {
    "["@ + replace(v, ']', "]]"@) + "]"@
}

/// A string literal in single quotes, inner single quotes doubled.
pub open spec fn string_literal(v: Seq<char>) -> Seq<char> {
    "'"@ + replace(v, '\'', "''"@) + "'"@
}

/// Text escaped for a JSON string: backslashes, then double quotes, get a
/// backslash before them.
pub open spec fn json_escaped(v: Seq<char>) -> Seq<char> {
    replace(replace(v, '\\', "\\\\"@), '"', "\\\""@)
}

/// The ways an identifier can be quoted.
#[derive(Debug, Clone, Copy, PartialEq, Eq, Structural)]
pub enum Quoting {
    /// `"name"`
    Plain,
    /// `"schema"."name"`, each dotted part quoted
    Dotted,
    /// `` `name` ``
    MySql,
    /// `[name]`
    SqlServer,
    /// `[schema].[name]`, each dotted part bracketed
    SqlServerTable,
}

/// Each piece quoted as an identifier of one part.
pub open spec fn quote_parts(parts: Seq<Seq<char>>, brackets: bool) -> Seq<Seq<char>> {
    parts.map_values(
        |p: Seq<char>|
            if brackets {
                quote_sql_server(p)
            } else {
                quote_plain(p)
            },
    )
}

/// An identifier quoted the way `q` says.
pub open spec fn quoted(q: Quoting, v: Seq<char>) -> Seq<char> {
    match q {
        Quoting::Plain => quote_plain(v),
        Quoting::Dotted => join(quote_parts(split(v, '.'), false), "."@),
        Quoting::MySql => quote_mysql(v),
        Quoting::SqlServer => quote_sql_server(v),
        Quoting::SqlServerTable => join(quote_parts(split(v, '.'), true), "."@),
    }
}

/// The MySQL charset, `utf8mb4` when none is given.
pub fn mysql_charset_or_default<'a>(value: &'a str) -> (r: &'a str)
    ensures
        r@ == or_default(value@, "utf8mb4"@),
{
    if value.is_empty() {
        "utf8mb4"
    } else {
        value
    }
}

/// The MySQL collation, `utf8mb4_unicode_ci` when none is given.
pub fn mysql_collation_or_default<'a>(value: &'a str) -> (r: &'a str)
    ensures
        r@ == or_default(value@, "utf8mb4_unicode_ci"@),
{
    if value.is_empty() {
        "utf8mb4_unicode_ci"
    } else {
        value
    }
}

/// The PostgreSQL encoding, `UTF8` when none is given.
pub fn postgres_encoding_or_default<'a>(value: &'a str) -> (r: &'a str)
    ensures
        r@ == or_default(value@, "UTF8"@),
{
    if value.is_empty() {
        "UTF8"
    } else {
        value
    }
}

/// The SQL Server collation, `Latin1_General_100_CI_AS_SC_UTF8` when none is given.
pub fn sql_server_collation_or_default<'a>(value: &'a str) -> (r: &'a str)
    ensures
        r@ == or_default(value@, "Latin1_General_100_CI_AS_SC_UTF8"@),
{
    if value.is_empty() {
        "Latin1_General_100_CI_AS_SC_UTF8"
    } else {
        value
    }
}

fn wrap(open: &str, body: String, close: &str) -> (r: String)
    ensures
        r@ == open@ + body@ + close@,
{
    let mut r = String::new();
    r.append(open);
    r.append(body.as_str());
    r.append(close);
    r
}

/// An identifier in double quotes.
pub fn quote_plain_identifier(value: &str) -> (r: String)
    ensures
        r@ == quote_plain(value@),
{
    wrap("\"", replace_char(value, '"', "\"\""), "\"")
}

/// An identifier in backticks.
pub fn quote_mysql_identifier(value: &str) -> (r: String)
    ensures
        r@ == quote_mysql(value@),
{
    wrap("`", replace_char(value, '`', "``"), "`")
}

/// An identifier in square brackets.
pub fn quote_sql_server_identifier(value: &str) -> (r: String)
    ensures
        r@ == quote_sql_server(value@),
{
    wrap("[", replace_char(value, ']', "]]"), "]")
}

/// A string literal in single quotes.
pub fn sql_string_literal(value: &str) -> (r: String)
    ensures
        r@ == string_literal(value@),
{
    wrap("'", replace_char(value, '\'', "''"), "'")
}

/// Text escaped for a JSON string.
pub fn json_escape(value: &str) -> (r: String)
    ensures
        r@ == json_escaped(value@),
{
    let once = replace_char(value, '\\', "\\\\");
    replace_char(once.as_str(), '"', "\\\"")
}

fn quote_each_part(value: &str, brackets: bool) -> (r: String)
    ensures
        r@ == join(quote_parts(split(value@, '.'), brackets), "."@),
{
    let parts = split_char(value, '.');
    let mut quoted: Vec<String> = Vec::new();
    let mut i: usize = 0;
    while i < parts.len()
        invariant
            i <= parts.len(),
            views(parts@) == split(value@, '.'),
            views(quoted@) == quote_parts(views(parts@).take(i as int), brackets),
        decreases parts.len() - i,
    {
        let q = if brackets {
            quote_sql_server_identifier(parts[i].as_str())
        } else {
            quote_plain_identifier(parts[i].as_str())
        };
        let ghost old_q = views(quoted@);
        let ghost qv = q@;
        proof {
            let p = parts@[i as int]@;
            assert(qv == (if brackets {
                quote_sql_server(p)
            } else {
                quote_plain(p)
            }));
        }
        quoted.push(q);
        proof {
            assert(views(quoted@) == old_q.push(qv));
            assert(views(parts@).take(i + 1) == views(parts@).take(i as int).push(parts@[i as int]@));
            assert(views(quoted@) =~= quote_parts(views(parts@).take(i + 1), brackets));
        }
        i += 1;
    }
    proof {
        assert(views(parts@).take(parts.len() as int) == views(parts@));
    }
    join_strings(&quoted, ".")
}

/// Each dotted part of a name in double quotes, joined with dots.
pub fn quote_dotted_identifier(value: &str) -> (r: String)
    ensures
        r@ == quoted(Quoting::Dotted, value@),
{
    quote_each_part(value, false)
}

/// Each dotted part of a table name in square brackets, joined with dots.
pub fn quote_sql_server_table(value: &str) -> (r: String)
    ensures
        r@ == quoted(Quoting::SqlServerTable, value@),
{
    quote_each_part(value, true)
}

/// An identifier quoted the way `q` says.
pub fn quote_with(q: Quoting, value: &str) -> (r: String)
    ensures
        r@ == quoted(q, value@),
{
    match q {
        Quoting::Plain => quote_plain_identifier(value),
        Quoting::Dotted => quote_dotted_identifier(value),
        Quoting::MySql => quote_mysql_identifier(value),
        Quoting::SqlServer => quote_sql_server_identifier(value),
        Quoting::SqlServerTable => quote_sql_server_table(value),
    }
}

/// Replacing a character that a text does not hold leaves it unchanged.
pub proof fn replace_absent(v: Seq<char>, c: char, to: Seq<char>)
    requires
        forall|j: int| 0 <= j < v.len() ==> v[j] != c,
    ensures
        replace(v, c, to) == v,
    decreases v.len(),
{
    if v.len() > 0 {
        let w = v.drop_last();
        assert forall|j: int| 0 <= j < w.len() implies w[j] != c by {
            assert(w[j] == v[j]);
        }
        replace_absent(w, c, to);
        assert(v.last() == v[v.len() - 1]);
        assert(w + seq![v.last()] =~= v);
    }
}

/// An identifier without the quote character of a dialect is quoted by
/// wrapping alone.
pub proof fn quoting_wraps_plain_names(v: Seq<char>)
    ensures
        (forall|j: int| 0 <= j < v.len() ==> v[j] != '`') ==> quote_mysql(v) == "`"@ + v + "`"@,
        (forall|j: int| 0 <= j < v.len() ==> v[j] != '"') ==> quote_plain(v) == "\""@ + v + "\""@,
        (forall|j: int| 0 <= j < v.len() ==> v[j] != ']') ==> quote_sql_server(v) == "["@ + v
            + "]"@,
        (forall|j: int| 0 <= j < v.len() ==> v[j] != '\'') ==> string_literal(v) == "'"@ + v + "'"@,
{
    if forall|j: int| 0 <= j < v.len() ==> v[j] != '`' {
        replace_absent(v, '`', "``"@);
    }
    if forall|j: int| 0 <= j < v.len() ==> v[j] != '"' {
        replace_absent(v, '"', "\"\""@);
    }
    if forall|j: int| 0 <= j < v.len() ==> v[j] != ']' {
        replace_absent(v, ']', "]]"@);
    }
    if forall|j: int| 0 <= j < v.len() ==> v[j] != '\'' {
        replace_absent(v, '\'', "''"@);
    }
}

} // verus!
