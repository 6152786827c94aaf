//! Statements and commands that create, rename, re-encode and drop databases
//! and tables.
use vstd::prelude::*;
use crate::connection::ConnectionForm;
use crate::drafts::{CreateDatabaseDraft, PendingSchemaDeletion, SchemaDeletionKind};
use crate::dialect::{
    json_escape, json_escaped, mysql_charset_or_default, mysql_collation_or_default, or_default,
    postgres_encoding_or_default, quote_dotted_identifier, quote_mysql, quote_mysql_identifier,
    quote_plain, quote_plain_identifier, quote_sql_server, quote_sql_server_identifier,
    quote_sql_server_table, quoted, sql_server_collation_or_default, sql_string_literal,
    string_literal, Quoting,
};
use crate::driver::{is_mysql_family, DatabaseDriver};
use crate::text::{
    contains, ends_with, is_blank, is_empty_text, join, join_strings, lemma_contains_grow,
    lemma_join_contains,
    lemma_ends_with_concat, lemma_join_contains_after_sep, lemma_join_starts_with_first,
    lemma_starts_with_concat, owned, starts_with, trim, trim_str, views,
};

verus! {

/// The text of a `Result` of strings.
pub open spec fn text_result(r: Result<String, String>) -> Result<Seq<char>, Seq<char>> {
    match r {
        Ok(s) => Ok(s@),
        Err(e) => Err(e@),
    }
}

// ---------------------------------------------------------------------------
// Templates
// ---------------------------------------------------------------------------

/// The statement that creates a database with a charset or encoding.
pub open spec fn create_database_sql(
    driver: DatabaseDriver,
    database: Seq<char>,
    charset: Seq<char>,
    collation: Seq<char>,
) -> Seq<char> {
    match driver {
        DatabaseDriver::MySql | DatabaseDriver::MariaDb | DatabaseDriver::TiDb => "CREATE DATABASE "@
            + quote_mysql(database) + "\n    CHARACTER SET "@ + or_default(charset, "utf8mb4"@)
            + "\n    COLLATE "@ + or_default(collation, "utf8mb4_unicode_ci"@) + ";"@,
        DatabaseDriver::PostgreSql | DatabaseDriver::CockroachDb => "CREATE DATABASE "@
            + quote_plain(database) + "\n    ENCODING '"@ + or_default(charset, "UTF8"@) + "';"@,
        DatabaseDriver::SqlServer => "CREATE DATABASE "@ + quote_sql_server(database)
            + "\nCOLLATE "@ + or_default(collation, "Latin1_General_100_CI_AS_SC_UTF8"@) + ";"@,
        DatabaseDriver::Oracle => oracle_create_note(),
        DatabaseDriver::MongoDb => "use "@ + database + ";\ndb.createCollection(\"new_collection\");"@,
        DatabaseDriver::Sqlite => sqlite_create_note(),
    }
}

pub open spec fn oracle_create_note() -> Seq<char> {
    "-- Oracle database character set is normally selected at database creation time with DBCA or CREATE DATABASE.\n-- Review NLS_CHARACTERSET and NLS_NCHAR_CHARACTERSET before changing production systems."@
}

pub open spec fn sqlite_create_note() -> Seq<char> {
    "-- SQLite stores text as UTF-8 or UTF-16 per database encoding before schema creation.\nPRAGMA encoding = 'UTF-8';\nCREATE TABLE new_table (\n    id INTEGER PRIMARY KEY AUTOINCREMENT\n);"@
}

pub open spec fn postgres_reencode_note() -> Seq<char> {
    "-- PostgreSQL/CockroachDB database encoding cannot be changed in-place safely.\n-- Recommended flow: create a new database with the target encoding, migrate data, then switch clients.\nCREATE DATABASE "@
}

pub open spec fn oracle_charset_note() -> Seq<char> {
    "-- Oracle character set changes require DMU/CSSCAN planning and are not a simple ALTER DATABASE operation.\n-- Inspect current values first:\nSELECT parameter, value FROM nls_database_parameters WHERE parameter IN ('NLS_CHARACTERSET', 'NLS_NCHAR_CHARACTERSET');"@
}

pub open spec fn mongodb_charset_note() -> Seq<char> {
    "-- MongoDB stores strings as UTF-8 BSON. There is no per-database charset/collation change.\n-- Configure collation per collection or index, for example:\ndb.runCommand({ collMod: \"collection_name\", collation: { locale: \"en\", strength: 2 } });"@
}

pub open spec fn sqlite_charset_note() -> Seq<char> {
    "-- SQLite PRAGMA encoding only applies before database schema creation.\nPRAGMA encoding;"@
}

/// The statement (or advice) that changes a database's charset.
pub open spec fn edit_charset_sql(
    driver: DatabaseDriver,
    database: Seq<char>,
    charset: Seq<char>,
    collation: Seq<char>,
) -> Seq<char> {
    match driver {
        DatabaseDriver::MySql | DatabaseDriver::MariaDb | DatabaseDriver::TiDb => "ALTER DATABASE "@
            + quote_mysql(database) + "\n    CHARACTER SET "@ + or_default(charset, "utf8mb4"@)
            + "\n    COLLATE "@ + or_default(collation, "utf8mb4_unicode_ci"@) + ";"@,
        DatabaseDriver::PostgreSql | DatabaseDriver::CockroachDb => postgres_reencode_note()
            + quote_plain(database) + "_new\n    ENCODING '"@ + or_default(charset, "UTF8"@)
            + "';"@,
        DatabaseDriver::SqlServer => "ALTER DATABASE "@ + quote_sql_server(database)
            + "\nCOLLATE "@ + or_default(collation, "Latin1_General_100_CI_AS_SC_UTF8"@) + ";"@,
        DatabaseDriver::Oracle => oracle_charset_note(),
        DatabaseDriver::MongoDb => mongodb_charset_note(),
        DatabaseDriver::Sqlite => sqlite_charset_note(),
    }
}

/// The statement (or advice) that drops a database.
pub open spec fn drop_database_sql(driver: DatabaseDriver, database: Seq<char>) -> Seq<char> {
    match driver {
        DatabaseDriver::MySql | DatabaseDriver::MariaDb | DatabaseDriver::TiDb => "DROP DATABASE "@
            + quote_mysql(database) + ";"@,
        DatabaseDriver::PostgreSql | DatabaseDriver::CockroachDb => "DROP DATABASE "@
            + quote_plain(database) + ";"@,
        DatabaseDriver::SqlServer => "DROP DATABASE "@ + quote_sql_server(database) + ";"@,
        DatabaseDriver::Oracle => "-- Oracle DROP DATABASE requires mounted exclusive mode and is intentionally not generated here."@,
        DatabaseDriver::MongoDb => "use "@ + database + ";\ndb.dropDatabase();"@,
        DatabaseDriver::Sqlite => "-- SQLite databases are files. Delete the file only after closing all connections."@,
    }
}

pub fn create_database_template(
    driver: DatabaseDriver,
    database: &str,
    charset: &str,
    collation: &str,
) -> (r: String)
    ensures
        r@ == create_database_sql(driver, database@, charset@, collation@),
{
    match driver {
        DatabaseDriver::MySql | DatabaseDriver::MariaDb | DatabaseDriver::TiDb => {
            let mut r = owned("CREATE DATABASE ");
            r.append(quote_mysql_identifier(database).as_str());
            r.append("\n    CHARACTER SET ");
            r.append(mysql_charset_or_default(charset));
            r.append("\n    COLLATE ");
            r.append(mysql_collation_or_default(collation));
            r.append(";");
            r
        },
        DatabaseDriver::PostgreSql | DatabaseDriver::CockroachDb => {
            let mut r = owned("CREATE DATABASE ");
            r.append(quote_plain_identifier(database).as_str());
            r.append("\n    ENCODING '");
            r.append(postgres_encoding_or_default(charset));
            r.append("';");
            r
        },
        DatabaseDriver::SqlServer => {
            let mut r = owned("CREATE DATABASE ");
            r.append(quote_sql_server_identifier(database).as_str());
            r.append("\nCOLLATE ");
            r.append(sql_server_collation_or_default(collation));
            r.append(";");
            r
        },
        DatabaseDriver::Oracle => owned(
            "-- Oracle database character set is normally selected at database creation time with DBCA or CREATE DATABASE.\n-- Review NLS_CHARACTERSET and NLS_NCHAR_CHARACTERSET before changing production systems.",
        ),
        DatabaseDriver::MongoDb => {
            let mut r = owned("use ");
            r.append(database);
            r.append(";\ndb.createCollection(\"new_collection\");");
            r
        },
        DatabaseDriver::Sqlite => owned(
            "-- SQLite stores text as UTF-8 or UTF-16 per database encoding before schema creation.\nPRAGMA encoding = 'UTF-8';\nCREATE TABLE new_table (\n    id INTEGER PRIMARY KEY AUTOINCREMENT\n);",
        ),
    }
}

pub fn edit_database_charset_template(
    driver: DatabaseDriver,
    database: &str,
    charset: &str,
    collation: &str,
) -> (r: String)
    ensures
        r@ == edit_charset_sql(driver, database@, charset@, collation@),
{
    match driver {
        DatabaseDriver::MySql | DatabaseDriver::MariaDb | DatabaseDriver::TiDb => {
            let mut r = owned("ALTER DATABASE ");
            r.append(quote_mysql_identifier(database).as_str());
            r.append("\n    CHARACTER SET ");
            r.append(mysql_charset_or_default(charset));
            r.append("\n    COLLATE ");
            r.append(mysql_collation_or_default(collation));
            r.append(";");
            r
        },
        DatabaseDriver::PostgreSql | DatabaseDriver::CockroachDb => {
            let mut r = owned(
                "-- PostgreSQL/CockroachDB database encoding cannot be changed in-place safely.\n-- Recommended flow: create a new database with the target encoding, migrate data, then switch clients.\nCREATE DATABASE ",
            );
            r.append(quote_plain_identifier(database).as_str());
            r.append("_new\n    ENCODING '");
            r.append(postgres_encoding_or_default(charset));
            r.append("';");
            r
        },
        DatabaseDriver::SqlServer => {
            let mut r = owned("ALTER DATABASE ");
            r.append(quote_sql_server_identifier(database).as_str());
            r.append("\nCOLLATE ");
            r.append(sql_server_collation_or_default(collation));
            r.append(";");
            r
        },
        DatabaseDriver::Oracle => owned(
            "-- Oracle character set changes require DMU/CSSCAN planning and are not a simple ALTER DATABASE operation.\n-- Inspect current values first:\nSELECT parameter, value FROM nls_database_parameters WHERE parameter IN ('NLS_CHARACTERSET', 'NLS_NCHAR_CHARACTERSET');",
        ),
        DatabaseDriver::MongoDb => owned(
            "-- MongoDB stores strings as UTF-8 BSON. There is no per-database charset/collation change.\n-- Configure collation per collection or index, for example:\ndb.runCommand({ collMod: \"collection_name\", collation: { locale: \"en\", strength: 2 } });",
        ),
        DatabaseDriver::Sqlite => owned(
            "-- SQLite PRAGMA encoding only applies before database schema creation.\nPRAGMA encoding;",
        ),
    }
}

pub fn drop_database_template(driver: DatabaseDriver, database: &str) -> (r: String)
    ensures
        r@ == drop_database_sql(driver, database@),
{
    match driver {
        DatabaseDriver::MySql | DatabaseDriver::MariaDb | DatabaseDriver::TiDb => {
            let mut r = owned("DROP DATABASE ");
            r.append(quote_mysql_identifier(database).as_str());
            r.append(";");
            r
        },
        DatabaseDriver::PostgreSql | DatabaseDriver::CockroachDb => {
            let mut r = owned("DROP DATABASE ");
            r.append(quote_plain_identifier(database).as_str());
            r.append(";");
            r
        },
        DatabaseDriver::SqlServer => {
            let mut r = owned("DROP DATABASE ");
            r.append(quote_sql_server_identifier(database).as_str());
            r.append(";");
            r
        },
        DatabaseDriver::Oracle => owned(
            "-- Oracle DROP DATABASE requires mounted exclusive mode and is intentionally not generated here.",
        ),
        DatabaseDriver::MongoDb => {
            let mut r = owned("use ");
            r.append(database);
            r.append(";\ndb.dropDatabase();");
            r
        },
        DatabaseDriver::Sqlite => owned(
            "-- SQLite databases are files. Delete the file only after closing all connections.",
        ),
    }
}

/// The name a database action shows: the database, or a description of the
/// file for an unnamed SQLite database.
pub fn database_action_target(driver: DatabaseDriver, database: &str) -> (r: String)
    ensures
        r@ == (if database@.len() == 0 && driver == DatabaseDriver::Sqlite {
            "SQLite database file"@
        } else {
            database@
        }),
{
    if is_empty_text(database) && driver == DatabaseDriver::Sqlite {
        owned("SQLite database file")
    } else {
        owned(database)
    }
}

// ---------------------------------------------------------------------------
// Creating and re-encoding databases
// ---------------------------------------------------------------------------

/// A non-empty option clause, or nothing for a blank value.
pub open spec fn option_clause(keyword: Seq<char>, value: Seq<char>) -> Seq<Seq<char>> {
    if trim(value).len() == 0 {
        Seq::<Seq<char>>::empty()
    } else {
        seq![keyword + quote_plain(trim(value))]
    }
}

/// The PostgreSQL statement for a database draft: encoding, then owner,
/// template and tablespace when given.
pub open spec fn postgres_create_database_sql(d: CreateDatabaseDraft) -> Seq<char> {
    let options = seq!["ENCODING '"@ + or_default(d.charset@, "UTF8"@) + "'"@] + option_clause(
        "OWNER "@,
        d.owner@,
    ) + option_clause("TEMPLATE "@, d.template@) + option_clause("TABLESPACE "@, d.tablespace@);
    "CREATE DATABASE "@ + quote_plain(trim(d.name@)) + "\n    WITH "@ + join(options, "\n    "@)
        + ";"@
}

fn push_option(options: &mut Vec<String>, keyword: &str, value: &str)
    ensures
        views(final(options)@) == views(old(options)@) + option_clause(keyword@, value@),
{
    let ghost before = views(options@);
    let v = trim_str(value);
    if !is_empty_text(v) {
        let mut clause = owned(keyword);
        clause.append(quote_plain_identifier(v).as_str());
        let ghost cv = clause@;
        options.push(clause);
        proof {
            assert(views(options@) =~= before + seq![cv]);
        }
    } else {
        proof {
            assert(views(options@) =~= before + Seq::<Seq<char>>::empty());
        }
    }
}

pub fn create_postgres_database_statement(draft: &CreateDatabaseDraft) -> (r: String)
    ensures
        r@ == postgres_create_database_sql(*draft),
{
    let mut encoding = owned("ENCODING '");
    encoding.append(postgres_encoding_or_default(draft.charset.as_str()));
    encoding.append("'");
    let mut options: Vec<String> = Vec::new();
    let ghost ev = encoding@;
    options.push(encoding);
    proof {
        assert(views(options@) =~= seq![ev]);
    }
    push_option(&mut options, "OWNER ", draft.owner.as_str());
    push_option(&mut options, "TEMPLATE ", draft.template.as_str());
    push_option(&mut options, "TABLESPACE ", draft.tablespace.as_str());
    let mut r = owned("CREATE DATABASE ");
    r.append(quote_plain_identifier(trim_str(draft.name.as_str())).as_str());
    r.append("\n    WITH ");
    r.append(join_strings(&options, "\n    ").as_str());
    r.append(";");
    r
}

/// A statement to create a database and the connection to run it on.
#[derive(Debug)]
pub struct CreateDatabaseCommand {
    pub form: ConnectionForm,
    pub sql: String,
}

/// The text of a database-creation command for a draft, or the reason there
/// is none.
pub open spec fn create_database_command_sql(
    driver: DatabaseDriver,
    draft: CreateDatabaseDraft,
) -> Result<Seq<char>, Seq<char>> {
    match driver {
        DatabaseDriver::MySql | DatabaseDriver::MariaDb | DatabaseDriver::TiDb => Ok(
            create_database_sql(driver, trim(draft.name@), draft.charset@, draft.collation@),
        ),
        DatabaseDriver::PostgreSql | DatabaseDriver::CockroachDb => Ok(
            postgres_create_database_sql(draft),
        ),
        DatabaseDriver::MongoDb => Ok(
            "{ \"create\": \""@ + json_escaped(trim(draft.initial_collection@)) + "\" }"@,
        ),
        DatabaseDriver::Sqlite => Err(
            "SQLite databases are files. Create or select a SQLite file connection instead."@,
        ),
        DatabaseDriver::SqlServer | DatabaseDriver::Oracle => Err(
            driver.display_name_spec()
                + " database creation needs a native driver dependency before direct execution is available."@,
        ),
    }
}

/// The statement that creates the drafted database, with the connection to
/// run it on (for MongoDB, switched to the new database).
pub fn create_database_command(form: ConnectionForm, draft: &CreateDatabaseDraft) -> (r: Result<
    CreateDatabaseCommand,
    String,
>)
    ensures
        match r {
            Ok(cmd) => {
                &&& create_database_command_sql(form.driver, *draft) == Ok::<Seq<char>, Seq<char>>(
                    cmd.sql@,
                )
                &&& cmd.form.driver == form.driver
                &&& cmd.form.name == form.name
                &&& cmd.form.location == form.location
                &&& cmd.form.port == form.port
                &&& cmd.form.username == form.username
                &&& cmd.form.password == form.password
                &&& cmd.form.database@ == (if form.driver == DatabaseDriver::MongoDb {
                    trim(draft.name@)
                } else {
                    form.database@
                })
            },
            Err(e) => create_database_command_sql(form.driver, *draft) == Err::<
                Seq<char>,
                Seq<char>,
            >(e@),
        },
{
    let mut form = form;
    let database = trim_str(draft.name.as_str());
    let sql = match form.driver {
        DatabaseDriver::MySql | DatabaseDriver::MariaDb | DatabaseDriver::TiDb => {
            create_database_template(
                form.driver,
                database,
                draft.charset.as_str(),
                draft.collation.as_str(),
            )
        },
        DatabaseDriver::PostgreSql | DatabaseDriver::CockroachDb => {
            create_postgres_database_statement(draft)
        },
        DatabaseDriver::MongoDb => {
            form.database = owned(database);
            let mut r = owned("{ \"create\": \"");
            r.append(json_escape(trim_str(draft.initial_collection.as_str())).as_str());
            r.append("\" }");
            r
        },
        DatabaseDriver::Sqlite => {
            return Err(
                owned(
                    "SQLite databases are files. Create or select a SQLite file connection instead.",
                ),
            );
        },
        DatabaseDriver::SqlServer | DatabaseDriver::Oracle => {
            let mut e = owned(form.driver.display_name());
            e.append(
                " database creation needs a native driver dependency before direct execution is available.",
            );
            return Err(e);
        },
    };
    Ok(CreateDatabaseCommand { form, sql })
}

/// The statement that re-encodes a database, or the reason it cannot be.
pub open spec fn alter_charset_result(
    driver: DatabaseDriver,
    database: Seq<char>,
    charset: Seq<char>,
    collation: Seq<char>,
) -> Result<Seq<char>, Seq<char>> {
    let db = trim(database);
    if db.len() == 0 {
        Err("Database name is required."@)
    } else {
        match driver {
            DatabaseDriver::MySql | DatabaseDriver::MariaDb | DatabaseDriver::TiDb => Ok(
                edit_charset_sql(driver, db, charset, collation),
            ),
            DatabaseDriver::PostgreSql | DatabaseDriver::CockroachDb => Err(
                "PostgreSQL-compatible database encoding cannot be changed in-place. Create a new database with the target encoding and migrate data."@,
            ),
            DatabaseDriver::MongoDb => Err(
                "MongoDB stores strings as UTF-8 BSON and has no database-level charset setting."@,
            ),
            DatabaseDriver::Sqlite => Err(
                "SQLite PRAGMA encoding only applies before database schema creation."@,
            ),
            DatabaseDriver::SqlServer | DatabaseDriver::Oracle => Err(
                driver.display_name_spec()
                    + " charset changes need a native driver before direct execution is available."@,
            ),
        }
    }
}

pub fn alter_database_charset_statement(
    driver: DatabaseDriver,
    database: &str,
    charset: &str,
    collation: &str,
) -> (r: Result<String, String>)
    ensures
        text_result(r) == alter_charset_result(driver, database@, charset@, collation@),
{
    let database = trim_str(database);
    if is_empty_text(database) {
        return Err(owned("Database name is required."));
    }
    match driver {
        DatabaseDriver::MySql | DatabaseDriver::MariaDb | DatabaseDriver::TiDb => {
            Ok(edit_database_charset_template(driver, database, charset, collation))
        },
        DatabaseDriver::PostgreSql | DatabaseDriver::CockroachDb => Err(
            owned(
                "PostgreSQL-compatible database encoding cannot be changed in-place. Create a new database with the target encoding and migrate data.",
            ),
        ),
        DatabaseDriver::MongoDb => Err(
            owned(
                "MongoDB stores strings as UTF-8 BSON and has no database-level charset setting.",
            ),
        ),
        DatabaseDriver::Sqlite => Err(
            owned("SQLite PRAGMA encoding only applies before database schema creation."),
        ),
        DatabaseDriver::SqlServer | DatabaseDriver::Oracle => {
            let mut e = owned(driver.display_name());
            e.append(" charset changes need a native driver before direct execution is available.");
            Err(e)
        },
    }
}

// ---------------------------------------------------------------------------
// Deletions
// ---------------------------------------------------------------------------

/// The statement that drops a database, or the reason it is not generated.
pub open spec fn database_deletion_result(driver: DatabaseDriver, database: Seq<char>) -> Result<
    Seq<char>,
    Seq<char>,
> {
    let db = trim(database);
    if db.len() == 0 && driver != DatabaseDriver::Sqlite {
        Err("Select a database before deleting it."@)
    } else {
        match driver {
            DatabaseDriver::Sqlite => Err(
                "SQLite databases are files. Delete the file only after closing the connection."@,
            ),
            DatabaseDriver::MongoDb => Ok("{ \"dropDatabase\": 1 }"@),
            _ => Ok(drop_database_sql(driver, db)),
        }
    }
}

/// A confirmation request for dropping a database; for MongoDB the
/// connection is switched to that database.
pub fn pending_database_deletion(form: ConnectionForm, database: &str) -> (r: Result<
    PendingSchemaDeletion,
    String,
>)
    ensures
        match r {
            Ok(p) => {
                &&& database_deletion_result(form.driver, database@) == Ok::<
                    Seq<char>,
                    Seq<char>,
                >(p.sql@)
                &&& p.kind == SchemaDeletionKind::Database
                &&& p.name@ == trim(database@)
                &&& p.form.driver == form.driver
                &&& p.form.database@ == (if form.driver == DatabaseDriver::MongoDb {
                    trim(database@)
                } else {
                    form.database@
                })
            },
            Err(e) => database_deletion_result(form.driver, database@) == Err::<
                Seq<char>,
                Seq<char>,
            >(e@),
        },
{
    let mut form = form;
    let database = trim_str(database);
    if is_empty_text(database) && form.driver != DatabaseDriver::Sqlite {
        return Err(owned("Select a database before deleting it."));
    }
    let sql = match form.driver {
        DatabaseDriver::Sqlite => {
            return Err(
                owned(
                    "SQLite databases are files. Delete the file only after closing the connection.",
                ),
            );
        },
        DatabaseDriver::MongoDb => {
            form.database = owned(database);
            owned("{ \"dropDatabase\": 1 }")
        },
        _ => drop_database_template(form.driver, database),
    };
    Ok(PendingSchemaDeletion {
        kind: SchemaDeletionKind::Database,
        name: owned(database),
        form,
        sql,
    })
}

/// The statement that drops a table or collection, or the reason it is not
/// generated.
pub open spec fn table_deletion_result(
    driver: DatabaseDriver,
    database: Seq<char>,
    table: Seq<char>,
) -> Result<Seq<char>, Seq<char>> {
    let t = trim(table);
    if t.len() == 0 {
        Err("Table name is required."@)
    } else {
        match driver {
            DatabaseDriver::MongoDb => if trim(database).len() == 0 {
                Err("Select a MongoDB database before deleting a collection."@)
            } else {
                Ok("{ \"drop\": \""@ + json_escaped(t) + "\" }"@)
            },
            DatabaseDriver::Sqlite | DatabaseDriver::Oracle => Ok(
                "DROP TABLE "@ + quote_plain(t) + ";"@,
            ),
            DatabaseDriver::MySql | DatabaseDriver::MariaDb | DatabaseDriver::TiDb => if trim(
                database,
            ).len() == 0 {
                Err("Select a database before deleting a table."@)
            } else {
                Ok("DROP TABLE "@ + quote_mysql(trim(database)) + "."@ + quote_mysql(t) + ";"@)
            },
            DatabaseDriver::PostgreSql | DatabaseDriver::CockroachDb => Ok(
                "DROP TABLE "@ + quoted(Quoting::Dotted, t) + ";"@,
            ),
            DatabaseDriver::SqlServer => Ok(
                "DROP TABLE "@ + quoted(Quoting::SqlServerTable, t) + ";"@,
            ),
        }
    }
}

/// A confirmation request for dropping the table `table` on the form's
/// connection.
pub fn pending_table_deletion(form: ConnectionForm, table: &str) -> (r: Result<
    PendingSchemaDeletion,
    String,
>)
    ensures
        match r {
            Ok(p) => {
                &&& table_deletion_result(form.driver, form.database@, table@) == Ok::<
                    Seq<char>,
                    Seq<char>,
                >(p.sql@)
                &&& p.kind == SchemaDeletionKind::Table
                &&& p.name@ == trim(table@)
                &&& p.form == form
            },
            Err(e) => table_deletion_result(form.driver, form.database@, table@) == Err::<
                Seq<char>,
                Seq<char>,
            >(e@),
        },
{
    let table = trim_str(table);
    if is_empty_text(table) {
        return Err(owned("Table name is required."));
    }
    let sql = match form.driver {
        DatabaseDriver::MongoDb => {
            if is_blank(form.database.as_str()) {
                return Err(owned("Select a MongoDB database before deleting a collection."));
            }
            let mut r = owned("{ \"drop\": \"");
            r.append(json_escape(table).as_str());
            r.append("\" }");
            r
        },
        DatabaseDriver::Sqlite | DatabaseDriver::Oracle => {
            let mut r = owned("DROP TABLE ");
            r.append(quote_plain_identifier(table).as_str());
            r.append(";");
            r
        },
        DatabaseDriver::MySql | DatabaseDriver::MariaDb | DatabaseDriver::TiDb => {
            let database = trim_str(form.database.as_str());
            if is_empty_text(database) {
                return Err(owned("Select a database before deleting a table."));
            }
            let mut r = owned("DROP TABLE ");
            r.append(quote_mysql_identifier(database).as_str());
            r.append(".");
            r.append(quote_mysql_identifier(table).as_str());
            r.append(";");
            r
        },
        DatabaseDriver::PostgreSql | DatabaseDriver::CockroachDb => {
            let mut r = owned("DROP TABLE ");
            r.append(quote_dotted_identifier(table).as_str());
            r.append(";");
            r
        },
        DatabaseDriver::SqlServer => {
            let mut r = owned("DROP TABLE ");
            r.append(quote_sql_server_table(table).as_str());
            r.append(";");
            r
        },
    };
    Ok(PendingSchemaDeletion { kind: SchemaDeletionKind::Table, name: owned(table), form, sql })
}

// ---------------------------------------------------------------------------
// Renaming
// ---------------------------------------------------------------------------

/// The statement that fills `@aktsql_rename_database_sql` with one `RENAME
/// TABLE` moving every table of the old database into the new one.
pub open spec fn mysql_rename_plan(database: Seq<char>, new_name: Seq<char>) -> Seq<char> {
    "SET @aktsql_rename_database_sql = (\n    SELECT CASE\n        WHEN COUNT(*) = 0 THEN 'DO 0'\n        ELSE CONCAT(\n            'RENAME TABLE ',\n            GROUP_CONCAT(\n                CONCAT(\n                    '`', REPLACE(TABLE_SCHEMA, '`', '``'), '`.`',\n                    REPLACE(TABLE_NAME, '`', '``'), '`',\n                    "@ + string_literal(" TO "@ + quote_mysql(new_name) + "."@) + ",\n                    '`', REPLACE(TABLE_NAME, '`', '``'), '`'\n                )\n                SEPARATOR ', '\n            )\n        )\n    END\n    FROM information_schema.tables\n    WHERE table_schema = "@
        + string_literal(database) + "\n)"@
}

/// The MySQL script that renames a database: create the new database, move
/// every table with a prepared `RENAME TABLE`, drop the old database.
pub open spec fn mysql_rename_database_sql(
    database: Seq<char>,
    new_name: Seq<char>,
    charset: Seq<char>,
    collation: Seq<char>,
) -> Seq<char> {
    "CREATE DATABASE "@ + quote_mysql(new_name) + "\n    CHARACTER SET "@ + or_default(
        charset,
        "utf8mb4"@,
    ) + "\n    COLLATE "@ + or_default(collation, "utf8mb4_unicode_ci"@) + ";\n"@
        + "SET SESSION group_concat_max_len = 1048576"@ + ";\n"@ + mysql_rename_plan(
        database,
        new_name,
    ) + ";\n"@ + "PREPARE aktsql_rename_database_stmt FROM @aktsql_rename_database_sql"@
        + ";\n"@ + "EXECUTE aktsql_rename_database_stmt"@ + ";\n"@
        + "DEALLOCATE PREPARE aktsql_rename_database_stmt"@ + ";\n"@ + "DROP DATABASE "@
        + quote_mysql(database) + ";"@
}

/// The MongoDB command that moves one collection.
pub open spec fn mongodb_rename_collection(
    database: Seq<char>,
    collection: Seq<char>,
    new_database: Seq<char>,
    new_collection: Seq<char>,
) -> Seq<char> {
    "{\"renameCollection\":\""@ + json_escaped(database) + "."@ + json_escaped(collection)
        + "\",\"to\":\""@ + json_escaped(new_database) + "."@ + json_escaped(new_collection)
        + "\",\"dropTarget\":false}"@
}

/// The rename commands for every collection of a MongoDB database.
pub open spec fn mongodb_rename_commands(
    database: Seq<char>,
    new_name: Seq<char>,
    collections: Seq<Seq<char>>,
) -> Seq<Seq<char>> {
    collections.map_values(|c: Seq<char>| mongodb_rename_collection(database, c, new_name, c))
}

/// The statement that renames a database, or the reason there is none.
pub open spec fn rename_database_result(
    driver: DatabaseDriver,
    database: Seq<char>,
    new_name: Seq<char>,
    collections: Seq<Seq<char>>,
    charset: Seq<char>,
    collation: Seq<char>,
) -> Result<Seq<char>, Seq<char>> {
    let db = trim(database);
    let nn = trim(new_name);
    if db.len() == 0 || nn.len() == 0 {
        Err("Database name is required."@)
    } else {
        match driver {
            DatabaseDriver::PostgreSql | DatabaseDriver::CockroachDb => Ok(
                "ALTER DATABASE "@ + quote_plain(db) + " RENAME TO "@ + quote_plain(nn) + ";"@,
            ),
            DatabaseDriver::MySql | DatabaseDriver::MariaDb | DatabaseDriver::TiDb => Ok(
                mysql_rename_database_sql(db, nn, charset, collation),
            ),
            DatabaseDriver::MongoDb => if collections.len() == 0 {
                Err(
                    "MongoDB database rename needs loaded collection names. Refresh and expand the database first."@,
                )
            } else {
                Ok("["@ + join(mongodb_rename_commands(db, nn, collections), ","@) + "]"@)
            },
            DatabaseDriver::Sqlite => Err(
                "SQLite database rename is a file rename. Close the connection and rename the database file."@,
            ),
            DatabaseDriver::SqlServer => Ok(
                "ALTER DATABASE "@ + quote_sql_server(db) + " MODIFY NAME = "@ + quote_sql_server(
                    nn,
                ) + ";"@,
            ),
            DatabaseDriver::Oracle => Ok(
                "ALTER PLUGGABLE DATABASE "@ + quote_plain(db) + " RENAME GLOBAL_NAME TO "@
                    + quote_plain(nn) + ";"@,
            ),
        }
    }
}

/// The database the connection uses once a rename is prepared: the
/// maintenance database of the driver, or the one it had.
pub open spec fn database_after_rename(
    driver: DatabaseDriver,
    current: Seq<char>,
    database: Seq<char>,
    new_name: Seq<char>,
) -> Seq<char> {
    if trim(database).len() == 0 || trim(new_name).len() == 0 {
        current
    } else {
        match driver {
            DatabaseDriver::PostgreSql | DatabaseDriver::CockroachDb => "postgres"@,
            DatabaseDriver::MySql | DatabaseDriver::MariaDb | DatabaseDriver::TiDb => Seq::<
                char,
            >::empty(),
            DatabaseDriver::MongoDb => "admin"@,
            DatabaseDriver::SqlServer => "master"@,
            _ => current,
        }
    }
}

fn mysql_rename_database(database: &str, new_name: &str, charset: &str, collation: &str) -> (r:
    String)
    ensures
        r@ == mysql_rename_database_sql(database@, new_name@, charset@, collation@),
{
    let new_target = quote_mysql_identifier(new_name);
    let mut prefix = owned(" TO ");
    prefix.append(new_target.as_str());
    prefix.append(".");
    let mut plan = owned("SET @aktsql_rename_database_sql = (\n    SELECT CASE\n        WHEN COUNT(*) = 0 THEN 'DO 0'\n        ELSE CONCAT(\n            'RENAME TABLE ',\n            GROUP_CONCAT(\n                CONCAT(\n                    '`', REPLACE(TABLE_SCHEMA, '`', '``'), '`.`',\n                    REPLACE(TABLE_NAME, '`', '``'), '`',\n                    ");
    plan.append(sql_string_literal(prefix.as_str()).as_str());
    plan.append(",\n                    '`', REPLACE(TABLE_NAME, '`', '``'), '`'\n                )\n                SEPARATOR ', '\n            )\n        )\n    END\n    FROM information_schema.tables\n    WHERE table_schema = ");
    plan.append(sql_string_literal(database).as_str());
    plan.append("\n)");
    let mut r = owned("CREATE DATABASE ");
    r.append(new_target.as_str());
    r.append("\n    CHARACTER SET ");
    r.append(mysql_charset_or_default(charset));
    r.append("\n    COLLATE ");
    r.append(mysql_collation_or_default(collation));
    r.append(";\n");
    r.append("SET SESSION group_concat_max_len = 1048576");
    r.append(";\n");
    r.append(plan.as_str());
    r.append(";\n");
    r.append("PREPARE aktsql_rename_database_stmt FROM @aktsql_rename_database_sql");
    r.append(";\n");
    r.append("EXECUTE aktsql_rename_database_stmt");
    r.append(";\n");
    r.append("DEALLOCATE PREPARE aktsql_rename_database_stmt");
    r.append(";\n");
    r.append("DROP DATABASE ");
    r.append(quote_mysql_identifier(database).as_str());
    r.append(";");
    r
}

fn mongodb_rename_command(
    database: &str,
    collection: &str,
    new_database: &str,
    new_collection: &str,
) -> (r: String)
    ensures
        r@ == mongodb_rename_collection(database@, collection@, new_database@, new_collection@),
{
    let mut r = owned("{\"renameCollection\":\"");
    r.append(json_escape(database).as_str());
    r.append(".");
    r.append(json_escape(collection).as_str());
    r.append("\",\"to\":\"");
    r.append(json_escape(new_database).as_str());
    r.append(".");
    r.append(json_escape(new_collection).as_str());
    r.append("\",\"dropTarget\":false}");
    r
}

fn mongodb_rename_database(database: &str, new_name: &str, collections: &Vec<String>) -> (r: String)
    ensures
        r@ == "["@ + join(mongodb_rename_commands(database@, new_name@, views(collections@)), ","@)
            + "]"@,
{
    let mut commands: Vec<String> = Vec::new();
    let mut i: usize = 0;
    while i < collections.len()
        invariant
            i <= collections.len(),
            views(commands@) == mongodb_rename_commands(
                database@,
                new_name@,
                views(collections@).take(i as int),
            ),
        decreases collections.len() - i,
    {
        let c = collections[i].as_str();
        let cmd = mongodb_rename_command(database, c, new_name, c);
        let ghost before = views(commands@);
        let ghost cv = cmd@;
        commands.push(cmd);
        proof {
            assert(views(commands@) =~= before.push(cv));
            assert(views(collections@).take(i + 1) == views(collections@).take(i as int).push(
                collections@[i as int]@,
            ));
            assert(views(commands@) =~= mongodb_rename_commands(
                database@,
                new_name@,
                views(collections@).take(i + 1),
            ));
        }
        i += 1;
    }
    proof {
        assert(views(collections@).take(collections.len() as int) == views(collections@));
    }
    let mut r = owned("[");
    r.append(join_strings(&commands, ",").as_str());
    r.append("]");
    r
}

/// The statement that renames a database; the connection is switched to the
/// database the statement must run in.
pub fn rename_database_statement(
    form: &mut ConnectionForm,
    database: &str,
    new_name: &str,
    child_objects: &Vec<String>,
    charset: &str,
    collation: &str,
) -> (r: Result<String, String>)
    ensures
        text_result(r) == rename_database_result(
            old(form).driver,
            database@,
            new_name@,
            views(child_objects@),
            charset@,
            collation@,
        ),
        final(form).database@ == database_after_rename(
            old(form).driver,
            old(form).database@,
            database@,
            new_name@,
        ),
        *final(form) == (ConnectionForm { database: final(form).database, ..*old(form) }),
{
    let database = trim_str(database);
    let new_name = trim_str(new_name);
    if is_empty_text(database) || is_empty_text(new_name) {
        return Err(owned("Database name is required."));
    }
    match form.driver {
        DatabaseDriver::PostgreSql | DatabaseDriver::CockroachDb => {
            form.database = owned("postgres");
            let mut r = owned("ALTER DATABASE ");
            r.append(quote_plain_identifier(database).as_str());
            r.append(" RENAME TO ");
            r.append(quote_plain_identifier(new_name).as_str());
            r.append(";");
            Ok(r)
        },
        DatabaseDriver::MySql | DatabaseDriver::MariaDb | DatabaseDriver::TiDb => {
            form.database = String::new();
            Ok(mysql_rename_database(database, new_name, charset, collation))
        },
        DatabaseDriver::MongoDb => {
            form.database = owned("admin");
            if child_objects.len() == 0 {
                return Err(
                    owned(
                        "MongoDB database rename needs loaded collection names. Refresh and expand the database first.",
                    ),
                );
            }
            Ok(mongodb_rename_database(database, new_name, child_objects))
        },
        DatabaseDriver::Sqlite => Err(
            owned(
                "SQLite database rename is a file rename. Close the connection and rename the database file.",
            ),
        ),
        DatabaseDriver::SqlServer => {
            form.database = owned("master");
            let mut r = owned("ALTER DATABASE ");
            r.append(quote_sql_server_identifier(database).as_str());
            r.append(" MODIFY NAME = ");
            r.append(quote_sql_server_identifier(new_name).as_str());
            r.append(";");
            Ok(r)
        },
        DatabaseDriver::Oracle => {
            let mut r = owned("ALTER PLUGGABLE DATABASE ");
            r.append(quote_plain_identifier(database).as_str());
            r.append(" RENAME GLOBAL_NAME TO ");
            r.append(quote_plain_identifier(new_name).as_str());
            r.append(";");
            Ok(r)
        },
    }
}

/// The statement that renames a table, or the reason there is none.
pub open spec fn rename_table_result(
    driver: DatabaseDriver,
    database: Seq<char>,
    table: Seq<char>,
    new_name: Seq<char>,
) -> Result<Seq<char>, Seq<char>> {
    let t = trim(table);
    let nn = trim(new_name);
    let db = trim(database);
    if t.len() == 0 || nn.len() == 0 {
        Err("Table name is required."@)
    } else {
        match driver {
            DatabaseDriver::MySql | DatabaseDriver::MariaDb | DatabaseDriver::TiDb => if db.len()
                == 0 {
                Err("Select a database before renaming a table."@)
            } else {
                Ok(
                    "RENAME TABLE "@ + quote_mysql(db) + "."@ + quote_mysql(t) + " TO "@
                        + quote_mysql(db) + "."@ + quote_mysql(nn) + ";"@,
                )
            },
            DatabaseDriver::PostgreSql | DatabaseDriver::CockroachDb => Ok(
                "ALTER TABLE "@ + quoted(Quoting::Dotted, t) + " RENAME TO "@ + quote_plain(nn)
                    + ";"@,
            ),
            DatabaseDriver::Sqlite | DatabaseDriver::Oracle => Ok(
                "ALTER TABLE "@ + quote_plain(t) + " RENAME TO "@ + quote_plain(nn) + ";"@,
            ),
            DatabaseDriver::MongoDb => if db.len() == 0 {
                Err("Select a MongoDB database before renaming a collection."@)
            } else {
                Ok(mongodb_rename_collection(db, t, db, nn))
            },
            DatabaseDriver::SqlServer => Ok(
                "EXEC sp_rename "@ + string_literal(t) + ", "@ + string_literal(nn)
                    + ", 'OBJECT';"@,
            ),
        }
    }
}

/// The statement that renames a table; a MongoDB connection is switched to
/// `admin`, where collections are renamed.
pub fn rename_table_statement(form: &mut ConnectionForm, table: &str, new_name: &str) -> (r: Result<
    String,
    String,
>)
    ensures
        text_result(r) == rename_table_result(
            old(form).driver,
            old(form).database@,
            table@,
            new_name@,
        ),
        final(form).database@ == (if old(form).driver == DatabaseDriver::MongoDb && r is Ok {
            "admin"@
        } else {
            old(form).database@
        }),
        *final(form) == (ConnectionForm { database: final(form).database, ..*old(form) }),
{
    let table = trim_str(table);
    let new_name = trim_str(new_name);
    if is_empty_text(table) || is_empty_text(new_name) {
        return Err(owned("Table name is required."));
    }
    match form.driver {
        DatabaseDriver::MySql | DatabaseDriver::MariaDb | DatabaseDriver::TiDb => {
            let database = trim_str(form.database.as_str());
            if is_empty_text(database) {
                return Err(owned("Select a database before renaming a table."));
            }
            let mut r = owned("RENAME TABLE ");
            r.append(quote_mysql_identifier(database).as_str());
            r.append(".");
            r.append(quote_mysql_identifier(table).as_str());
            r.append(" TO ");
            r.append(quote_mysql_identifier(database).as_str());
            r.append(".");
            r.append(quote_mysql_identifier(new_name).as_str());
            r.append(";");
            Ok(r)
        },
        DatabaseDriver::PostgreSql | DatabaseDriver::CockroachDb => {
            let mut r = owned("ALTER TABLE ");
            r.append(quote_dotted_identifier(table).as_str());
            r.append(" RENAME TO ");
            r.append(quote_plain_identifier(new_name).as_str());
            r.append(";");
            Ok(r)
        },
        DatabaseDriver::Sqlite | DatabaseDriver::Oracle => {
            let mut r = owned("ALTER TABLE ");
            r.append(quote_plain_identifier(table).as_str());
            r.append(" RENAME TO ");
            r.append(quote_plain_identifier(new_name).as_str());
            r.append(";");
            Ok(r)
        },
        DatabaseDriver::MongoDb => {
            let database = owned(trim_str(form.database.as_str()));
            if is_empty_text(database.as_str()) {
                return Err(owned("Select a MongoDB database before renaming a collection."));
            }
            form.database = owned("admin");
            Ok(mongodb_rename_command(database.as_str(), table, database.as_str(), new_name))
        },
        DatabaseDriver::SqlServer => {
            let mut r = owned("EXEC sp_rename ");
            r.append(sql_string_literal(table).as_str());
            r.append(", ");
            r.append(sql_string_literal(new_name).as_str());
            r.append(", 'OBJECT';");
            Ok(r)
        },
    }
}

/// Renaming table `t` to `n` (both trimmed) names the existing table first and
/// the new name second. PostgreSQL and CockroachDB: the statement begins
/// `ALTER TABLE `, `t` quoted as a dotted name and ` RENAME TO `, and ends with
/// `n` quoted; SQLite and Oracle likewise with plain quoting; the MySQL family
/// begins `RENAME TABLE db.t TO ` and ends with `db.n`; SQL Server passes `t`
/// and then `n` to `sp_rename`; MongoDB moves `db.t` to `db.n`. A statement is
/// given exactly when both names are there and, for the MySQL family and
/// MongoDB, a database is selected.
#[verifier::spinoff_prover]
pub proof fn renamed_table_is_old_then_new(
    driver: DatabaseDriver,
    database: Seq<char>,
    table: Seq<char>,
    new_name: Seq<char>,
)
    ensures
        rename_table_result(driver, database, table, new_name) is Ok <==> {
            &&& trim(table).len() > 0
            &&& trim(new_name).len() > 0
            &&& ((is_mysql_family(driver) || driver == DatabaseDriver::MongoDb) ==> trim(
                database,
            ).len() > 0)
        },
        rename_table_result(driver, database, table, new_name) matches Ok(s) ==> match driver {
            DatabaseDriver::PostgreSql | DatabaseDriver::CockroachDb => starts_with(
                s,
                "ALTER TABLE "@ + quoted(Quoting::Dotted, trim(table)) + " RENAME TO "@,
            ) && ends_with(s, " RENAME TO "@ + quote_plain(trim(new_name)) + ";"@),
            DatabaseDriver::Sqlite | DatabaseDriver::Oracle => starts_with(
                s,
                "ALTER TABLE "@ + quote_plain(trim(table)) + " RENAME TO "@,
            ) && ends_with(s, " RENAME TO "@ + quote_plain(trim(new_name)) + ";"@),
            DatabaseDriver::MySql | DatabaseDriver::MariaDb | DatabaseDriver::TiDb => starts_with(
                s,
                "RENAME TABLE "@ + quote_mysql(trim(database)) + "."@ + quote_mysql(trim(table))
                    + " TO "@,
            ) && ends_with(
                s,
                " TO "@ + quote_mysql(trim(database)) + "."@ + quote_mysql(trim(new_name)) + ";"@,
            ),
            DatabaseDriver::SqlServer => starts_with(
                s,
                "EXEC sp_rename "@ + string_literal(trim(table)) + ", "@,
            ) && ends_with(s, ", "@ + string_literal(trim(new_name)) + ", 'OBJECT';"@),
            DatabaseDriver::MongoDb => starts_with(
                s,
                "{\"renameCollection\":\""@ + json_escaped(trim(database)) + "."@ + json_escaped(
                    trim(table),
                ) + "\",\"to\":\""@,
            ) && ends_with(
                s,
                "\",\"to\":\""@ + json_escaped(trim(database)) + "."@ + json_escaped(
                    trim(new_name),
                ) + "\",\"dropTarget\":false}"@,
            ),
        },
{
    let t = trim(table);
    let nn = trim(new_name);
    let db = trim(database);
    match rename_table_result(driver, database, table, new_name) {
        Ok(s) => {
            match driver {
                DatabaseDriver::PostgreSql | DatabaseDriver::CockroachDb => {
                    let h = "ALTER TABLE "@ + quoted(Quoting::Dotted, t);
                    let p = h + " RENAME TO "@;
                    let q = quote_plain(nn) + ";"@;
                    assert(s =~= p + q);
                    lemma_starts_with_concat(p, q);
                    let e = " RENAME TO "@ + quote_plain(nn) + ";"@;
                    assert(s =~= h + e);
                    lemma_ends_with_concat(h, e);
                },
                DatabaseDriver::Sqlite | DatabaseDriver::Oracle => {
                    let h = "ALTER TABLE "@ + quote_plain(t);
                    let p = h + " RENAME TO "@;
                    let q = quote_plain(nn) + ";"@;
                    assert(s =~= p + q);
                    lemma_starts_with_concat(p, q);
                    let e = " RENAME TO "@ + quote_plain(nn) + ";"@;
                    assert(s =~= h + e);
                    lemma_ends_with_concat(h, e);
                },
                DatabaseDriver::MySql | DatabaseDriver::MariaDb | DatabaseDriver::TiDb => {
                    let h = "RENAME TABLE "@ + quote_mysql(db) + "."@ + quote_mysql(t);
                    let p = h + " TO "@;
                    let q = quote_mysql(db) + "."@ + quote_mysql(nn) + ";"@;
                    assert(s =~= p + q);
                    lemma_starts_with_concat(p, q);
                    let e = " TO "@ + quote_mysql(db) + "."@ + quote_mysql(nn) + ";"@;
                    assert(s =~= h + e);
                    lemma_ends_with_concat(h, e);
                },
                DatabaseDriver::SqlServer => {
                    let h = "EXEC sp_rename "@ + string_literal(t);
                    let p = h + ", "@;
                    let q = string_literal(nn) + ", 'OBJECT';"@;
                    assert(s =~= p + q);
                    lemma_starts_with_concat(p, q);
                    let e = ", "@ + string_literal(nn) + ", 'OBJECT';"@;
                    assert(s =~= h + e);
                    lemma_ends_with_concat(h, e);
                },
                DatabaseDriver::MongoDb => {
                    let h = "{\"renameCollection\":\""@ + json_escaped(db) + "."@ + json_escaped(t);
                    let p = h + "\",\"to\":\""@;
                    let q = json_escaped(db) + "."@ + json_escaped(nn) + "\",\"dropTarget\":false}"@;
                    assert(s =~= p + q);
                    lemma_starts_with_concat(p, q);
                    let e = "\",\"to\":\""@ + json_escaped(db) + "."@ + json_escaped(nn)
                        + "\",\"dropTarget\":false}"@;
                    assert(s =~= h + e);
                    lemma_ends_with_concat(h, e);
                },
            }
        },
        Err(_) => {},
    }
}

/// A PostgreSQL or CockroachDB database is created with every option its
/// draft gives: the statement begins `CREATE DATABASE `, the quoted trimmed
/// name and `WITH ENCODING` with the charset (UTF8 when none is given), and
/// holds, each on a line of its own, `OWNER `, `TEMPLATE ` and `TABLESPACE `
/// with the quoted trimmed value whenever that value is not blank.
#[verifier::spinoff_prover]
pub proof fn postgres_database_keeps_its_options(driver: DatabaseDriver, d: CreateDatabaseDraft)
    requires
        driver == DatabaseDriver::PostgreSql || driver == DatabaseDriver::CockroachDb,
    ensures
        create_database_command_sql(driver, d) matches Ok(s) && starts_with(
            s,
            "CREATE DATABASE "@ + quote_plain(trim(d.name@)) + "\n    WITH "@ + "ENCODING '"@
                + or_default(d.charset@, "UTF8"@) + "'"@,
        ) && (trim(d.owner@).len() > 0 ==> contains(
            s,
            "\n    "@ + "OWNER "@ + quote_plain(trim(d.owner@)),
        )) && (trim(d.template@).len() > 0 ==> contains(
            s,
            "\n    "@ + "TEMPLATE "@ + quote_plain(trim(d.template@)),
        )) && (trim(d.tablespace@).len() > 0 ==> contains(
            s,
            "\n    "@ + "TABLESPACE "@ + quote_plain(trim(d.tablespace@)),
        )),
{
    let sep = "\n    "@;
    let enc = "ENCODING '"@ + or_default(d.charset@, "UTF8"@) + "'"@;
    let a = option_clause("OWNER "@, d.owner@);
    let b = option_clause("TEMPLATE "@, d.template@);
    let c = option_clause("TABLESPACE "@, d.tablespace@);
    let options = seq![enc] + a + b + c;
    let j = join(options, sep);
    let pre = "CREATE DATABASE "@ + quote_plain(trim(d.name@)) + "\n    WITH "@;
    let s = postgres_create_database_sql(d);
    assert(s =~= pre + j + ";"@);
    assert(create_database_command_sql(driver, d) == Ok::<Seq<char>, Seq<char>>(s));
    assert(options[0] == enc);
    lemma_join_starts_with_first(options, sep);
    let rest = j.subrange(enc.len() as int, j.len() as int);
    assert(j =~= enc + rest);
    assert(s =~= (pre + enc) + (rest + ";"@));
    lemma_starts_with_concat(pre + enc, rest + ";"@);
    assert(pre + enc =~= "CREATE DATABASE "@ + quote_plain(trim(d.name@)) + "\n    WITH "@
        + "ENCODING '"@ + or_default(d.charset@, "UTF8"@) + "'"@);
    if trim(d.owner@).len() > 0 {
        let i = 1int;
        assert(options[i] == "OWNER "@ + quote_plain(trim(d.owner@)));
        lemma_join_contains_after_sep(options, sep, i);
        lemma_contains_grow(j, sep + options[i], pre, ";"@);
        assert(sep + options[i] =~= "\n    "@ + "OWNER "@ + quote_plain(trim(d.owner@)));
    }
    if trim(d.template@).len() > 0 {
        let i = (1 + a.len()) as int;
        assert(options[i] == "TEMPLATE "@ + quote_plain(trim(d.template@)));
        lemma_join_contains_after_sep(options, sep, i);
        lemma_contains_grow(j, sep + options[i], pre, ";"@);
        assert(sep + options[i] =~= "\n    "@ + "TEMPLATE "@ + quote_plain(trim(d.template@)));
    }
    if trim(d.tablespace@).len() > 0 {
        let i = (1 + a.len() + b.len()) as int;
        assert(options[i] == "TABLESPACE "@ + quote_plain(trim(d.tablespace@)));
        lemma_join_contains_after_sep(options, sep, i);
        lemma_contains_grow(j, sep + options[i], pre, ";"@);
        assert(sep + options[i] =~= "\n    "@ + "TABLESPACE "@ + quote_plain(
            trim(d.tablespace@),
        ));
    }
}

/// Renaming database `d` to `n` (both trimmed) moves the old one into the new
/// one. PostgreSQL and CockroachDB: `ALTER DATABASE `, `d` quoted and
/// ` RENAME TO ` begin the statement and `n` quoted ends it; SQL Server
/// likewise with ` MODIFY NAME = `; Oracle with ` RENAME GLOBAL_NAME TO `; the
/// MySQL script begins by creating `n` and ends by dropping `d`; MongoDB moves
/// every listed collection `c` from `d.c` to `n.c`. A result is given exactly
/// when both names are there, the driver is not SQLite and, for MongoDB, the
/// collections are known.
#[verifier::spinoff_prover]
pub proof fn renamed_database_is_old_then_new(
    driver: DatabaseDriver,
    database: Seq<char>,
    new_name: Seq<char>,
    collections: Seq<Seq<char>>,
    charset: Seq<char>,
    collation: Seq<char>,
)
    ensures
        rename_database_result(driver, database, new_name, collections, charset, collation) is Ok
            <==> {
            &&& trim(database).len() > 0
            &&& trim(new_name).len() > 0
            &&& driver != DatabaseDriver::Sqlite
            &&& (driver == DatabaseDriver::MongoDb ==> collections.len() > 0)
        },
        rename_database_result(driver, database, new_name, collections, charset, collation) matches Ok(
            s,
        ) ==> match driver {
            DatabaseDriver::PostgreSql | DatabaseDriver::CockroachDb => starts_with(
                s,
                "ALTER DATABASE "@ + quote_plain(trim(database)) + " RENAME TO "@,
            ) && ends_with(s, " RENAME TO "@ + quote_plain(trim(new_name)) + ";"@),
            DatabaseDriver::SqlServer => starts_with(
                s,
                "ALTER DATABASE "@ + quote_sql_server(trim(database)) + " MODIFY NAME = "@,
            ) && ends_with(s, " MODIFY NAME = "@ + quote_sql_server(trim(new_name)) + ";"@),
            DatabaseDriver::Oracle => starts_with(
                s,
                "ALTER PLUGGABLE DATABASE "@ + quote_plain(trim(database))
                    + " RENAME GLOBAL_NAME TO "@,
            ) && ends_with(s, " RENAME GLOBAL_NAME TO "@ + quote_plain(trim(new_name)) + ";"@),
            DatabaseDriver::MySql | DatabaseDriver::MariaDb | DatabaseDriver::TiDb => starts_with(
                s,
                "CREATE DATABASE "@ + quote_mysql(trim(new_name)) + "\n    CHARACTER SET "@,
            ) && ends_with(s, ";\n"@ + "DROP DATABASE "@ + quote_mysql(trim(database)) + ";"@),
            DatabaseDriver::MongoDb => forall|i: int|
                0 <= i < collections.len() ==> contains(
                    s,
                    "{\"renameCollection\":\""@ + json_escaped(trim(database)) + "."@
                        + json_escaped(#[trigger] collections[i]) + "\",\"to\":\""@
                        + json_escaped(trim(new_name)) + "."@ + json_escaped(collections[i])
                        + "\",\"dropTarget\":false}"@,
                ),
            DatabaseDriver::Sqlite => false,
        },
{
    let db = trim(database);
    let nn = trim(new_name);
    match rename_database_result(driver, database, new_name, collections, charset, collation) {
        Ok(s) => {
            match driver {
                DatabaseDriver::PostgreSql | DatabaseDriver::CockroachDb => {
                    let h = "ALTER DATABASE "@ + quote_plain(db);
                    let e = " RENAME TO "@ + quote_plain(nn) + ";"@;
                    assert(s =~= h + e);
                    lemma_ends_with_concat(h, e);
                    assert(s =~= (h + " RENAME TO "@) + (quote_plain(nn) + ";"@));
                    lemma_starts_with_concat(h + " RENAME TO "@, quote_plain(nn) + ";"@);
                },
                DatabaseDriver::SqlServer => {
                    let h = "ALTER DATABASE "@ + quote_sql_server(db);
                    let e = " MODIFY NAME = "@ + quote_sql_server(nn) + ";"@;
                    assert(s =~= h + e);
                    lemma_ends_with_concat(h, e);
                    assert(s =~= (h + " MODIFY NAME = "@) + (quote_sql_server(nn) + ";"@));
                    lemma_starts_with_concat(h + " MODIFY NAME = "@, quote_sql_server(nn) + ";"@);
                },
                DatabaseDriver::Oracle => {
                    let h = "ALTER PLUGGABLE DATABASE "@ + quote_plain(db);
                    let e = " RENAME GLOBAL_NAME TO "@ + quote_plain(nn) + ";"@;
                    assert(s =~= h + e);
                    lemma_ends_with_concat(h, e);
                    assert(s =~= (h + " RENAME GLOBAL_NAME TO "@) + (quote_plain(nn) + ";"@));
                    lemma_starts_with_concat(h + " RENAME GLOBAL_NAME TO "@, quote_plain(nn) + ";"@);
                },
                DatabaseDriver::MySql | DatabaseDriver::MariaDb | DatabaseDriver::TiDb => {
                    let p = "CREATE DATABASE "@ + quote_mysql(nn) + "\n    CHARACTER SET "@;
                    let full = mysql_rename_database_sql(db, nn, charset, collation);
                    assert(s == full);
                    let rest = full.subrange(p.len() as int, full.len() as int);
                    assert(full.subrange(0, p.len() as int) =~= p);
                    assert(full =~= p + rest);
                    lemma_starts_with_concat(p, rest);
                    let e = ";\n"@ + "DROP DATABASE "@ + quote_mysql(db) + ";"@;
                    let front = full.subrange(0, full.len() - e.len());
                    assert(full.subrange(full.len() - e.len(), full.len() as int) =~= e);
                    assert(full =~= front + e);
                    lemma_ends_with_concat(front, e);
                },
                DatabaseDriver::MongoDb => {
                    let cmds = mongodb_rename_commands(db, nn, collections);
                    let j = join(cmds, ","@);
                    assert(s =~= "["@ + j + "]"@);
                    assert forall|i: int| 0 <= i < collections.len() implies contains(
                        s,
                        "{\"renameCollection\":\""@ + json_escaped(db) + "."@ + json_escaped(
                            #[trigger] collections[i],
                        ) + "\",\"to\":\""@ + json_escaped(nn) + "."@ + json_escaped(
                            collections[i],
                        ) + "\",\"dropTarget\":false}"@,
                    ) by {
                        assert(cmds[i] == mongodb_rename_collection(db, collections[i], nn, collections[i]));
                        lemma_join_contains(cmds, ","@, i);
                        lemma_contains_grow(j, cmds[i], "["@, "]"@);
                    }
                },
                DatabaseDriver::Sqlite => {},
            }
        },
        Err(_) => {},
    }
}

/// The charset and collation a MySQL-family user gives reach the statement
/// that creates or re-encodes the database `d`: it begins `CREATE DATABASE `
/// (or `ALTER DATABASE `) and `d` quoted, holds ` CHARACTER SET ` with the
/// charset (utf8mb4 when none is given) and ends ` COLLATE ` with the
/// collation (utf8mb4_unicode_ci when none is given). SQL Server's statements
/// end ` COLLATE ` with the collation; PostgreSQL's creation ends with the
/// encoding.
#[verifier::spinoff_prover]
pub proof fn chosen_charset_reaches_statement(
    driver: DatabaseDriver,
    database: Seq<char>,
    charset: Seq<char>,
    collation: Seq<char>,
)
    ensures
        is_mysql_family(driver) ==> {
            &&& starts_with(
                create_database_sql(driver, database, charset, collation),
                "CREATE DATABASE "@ + quote_mysql(database) + "\n    CHARACTER SET "@ + (if charset.len() == 0 {
                    "utf8mb4"@
                } else {
                    charset
                }),
            )
            &&& ends_with(
                create_database_sql(driver, database, charset, collation),
                "\n    COLLATE "@ + (if collation.len() == 0 {
                    "utf8mb4_unicode_ci"@
                } else {
                    collation
                }) + ";"@,
            )
            &&& starts_with(
                edit_charset_sql(driver, database, charset, collation),
                "ALTER DATABASE "@ + quote_mysql(database) + "\n    CHARACTER SET "@ + (if charset.len() == 0 {
                    "utf8mb4"@
                } else {
                    charset
                }),
            )
            &&& ends_with(
                edit_charset_sql(driver, database, charset, collation),
                "\n    COLLATE "@ + (if collation.len() == 0 {
                    "utf8mb4_unicode_ci"@
                } else {
                    collation
                }) + ";"@,
            )
        },
        driver == DatabaseDriver::SqlServer && collation.len() > 0 ==> {
            &&& ends_with(
                create_database_sql(driver, database, charset, collation),
                "\nCOLLATE "@ + collation + ";"@,
            )
            &&& ends_with(
                edit_charset_sql(driver, database, charset, collation),
                "\nCOLLATE "@ + collation + ";"@,
            )
        },
        (driver == DatabaseDriver::PostgreSql || driver == DatabaseDriver::CockroachDb)
            && charset.len() > 0 ==> ends_with(
            create_database_sql(driver, database, charset, collation),
            "\n    ENCODING '"@ + charset + "';"@,
        ),
{
    let cs = or_default(charset, "utf8mb4"@);
    let co = or_default(collation, "utf8mb4_unicode_ci"@);
    if is_mysql_family(driver) {
        let c = create_database_sql(driver, database, charset, collation);
        let a = edit_charset_sql(driver, database, charset, collation);
        let p1 = "CREATE DATABASE "@ + quote_mysql(database) + "\n    CHARACTER SET "@ + cs;
        let p2 = "ALTER DATABASE "@ + quote_mysql(database) + "\n    CHARACTER SET "@ + cs;
        let e = "\n    COLLATE "@ + co + ";"@;
        assert(c =~= p1 + e);
        assert(a =~= p2 + e);
        lemma_starts_with_concat(p1, e);
        lemma_starts_with_concat(p2, e);
        lemma_ends_with_concat(p1, e);
        lemma_ends_with_concat(p2, e);
    }
    if driver == DatabaseDriver::SqlServer && collation.len() > 0 {
        let e = "\nCOLLATE "@ + collation + ";"@;
        assert(create_database_sql(driver, database, charset, collation) =~= ("CREATE DATABASE "@
            + quote_sql_server(database)) + e);
        assert(edit_charset_sql(driver, database, charset, collation) =~= ("ALTER DATABASE "@
            + quote_sql_server(database)) + e);
        lemma_ends_with_concat("CREATE DATABASE "@ + quote_sql_server(database), e);
        lemma_ends_with_concat("ALTER DATABASE "@ + quote_sql_server(database), e);
    }
    if (driver == DatabaseDriver::PostgreSql || driver == DatabaseDriver::CockroachDb)
        && charset.len() > 0 {
        let e = "\n    ENCODING '"@ + charset + "';"@;
        assert(create_database_sql(driver, database, charset, collation) =~= ("CREATE DATABASE "@
            + quote_plain(database)) + e);
        lemma_ends_with_concat("CREATE DATABASE "@ + quote_plain(database), e);
    }
}

/// A deletion drops exactly what was asked. The table statement begins
/// `DROP TABLE ` and ends with the trimmed table quoted for the driver (for
/// the MySQL family inside the selected database) and `;`; MongoDB drops the
/// collection by its escaped name. The database statement of the MySQL family,
/// PostgreSQL, CockroachDB and SQL Server begins `DROP DATABASE ` and ends with
/// the trimmed database quoted for the driver and `;`.
#[verifier::spinoff_prover]
pub proof fn deletion_drops_what_was_asked(
    driver: DatabaseDriver,
    database: Seq<char>,
    table: Seq<char>,
)
    ensures
        table_deletion_result(driver, database, table) matches Ok(s) ==> match driver {
            DatabaseDriver::MongoDb => s == "{ \"drop\": \""@ + json_escaped(trim(table))
                + "\" }"@,
            _ => starts_with(s, "DROP TABLE "@) && ends_with(
                s,
                match driver {
                    DatabaseDriver::MySql | DatabaseDriver::MariaDb | DatabaseDriver::TiDb => quote_mysql(
                        trim(database),
                    ) + "."@ + quote_mysql(trim(table)),
                    DatabaseDriver::PostgreSql | DatabaseDriver::CockroachDb => quoted(
                        Quoting::Dotted,
                        trim(table),
                    ),
                    DatabaseDriver::SqlServer => quoted(Quoting::SqlServerTable, trim(table)),
                    _ => quote_plain(trim(table)),
                } + ";"@,
            ),
        },
        database_deletion_result(driver, database) matches Ok(s) ==> match driver {
            DatabaseDriver::MySql
            | DatabaseDriver::MariaDb
            | DatabaseDriver::TiDb
            | DatabaseDriver::PostgreSql
            | DatabaseDriver::CockroachDb
            | DatabaseDriver::SqlServer => starts_with(s, "DROP DATABASE "@) && ends_with(
                s,
                match driver {
                    DatabaseDriver::PostgreSql | DatabaseDriver::CockroachDb => quote_plain(
                        trim(database),
                    ),
                    DatabaseDriver::SqlServer => quote_sql_server(trim(database)),
                    _ => quote_mysql(trim(database)),
                } + ";"@,
            ),
            _ => true,
        },
{
    let t = trim(table);
    let db = trim(database);
    match table_deletion_result(driver, database, table) {
        Ok(s) => {
            if driver != DatabaseDriver::MongoDb {
                let r = match driver {
                    DatabaseDriver::MySql | DatabaseDriver::MariaDb | DatabaseDriver::TiDb => quote_mysql(
                        db,
                    ) + "."@ + quote_mysql(t),
                    DatabaseDriver::PostgreSql | DatabaseDriver::CockroachDb => quoted(
                        Quoting::Dotted,
                        t,
                    ),
                    DatabaseDriver::SqlServer => quoted(Quoting::SqlServerTable, t),
                    _ => quote_plain(t),
                };
                assert(s =~= "DROP TABLE "@ + (r + ";"@));
                lemma_starts_with_concat("DROP TABLE "@, r + ";"@);
                lemma_ends_with_concat("DROP TABLE "@, r + ";"@);
            }
        },
        Err(_) => {},
    }
    match database_deletion_result(driver, database) {
        Ok(s) => {
            if driver == DatabaseDriver::MySql || driver == DatabaseDriver::MariaDb || driver
                == DatabaseDriver::TiDb || driver == DatabaseDriver::PostgreSql || driver
                == DatabaseDriver::CockroachDb || driver == DatabaseDriver::SqlServer {
                let r = match driver {
                    DatabaseDriver::PostgreSql | DatabaseDriver::CockroachDb => quote_plain(db),
                    DatabaseDriver::SqlServer => quote_sql_server(db),
                    _ => quote_mysql(db),
                };
                assert(s =~= "DROP DATABASE "@ + (r + ";"@));
                lemma_starts_with_concat("DROP DATABASE "@, r + ";"@);
                lemma_ends_with_concat("DROP DATABASE "@, r + ";"@);
            }
        },
        Err(_) => {},
    }
}

} // verus!
