//! What a connection test needs besides the network: which probe a form
//! calls for, the URLs and names it connects with, and the report or the
//! errors that come of the probe's answer.
use vstd::prelude::*;
use crate::connection::{validation_messages, ConnectionForm};
use vstd::utf8::encode_utf8;
use crate::driver::DatabaseDriver;
use crate::text::{
    contains, contains_str, decimal, is_empty_text, owned, parse_unsigned, parse_unsigned_str,
    push_char, trim, trim_str, u128_to_decimal, views,
};

verus! {

// ---------------------------------------------------------------------------
// Names and addresses
// ---------------------------------------------------------------------------

/// The database a probe connects to: the form's, else the driver's
/// maintenance database (`postgres`, `admin`) or none.
pub open spec fn probe_database(form: ConnectionForm) -> Seq<char> {
    let d = trim(form.database@);
    if d.len() > 0 {
        d
    } else {
        match form.driver {
            DatabaseDriver::PostgreSql | DatabaseDriver::CockroachDb => "postgres"@,
            DatabaseDriver::MongoDb => "admin"@,
            _ => Seq::<char>::empty(),
        }
    }
}

/// The database a connection test opens.
pub fn database_name(form: &ConnectionForm) -> (r: String)
    ensures
        r@ == probe_database(*form),
{
    let d = trim_str(form.database.as_str());
    if !is_empty_text(d) {
        return owned(d);
    }
    match form.driver {
        DatabaseDriver::PostgreSql | DatabaseDriver::CockroachDb => owned("postgres"),
        DatabaseDriver::MongoDb => owned("admin"),
        _ => String::new(),
    }
}

/// Where a connection goes: `host:port` for network drivers, the file for
/// SQLite.
pub open spec fn target_text(form: ConnectionForm) -> Seq<char> {
    if form.driver != DatabaseDriver::Sqlite {
        trim(form.location@) + ":"@ + trim(form.port@)
    } else {
        trim(form.location@)
    }
}

/// The target of a connection as reports show it.
pub fn connection_target(form: &ConnectionForm) -> (r: String)
    ensures
        r@ == target_text(*form),
{
    if form.driver.requires_port() {
        let mut r = owned(trim_str(form.location.as_str()));
        r.append(":");
        r.append(trim_str(form.port.as_str()));
        r
    } else {
        owned(trim_str(form.location.as_str()))
    }
}

/// The timeout of a probe in seconds: the form's when it is a positive
/// whole number, else 30.
pub open spec fn timeout_secs(form: ConnectionForm) -> nat {
    match parse_unsigned(trim(form.timeout_seconds@), u64::MAX as nat) {
        Some(s) => if s > 0 {
            s
        } else {
            30
        },
        None => 30,
    }
}

/// The probe's timeout, in seconds.
pub fn timeout(form: &ConnectionForm) -> (r: u64)
    ensures
        r == timeout_secs(*form),
{
    match parse_unsigned_str(trim_str(form.timeout_seconds.as_str()), u64::MAX) {
        Some(s) => if s > 0 {
            s
        } else {
            30
        },
        None => 30,
    }
}

/// The text `str::parse::<u16>` gives for its error on `s`.
pub uninterp spec fn u16_parse_error(s: Seq<char>) -> Seq<char>;

/// `str::parse::<u16>`, with the error written as text by its `Display`.
/// A number is read as `parse_unsigned` states for the largest `u16`; the
/// error's wording is named `u16_parse_error`.
#[verifier::external_body]
fn parse_u16(s: &str) -> (r: Result<u16, String>)
    ensures
        match r {
            Ok(v) => parse_unsigned(s@, 65535) == Some(v as nat),
            Err(e) => parse_unsigned(s@, 65535) is None && e@ == u16_parse_error(s@),
        },
{
    s.parse::<u16>().map_err(|error| error.to_string())
}

/// The port of the form as a number, or why it is not one.
pub fn parse_port(form: &ConnectionForm) -> (r: Result<u16, String>)
    ensures
        match r {
            Ok(v) => parse_unsigned(trim(form.port@), 65535) == Some(v as nat),
            Err(e) => parse_unsigned(trim(form.port@), 65535) is None && e@ == "Invalid port: "@
                + u16_parse_error(trim(form.port@)),
        },
{
    match parse_u16(trim_str(form.port.as_str())) {
        Ok(v) => Ok(v),
        Err(error) => {
            let mut e = owned("Invalid port: ");
            e.append(error.as_str());
            Err(e)
        },
    }
}

/// What a PostgreSQL connection is configured with.
#[derive(Debug)]
pub struct PostgresSettings {
    pub host: String,
    pub port: u16,
    pub user: String,
    pub password: String,
    pub dbname: String,
    pub connect_timeout_secs: u64,
}

/// The settings of a PostgreSQL connection for the form: the trimmed host
/// and user, the password as entered, the database (or `postgres`) and
/// the timeout; the port must be a number.
pub fn postgres_settings(form: &ConnectionForm) -> (r: Result<PostgresSettings, String>)
    ensures
        match r {
            Ok(s) => {
                &&& parse_unsigned(trim(form.port@), 65535) == Some(s.port as nat)
                &&& s.host@ == trim(form.location@)
                &&& s.user@ == trim(form.username@)
                &&& s.password == form.password
                &&& s.dbname@ == probe_database(*form)
                &&& s.connect_timeout_secs == timeout_secs(*form)
            },
            Err(e) => parse_unsigned(trim(form.port@), 65535) is None && e@ == "Invalid port: "@
                + u16_parse_error(trim(form.port@)),
        },
{
    let port = match parse_port(form) {
        Ok(p) => p,
        Err(e) => {
            return Err(e);
        },
    };
    Ok(
        PostgresSettings {
            host: owned(trim_str(form.location.as_str())),
            port,
            user: owned(trim_str(form.username.as_str())),
            password: form.password.clone(),
            dbname: database_name(form),
            connect_timeout_secs: timeout(form),
        },
    )
}

// ---------------------------------------------------------------------------
// URLs
// ---------------------------------------------------------------------------

/// A byte that stands for itself in a URL part.
pub open spec fn unreserved(b: u8) -> bool {
    (65 <= b <= 90) || (97 <= b <= 122) || (48 <= b <= 57) || b == 45 || b == 46 || b == 95 || b
        == 126
}

/// An upper-case hexadecimal digit.
pub open spec fn hex_digit(n: u8) -> char {
    if n < 10 {
        (48 + n) as char
    } else {
        (55 + n) as char
    }
}

/// One byte of a URL part: itself when unreserved, else `%` and two
/// upper-case hexadecimal digits.
pub open spec fn encoded_byte(b: u8) -> Seq<char> {
    if unreserved(b) {
        seq![b as char]
    } else {
        seq!['%', hex_digit(b / 16), hex_digit(b % 16)]
    }
}

/// The bytes of a text, percent-encoded.
pub open spec fn url_encoded(bytes: Seq<u8>) -> Seq<char>
    decreases bytes.len(),
{
    if bytes.len() == 0 {
        Seq::<char>::empty()
    } else {
        url_encoded(bytes.drop_last()) + encoded_byte(bytes.last())
    }
}

fn hex_char(n: u8) -> (c: char)
    requires
        n < 16,
    ensures
        c == hex_digit(n),
{
    if n < 10 {
        (48 + n) as char
    } else {
        (55 + n) as char
    }
}

/// A text percent-encoded for a URL: its UTF-8 bytes, each unreserved one
/// kept and every other written `%XX`.
pub fn encode_url_part(value: &str) -> (r: String)
    ensures
        r@ == url_encoded(encode_utf8(value@)),
{
    let bytes = value.as_bytes();
    let mut r = String::new();
    let mut i: usize = 0;
    while i < bytes.len()
        invariant
            bytes@ == encode_utf8(value@),
            i <= bytes.len(),
            r@ == url_encoded(bytes@.take(i as int)),
        decreases bytes.len() - i,
    {
        let b = bytes[i];
        proof {
            assert(bytes@.take(i + 1).drop_last() == bytes@.take(i as int));
            assert(bytes@.take(i + 1).last() == b);
        }
        if (65 <= b && b <= 90) || (97 <= b && b <= 122) || (48 <= b && b <= 57) || b == 45 || b == 46
            || b == 95 || b == 126 {
            push_char(&mut r, b as char);
        } else {
            push_char(&mut r, '%');
            push_char(&mut r, hex_char(b / 16));
            push_char(&mut r, hex_char(b % 16));
        }
        i += 1;
    }
    assert(bytes@.take(bytes.len() as int) == bytes@);
    r
}

/// The `user:password@host:port/database` part of a URL.
pub open spec fn url_authority(form: ConnectionForm) -> Seq<char> {
    url_encoded(encode_utf8(trim(form.username@))) + ":"@ + url_encoded(
        encode_utf8(form.password@),
    ) + "@"@ + trim(form.location@) + ":"@ + trim(form.port@) + "/"@ + url_encoded(
        encode_utf8(probe_database(form)),
    )
}

fn authority(form: &ConnectionForm) -> (r: String)
    ensures
        r@ == url_authority(*form),
{
    let database = database_name(form);
    let mut r = encode_url_part(trim_str(form.username.as_str()));
    r.append(":");
    r.append(encode_url_part(form.password.as_str()).as_str());
    r.append("@");
    r.append(trim_str(form.location.as_str()));
    r.append(":");
    r.append(trim_str(form.port.as_str()));
    r.append("/");
    r.append(encode_url_part(database.as_str()).as_str());
    r
}

/// The MySQL URL of a form.
pub fn mysql_url(form: &ConnectionForm) -> (r: String)
    ensures
        r@ == "mysql://"@ + url_authority(*form),
{
    let mut r = owned("mysql://");
    r.append(authority(form).as_str());
    r
}

/// The MongoDB URL of a form, authenticating against `admin` and with the
/// form's timeout for server selection.
pub fn mongodb_url(form: &ConnectionForm) -> (r: String)
    ensures
        r@ == "mongodb://"@ + url_authority(*form) + "?authSource=admin&serverSelectionTimeoutMS="@
            + decimal(timeout_secs(*form) * 1000),
{
    let mut r = owned("mongodb://");
    r.append(authority(form).as_str());
    r.append("?authSource=admin&serverSelectionTimeoutMS=");
    let millis: u128 = (timeout(form) as u128) * 1000;
    r.append(u128_to_decimal(millis).as_str());
    r
}

/// The message of a failed MySQL connection: an authentication failure
/// gets advice for the user.
pub open spec fn mysql_error_text(form: ConnectionForm, error: Seq<char>) -> Seq<char> {
    if contains(error, "1045"@) || contains(error, "Access denied"@) {
        "MySQL authentication failed for user '"@ + trim(form.username@)
            + "'. Check username/password. For the bundled Docker service use root/root123 or myuser/mypassword123; placeholder text is not an entered password. Raw error: "@
            + error
    } else {
        "MySQL connection failed: "@ + error
    }
}

/// The message for a MySQL connection error.
pub fn mysql_connection_error_message(form: &ConnectionForm, error: &str) -> (r: String)
    ensures
        r@ == mysql_error_text(*form, error@),
{
    if contains_str(error, "1045") || contains_str(error, "Access denied") {
        let mut r = owned("MySQL authentication failed for user '");
        r.append(trim_str(form.username.as_str()));
        r.append(
            "'. Check username/password. For the bundled Docker service use root/root123 or myuser/mypassword123; placeholder text is not an entered password. Raw error: ",
        );
        r.append(error);
        return r;
    }
    let mut r = owned("MySQL connection failed: ");
    r.append(error);
    r
}

// ---------------------------------------------------------------------------
// Testing a connection
// ---------------------------------------------------------------------------

/// The live check a form is tested with.
#[derive(Debug, Clone, Copy, PartialEq, Eq, Structural)]
pub enum ConnectionProbe {
    Sqlite,
    MySql,
    Postgres,
    MongoDb,
}

/// The message for a driver that has no live check.
pub open spec fn unsupported_probe_message(driver: DatabaseDriver) -> Seq<char> {
    driver.display_name_spec()
        + " connectivity is not wired yet. Current live test support: MySQL, MariaDB, TiDB, PostgreSQL, CockroachDB, MongoDB, SQLite."@
}

/// The probe for a form: none while the form has validation errors or the
/// driver has no live check.
pub open spec fn probe_for(form: ConnectionForm) -> Result<ConnectionProbe, Seq<Seq<char>>> {
    if validation_messages(form).len() > 0 {
        Err(validation_messages(form))
    } else {
        match form.driver {
            DatabaseDriver::Sqlite => Ok(ConnectionProbe::Sqlite),
            DatabaseDriver::MySql | DatabaseDriver::MariaDb | DatabaseDriver::TiDb => Ok(
                ConnectionProbe::MySql,
            ),
            DatabaseDriver::PostgreSql | DatabaseDriver::CockroachDb => Ok(ConnectionProbe::Postgres),
            DatabaseDriver::MongoDb => Ok(ConnectionProbe::MongoDb),
            _ => Err(seq![unsupported_probe_message(form.driver)]),
        }
    }
}

/// The views of a list of errors.
pub open spec fn errors_result<T>(r: Result<T, Vec<String>>) -> Result<T, Seq<Seq<char>>> {
    match r {
        Ok(v) => Ok(v),
        Err(e) => Err(views(e@)),
    }
}

/// Which live check the form calls for, or the errors that stop the test
/// before any connection is made.
pub fn connection_probe(form: &ConnectionForm) -> (r: Result<ConnectionProbe, Vec<String>>)
    ensures
        errors_result(r) == probe_for(*form),
{
    match form.validate() {
        Ok(()) => {},
        Err(errors) => {
            return Err(errors);
        },
    }
    match form.driver {
        DatabaseDriver::Sqlite => Ok(ConnectionProbe::Sqlite),
        DatabaseDriver::MySql | DatabaseDriver::MariaDb | DatabaseDriver::TiDb => Ok(
            ConnectionProbe::MySql,
        ),
        DatabaseDriver::PostgreSql | DatabaseDriver::CockroachDb => Ok(ConnectionProbe::Postgres),
        DatabaseDriver::MongoDb => Ok(ConnectionProbe::MongoDb),
        _ => {
            let mut m = owned(form.driver.display_name());
            m.append(
                " connectivity is not wired yet. Current live test support: MySQL, MariaDB, TiDB, PostgreSQL, CockroachDB, MongoDB, SQLite.",
            );
            let mut errors: Vec<String> = Vec::new();
            let ghost mv = m@;
            errors.push(m);
            assert(views(errors@) =~= seq![mv]);
            Err(errors)
        },
    }
}

/// A successful connection test.
#[derive(Debug)]
pub struct ConnectionTestReport {
    pub driver: DatabaseDriver,
    pub target: String,
    pub elapsed_ms: u128,
}

/// The outcome of a connection test, given what the live check answered
/// and how long it took.
pub open spec fn test_outcome(
    form: ConnectionForm,
    answer: Result<Seq<char>, Seq<char>>,
) -> Result<Seq<char>, Seq<Seq<char>>> {
    match probe_for(form) {
        Err(errors) => Err(errors),
        Ok(_) => match answer {
            Err(e) => Err(seq![e]),
            Ok(_) => Ok(target_text(form)),
        },
    }
}

/// The report of a connection test: the form's errors when it is invalid
/// or has no live check, the check's error when it failed, else the driver,
/// the target and the time taken.
pub fn test_connection(form: ConnectionForm, answer: Result<String, String>, elapsed_ms: u128) -> (r:
    Result<ConnectionTestReport, Vec<String>>)
    ensures
        match test_outcome(form, crate::sql_database::text_result(answer)) {
            Ok(target) => r matches Ok(report) && report.driver == form.driver && report.target@
                == target && report.elapsed_ms == elapsed_ms,
            Err(errors) => r matches Err(e) && views(e@) == errors,
        },
{
    match connection_probe(&form) {
        Ok(_) => {},
        Err(errors) => {
            return Err(errors);
        },
    }
    match answer {
        Ok(_) => Ok(
            ConnectionTestReport {
                driver: form.driver,
                target: connection_target(&form),
                elapsed_ms,
            },
        ),
        Err(error) => {
            let mut errors: Vec<String> = Vec::new();
            let ghost ev = error@;
            errors.push(error);
            assert(views(errors@) =~= seq![ev]);
            Err(errors)
        },
    }
}

/// A character that ends or splits a part of a URL.
pub open spec fn url_delimiter(c: char) -> bool {
    c == '@' || c == ':' || c == '/' || c == '?' || c == '#' || c == '&' || c == '=' || c == ' '
}

proof fn lemma_encoded_byte_plain(b: u8)
    ensures
        forall|j: int| 0 <= j < encoded_byte(b).len() ==> !url_delimiter(#[trigger] encoded_byte(b)[j]),
{
    let e = encoded_byte(b);
    if unreserved(b) {
        assert(e[0] == b as char);
        assert(!url_delimiter(b as char));
    } else {
        let hi = b / 16;
        let lo = b % 16;
        assert(hi < 16 && lo < 16);
        assert(!url_delimiter(hex_digit(hi)));
        assert(!url_delimiter(hex_digit(lo)));
        assert(e[0] == '%' && e[1] == hex_digit(hi) && e[2] == hex_digit(lo));
    }
}

/// Encoding a text part by part gives the encoding of the whole text, and an
/// encoded part holds none of the characters that delimit the parts of a URL
/// (`@`, `:`, `/`, `?`, `#`, `&`, `=`, space): a user name, password or
/// database name cannot change where the URL's parts begin and end.
pub proof fn encoded_parts_keep_url_structure(a: Seq<u8>, b: Seq<u8>)
    ensures
        url_encoded(a + b) == url_encoded(a) + url_encoded(b),
        forall|j: int| 0 <= j < url_encoded(a).len() ==> !url_delimiter(#[trigger] url_encoded(a)[j]),
    decreases a.len() + b.len(),
{
    if b.len() == 0 {
        assert(a + b =~= a);
        assert(url_encoded(b) == Seq::<char>::empty());
        assert(url_encoded(a) + url_encoded(b) =~= url_encoded(a));
    } else {
        encoded_parts_keep_url_structure(a, b.drop_last());
        assert((a + b).drop_last() =~= a + b.drop_last());
        assert((a + b).last() == b.last());
        assert(url_encoded(a) + url_encoded(b) =~= url_encoded(a) + url_encoded(b.drop_last())
            + encoded_byte(b.last()));
    }
    if a.len() > 0 {
        encoded_parts_keep_url_structure(a.drop_last(), Seq::<u8>::empty());
        lemma_encoded_byte_plain(a.last());
        let x = url_encoded(a.drop_last());
        let y = encoded_byte(a.last());
        assert forall|j: int| 0 <= j < url_encoded(a).len() implies !url_delimiter(
            #[trigger] url_encoded(a)[j],
        ) by {
            if j < x.len() {
                assert(url_encoded(a)[j] == x[j]);
            } else {
                assert(url_encoded(a)[j] == y[j - x.len()]);
            }
        }
    }
}

/// A connection test passes only on a valid form with a live check whose
/// answer was a success, and then reports the form's target. A form with
/// validation errors fails with exactly those errors, whatever the live check
/// answered; a failed check on a valid form fails with the check's error
/// alone. SQL Server and Oracle forms have no live check and always fail.
pub proof fn connection_test_trusts_only_valid_forms(
    form: ConnectionForm,
    answer: Result<Seq<char>, Seq<char>>,
)
    ensures
        test_outcome(form, answer) is Ok <==> (validation_messages(form).len() == 0 && answer is Ok
            && form.driver != DatabaseDriver::SqlServer && form.driver != DatabaseDriver::Oracle),
        test_outcome(form, answer) is Ok ==> test_outcome(form, answer) == Ok::<
            Seq<char>,
            Seq<Seq<char>>,
        >(target_text(form)),
        validation_messages(form).len() > 0 ==> test_outcome(form, answer) == Err::<
            Seq<char>,
            Seq<Seq<char>>,
        >(validation_messages(form)),
        validation_messages(form).len() == 0 && form.driver != DatabaseDriver::SqlServer
            && form.driver != DatabaseDriver::Oracle ==> (answer matches Err(e) ==> test_outcome(
            form,
            answer,
        ) == Err::<Seq<char>, Seq<Seq<char>>>(seq![e])),
{
}

} // verus!
