//! Connection forms, saved profiles and the manager that selects, edits and
//! saves them.
use vstd::prelude::*;
use crate::driver::{collations_are_never_missing, defaults_are_offered, strs, DatabaseDriver};
use crate::text::{
    digits_value, is_blank, is_ws, owned, parse_unsigned, parse_unsigned_str, str_eq, trim, trim_end,
    trim_start, trim_str, views,
};

verus! {

/// A field of the connection form that the user can edit.
#[derive(Debug, Clone, Copy, PartialEq, Eq, Structural)]
pub enum ConnectionField {
    Name,
    Location,
    Port,
    Username,
    Password,
    Database,
    Charset,
    Collation,
    TimeoutSeconds,
    Notes,
}

/// The parameters of one database connection as the user enters them.
#[derive(Debug)]
pub struct ConnectionForm {
    pub name: String,
    pub driver: DatabaseDriver,
    pub location: String,
    pub port: String,
    pub username: String,
    pub password: String,
    pub database: String,
    pub charset: String,
    pub collation: String,
    pub ssl_enabled: bool,
    pub ssh_tunnel_enabled: bool,
    pub timeout_seconds: String,
    pub notes: String,
}

impl Clone for ConnectionForm {
    fn clone(&self) -> (r: Self)
        ensures
            r == *self,
    {
        ConnectionForm {
            name: self.name.clone(),
            driver: self.driver,
            location: self.location.clone(),
            port: self.port.clone(),
            username: self.username.clone(),
            password: self.password.clone(),
            database: self.database.clone(),
            charset: self.charset.clone(),
            collation: self.collation.clone(),
            ssl_enabled: self.ssl_enabled,
            ssh_tunnel_enabled: self.ssh_tunnel_enabled,
            timeout_seconds: self.timeout_seconds.clone(),
            notes: self.notes.clone(),
        }
    }
}

// ---------------------------------------------------------------------------
// Specifications of the form
// ---------------------------------------------------------------------------

/// `f` holds the defaults that a fresh profile for `driver` starts with.
pub open spec fn is_default_form(f: ConnectionForm, driver: DatabaseDriver) -> bool {
    &&& f.name@ == "Local "@ + driver.display_name_spec()
    &&& f.driver == driver
    &&& f.location@ == driver.default_host_spec()
    &&& f.port@ == driver.default_port_spec()
    &&& f.username@ == driver.default_username_spec()
    &&& f.password@ == Seq::<char>::empty()
    &&& f.database@ == driver.default_database_spec()
    &&& f.charset@ == driver.default_charset_spec()
    &&& f.collation@ == driver.default_collation_spec()
    &&& !f.ssl_enabled
    &&& !f.ssh_tunnel_enabled
    &&& f.timeout_seconds@ == "30"@
    &&& f.notes@ == Seq::<char>::empty()
}

/// The charset kept when the form is normalized: the current one when the
/// driver offers it, else the driver's default.
pub open spec fn supported_charset(driver: DatabaseDriver, charset: Seq<char>) -> Seq<char> {
    if strs(driver.charset_options_spec()).contains(charset) {
        charset
    } else {
        driver.default_charset_spec()
    }
}

/// The collation kept when the form is normalized: the current one when the
/// driver offers it for the charset, else the charset's default collation.
pub open spec fn supported_collation(
    driver: DatabaseDriver,
    charset: Seq<char>,
    collation: Seq<char>,
) -> Seq<char> {
    if strs(driver.collation_options_spec(charset)).contains(collation) {
        collation
    } else {
        driver.default_collation_for_charset_spec(charset)
    }
}

/// `b` equals `a` in every field but the charset and the collation.
pub open spec fn same_but_charset(a: ConnectionForm, b: ConnectionForm) -> bool {
    &&& b.name == a.name
    &&& b.driver == a.driver
    &&& b.location == a.location
    &&& b.port == a.port
    &&& b.username == a.username
    &&& b.password == a.password
    &&& b.database == a.database
    &&& b.ssl_enabled == a.ssl_enabled
    &&& b.ssh_tunnel_enabled == a.ssh_tunnel_enabled
    &&& b.timeout_seconds == a.timeout_seconds
    &&& b.notes == a.notes
}

/// `b` is `a` after normalization for display: an unsupported charset is
/// replaced by the default, then an unsupported collation by the default of
/// the charset.
pub open spec fn normalized_from(a: ConnectionForm, b: ConnectionForm) -> bool {
    let charset = supported_charset(a.driver, a.charset@);
    &&& same_but_charset(a, b)
    &&& b.charset@ == charset
    &&& b.collation@ == supported_collation(a.driver, charset, a.collation@)
}

/// One validation message when `missing` holds, none otherwise.
pub open spec fn message_if(missing: bool, message: Seq<char>) -> Seq<Seq<char>> {
    if missing {
        seq![message]
    } else {
        Seq::<Seq<char>>::empty()
    }
}

/// The message for a port field, if any.
pub open spec fn port_messages(f: ConnectionForm) -> Seq<Seq<char>> {
    if f.driver.requires_port_spec() {
        match parse_unsigned(trim(f.port@), 65535) {
            Some(v) => message_if(v == 0, "Port must be between 1 and 65535."@),
            None => seq!["Port must be a number between 1 and 65535."@],
        }
    } else {
        Seq::<Seq<char>>::empty()
    }
}

/// The message for the timeout field, if any.
pub open spec fn timeout_messages(f: ConnectionForm) -> Seq<Seq<char>> {
    match parse_unsigned(trim(f.timeout_seconds@), 65535) {
        Some(v) => message_if(v == 0, "Timeout must be greater than 0 seconds."@),
        None => seq!["Timeout must be a positive number of seconds."@],
    }
}

/// Every problem of the form, in the order the form lists its fields.
pub open spec fn validation_messages(f: ConnectionForm) -> Seq<Seq<char>> {
    message_if(trim(f.name@).len() == 0, "Profile name is required."@) + message_if(
        trim(f.location@).len() == 0,
        f.driver.location_label_spec() + " is required."@,
    ) + port_messages(f) + timeout_messages(f) + message_if(
        trim(f.charset@).len() == 0,
        "Charset is required."@,
    ) + message_if(trim(f.collation@).len() == 0, "Collation is required."@)
}

impl DatabaseDriver {
    /// Whether a profile for this driver needs a port.
    pub open spec fn requires_port_spec(self) -> bool {
        self != DatabaseDriver::Sqlite
    }
}

// ---------------------------------------------------------------------------
// The form
// ---------------------------------------------------------------------------

impl Default for ConnectionForm {
    fn default() -> (r: Self)
        ensures
            is_default_form(r, DatabaseDriver::MySql),
    {
        Self::for_driver(DatabaseDriver::MySql)
    }
}

/// `after` is the form `before` with `value` stored in `field`: the plain
/// fields take the value, a new charset (made supported) brings its default
/// collation, a new collation is made one the charset offers, and every other
/// field is kept.
pub open spec fn field_set(after: ConnectionForm, before: ConnectionForm, field: ConnectionField, value: String) -> bool {
    &&& field == ConnectionField::Name ==> after.name == value
    &&& field != ConnectionField::Name ==> after.name == before.name
    &&& field == ConnectionField::Location ==> after.location == value
    &&& field != ConnectionField::Location ==> after.location == before.location
    &&& field == ConnectionField::Port ==> after.port == value
    &&& field != ConnectionField::Port ==> after.port == before.port
    &&& field == ConnectionField::Username ==> after.username == value
    &&& field != ConnectionField::Username ==> after.username == before.username
    &&& field == ConnectionField::Password ==> after.password == value
    &&& field != ConnectionField::Password ==> after.password == before.password
    &&& field == ConnectionField::Database ==> after.database == value
    &&& field != ConnectionField::Database ==> after.database == before.database
    &&& field == ConnectionField::TimeoutSeconds ==> after.timeout_seconds == value
    &&& field != ConnectionField::TimeoutSeconds ==> after.timeout_seconds == before.timeout_seconds
    &&& field == ConnectionField::Notes ==> after.notes == value
    &&& field != ConnectionField::Notes ==> after.notes == before.notes
    &&& after.driver == before.driver
    &&& after.ssl_enabled == before.ssl_enabled
    &&& after.ssh_tunnel_enabled == before.ssh_tunnel_enabled
    &&& field == ConnectionField::Charset ==> {
        let charset = supported_charset(before.driver, value@);
        &&& after.charset@ == charset
        &&& after.collation@ == before.driver.default_collation_for_charset_spec(
            charset,
        )
    }
    &&& field == ConnectionField::Collation ==> {
        &&& after.charset == before.charset
        &&& after.collation@ == supported_collation(
            before.driver,
            before.charset@,
            value@,
        )
    }
    &&& field != ConnectionField::Charset && field != ConnectionField::Collation ==> {
        &&& after.charset == before.charset
        &&& after.collation == before.collation
    }
}

impl ConnectionForm {
    /// A fresh form with the defaults of `driver`.
    pub fn for_driver(driver: DatabaseDriver) -> (r: Self)
        ensures
            is_default_form(r, driver),
    {
        let mut name = String::new();
        name.append("Local ");
        name.append(driver.display_name());
        ConnectionForm {
            name,
            driver,
            location: owned(driver.default_host()),
            port: owned(driver.default_port()),
            username: owned(driver.default_username()),
            password: String::new(),
            database: owned(driver.default_database()),
            charset: owned(driver.default_charset()),
            collation: owned(driver.default_collation()),
            ssl_enabled: false,
            ssh_tunnel_enabled: false,
            timeout_seconds: owned("30"),
            notes: String::new(),
        }
    }

    /// Switches the driver and resets the fields that depend on it.
    pub fn set_driver(&mut self, driver: DatabaseDriver)
        ensures
            final(self).driver == driver,
            final(self).location@ == driver.default_host_spec(),
            final(self).port@ == driver.default_port_spec(),
            final(self).username@ == driver.default_username_spec(),
            final(self).database@ == driver.default_database_spec(),
            final(self).charset@ == driver.default_charset_spec(),
            final(self).collation@ == driver.default_collation_spec(),
            final(self).name == old(self).name,
            final(self).password == old(self).password,
            final(self).ssl_enabled == old(self).ssl_enabled,
            final(self).ssh_tunnel_enabled == old(self).ssh_tunnel_enabled,
            final(self).timeout_seconds == old(self).timeout_seconds,
            final(self).notes == old(self).notes,
    {
        self.driver = driver;
        self.location = owned(driver.default_host());
        self.port = owned(driver.default_port());
        self.username = owned(driver.default_username());
        self.database = owned(driver.default_database());
        self.charset = owned(driver.default_charset());
        self.collation = owned(driver.default_collation());
    }

    /// Stores `value` in `field`. A new charset also resets the collation to
    /// the charset's default (after an unsupported charset is replaced); a new
    /// collation that the charset does not offer is replaced by the default.
    pub fn set_field(&mut self, field: ConnectionField, value: String)
        ensures
            field_set(*final(self), *old(self), field, value),
    {
        match field {
            ConnectionField::Name => self.name = value,
            ConnectionField::Location => self.location = value,
            ConnectionField::Port => self.port = value,
            ConnectionField::Username => self.username = value,
            ConnectionField::Password => self.password = value,
            ConnectionField::Database => self.database = value,
            ConnectionField::Charset => self.charset = value,
            ConnectionField::Collation => self.collation = value,
            ConnectionField::TimeoutSeconds => self.timeout_seconds = value,
            ConnectionField::Notes => self.notes = value,
        }
        if field == ConnectionField::Charset {
            self.ensure_charset_supported();
            self.collation = owned(self.driver.default_collation_for_charset(self.charset.as_str()));
        } else if field == ConnectionField::Collation {
            self.ensure_collation_supported();
        }
    }

    /// The collations offered for the form's driver and charset.
    pub fn collation_options(&self) -> (r: Vec<&'static str>)
        ensures
            r@ == self.driver.collation_options_spec(self.charset@),
    {
        self.driver.collation_options(self.charset.as_str())
    }

    /// The charsets offered for the form's driver.
    pub fn charset_options(&self) -> (r: Vec<&'static str>)
        ensures
            r@ == self.driver.charset_options_spec(),
    {
        self.driver.charset_options()
    }

    /// The default collation of the form's charset.
    pub fn default_collation(&self) -> (r: &'static str)
        ensures
            r@ == self.driver.default_collation_for_charset_spec(self.charset@),
    {
        self.driver.default_collation_for_charset(self.charset.as_str())
    }

    /// Replaces an unsupported charset, then an unsupported collation, by the
    /// defaults.
    pub fn normalize_for_ui(&mut self)
        ensures
            normalized_from(*old(self), *final(self)),
    {
        self.ensure_charset_supported();
        self.ensure_collation_supported();
    }

    fn ensure_charset_supported(&mut self)
        ensures
            same_but_charset(*old(self), *final(self)),
            final(self).charset@ == supported_charset(old(self).driver, old(self).charset@),
            final(self).collation == old(self).collation,
    {
        let options = self.driver.charset_options();
        if !contains_option(&options, self.charset.as_str()) {
            self.charset = owned(self.driver.default_charset());
        }
    }

    fn ensure_collation_supported(&mut self)
        ensures
            same_but_charset(*old(self), *final(self)),
            final(self).charset == old(self).charset,
            final(self).collation@ == supported_collation(
                old(self).driver,
                old(self).charset@,
                old(self).collation@,
            ),
    {
        let options = self.collation_options();
        if !contains_option(&options, self.collation.as_str()) {
            self.collation = owned(self.default_collation());
        }
    }

    /// Checks the form; `Err` lists every problem, in field order.
    pub fn validate(&self) -> (r: Result<(), Vec<String>>)
        ensures
            match r {
                Ok(()) => validation_messages(*self).len() == 0,
                Err(errors) => views(errors@) == validation_messages(*self) && errors.len() > 0,
            },
    {
        let mut errors: Vec<String> = Vec::new();
        push_message_if(&mut errors, is_blank(self.name.as_str()), owned("Profile name is required."));
        let mut m = owned(self.driver.location_label());
        m.append(" is required.");
        push_message_if(&mut errors, is_blank(self.location.as_str()), m);
        push_port_message(&mut errors, self);
        push_timeout_message(&mut errors, self);
        push_message_if(&mut errors, is_blank(self.charset.as_str()), owned("Charset is required."));
        push_message_if(
            &mut errors,
            is_blank(self.collation.as_str()),
            owned("Collation is required."),
        );
        proof {
            assert(views(errors@) =~= validation_messages(*self));
        }
        if errors.len() == 0 {
            Ok(())
        } else {
            Err(errors)
        }
    }
}

fn push_message_if(errors: &mut Vec<String>, missing: bool, message: String)
    ensures
        views(final(errors)@) == views(old(errors)@) + message_if(missing, message@),
{
    let ghost before = views(errors@);
    if missing {
        errors.push(message);
        proof {
            assert(views(errors@) =~= before + seq![message@]);
        }
    } else {
        proof {
            assert(views(errors@) =~= before + Seq::<Seq<char>>::empty());
        }
    }
}

fn push_port_message(errors: &mut Vec<String>, f: &ConnectionForm)
    ensures
        views(final(errors)@) == views(old(errors)@) + port_messages(*f),
{
    let ghost before = views(errors@);
    if f.driver.requires_port() {
        match parse_unsigned_str(trim_str(f.port.as_str()), 65535) {
            Some(v) => push_message_if(errors, v == 0, owned("Port must be between 1 and 65535.")),
            None => push_message_if(
                errors,
                true,
                owned("Port must be a number between 1 and 65535."),
            ),
        }
    } else {
        proof {
            assert(views(errors@) =~= before + Seq::<Seq<char>>::empty());
        }
    }
}

fn push_timeout_message(errors: &mut Vec<String>, f: &ConnectionForm)
    ensures
        views(final(errors)@) == views(old(errors)@) + timeout_messages(*f),
{
    match parse_unsigned_str(trim_str(f.timeout_seconds.as_str()), 65535) {
        Some(v) => push_message_if(
            errors,
            v == 0,
            owned("Timeout must be greater than 0 seconds."),
        ),
        None => push_message_if(
            errors,
            true,
            owned("Timeout must be a positive number of seconds."),
        ),
    }
}

/// Whether `value` is one of the offered options.
pub fn contains_option(options: &Vec<&'static str>, value: &str) -> (r: bool)
    ensures
        r == strs(options@).contains(value@),
{
    let mut i: usize = 0;
    while i < options.len()
        invariant
            i <= options.len(),
            forall|j: int| 0 <= j < i ==> options@[j]@ != value@,
        decreases options.len() - i,
    {
        if str_eq(options[i], value) {
            proof {
                assert(strs(options@)[i as int] == value@);
            }
            return true;
        }
        i += 1;
    }
    proof {
        if strs(options@).contains(value@) {
            let k = choose|k: int| 0 <= k < strs(options@).len() && strs(options@)[k] == value@;
            assert(options@[k]@ == value@);
        }
    }
    false
}

/// Normalizing a form for display a second time changes nothing: the kept
/// charset and collation are kept again.
pub proof fn normalize_for_ui_idempotent(a: ConnectionForm, b: ConnectionForm, c: ConnectionForm)
    requires
        normalized_from(a, b),
        normalized_from(b, c),
    ensures
        same_but_charset(b, c),
        c.charset@ == b.charset@,
        c.collation@ == b.collation@,
{
}

/// A normalized form offers what it holds: its charset is one of the
/// driver's charsets and its collation one of that charset's collations.
pub proof fn normalized_form_is_offered(a: ConnectionForm, b: ConnectionForm)
    requires
        normalized_from(a, b),
    ensures
        strs(b.driver.charset_options_spec()).contains(b.charset@),
        strs(b.driver.collation_options_spec(b.charset@)).contains(b.collation@),
{
    defaults_are_offered(a.driver);
    collations_are_never_missing(a.driver, b.charset@);
    let options = strs(a.driver.collation_options_spec(b.charset@));
    if !options.contains(a.collation@) {
        assert(options[0] == b.collation@);
    }
}

/// A text that starts with a character other than white space is not blank.
proof fn lemma_not_blank(s: Seq<char>)
    requires
        s.len() > 0,
        !is_ws(s[0]),
    ensures
        trim(s).len() > 0,
{
    assert(trim_start(s) == s);
    lemma_trim_end_keeps_head(s);
}

proof fn lemma_trim_end_keeps_head(s: Seq<char>)
    requires
        s.len() > 0,
        !is_ws(s[0]),
    ensures
        trim_end(s).len() > 0,
    decreases s.len(),
{
    if is_ws(s.last()) {
        assert(s.len() > 1);
        assert(s.drop_last()[0] == s[0]);
        lemma_trim_end_keeps_head(s.drop_last());
    }
}

/// A text without white space at its ends is its own trim.
proof fn lemma_trimmed(s: Seq<char>)
    requires
        s.len() > 0,
        !is_ws(s[0]),
        !is_ws(s.last()),
    ensures
        trim(s) == s,
{
}

/// The fresh form of every driver passes validation.
pub proof fn fresh_form_is_valid(f: ConnectionForm, driver: DatabaseDriver)
    requires
        is_default_form(f, driver),
    ensures
        validation_messages(f).len() == 0,
{
    reveal_strlit("Local ");
    reveal_strlit("./aktsql.db");
    reveal_strlit("127.0.0.1");
    reveal_strlit("3306");
    reveal_strlit("4000");
    reveal_strlit("5432");
    reveal_strlit("1433");
    reveal_strlit("1521");
    reveal_strlit("27017");
    reveal_strlit("30");
    reveal_strlit("utf8mb4");
    reveal_strlit("UTF8");
    reveal_strlit("utf8mb4_0900_ai_ci");
    reveal_strlit("utf8mb4_general_ci");
    reveal_strlit("C");
    reveal_strlit("BINARY");
    reveal_strlit("Latin1_General_100_CI_AS_SC_UTF8");
    collations_are_never_missing(driver, driver.default_charset_spec());
    lemma_not_blank(f.name@);
    lemma_not_blank(f.location@);
    lemma_not_blank(f.charset@);
    lemma_not_blank(f.collation@);
    lemma_trimmed(f.timeout_seconds@);
    reveal_with_fuel(digits_value, 6);
    assert(parse_unsigned(trim(f.timeout_seconds@), 65535) == Some(30nat));
    if driver.requires_port_spec() {
        lemma_trimmed(f.port@);
        assert(parse_unsigned(trim(f.port@), 65535) is Some);
        assert(parse_unsigned(trim(f.port@), 65535)->0 > 0);
    }
    assert(port_messages(f).len() == 0);
    assert(timeout_messages(f).len() == 0);
}

} // verus!
