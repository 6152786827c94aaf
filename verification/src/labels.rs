//! Labels the interface shows for drivers and connections.
use vstd::prelude::*;
use crate::connection::ConnectionForm;
use crate::connector::{connection_target, target_text};
use crate::driver::DatabaseDriver;
use crate::text::{owned, to_uppercase, unicode_upper};

verus! {

/// The badge of a driver in the connection list: a version for the main
/// engines, else the product name in upper case.
pub open spec fn badge_text(driver: DatabaseDriver) -> Seq<char> {
    match driver {
        DatabaseDriver::MySql => "MYSQL 8.0"@,
        DatabaseDriver::PostgreSql => "POSTGRESQL 15"@,
        DatabaseDriver::SqlServer => "SQL SERVER 2019"@,
        _ => unicode_upper(driver.display_name_spec()),
    }
}

/// The badge of a driver in the connection list.
pub fn driver_badge_label(driver: DatabaseDriver) -> (r: String)
    ensures
        r@ == badge_text(driver),
{
    match driver {
        DatabaseDriver::MySql => owned("MYSQL 8.0"),
        DatabaseDriver::PostgreSql => owned("POSTGRESQL 15"),
        DatabaseDriver::SqlServer => owned("SQL SERVER 2019"),
        _ => to_uppercase(driver.display_name()),
    }
}

/// The heading of the connection form: the driver's product name.
pub fn driver_header_label(driver: DatabaseDriver) -> (r: String)
    ensures
        r@ == driver.display_name_spec(),
{
    owned(driver.display_name())
}

/// The sample text of an empty query editor.
pub open spec fn placeholder_text(driver: DatabaseDriver) -> Seq<char> {
    match driver {
        DatabaseDriver::MongoDb => "{ \"listCollections\": 1 }"@,
        DatabaseDriver::Sqlite => "select * from sqlite_master limit 100;"@,
        _ => "select 1 as ok;"@,
    }
}

/// The sample text of an empty query editor for a driver.
pub fn query_editor_placeholder(driver: DatabaseDriver) -> (r: &'static str)
    ensures
        r@ == placeholder_text(driver),
{
    match driver {
        DatabaseDriver::MongoDb => "{ \"listCollections\": 1 }",
        DatabaseDriver::Sqlite => "select * from sqlite_master limit 100;",
        _ => "select 1 as ok;",
    }
}

/// The connection target above the query editor, in upper case.
pub fn driver_context_label(form: &ConnectionForm) -> (r: String)
    ensures
        r@ == unicode_upper(target_text(*form)),
{
    to_uppercase(connection_target(form).as_str())
}

} // verus!
