//! The connection activity of the client: which test or connection attempt
//! is running, and the token that tells a current result from a stale one.
use vstd::prelude::*;
use crate::connection::{validation_messages, ConnectionForm};
use crate::driver::DatabaseDriver;
use crate::connection::is_default_form;
use crate::profiles::{has_id, without_id, ConnectionManager};
use crate::connector::{connection_target, target_text, ConnectionTestReport};
use crate::text::{decimal, join, join_strings, owned, usize_to_decimal, views};

verus! {

/// The connection attempts in flight: a test, a connection, whether the
/// test result is shown, and the token of the latest attempt.
#[derive(Debug, Clone, Copy, PartialEq, Eq, Structural)]
pub struct ConnectionTasks {
    pub token: u64,
    pub testing: bool,
    pub connecting: bool,
    pub test_result_open: bool,
}

/// The token after `t`, wrapping at the largest `u64`.
pub open spec fn token_after(t: u64) -> u64 {
    if t == u64::MAX {
        0
    } else {
        (t + 1) as u64
    }
}

fn next_of(t: u64) -> (r: u64)
    ensures
        r == token_after(t),
{
    if t == u64::MAX {
        0
    } else {
        t + 1
    }
}

impl ConnectionTasks {
    /// Nothing in flight.
    pub fn new() -> (r: Self)
        ensures
            r == (ConnectionTasks { token: 0, testing: false, connecting: false, test_result_open: false }),
    {
        ConnectionTasks { token: 0, testing: false, connecting: false, test_result_open: false }
    }

    /// A fresh token for a new attempt; results of older attempts no longer
    /// count.
    pub fn next_connection_task_token(&mut self) -> (r: u64)
        ensures
            r == token_after(old(self).token),
            *final(self) == (ConnectionTasks { token: r, ..*old(self) }),
    {
        self.token = next_of(self.token);
        self.token
    }

    /// Stops waiting for every attempt: nothing is running, no result is
    /// shown, and the token moves on so late results are ignored.
    pub fn cancel_connection_activity(&mut self)
        ensures
            *final(self) == (ConnectionTasks {
                token: token_after(old(self).token),
                testing: false,
                connecting: false,
                test_result_open: false,
            }),
    {
        self.testing = false;
        self.connecting = false;
        self.test_result_open = false;
        self.token = next_of(self.token);
    }

    /// Starts a test: its result will be shown; the token of the test.
    pub fn start_test(&mut self) -> (r: u64)
        ensures
            r == token_after(old(self).token),
            *final(self) == (ConnectionTasks {
                token: r,
                testing: true,
                test_result_open: true,
                ..*old(self)
            }),
    {
        self.test_result_open = true;
        let token = self.next_connection_task_token();
        self.testing = true;
        token
    }

    /// Starts a connection attempt; the token of the attempt.
    pub fn start_connect(&mut self) -> (r: u64)
        ensures
            r == token_after(old(self).token),
            *final(self) == (ConnectionTasks { token: r, connecting: true, ..*old(self) }),
    {
        let token = self.next_connection_task_token();
        self.connecting = true;
        token
    }

    /// A test finished: only the latest attempt's result counts.
    pub fn finish_test(&mut self, token: u64) -> (current: bool)
        ensures
            current == (token == old(self).token),
            current ==> *final(self) == (ConnectionTasks { testing: false, ..*old(self) }),
            !current ==> *final(self) == *old(self),
    {
        if token != self.token {
            return false;
        }
        self.testing = false;
        true
    }

    /// A connection attempt finished: only the latest attempt's result
    /// counts.
    pub fn finish_connect(&mut self, token: u64) -> (current: bool)
        ensures
            current == (token == old(self).token),
            current ==> *final(self) == (ConnectionTasks { connecting: false, ..*old(self) }),
            !current ==> *final(self) == *old(self),
    {
        if token != self.token {
            return false;
        }
        self.connecting = false;
        true
    }
}

/// A result that arrives after the activity was cancelled is ignored: the
/// attempt's token is no longer current, so finishing it changes nothing.
pub proof fn cancelled_results_are_ignored(started: ConnectionTasks, token: u64, cancelled: ConnectionTasks)
    requires
        token == started.token,
        cancelled == (ConnectionTasks {
            token: token_after(started.token),
            testing: false,
            connecting: false,
            test_result_open: false,
        }),
    ensures
        token != cancelled.token,
{
}

/// A new attempt always takes a token that differs from the one before, so
/// the token of the attempt it supersedes is no longer the current one.
pub proof fn newer_attempt_supersedes_older(tasks: ConnectionTasks)
    ensures
        token_after(tasks.token) != tasks.token,
{
}

/// The message while a connection attempt runs: the driver and where it
/// goes.
pub open spec fn connecting_text(form: ConnectionForm) -> Seq<char> {
    "Connecting "@ + form.driver.display_name_spec() + " at "@ + target_text(form) + "..."@
}

/// The message while a connection attempt runs.
pub fn connecting_message(form: &ConnectionForm) -> (r: String)
    ensures
        r@ == connecting_text(*form),
{
    let mut m = owned("Connecting ");
    m.append(form.driver.display_name());
    m.append(" at ");
    m.append(connection_target(form).as_str());
    m.append("...");
    m
}

/// The message when a form cannot be tested or saved.
pub fn validation_issue_message(errors: &Vec<String>) -> (r: String)
    ensures
        r@ == "Connection profile has "@ + decimal(errors@.len()) + " validation issue(s)."@,
{
    let mut m = owned("Connection profile has ");
    m.append(usize_to_decimal(errors.len()).as_str());
    m.append(" validation issue(s).");
    m
}

/// The message when a connection attempt failed: how many problems, and
/// each of them.
pub fn connection_failure_message(errors: &Vec<String>) -> (r: String)
    ensures
        r@ == "Connection failed with "@ + decimal(errors@.len()) + " issue(s): "@ + join(
            views(errors@),
            " "@,
        ),
{
    let mut m = owned("Connection failed with ");
    m.append(usize_to_decimal(errors.len()).as_str());
    m.append(" issue(s): ");
    m.append(join_strings(errors, " ").as_str());
    m
}

/// A connection attempt that was started: the connection it opens, the
/// token its result will carry, and the message shown meanwhile.
#[derive(Debug)]
pub struct ConnectionAttempt {
    pub form: ConnectionForm,
    pub token: u64,
    pub status_message: String,
}

/// Starts connecting with the current form: refused while an attempt runs,
/// and while the form does not validate (its messages are kept for the
/// form); otherwise the attempt gets a fresh token.
pub fn connect_current_profile(manager: &mut ConnectionManager, tasks: &mut ConnectionTasks) -> (r:
    Result<ConnectionAttempt, String>)
    ensures
        old(tasks).connecting ==> (r matches Err(m) && m@ == "Connection is already in progress."@)
            && *final(tasks) == *old(tasks) && *final(manager) == *old(manager),
        !old(tasks).connecting ==> {
            let issues = validation_messages(old(manager).form_spec());
            &&& final(manager).form_spec() == old(manager).form_spec()
            &&& final(manager).profiles_spec() == old(manager).profiles_spec()
            &&& final(manager).selected_spec() == old(manager).selected_spec()
            &&& final(manager).next_id_spec() == old(manager).next_id_spec()
            &&& final(manager).errors_spec() == issues
            &&& if issues.len() > 0 {
                &&& r matches Err(m) && m@ == "Connection profile has "@ + decimal(issues.len())
                    + " validation issue(s)."@
                &&& *final(tasks) == *old(tasks)
            } else {
                &&& r matches Ok(a) && a.form == old(manager).form_spec() && a.token == token_after(
                    old(tasks).token,
                ) && a.status_message@ == connecting_text(a.form)
                &&& *final(tasks) == (ConnectionTasks {
                    token: token_after(old(tasks).token),
                    connecting: true,
                    ..*old(tasks)
                })
            }
        },
{
    if tasks.connecting {
        return Err(owned("Connection is already in progress."));
    }
    match manager.current_form_for_test() {
        Err(errors) => Err(validation_issue_message(&errors)),
        Ok(form) => {
            let status_message = connecting_message(&form);
            let token = tasks.start_connect();
            Ok(ConnectionAttempt { form, token, status_message })
        },
    }
}

/// What the end of a connection attempt leads to.
#[derive(Debug)]
pub enum ConnectFinish {
    /// A later attempt or a cancellation superseded it: nothing changes.
    Stale,
    /// It connected: the databases workspace opens and the schema loads;
    /// the message carries the report's summary.
    Connected,
    /// It failed, with this message.
    Failed(String),
}

/// Takes the end of the connection attempt `token`: only the latest attempt
/// counts, and it stops the attempt running.
pub fn finish_connection_attempt(
    tasks: &mut ConnectionTasks,
    token: u64,
    outcome: &Result<ConnectionTestReport, Vec<String>>,
) -> (r: ConnectFinish)
    ensures
        token != old(tasks).token ==> r is Stale && *final(tasks) == *old(tasks),
        token == old(tasks).token ==> *final(tasks) == (ConnectionTasks {
            connecting: false,
            ..*old(tasks)
        }) && match outcome {
            Ok(_) => r is Connected,
            Err(errors) => r matches ConnectFinish::Failed(m) && m@ == "Connection failed with "@
                + decimal(errors@.len()) + " issue(s): "@ + join(views(errors@), " "@),
        },
{
    if !tasks.finish_connect(token) {
        return ConnectFinish::Stale;
    }
    match outcome {
        Ok(_) => ConnectFinish::Connected,
        Err(errors) => ConnectFinish::Failed(connection_failure_message(errors)),
    }
}

/// What confirming the pending deletion of a saved profile did.
#[derive(Debug, Clone, Copy, PartialEq, Eq, Structural)]
pub enum DeletionOutcome {
    /// No deletion was pending: "No connection is pending deletion."
    NothingPending,
    /// The deletion of profile `id` was confirmed. `was_selected`: it was the
    /// current connection, so the database workspace closes. `deleted`: a
    /// profile had that identifier and is gone, so the profiles are saved;
    /// otherwise "Connection profile was not found."
    Confirmed { id: usize, was_selected: bool, deleted: bool },
}

/// Confirms the pending deletion of a saved profile: the pending request is
/// used up, and every profile with its identifier is removed (a deleted
/// current profile leaves a new draft in the form).
pub fn confirm_delete_connection(pending: &mut Option<usize>, manager: &mut ConnectionManager) -> (r:
    DeletionOutcome)
    ensures
        *final(pending) is None,
        match *old(pending) {
            None => r == DeletionOutcome::NothingPending && *final(manager) == *old(manager),
            Some(id) => {
                let deleted = has_id(old(manager).profiles_spec(), id);
                let was_selected = old(manager).selected_spec() == Some(id);
                &&& r == DeletionOutcome::Confirmed { id, was_selected, deleted }
                &&& final(manager).profiles_spec() == without_id(old(manager).profiles_spec(), id)
                &&& final(manager).search_spec() == old(manager).search_spec()
                &&& final(manager).next_id_spec() == old(manager).next_id_spec()
                &&& deleted && was_selected ==> {
                    &&& is_default_form(final(manager).form_spec(), DatabaseDriver::MySql)
                    &&& final(manager).selected_spec() is None
                    &&& final(manager).errors_spec().len() == 0
                }
                &&& !(deleted && was_selected) ==> {
                    &&& final(manager).form_spec() == old(manager).form_spec()
                    &&& final(manager).selected_spec() == old(manager).selected_spec()
                    &&& final(manager).errors_spec() == old(manager).errors_spec()
                }
            },
        },
{
    let id = match pending.take() {
        None => {
            return DeletionOutcome::NothingPending;
        },
        Some(id) => id,
    };
    let was_selected = manager.selected_profile_id() == Some(id);
    let deleted = manager.delete_profile(id);
    DeletionOutcome::Confirmed { id, was_selected, deleted }
}

/// Loads the saved profile `id` into the form: every connection activity
/// stops and a pending profile deletion is dropped; when no profile has the
/// identifier nothing changes.
pub fn select_connection_profile(
    manager: &mut ConnectionManager,
    tasks: &mut ConnectionTasks,
    pending_delete: &mut Option<usize>,
    id: usize,
) -> (r: Result<String, String>)
    ensures
        has_id(old(manager).profiles_spec(), id) ==> (r matches Ok(m) && m@
            == "Connection profile loaded."@) && final(manager).selected_spec() == Some(id) && *final(pending_delete) is None && *final(tasks) == (ConnectionTasks {
            token: token_after(old(tasks).token),
            testing: false,
            connecting: false,
            test_result_open: false,
        }),
        !has_id(old(manager).profiles_spec(), id) ==> (r matches Err(m) && m@
            == "Connection profile was not found."@) && final(manager).selected_spec() == old(manager).selected_spec() && final(manager).form_spec() == old(manager).form_spec()
            && *final(pending_delete) == *old(pending_delete) && *final(tasks) == *old(tasks),
        final(manager).profiles_spec() == old(manager).profiles_spec(),
{
    if manager.select_profile(id) {
        *pending_delete = None;
        tasks.cancel_connection_activity();
        Ok(owned("Connection profile loaded."))
    } else {
        Err(owned("Connection profile was not found."))
    }
}

/// Starts a new connection draft: every connection activity stops and a
/// pending profile deletion is dropped.
pub fn new_connection_profile(
    manager: &mut ConnectionManager,
    tasks: &mut ConnectionTasks,
    pending_delete: &mut Option<usize>,
) -> (r: String)
    ensures
        r@ == "New connection draft created."@,
        is_default_form(final(manager).form_spec(), DatabaseDriver::MySql),
        final(manager).selected_spec() is None,
        final(manager).profiles_spec() == old(manager).profiles_spec(),
        *final(pending_delete) is None,
        *final(tasks) == (ConnectionTasks {
            token: token_after(old(tasks).token),
            testing: false,
            connecting: false,
            test_result_open: false,
        }),
{
    manager.new_profile();
    *pending_delete = None;
    tasks.cancel_connection_activity();
    owned("New connection draft created.")
}

} // verus!
