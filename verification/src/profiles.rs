//! Saved connection profiles and the manager that lists, selects, edits,
//! saves and deletes them.
use vstd::prelude::*;
use crate::connection::{
    field_set, is_default_form, normalized_from, validation_messages, ConnectionField, ConnectionForm,
};
use crate::driver::DatabaseDriver;
use crate::text::{
    contains, contains_str, is_empty_text, lower, owned, to_ascii_lower, trim, trim_str, views,
};

verus! {

/// A saved connection form with its identifier.
#[derive(Debug)]
pub struct ConnectionProfile {
    pub id: usize,
    pub form: ConnectionForm,
}

impl Clone for ConnectionProfile {
    fn clone(&self) -> (r: Self)
        ensures
            r == *self,
    {
        ConnectionProfile { id: self.id, form: self.form.clone() }
    }
}

/// The label of a profile: its name and, in brackets, its driver.
pub open spec fn profile_display(p: ConnectionProfile) -> Seq<char> {
    p.form.name@ + " ("@ + p.form.driver.display_name_spec() + ")"@
}

impl ConnectionProfile {
    /// The profile's name followed by its driver in brackets.
    pub fn display_name(&self) -> (r: String)
        ensures
            r@ == profile_display(*self),
    {
        let mut r = self.form.name.clone();
        r.append(" (");
        r.append(self.form.driver.display_name());
        r.append(")");
        r
    }
}

/// A profile with identifier `id` is in the list.
pub open spec fn has_id(ps: Seq<ConnectionProfile>, id: usize) -> bool {
    exists|i: int| 0 <= i < ps.len() && ps[i].id == id
}

/// The first position of a profile with identifier `id`.
pub open spec fn first_with_id(ps: Seq<ConnectionProfile>, id: usize) -> int {
    choose|i: int|
        0 <= i < ps.len() && ps[i].id == id && forall|j: int| 0 <= j < i ==> ps[j].id != id
}

/// The list without the profiles whose identifier is `id`.
pub open spec fn without_id(ps: Seq<ConnectionProfile>, id: usize) -> Seq<ConnectionProfile>
    decreases ps.len(),
{
    if ps.len() == 0 {
        ps
    } else {
        let rest = without_id(ps.drop_last(), id);
        if ps.last().id == id {
            rest
        } else {
            rest.push(ps.last())
        }
    }
}

/// Whether a profile matches the (trimmed, lower-cased) search text: an empty
/// text matches every profile, any other one its name, location or driver.
pub open spec fn matches_query(p: ConnectionProfile, query: Seq<char>) -> bool {
    ||| query.len() == 0
    ||| contains(lower(p.form.name@), query)
    ||| contains(lower(p.form.location@), query)
    ||| contains(lower(p.form.driver.display_name_spec()), query)
}

/// The profiles that match the search text, in list order.
pub open spec fn matching(ps: Seq<ConnectionProfile>, query: Seq<char>) -> Seq<ConnectionProfile>
    decreases ps.len(),
{
    if ps.len() == 0 {
        ps
    } else {
        let rest = matching(ps.drop_last(), query);
        if matches_query(ps.last(), query) {
            rest.push(ps.last())
        } else {
            rest
        }
    }
}

/// The positions of the profiles whose name no earlier profile carries.
pub open spec fn first_name_positions(ps: Seq<ConnectionProfile>) -> Seq<int>
    decreases ps.len(),
{
    if ps.len() == 0 {
        Seq::<int>::empty()
    } else {
        let rest = first_name_positions(ps.drop_last());
        if forall|j: int| 0 <= j < ps.len() - 1 ==> ps[j].form.name@ != ps.last().form.name@ {
            rest.push(ps.len() - 1)
        } else {
            rest
        }
    }
}

/// `merged` holds, numbered from 1, the first profile of each name in
/// `incoming`, each with its form normalized.
pub open spec fn merged_from(incoming: Seq<ConnectionProfile>, merged: Seq<ConnectionProfile>) -> bool {
    let keep = first_name_positions(incoming);
    &&& merged.len() == keep.len()
    &&& forall|k: int|
        0 <= k < merged.len() ==> {
            &&& (#[trigger] merged[k]).id == k + 1
            &&& normalized_from(incoming[keep[k]].form, merged[k].form)
        }
}

/// The filter of the profile list. Every profile is listed.
#[derive(Debug, Clone, Copy, PartialEq, Eq, Structural)]
enum ConnectionListFilter {
    All,
}

impl ConnectionListFilter {
    fn label(self) -> (r: &'static str)
        ensures
            r@ == "All"@,
    {
        "All"
    }

    fn next(self) -> (r: Self)
        ensures
            r == ConnectionListFilter::All,
    {
        ConnectionListFilter::All
    }
}

/// The saved profiles, the form being edited and the current selection.
#[derive(Debug)]
pub struct ConnectionManager {
    profiles: Vec<ConnectionProfile>,
    form: ConnectionForm,
    selected_profile_id: Option<usize>,
    list_filter: ConnectionListFilter,
    search_query: String,
    validation_errors: Vec<String>,
    next_profile_id: usize,
}

impl Default for ConnectionManager {
    fn default() -> (r: Self)
        ensures
            r.profiles_spec().len() == 0,
            is_default_form(r.form_spec(), DatabaseDriver::MySql),
            r.selected_spec() is None,
            r.search_spec().len() == 0,
            r.errors_spec().len() == 0,
            r.next_id_spec() == 1,
    {
        ConnectionManager {
            profiles: Vec::new(),
            form: ConnectionForm::default(),
            selected_profile_id: None,
            list_filter: ConnectionListFilter::All,
            search_query: String::new(),
            validation_errors: Vec::new(),
            next_profile_id: 1,
        }
    }
}

impl ConnectionManager {
    /// Every saved profile has an identifier below the one the next new
    /// profile gets, so a new profile never reuses one.
    #[verifier::type_invariant]
    spec fn ids_fresh(self) -> bool {
        ids_below(self.profiles@, self.next_profile_id)
    }
}

impl ConnectionManager {
    /// The saved profiles.
    pub closed spec fn profiles_spec(&self) -> Seq<ConnectionProfile> {
        self.profiles@
    }

    /// The form being edited.
    pub closed spec fn form_spec(&self) -> ConnectionForm {
        self.form
    }

    /// The identifier of the selected profile.
    pub closed spec fn selected_spec(&self) -> Option<usize> {
        self.selected_profile_id
    }

    /// The search text of the profile list.
    pub closed spec fn search_spec(&self) -> Seq<char> {
        self.search_query@
    }

    /// The messages of the last failed validation.
    pub closed spec fn errors_spec(&self) -> Seq<Seq<char>> {
        views(self.validation_errors@)
    }

    /// The identifier the next saved profile gets.
    pub closed spec fn next_id_spec(&self) -> usize {
        self.next_profile_id
    }

    /// A manager holding, numbered from 1, the first profile of each name in
    /// `profiles` (forms normalized), and a fresh normalized default form.
    pub fn with_profiles(profiles: Vec<ConnectionProfile>) -> (r: Self)
        requires
            profiles.len() < usize::MAX,
        ensures
            merged_from(profiles@, r.profiles_spec()),
            r.next_id_spec() == r.profiles_spec().len() + 1,
            exists|d: ConnectionForm|
                is_default_form(d, DatabaseDriver::MySql) && normalized_from(d, r.form_spec()),
            r.selected_spec() is None,
            r.search_spec().len() == 0,
            r.errors_spec().len() == 0,
    {
        let mut merged: Vec<ConnectionProfile> = Vec::new();
        let mut next_profile_id: usize = 1;
        let mut i: usize = 0;
        while i < profiles.len()
            invariant
                i <= profiles.len(),
                profiles.len() < usize::MAX,
                merged@.len() == first_name_positions(profiles@.take(i as int)).len(),
                next_profile_id == merged@.len() + 1,
                merged@.len() <= i,
                forall|k: int|
                    0 <= k < merged@.len() ==> {
                        let keep = first_name_positions(profiles@.take(i as int));
                        &&& (#[trigger] merged@[k]).id == k + 1
                        &&& 0 <= keep[k] < i
                        &&& normalized_from(profiles@[keep[k]].form, merged@[k].form)
                    },
            decreases profiles.len() - i,
        {
            let ghost before = profiles@.take(i as int);
            let ghost after = profiles@.take(i + 1);
            proof {
                assert(after.drop_last() == before);
                assert(after.last() == profiles@[i as int]);
            }
            let mut seen = false;
            let mut j: usize = 0;
            while j < i
                invariant
                    i < profiles.len(),
                    j <= i,
                    !seen ==> forall|t: int|
                        0 <= t < j ==> profiles@[t].form.name@ != profiles@[i as int].form.name@,
                    seen ==> exists|t: int|
                        0 <= t < i && profiles@[t].form.name@ == profiles@[i as int].form.name@,
                decreases i - j,
            {
                if profiles[j].form.name == profiles[i].form.name {
                    seen = true;
                }
                j += 1;
            }
            proof {
                assert forall|t: int| 0 <= t < after.len() - 1 implies after[t] == profiles@[t] by {}
            }
            if !seen {
                let mut form = profiles[i].form.clone();
                form.normalize_for_ui();
                merged.push(ConnectionProfile { id: next_profile_id, form });
                next_profile_id += 1;
                proof {
                    assert(first_name_positions(after) == first_name_positions(before).push(
                        i as int,
                    ));
                }
            } else {
                proof {
                    let t = choose|t: int|
                        0 <= t < i && profiles@[t].form.name@ == profiles@[i as int].form.name@;
                    assert(after[t].form.name@ == after.last().form.name@);
                    assert(first_name_positions(after) == first_name_positions(before));
                }
            }
            i += 1;
        }
        proof {
            assert(profiles@.take(profiles.len() as int) == profiles@);
        }
        let mut form = ConnectionForm::default();
        let ghost d = form;
        form.normalize_for_ui();
        ConnectionManager {
            profiles: merged,
            form,
            selected_profile_id: None,
            list_filter: ConnectionListFilter::All,
            search_query: String::new(),
            validation_errors: Vec::new(),
            next_profile_id,
        }
    }

    /// The identifier the next new profile gets; every saved profile has a
    /// smaller one.
    pub fn next_profile_id(&self) -> (r: usize)
        ensures
            r == self.next_id_spec(),
            ids_below(self.profiles_spec(), r),
    {
        proof {
            use_type_invariant(self);
        }
        self.next_profile_id
    }

    /// The saved profiles.
    pub fn profiles(&self) -> (r: &Vec<ConnectionProfile>)
        ensures
            r@ == self.profiles_spec(),
    {
        &self.profiles
    }

    /// The profiles that match the search text, in list order.
    pub fn visible_profiles(&self) -> (r: Vec<&ConnectionProfile>)
        ensures
            r@.map_values(|p: &ConnectionProfile| *p) == matching(
                self.profiles_spec(),
                lower(trim(self.search_spec())),
            ),
    {
        let query = to_ascii_lower(trim_str(self.search_query.as_str()));
        let ghost q = lower(trim(self.search_query@));
        let mut r: Vec<&ConnectionProfile> = Vec::new();
        let mut i: usize = 0;
        while i < self.profiles.len()
            invariant
                i <= self.profiles.len(),
                query@ == q,
                r@.map_values(|p: &ConnectionProfile| *p) == matching(
                    self.profiles@.take(i as int),
                    q,
                ),
            decreases self.profiles.len() - i,
        {
            let p = &self.profiles[i];
            let ghost before = self.profiles@.take(i as int);
            let ghost after = self.profiles@.take(i + 1);
            proof {
                assert(after.drop_last() == before);
                assert(after.last() == *p);
            }
            let visible = is_empty_text(query.as_str()) || {
                let name = to_ascii_lower(p.form.name.as_str());
                contains_str(name.as_str(), query.as_str())
            } || {
                let location = to_ascii_lower(p.form.location.as_str());
                contains_str(location.as_str(), query.as_str())
            } || {
                let driver = to_ascii_lower(p.form.driver.display_name());
                contains_str(driver.as_str(), query.as_str())
            };
            if visible {
                let ghost old_r = r@;
                r.push(p);
                proof {
                    assert(r@.map_values(|p: &ConnectionProfile| *p) =~= old_r.map_values(
                        |p: &ConnectionProfile| *p,
                    ).push(*p));
                }
            }
            i += 1;
        }
        proof {
            assert(self.profiles@.take(self.profiles.len() as int) == self.profiles@);
        }
        r
    }

    /// The search text of the profile list.
    pub fn search_query(&self) -> (r: &str)
        ensures
            r@ == self.search_spec(),
    {
        self.search_query.as_str()
    }

    /// Replaces the search text.
    pub fn set_search_query(&mut self, query: String)
        ensures
            final(self).search_spec() == query@,
            final(self).profiles_spec() == old(self).profiles_spec(),
            final(self).form_spec() == old(self).form_spec(),
            final(self).selected_spec() == old(self).selected_spec(),
            final(self).errors_spec() == old(self).errors_spec(),
            final(self).next_id_spec() == old(self).next_id_spec(),
    {
        proof {
            use_type_invariant(&*self);
        }
        self.search_query = query;
    }

    /// The label of the list filter.
    pub fn list_filter_label(&self) -> (r: &'static str)
        ensures
            r@ == "All"@,
    {
        self.list_filter.label()
    }

    /// Moves the list filter to the next one; with a single filter nothing
    /// changes.
    pub fn toggle_list_filter(&mut self)
        ensures
            final(self).profiles_spec() == old(self).profiles_spec(),
            final(self).form_spec() == old(self).form_spec(),
            final(self).selected_spec() == old(self).selected_spec(),
            final(self).search_spec() == old(self).search_spec(),
            final(self).errors_spec() == old(self).errors_spec(),
            final(self).next_id_spec() == old(self).next_id_spec(),
    {
        proof {
            use_type_invariant(&*self);
        }
        self.list_filter = self.list_filter.next();
    }

    /// The form being edited.
    pub fn form(&self) -> (r: &ConnectionForm)
        ensures
            *r == self.form_spec(),
    {
        &self.form
    }

    /// The identifier of the selected profile.
    pub fn selected_profile_id(&self) -> (r: Option<usize>)
        ensures
            r == self.selected_spec(),
    {
        self.selected_profile_id
    }

    /// Whether the form is a draft of a new profile.
    pub fn is_new_profile(&self) -> (r: bool)
        ensures
            r == (self.selected_spec() is None),
    {
        self.selected_profile_id.is_none()
    }

    /// The label of the first profile with identifier `id`, if any.
    pub fn profile_label(&self, id: usize) -> (r: Option<String>)
        ensures
            match r {
                Some(label) => has_id(self.profiles_spec(), id) && label@ == profile_display(
                    self.profiles_spec()[first_with_id(self.profiles_spec(), id)],
                ),
                None => !has_id(self.profiles_spec(), id),
            },
    {
        match find_profile(&self.profiles, id) {
            Some(i) => Some(self.profiles[i].display_name()),
            None => None,
        }
    }

    /// The messages of the last failed validation.
    pub fn validation_errors(&self) -> (r: &Vec<String>)
        ensures
            views(r@) == self.errors_spec(),
    {
        &self.validation_errors
    }

    /// The label of the selected profile, or `No active connection`.
    pub fn active_label(&self) -> (r: String)
        ensures
            match self.selected_spec() {
                Some(id) => if has_id(self.profiles_spec(), id) {
                    r@ == profile_display(
                        self.profiles_spec()[first_with_id(self.profiles_spec(), id)],
                    )
                } else {
                    r@ == "No active connection"@
                },
                None => r@ == "No active connection"@,
            },
    {
        match self.selected_profile_id {
            Some(id) => match find_profile(&self.profiles, id) {
                Some(i) => self.profiles[i].display_name(),
                None => owned("No active connection"),
            },
            None => owned("No active connection"),
        }
    }

    /// Starts a new profile draft with the default form.
    pub fn new_profile(&mut self)
        ensures
            is_default_form(final(self).form_spec(), DatabaseDriver::MySql),
            final(self).selected_spec() is None,
            final(self).errors_spec().len() == 0,
            final(self).profiles_spec() == old(self).profiles_spec(),
            final(self).search_spec() == old(self).search_spec(),
            final(self).next_id_spec() == old(self).next_id_spec(),
    {
        proof {
            use_type_invariant(&*self);
        }
        self.form = ConnectionForm::default();
        self.selected_profile_id = None;
        self.validation_errors = Vec::new();
    }

    /// Switches the driver of the form and clears the validation messages.
    pub fn set_driver(&mut self, driver: DatabaseDriver)
        ensures
            ({
                let (a, b) = (old(self).form_spec(), final(self).form_spec());
                &&& b.driver == driver
                &&& b.location@ == driver.default_host_spec()
                &&& b.port@ == driver.default_port_spec()
                &&& b.username@ == driver.default_username_spec()
                &&& b.database@ == driver.default_database_spec()
                &&& b.charset@ == driver.default_charset_spec()
                &&& b.collation@ == driver.default_collation_spec()
                &&& b.name == a.name
                &&& b.password == a.password
                &&& b.ssl_enabled == a.ssl_enabled
                &&& b.ssh_tunnel_enabled == a.ssh_tunnel_enabled
                &&& b.timeout_seconds == a.timeout_seconds
                &&& b.notes == a.notes
            }),
            final(self).errors_spec().len() == 0,
            final(self).profiles_spec() == old(self).profiles_spec(),
            final(self).selected_spec() == old(self).selected_spec(),
            final(self).search_spec() == old(self).search_spec(),
            final(self).next_id_spec() == old(self).next_id_spec(),
    {
        proof {
            use_type_invariant(&*self);
        }
        let mut form = self.form.clone();
        form.set_driver(driver);
        self.form = form;
        self.validation_errors = Vec::new();
    }

    /// Stores `value` in a field of the form (as `ConnectionForm::set_field`)
    /// and clears the validation messages.
    pub fn set_field(&mut self, field: ConnectionField, value: String)
        ensures
            field_set(final(self).form_spec(), old(self).form_spec(), field, value),
            final(self).errors_spec().len() == 0,
            final(self).profiles_spec() == old(self).profiles_spec(),
            final(self).selected_spec() == old(self).selected_spec(),
            final(self).search_spec() == old(self).search_spec(),
            final(self).next_id_spec() == old(self).next_id_spec(),
    {
        proof {
            use_type_invariant(&*self);
        }
        let mut form = self.form.clone();
        form.set_field(field, value);
        self.form = form;
        self.validation_errors = Vec::new();
    }

    /// Turns SSL on or off and clears the validation messages.
    pub fn set_ssl_enabled(&mut self, enabled: bool)
        ensures
            final(self).form_spec() == (ConnectionForm { ssl_enabled: enabled, ..old(self).form_spec() }),
            final(self).errors_spec().len() == 0,
            final(self).profiles_spec() == old(self).profiles_spec(),
            final(self).selected_spec() == old(self).selected_spec(),
            final(self).search_spec() == old(self).search_spec(),
            final(self).next_id_spec() == old(self).next_id_spec(),
    {
        proof {
            use_type_invariant(&*self);
        }
        self.form.ssl_enabled = enabled;
        self.validation_errors = Vec::new();
    }

    /// Turns the SSH tunnel on or off and clears the validation messages.
    pub fn set_ssh_tunnel_enabled(&mut self, enabled: bool)
        ensures
            final(self).form_spec() == (ConnectionForm { ssh_tunnel_enabled: enabled, ..old(self).form_spec() }),
            final(self).errors_spec().len() == 0,
            final(self).profiles_spec() == old(self).profiles_spec(),
            final(self).selected_spec() == old(self).selected_spec(),
            final(self).search_spec() == old(self).search_spec(),
            final(self).next_id_spec() == old(self).next_id_spec(),
    {
        proof {
            use_type_invariant(&*self);
        }
        self.form.ssh_tunnel_enabled = enabled;
        self.validation_errors = Vec::new();
    }

    /// Loads the first profile with identifier `id` into the form (normalized)
    /// and selects it; `false`, with nothing changed, when there is none.
    pub fn select_profile(&mut self, id: usize) -> (r: bool)
        ensures
            r == has_id(old(self).profiles_spec(), id),
            r ==> {
                &&& final(self).selected_spec() == Some(id)
                &&& normalized_from(
                    old(self).profiles_spec()[first_with_id(old(self).profiles_spec(), id)].form,
                    final(self).form_spec(),
                )
                &&& final(self).errors_spec().len() == 0
            },
            !r ==> final(self).form_spec() == old(self).form_spec() && final(self).selected_spec()
                == old(self).selected_spec() && final(self).errors_spec() == old(
                self,
            ).errors_spec(),
            final(self).profiles_spec() == old(self).profiles_spec(),
            final(self).search_spec() == old(self).search_spec(),
            final(self).next_id_spec() == old(self).next_id_spec(),
    {
        proof {
            use_type_invariant(&*self);
        }
        match find_profile(&self.profiles, id) {
            Some(i) => {
                let mut form = self.profiles[i].form.clone();
                form.normalize_for_ui();
                self.form = form;
                self.selected_profile_id = Some(id);
                self.validation_errors = Vec::new();
                true
            },
            None => false,
        }
    }

    /// Removes every profile with identifier `id`; a deleted selection starts
    /// a new draft. `false` when no profile had the identifier.
    pub fn delete_profile(&mut self, id: usize) -> (r: bool)
        ensures
            r == has_id(old(self).profiles_spec(), id),
            final(self).profiles_spec() == without_id(old(self).profiles_spec(), id),
            r && old(self).selected_spec() == Some(id) ==> {
                &&& is_default_form(final(self).form_spec(), DatabaseDriver::MySql)
                &&& final(self).selected_spec() is None
                &&& final(self).errors_spec().len() == 0
            },
            !(r && old(self).selected_spec() == Some(id)) ==> {
                &&& final(self).form_spec() == old(self).form_spec()
                &&& final(self).selected_spec() == old(self).selected_spec()
                &&& final(self).errors_spec() == old(self).errors_spec()
            },
            final(self).search_spec() == old(self).search_spec(),
            final(self).next_id_spec() == old(self).next_id_spec(),
    {
        proof {
            use_type_invariant(&*self);
        }
        let mut kept: Vec<ConnectionProfile> = Vec::new();
        let mut found = false;
        let mut i: usize = 0;
        while i < self.profiles.len()
            invariant
                i <= self.profiles.len(),
                kept@ == without_id(self.profiles@.take(i as int), id),
                found == has_id(self.profiles@.take(i as int), id),
            decreases self.profiles.len() - i,
        {
            let ghost before = self.profiles@.take(i as int);
            let ghost after = self.profiles@.take(i + 1);
            proof {
                assert(after.drop_last() == before);
                assert(after.last() == self.profiles@[i as int]);
                if has_id(after, id) && self.profiles@[i as int].id != id {
                    let k = choose|k: int| 0 <= k < after.len() && after[k].id == id;
                    assert(before[k].id == id);
                }
                if has_id(before, id) {
                    let k = choose|k: int| 0 <= k < before.len() && before[k].id == id;
                    assert(after[k].id == id);
                }
            }
            if self.profiles[i].id == id {
                found = true;
            } else {
                kept.push(self.profiles[i].clone());
            }
            i += 1;
        }
        proof {
            assert(self.profiles@.take(self.profiles.len() as int) == self.profiles@);
        }
        proof {
            delete_keeps_ids_below(self.profiles@, id, self.next_profile_id);
        }
        self.profiles = kept;
        if !found {
            return false;
        }
        if self.selected_profile_id == Some(id) {
            self.new_profile();
        }
        true
    }

    /// The validated form, for a connection test; `Err` lists the problems
    /// and keeps them as the validation messages.
    pub fn current_form_for_test(&mut self) -> (r: Result<ConnectionForm, Vec<String>>)
        ensures
            final(self).form_spec() == old(self).form_spec(),
            final(self).profiles_spec() == old(self).profiles_spec(),
            final(self).selected_spec() == old(self).selected_spec(),
            final(self).next_id_spec() == old(self).next_id_spec(),
            final(self).errors_spec() == validation_messages(old(self).form_spec()),
            match r {
                Ok(form) => validation_messages(old(self).form_spec()).len() == 0 && form == old(
                    self,
                ).form_spec(),
                Err(errors) => views(errors@) == validation_messages(old(self).form_spec())
                    && errors.len() > 0,
            },
    {
        proof {
            use_type_invariant(&*self);
        }
        match self.validate_current() {
            Ok(()) => Ok(self.form.clone()),
            Err(errors) => Err(errors),
        }
    }

    /// Validates the form and saves it: into the selected profile when it
    /// exists, else as a new profile that becomes the selection.
    pub fn save_current(&mut self) -> (r: Result<usize, Vec<String>>)
        requires
            old(self).next_id_spec() < usize::MAX,
        ensures
            final(self).form_spec() == old(self).form_spec(),
            final(self).search_spec() == old(self).search_spec(),
            final(self).errors_spec() == validation_messages(old(self).form_spec()),
            match r {
                Err(errors) => {
                    &&& views(errors@) == validation_messages(old(self).form_spec())
                    &&& errors.len() > 0
                    &&& final(self).profiles_spec() == old(self).profiles_spec()
                    &&& final(self).selected_spec() == old(self).selected_spec()
                    &&& final(self).next_id_spec() == old(self).next_id_spec()
                },
                Ok(id) => {
                    let ps = old(self).profiles_spec();
                    &&& validation_messages(old(self).form_spec()).len() == 0
                    &&& final(self).selected_spec() == Some(id)
                    &&& if old(self).selected_spec() == Some(id) && has_id(ps, id) {
                        &&& final(self).profiles_spec() == ps.update(
                            first_with_id(ps, id),
                            ConnectionProfile { id, form: old(self).form_spec() },
                        )
                        &&& final(self).next_id_spec() == old(self).next_id_spec()
                    } else {
                        &&& id == old(self).next_id_spec()
                        &&& !has_id(ps, id)
                        &&& final(self).profiles_spec() == ps.push(
                            ConnectionProfile { id, form: old(self).form_spec() },
                        )
                        &&& final(self).next_id_spec() == old(self).next_id_spec() + 1
                        &&& (old(self).selected_spec() is None || !has_id(
                            ps,
                            old(self).selected_spec()->0,
                        ))
                    }
                },
            },
    {
        proof {
            use_type_invariant(&*self);
        }
        match self.validate_current() {
            Ok(()) => {},
            Err(errors) => {
                return Err(errors);
            },
        }
        if let Some(id) = self.selected_profile_id {
            if let Some(i) = find_profile(&self.profiles, id) {
                let form = self.form.clone();
                let mut profiles: Vec<ConnectionProfile> = Vec::new();
                std::mem::swap(&mut profiles, &mut self.profiles);
                profiles.set(i, ConnectionProfile { id, form });
                self.profiles = profiles;
                return Ok(id);
            }
        }
        let id = self.next_profile_id;
        self.next_profile_id += 1;
        let form = self.form.clone();
        let mut profiles: Vec<ConnectionProfile> = Vec::new();
        std::mem::swap(&mut profiles, &mut self.profiles);
        profiles.push(ConnectionProfile { id, form });
        self.profiles = profiles;
        self.selected_profile_id = Some(id);
        Ok(id)
    }

    fn validate_current(&mut self) -> (r: Result<(), Vec<String>>)
        ensures
            final(self).form_spec() == old(self).form_spec(),
            final(self).profiles_spec() == old(self).profiles_spec(),
            final(self).selected_spec() == old(self).selected_spec(),
            final(self).search_spec() == old(self).search_spec(),
            final(self).next_id_spec() == old(self).next_id_spec(),
            final(self).errors_spec() == validation_messages(old(self).form_spec()),
            match r {
                Ok(()) => validation_messages(old(self).form_spec()).len() == 0,
                Err(errors) => views(errors@) == validation_messages(old(self).form_spec())
                    && errors.len() > 0,
            },
    {
        proof {
            use_type_invariant(&*self);
        }
        match self.form.validate() {
            Ok(()) => {
                self.validation_errors = Vec::new();
                proof {
                    assert(views(self.validation_errors@) =~= Seq::<Seq<char>>::empty());
                }
                Ok(())
            },
            Err(errors) => {
                self.validation_errors = clone_strings(&errors);
                Err(errors)
            },
        }
    }
}

/// The first position of a profile with identifier `id`.
fn find_profile(ps: &Vec<ConnectionProfile>, id: usize) -> (r: Option<usize>)
    ensures
        match r {
            Some(i) => has_id(ps@, id) && i == first_with_id(ps@, id) && i < ps@.len(),
            None => !has_id(ps@, id),
        },
{
    let mut i: usize = 0;
    while i < ps.len()
        invariant
            i <= ps.len(),
            forall|j: int| 0 <= j < i ==> ps@[j].id != id,
        decreases ps.len() - i,
    {
        if ps[i].id == id {
            proof {
                let w = first_with_id(ps@, id);
                assert(0 <= w < ps@.len() && ps@[w].id == id && forall|j: int|
                    0 <= j < w ==> ps@[j].id != id);
                if w < i {
                } else if w > i {
                    assert(ps@[i as int].id == id);
                }
            }
            return Some(i);
        }
        i += 1;
    }
    None
}

/// A copy of a list of strings.
pub fn clone_strings(v: &Vec<String>) -> (r: Vec<String>)
    ensures
        r@ == v@,
{
    let mut r: Vec<String> = Vec::new();
    let mut i: usize = 0;
    while i < v.len()
        invariant
            i <= v.len(),
            r@ == v@.take(i as int),
        decreases v.len() - i,
    {
        r.push(v[i].clone());
        proof {
            assert(v@.take(i + 1) == v@.take(i as int).push(v@[i as int]));
        }
        i += 1;
    }
    proof {
        assert(v@.take(v.len() as int) == v@);
    }
    r
}

/// Where a profile card says the connection goes: location and port for
/// network drivers, the file for SQLite, as they were entered.
pub open spec fn card_location(form: ConnectionForm) -> Seq<char> {
    if form.driver != DatabaseDriver::Sqlite {
        form.location@ + ":"@ + form.port@
    } else {
        form.location@
    }
}

/// The location line of a profile card.
pub fn profile_card_location(form: &ConnectionForm) -> (r: String)
    ensures
        r@ == card_location(*form),
{
    if form.driver.requires_port() {
        let mut r = form.location.clone();
        r.append(":");
        r.append(form.port.as_str());
        r
    } else {
        form.location.clone()
    }
}

/// Every profile has an identifier below `next`, the one the next new
/// profile gets.
pub open spec fn ids_below(ps: Seq<ConnectionProfile>, next: usize) -> bool {
    forall|i: int| 0 <= i < ps.len() ==> #[trigger] ps[i].id < next
}

proof fn lemma_first_with_id(ps: Seq<ConnectionProfile>, id: usize)
    requires
        has_id(ps, id),
    ensures
        0 <= first_with_id(ps, id) < ps.len(),
        ps[first_with_id(ps, id)].id == id,
        forall|j: int| 0 <= j < first_with_id(ps, id) ==> ps[j].id != id,
    decreases ps.len(),
{
    let p = ps.drop_last();
    if has_id(p, id) {
        lemma_first_with_id(p, id);
        let k = first_with_id(p, id);
        assert(ps[k] == p[k]);
        assert forall|j: int| 0 <= j < k implies ps[j].id != id by {
            assert(ps[j] == p[j]);
        }
    } else {
        let n = ps.len() - 1;
        assert forall|j: int| 0 <= j < n implies ps[j].id != id by {
            assert(ps[j] == p[j]);
        }
        let i = choose|i: int| 0 <= i < ps.len() && ps[i].id == id;
        if i < n {
            assert(p[i] == ps[i]);
        }
        assert(ps[n].id == id);
    }
}

/// A save is found again: when every identifier is below the next one,
/// the profile list that a successful save leaves holds the saved form under
/// the identifier the save returned, and every identifier stays below the
/// next one.
pub proof fn saved_form_is_found(
    ps: Seq<ConnectionProfile>,
    next_id: usize,
    selected: Option<usize>,
    form: ConnectionForm,
    id: usize,
    after: Seq<ConnectionProfile>,
)
    requires
        ids_below(ps, next_id),
        next_id < usize::MAX,
        if selected == Some(id) && has_id(ps, id) {
            after == ps.update(first_with_id(ps, id), (ConnectionProfile { id, form }))
        } else {
            id == next_id && after == ps.push((ConnectionProfile { id, form }))
        },
    ensures
        has_id(after, id),
        after[first_with_id(after, id)].form == form,
        ids_below(after, (next_id + 1) as usize),
{
    if selected == Some(id) && has_id(ps, id) {
        lemma_first_with_id(ps, id);
        let k = first_with_id(ps, id);
        assert(after[k].id == id);
        assert forall|j: int| 0 <= j < k implies after[j].id != id by {
            assert(after[j] == ps[j]);
        }
        let w = first_with_id(after, id);
        if w < k {
            assert(after[w] == ps[w]);
        }
        assert(w == k);
        assert forall|i: int| 0 <= i < after.len() implies #[trigger] after[i].id < next_id + 1 by {
            if i != k {
                assert(after[i] == ps[i]);
            }
        }
    } else {
        let n = ps.len() as int;
        assert(after[n].id == id);
        assert forall|j: int| 0 <= j < n implies after[j].id != id by {
            assert(after[j] == ps[j]);
        }
        let w = first_with_id(after, id);
        if w < n {
            assert(after[w] == ps[w]);
        }
        assert(w == n);
        assert forall|i: int| 0 <= i < after.len() implies #[trigger] after[i].id < next_id + 1 by {
            if i < n {
                assert(after[i] == ps[i]);
            }
        }
    }
}

/// A deleted profile is gone: no profile with its identifier is left, and
/// every other profile stays.
pub proof fn deleted_profile_is_gone(ps: Seq<ConnectionProfile>, id: usize)
    ensures
        !has_id(without_id(ps, id), id),
        forall|i: int|
            0 <= i < ps.len() && ps[i].id != id ==> without_id(ps, id).contains(#[trigger] ps[i]),
    decreases ps.len(),
{
    if ps.len() > 0 {
        let p = ps.drop_last();
        deleted_profile_is_gone(p, id);
        let rest = without_id(p, id);
        if ps.last().id != id {
            let r = rest.push(ps.last());
            assert forall|i: int| 0 <= i < r.len() implies r[i].id != id by {
                if i < rest.len() {
                    assert(r[i] == rest[i]);
                    if r[i].id == id {
                        assert(has_id(rest, id));
                    }
                }
            }
            assert forall|i: int|
                0 <= i < ps.len() && ps[i].id != id implies r.contains(#[trigger] ps[i]) by {
                if i < p.len() {
                    assert(ps[i] == p[i]);
                    assert(rest.contains(p[i]));
                    let k = choose|k: int| 0 <= k < rest.len() && rest[k] == p[i];
                    assert(r[k] == p[i]);
                } else {
                    assert(r[rest.len() as int] == ps[i]);
                }
            }
        } else {
            assert forall|i: int|
                0 <= i < ps.len() && ps[i].id != id implies rest.contains(#[trigger] ps[i]) by {
                if i < p.len() {
                    assert(ps[i] == p[i]);
                }
            }
        }
    }
}

/// Loaded profiles are numbered from 1 in order, so every identifier is
/// below the next one to be given.
pub proof fn loaded_ids_below_next(incoming: Seq<ConnectionProfile>, merged: Seq<ConnectionProfile>)
    requires
        merged_from(incoming, merged),
        merged.len() < usize::MAX,
    ensures
        ids_below(merged, (merged.len() + 1) as usize),
{
    assert forall|i: int| 0 <= i < merged.len() implies #[trigger] merged[i].id < merged.len() + 1 by {
        assert(merged[i].id == i + 1);
    }
}

/// Deleting profiles keeps every identifier below the next one.
pub proof fn delete_keeps_ids_below(ps: Seq<ConnectionProfile>, id: usize, next: usize)
    requires
        ids_below(ps, next),
    ensures
        ids_below(without_id(ps, id), next),
    decreases ps.len(),
{
    if ps.len() > 0 {
        let p = ps.drop_last();
        assert forall|i: int| 0 <= i < p.len() implies #[trigger] p[i].id < next by {
            assert(p[i] == ps[i]);
        }
        delete_keeps_ids_below(p, id, next);
        let rest = without_id(p, id);
        if ps.last().id != id {
            assert forall|i: int| 0 <= i < rest.len() + 1 implies #[trigger] rest.push(
                ps.last(),
            )[i].id < next by {
                if i < rest.len() {
                    assert(rest.push(ps.last())[i] == rest[i]);
                }
            }
        }
    }
}

/// Some kept position carries the name of the profile at `i`.
spec fn name_kept(ps: Seq<ConnectionProfile>, keep: Seq<int>, i: int) -> bool {
    exists|k: int| 0 <= k < keep.len() && 0 <= keep[k] < ps.len() && ps[keep[k]].form.name@ == ps[i].form.name@
}

/// The kept positions lie in the list.
spec fn kept_in_range(ps: Seq<ConnectionProfile>, keep: Seq<int>) -> bool {
    forall|k: int| 0 <= k < keep.len() ==> 0 <= #[trigger] keep[k] < ps.len()
}

/// The positions `first_name_positions` keeps lie in the list, and every
/// name of the list is carried by one of them.
proof fn lemma_first_names_cover(ps: Seq<ConnectionProfile>)
    ensures
        kept_in_range(ps, first_name_positions(ps)),
        forall|i: int| 0 <= i < ps.len() ==> #[trigger] name_kept(ps, first_name_positions(ps), i),
    decreases ps.len(),
{
    if ps.len() > 0 {
        let p = ps.drop_last();
        lemma_first_names_cover(p);
        let kp = first_name_positions(p);
        let keep = first_name_positions(ps);
        let n = ps.len() - 1;
        let fresh = forall|j: int| 0 <= j < n ==> ps[j].form.name@ != ps.last().form.name@;
        assert(keep == if fresh { kp.push(n) } else { kp });
        assert forall|k: int| 0 <= k < keep.len() implies 0 <= #[trigger] keep[k] < ps.len() by {
            if k < kp.len() {
                assert(keep[k] == kp[k]);
            }
        }
        assert forall|i: int| 0 <= i < ps.len() implies #[trigger] name_kept(ps, keep, i) by {
            if i < n {
                assert(name_kept(p, kp, i));
                let k = choose|k: int|
                    0 <= k < kp.len() && 0 <= kp[k] < p.len() && p[kp[k]].form.name@ == p[i].form.name@;
                assert(keep[k] == kp[k]);
                assert(p[kp[k]] == ps[kp[k]]);
                assert(p[i] == ps[i]);
            } else if fresh {
                assert(keep[kp.len() as int] == n);
            } else {
                let j = choose|j: int| 0 <= j < n && ps[j].form.name@ == ps.last().form.name@;
                assert(p[j] == ps[j]);
                assert(name_kept(p, kp, j));
                let k = choose|k: int|
                    0 <= k < kp.len() && 0 <= kp[k] < p.len() && p[kp[k]].form.name@ == p[j].form.name@;
                assert(keep[k] == kp[k]);
                assert(p[kp[k]] == ps[kp[k]]);
            }
        }
    }
}

/// Loading profiles loses no name: every name of the incoming profiles is
/// the name of a loaded profile.
pub proof fn every_loaded_name_is_kept(incoming: Seq<ConnectionProfile>, merged: Seq<ConnectionProfile>)
    requires
        merged_from(incoming, merged),
    ensures
        forall|i: int|
            0 <= i < incoming.len() ==> exists|k: int|
                0 <= k < merged.len() && merged[k].form.name@ == (#[trigger] incoming[i]).form.name@,
{
    lemma_first_names_cover(incoming);
    let keep = first_name_positions(incoming);
    assert forall|i: int| 0 <= i < incoming.len() implies exists|k: int|
        0 <= k < merged.len() && merged[k].form.name@ == (#[trigger] incoming[i]).form.name@ by {
        assert(name_kept(incoming, keep, i));
        let k = choose|k: int|
            0 <= k < keep.len() && 0 <= keep[k] < incoming.len() && incoming[keep[k]].form.name@
                == incoming[i].form.name@;
        assert(normalized_from(incoming[keep[k]].form, merged[k].form));
        assert(merged[k].form.name@ == incoming[i].form.name@);
    }
}

/// No earlier profile carries the name of the profile at `p`.
spec fn first_of_name(ps: Seq<ConnectionProfile>, p: int) -> bool {
    forall|j: int| 0 <= j < p ==> ps[j].form.name@ != ps[p].form.name@
}

/// The kept positions rise strictly, and each is the first of its name.
proof fn lemma_first_names_distinct(ps: Seq<ConnectionProfile>)
    ensures
        kept_in_range(ps, first_name_positions(ps)),
        forall|a: int, b: int|
            0 <= a < b < first_name_positions(ps).len() ==> first_name_positions(ps)[a]
                < first_name_positions(ps)[b],
        forall|k: int|
            0 <= k < first_name_positions(ps).len() ==> #[trigger] first_of_name(
                ps,
                first_name_positions(ps)[k],
            ),
    decreases ps.len(),
{
    lemma_first_names_cover(ps);
    if ps.len() > 0 {
        let p = ps.drop_last();
        lemma_first_names_distinct(p);
        lemma_first_names_cover(p);
        let kp = first_name_positions(p);
        let keep = first_name_positions(ps);
        let n = ps.len() - 1;
        let fresh = forall|j: int| 0 <= j < n ==> ps[j].form.name@ != ps.last().form.name@;
        assert(keep == if fresh { kp.push(n) } else { kp });
        assert forall|k: int| 0 <= k < keep.len() implies #[trigger] first_of_name(ps, keep[k]) by {
            if k < kp.len() {
                assert(keep[k] == kp[k]);
                assert(first_of_name(p, kp[k]));
                assert(0 <= kp[k] < p.len());
                assert forall|j: int| 0 <= j < kp[k] implies (#[trigger] ps[j]).form.name@ != ps[kp[k]].form.name@ by {
                    assert(p[j] == ps[j]);
                    assert(p[kp[k]] == ps[kp[k]]);
                }
            } else {
                assert(keep[k] == n);
            }
        }
        assert forall|a: int, b: int| 0 <= a < b < keep.len() implies keep[a] < keep[b] by {
            if b < kp.len() {
                assert(keep[a] == kp[a] && keep[b] == kp[b]);
            } else {
                assert(keep[a] == kp[a]);
                assert(0 <= kp[a] < p.len());
            }
        }
    }
}

/// Loaded profiles are told apart: no two share an identifier or a name.
pub proof fn loaded_profiles_are_distinct(incoming: Seq<ConnectionProfile>, merged: Seq<ConnectionProfile>)
    requires
        merged_from(incoming, merged),
    ensures
        forall|a: int, b: int|
            0 <= a < b < merged.len() ==> merged[a].id != merged[b].id && merged[a].form.name@
                != merged[b].form.name@,
{
    lemma_first_names_distinct(incoming);
    let keep = first_name_positions(incoming);
    assert forall|a: int, b: int| 0 <= a < b < merged.len() implies merged[a].id != merged[b].id
        && merged[a].form.name@ != merged[b].form.name@ by {
        assert(merged[a].id == a + 1 && merged[b].id == b + 1);
        assert(normalized_from(incoming[keep[a]].form, merged[a].form));
        assert(normalized_from(incoming[keep[b]].form, merged[b].form));
        assert(keep[a] < keep[b]);
        assert(first_of_name(incoming, keep[b]));
    }
}

/// The visible profiles are the profiles that match the search text, in
/// list order; with an empty search text every profile is visible.
pub proof fn visible_profiles_filter(ps: Seq<ConnectionProfile>, query: Seq<char>)
    ensures
        matching(ps, query) == ps.filter(|p: ConnectionProfile| matches_query(p, query)),
        query.len() == 0 ==> matching(ps, query) == ps,
    decreases ps.len(),
{
    reveal(Seq::filter);
    if ps.len() > 0 {
        visible_profiles_filter(ps.drop_last(), query);
        if query.len() == 0 {
            assert(ps.drop_last().push(ps.last()) == ps);
        }
    }
}

} // verus!
