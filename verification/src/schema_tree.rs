//! The state of the schema tree beside the editor: which rows are open,
//! which tables are loading their fields and which row shows its actions,
//! and how each event of the tree changes it.
use vstd::prelude::*;
use std::collections::BTreeSet;
use vstd::hash_set::StringHashSet;
use crate::text::{decimal, join, join_strings, owned, str_eq, usize_to_decimal, views};
use crate::workspace::{
    has_children, shift_schema_index_after, shift_schema_indices_after, shifted_position,
    QueryWorkspace, SchemaObject, SchemaObjectKind,
};

verus! {

broadcast use vstd::std_specs::btree::group_btree_axioms, vstd::laws_cmp::group_laws_cmp;

/// Rows of the tree that open and close: tables, views and collections.
pub open spec fn expandable(kind: SchemaObjectKind) -> bool {
    kind == SchemaObjectKind::Table || kind == SchemaObjectKind::View || kind
        == SchemaObjectKind::Collection
}

/// Rows whose fields are loaded when they first open: tables and views.
pub open spec fn loads_fields(kind: SchemaObjectKind) -> bool {
    kind == SchemaObjectKind::Table || kind == SchemaObjectKind::View
}

/// Rows with an action menu: databases, tables, views and collections.
pub open spec fn has_menu(kind: SchemaObjectKind) -> bool {
    kind == SchemaObjectKind::Database || expandable(kind)
}

/// The row at `index` already shows rows nested under it.
pub open spec fn shows_children(objects: Seq<SchemaObject>, index: usize) -> bool {
    has_children(objects, index as int)
}

/// The row at `i` is a table or view named `name`.
pub open spec fn field_parent_at(objects: Seq<SchemaObject>, name: Seq<char>, i: int) -> bool {
    0 <= i < objects.len() && objects[i].name@ == name && loads_fields(objects[i].kind)
}

/// The first row that is a table or view named `name`, if any.
pub open spec fn first_field_parent(objects: Seq<SchemaObject>, name: Seq<char>) -> Option<int> {
    if exists|i: int| field_parent_at(objects, name, i) {
        Some(
            choose|i: int|
                field_parent_at(objects, name, i) && forall|j: int|
                    0 <= j < i ==> !field_parent_at(objects, name, j),
        )
    } else {
        None
    }
}

/// The tree once loaded fields are put under the row at `index`: nothing
/// changes when there are none or the row shows children already.
pub open spec fn with_fields(objects: Seq<SchemaObject>, index: int, fields: Seq<SchemaObject>) -> Seq<
    SchemaObject,
> {
    if fields.len() == 0 || has_children(objects, index) {
        objects
    } else {
        objects.take(index + 1) + fields + objects.skip(index + 1)
    }
}

/// How many rows loading `fields` under the row at `index` inserts.
pub open spec fn fields_inserted(objects: Seq<SchemaObject>, index: int, fields: Seq<SchemaObject>) -> nat {
    if fields.len() == 0 || has_children(objects, index) {
        0
    } else {
        fields.len()
    }
}

/// The message once the fields of a row are loaded.
pub open spec fn fields_loaded_text(count: nat, inserted: nat) -> Seq<char> {
    if inserted == 0 && count > 0 {
        "Fields are already loaded."@
    } else {
        "Loaded "@ + decimal(count) + " field(s)."@
    }
}

/// The message once loading the fields of a row failed.
pub open spec fn fields_failed_text(messages: Seq<Seq<char>>) -> Seq<char> {
    if messages.len() == 0 {
        "Field loading failed."@
    } else {
        "Field loading failed: "@ + join(messages, " "@)
    }
}

/// Every remembered position moved past `offset` rows inserted after
/// `index`.
pub open spec fn shifted_set(positions: Set<usize>, index: usize, offset: usize) -> Set<usize> {
    positions.map(|i: usize| shifted_position(i, index, offset))
}

/// A remembered position moved past `offset` rows inserted after `index`.
pub open spec fn shifted_option(position: Option<usize>, index: usize, offset: usize) -> Option<usize> {
    match position {
        Some(p) => Some(shifted_position(p, index, offset)),
        None => None,
    }
}

/// The open rows once the row at `index` is toggled.
pub open spec fn toggled(expanded: Set<usize>, index: usize) -> Set<usize> {
    if expanded.contains(index) {
        expanded.remove(index)
    } else {
        expanded.insert(index)
    }
}

/// The open row that loaded fields belong to: the first table or view with
/// that name, when it is open.
pub open spec fn open_field_parent(expanded: Set<usize>, objects: Seq<SchemaObject>, name: Seq<char>) -> Option<
    usize,
> {
    match first_field_parent(objects, name) {
        Some(i) => if expanded.contains(i as usize) {
            Some(i as usize)
        } else {
            None
        },
        None => None,
    }
}

/// Toggling a row twice leaves the open rows as they were: opening a row
/// and closing it again, or closing it and opening it again.
pub proof fn toggling_twice_restores_open_rows(expanded: Set<usize>, index: usize)
    ensures
        toggled(toggled(expanded, index), index) == expanded,
{
    if expanded.contains(index) {
        assert(expanded.remove(index).insert(index) =~= expanded);
    } else {
        assert(expanded.insert(index).remove(index) =~= expanded);
    }
}

/// What toggling a row of the tree did.
#[derive(Debug, Clone, Copy, PartialEq, Eq, Structural)]
pub enum SchemaToggle {
    /// No row has that position.
    Missing,
    /// The row neither opens nor closes.
    NotExpandable,
    /// The row was open and is now closed.
    Collapsed,
    /// The row is now open; its fields are to be loaded when `load_fields`.
    Expanded { load_fields: bool },
}

/// Which rows of the tree are open, which tables load their fields, and
/// which row shows its action menu.
pub struct SchemaTree {
    expanded: BTreeSet<usize>,
    loading_fields: StringHashSet,
    menu: Option<usize>,
}

impl SchemaTree {
    /// The positions of the open rows.
    pub closed spec fn expanded_view(&self) -> Set<usize> {
        self.expanded@
    }

    /// The names of the tables whose fields are loading.
    pub closed spec fn loading_view(&self) -> Set<Seq<char>> {
        self.loading_fields@
    }

    /// The position of the row whose action menu is shown.
    pub closed spec fn menu_view(&self) -> Option<usize> {
        self.menu
    }

    /// Every remembered position is a row of a tree of `rows` rows.
    pub open spec fn fits(&self, rows: nat) -> bool {
        &&& forall|i: usize| #[trigger] self.expanded_view().contains(i) ==> i < rows
        &&& self.menu_view() matches Some(m) ==> m < rows
    }

    /// A tree with no open row, nothing loading and no menu.
    pub fn new() -> (r: Self)
        ensures
            r.expanded_view() == Set::<usize>::empty(),
            r.loading_view() == Set::<Seq<char>>::empty(),
            r.menu_view() is None,
    {
        SchemaTree { expanded: BTreeSet::new(), loading_fields: StringHashSet::new(), menu: None }
    }

    /// Forgets every open row, load and menu, as when the schema is loaded
    /// anew.
    pub fn clear(&mut self)
        ensures
            final(self).expanded_view() == Set::<usize>::empty(),
            final(self).loading_view() == Set::<Seq<char>>::empty(),
            final(self).menu_view() is None,
    {
        *self = SchemaTree::new();
    }

    /// Whether the row at `index` is open.
    pub fn is_expanded(&self, index: usize) -> (r: bool)
        ensures
            r == self.expanded_view().contains(index),
    {
        self.expanded.contains(&index)
    }

    /// The position of the row whose action menu is shown.
    pub fn menu(&self) -> (r: Option<usize>)
        ensures
            r == self.menu_view(),
    {
        self.menu
    }

    /// Whether the fields of the table `name` are loading.
    pub fn is_loading(&self, name: &str) -> (r: bool)
        ensures
            r == self.loading_view().contains(name@),
    {
        self.loading_fields.contains(name)
    }

    /// Opens or closes the action menu of the row at `index`, for rows that
    /// have one, and says so; a row that is not there is reported.
    pub fn toggle_menu(&mut self, objects: &Vec<SchemaObject>, index: usize) -> (r: Option<String>)
        ensures
            final(self).expanded_view() == old(self).expanded_view(),
            final(self).loading_view() == old(self).loading_view(),
            index >= objects@.len() ==> (r matches Some(m) && m@ == "Schema object was not found."@)
                && final(self).menu_view() == old(self).menu_view(),
            index < objects@.len() && has_menu(objects@[index as int].kind) ==> (r matches Some(m)
                && m@ == "Object actions opened for "@ + objects@[index as int].name@ + "."@)
                && final(self).menu_view() == if old(self).menu_view() == Some(index) {
                None
            } else {
                Some(index)
            },
            index < objects@.len() && !has_menu(objects@[index as int].kind) ==> r is None
                && final(self).menu_view() == old(self).menu_view(),
            old(self).fits(objects@.len()) ==> final(self).fits(objects@.len()),
    {
        if index >= objects.len() {
            return Some(owned("Schema object was not found."));
        }
        let ghost rows = objects@.len();
        let ghost before = self.expanded@;
        let object = &objects[index];
        match object.kind {
            SchemaObjectKind::Database | SchemaObjectKind::Table | SchemaObjectKind::View
            | SchemaObjectKind::Collection => {
                self.menu = if self.menu == Some(index) {
                    None
                } else {
                    Some(index)
                };
                assert(self.expanded@ == before);
                assert(old(self).fits(rows) ==> self.fits(rows)) by {
                    if old(self).fits(rows) {
                        assert forall|i: usize| #[trigger] self.expanded_view().contains(i) implies i
                            < rows by {
                            assert(old(self).expanded_view().contains(i));
                        }
                    }
                }
                let mut m = owned("Object actions opened for ");
                m.append(object.name.as_str());
                m.append(".");
                Some(m)
            },
            _ => None,
        }
    }

    /// Opens or closes the row at `index`. Only tables, views and
    /// collections open; opening one closes the action menu, and a table or
    /// view that shows no fields yet and is not loading them starts loading
    /// them, which the result asks of the caller.
    pub fn toggle_expanded(&mut self, objects: &Vec<SchemaObject>, index: usize) -> (r: SchemaToggle)
        ensures
            index >= objects@.len() ==> r == SchemaToggle::Missing && final(self).expanded_view()
                == old(self).expanded_view() && final(self).loading_view() == old(
                self,
            ).loading_view() && final(self).menu_view() == old(self).menu_view(),
            index < objects@.len() && !expandable(objects@[index as int].kind) ==> r
                == SchemaToggle::NotExpandable && final(self).expanded_view() == old(
                self,
            ).expanded_view() && final(self).loading_view() == old(self).loading_view()
                && final(self).menu_view() == old(self).menu_view(),
            index < objects@.len() && expandable(objects@[index as int].kind) ==> {
                let object = objects@[index as int];
                let load = !old(self).expanded_view().contains(index) && loads_fields(object.kind)
                    && !shows_children(objects@, index) && !old(self).loading_view().contains(
                    object.name@,
                );
                &&& final(self).expanded_view() == toggled(old(self).expanded_view(), index)
                &&& final(self).menu_view() is None
                &&& r == if old(self).expanded_view().contains(index) {
                    SchemaToggle::Collapsed
                } else {
                    SchemaToggle::Expanded { load_fields: load }
                }
                &&& final(self).loading_view() == if load {
                    old(self).loading_view().insert(object.name@)
                } else {
                    old(self).loading_view()
                }
            },
            old(self).fits(objects@.len()) ==> final(self).fits(objects@.len()),
    {
        if index >= objects.len() {
            return SchemaToggle::Missing;
        }
        let object = &objects[index];
        let kind = object.kind;
        match kind {
            SchemaObjectKind::Table | SchemaObjectKind::View | SchemaObjectKind::Collection => {},
            _ => {
                return SchemaToggle::NotExpandable;
            },
        }
        let ghost before = self.expanded@;
        let ghost rows = objects@.len();
        if self.expanded.contains(&index) {
            self.expanded.remove(&index);
            self.menu = None;
            proof {
                if old(self).fits(rows) {
                    assert forall|i: usize| #[trigger] self.expanded_view().contains(i) implies i
                        < rows by {
                        assert(old(self).expanded_view().contains(i));
                    }
                }
            }
            return SchemaToggle::Collapsed;
        }
        self.expanded.insert(index);
        self.menu = None;
        proof {
            if old(self).fits(rows) {
                assert forall|i: usize| #[trigger] self.expanded_view().contains(i) implies i < rows by {
                    if i != index {
                        assert(old(self).expanded_view().contains(i));
                    }
                }
            }
        }
        let fields_row = match kind {
            SchemaObjectKind::Table | SchemaObjectKind::View => true,
            _ => false,
        };
        let shown = if index + 1 < objects.len() {
            objects[index + 1].depth > objects[index].depth
        } else {
            false
        };
        if fields_row && !shown {
            let ghost opened = self.expanded@;
            let started = self.loading_fields.insert(owned(object.name.as_str()));
            assert(self.expanded@ == opened && self.menu is None);
            proof {
                if old(self).fits(rows) {
                    assert forall|i: usize| #[trigger] self.expanded_view().contains(i) implies i
                        < rows by {
                        assert(opened.contains(i));
                        if i != index {
                            assert(old(self).expanded_view().contains(i));
                        }
                    }
                }
            }
            SchemaToggle::Expanded { load_fields: started }
        } else {
            SchemaToggle::Expanded { load_fields: false }
        }
    }

    /// Takes the outcome of loading the fields of the table or view
    /// `object_name`: the name no longer loads; when its row is still open,
    /// loaded fields go under it (rows after it move down) and a failure
    /// closes it, with a message either way. When no such row is open,
    /// nothing else changes and there is no message.
    pub fn fields_loaded(
        &mut self,
        workspace: &mut QueryWorkspace,
        object_name: &str,
        outcome: Result<Vec<SchemaObject>, Vec<String>>,
    ) -> (r: Option<String>)
        requires
            old(self).fits(old(workspace).objects_view().len()),
        ensures
            final(self).fits(final(workspace).objects_view().len()),
            final(self).loading_view() == old(self).loading_view().remove(object_name@),
            final(workspace).sql_view() == old(workspace).sql_view(),
            final(workspace).last_result_view() == old(workspace).last_result_view(),
            final(workspace).messages_view() == old(workspace).messages_view(),
            final(workspace).schema_message_view() == old(workspace).schema_message_view(),
            ({
                let objects = old(workspace).objects_view();
                match open_field_parent(old(self).expanded_view(), objects, object_name@) {
                    None => {
                        &&& r is None
                        &&& final(workspace).objects_view() == objects
                        &&& final(self).expanded_view() == old(self).expanded_view()
                        &&& final(self).menu_view() == old(self).menu_view()
                    },
                    Some(i) => match outcome {
                        Ok(fields) => {
                            let inserted = fields_inserted(objects, i as int, fields@);
                            &&& final(workspace).objects_view() == with_fields(objects, i as int, fields@)
                            &&& final(self).expanded_view() == shifted_set(
                                old(self).expanded_view(),
                                i,
                                inserted as usize,
                            )
                            &&& final(self).menu_view() == shifted_option(
                                old(self).menu_view(),
                                i,
                                inserted as usize,
                            )
                            &&& r matches Some(m) && m@ == fields_loaded_text(fields@.len(), inserted)
                        },
                        Err(messages) => {
                            &&& final(workspace).objects_view() == objects
                            &&& final(self).expanded_view() == old(self).expanded_view().remove(i)
                            &&& final(self).menu_view() == old(self).menu_view()
                            &&& r matches Some(m) && m@ == fields_failed_text(views(messages@))
                        },
                    },
                }
            }),
    {
        let ghost objects = workspace.objects_view();
        let ghost rows = objects.len();
        self.loading_fields.remove(object_name);
        let found = find_field_parent(workspace.schema_objects(), object_name);
        let index = match found {
            Some(i) => i,
            None => {
                return None;
            },
        };
        if !self.expanded.contains(&index) {
            return None;
        }
        match outcome {
            Ok(fields) => {
                let count = fields.len();
                let ghost fv = fields@;
                let inserted = workspace.insert_schema_children(index, fields);
                let total = workspace.schema_objects().len();
                assert(total == rows + inserted);
                let ghost before = self.expanded@;
                let ghost menu_before = self.menu;
                proof {
                    assert forall|i: usize| #[trigger] before.contains(i) && i > index implies i
                        + inserted <= usize::MAX by {
                        assert(self.expanded_view().contains(i));
                    }
                }
                shift_schema_indices_after(&mut self.expanded, index, inserted);
                shift_schema_index_after(&mut self.menu, index, inserted);
                proof {
                    assert forall|e: usize| #[trigger] self.expanded_view().contains(e) implies e
                        < total by {
                        let i = choose|i: usize|
                            before.contains(i) && shifted_position(i, index, inserted) == e;
                        assert(old(self).expanded_view().contains(i));
                    }
                }
                let m = if inserted == 0 && count > 0 {
                    owned("Fields are already loaded.")
                } else {
                    let mut m = owned("Loaded ");
                    m.append(usize_to_decimal(count).as_str());
                    m.append(" field(s).");
                    m
                };
                Some(m)
            },
            Err(messages) => {
                self.expanded.remove(&index);
                proof {
                    assert forall|e: usize| #[trigger] self.expanded_view().contains(e) implies e
                        < rows by {
                        assert(old(self).expanded_view().contains(e));
                    }
                }
                if messages.len() == 0 {
                    Some(owned("Field loading failed."))
                } else {
                    let mut m = owned("Field loading failed: ");
                    m.append(join_strings(&messages, " ").as_str());
                    Some(m)
                }
            },
        }
    }
}

/// The first table or view named `name`, if any.
pub fn find_field_parent(objects: &Vec<SchemaObject>, name: &str) -> (r: Option<usize>)
    ensures
        match r {
            Some(i) => first_field_parent(objects@, name@) == Some(i as int),
            None => first_field_parent(objects@, name@) is None,
        },
{
    let mut i: usize = 0;
    while i < objects.len()
        invariant
            i <= objects@.len(),
            forall|j: int| 0 <= j < i ==> !field_parent_at(objects@, name@, j),
        decreases objects.len() - i,
    {
        let object = &objects[i];
        let fields_row = match object.kind {
            SchemaObjectKind::Table | SchemaObjectKind::View => true,
            _ => false,
        };
        if fields_row && str_eq(object.name.as_str(), name) {
            proof {
                let k = i as int;
                assert(field_parent_at(objects@, name@, k));
                assert(forall|j: int| 0 <= j < k ==> !field_parent_at(objects@, name@, j));
                let c = choose|c: int|
                    field_parent_at(objects@, name@, c) && forall|j: int|
                        0 <= j < c ==> !field_parent_at(objects@, name@, j);
                assert(field_parent_at(objects@, name@, c));
                if c < k {
                    assert(!field_parent_at(objects@, name@, c));
                }
                if k < c {
                    assert(!field_parent_at(objects@, name@, k));
                }
            }
            return Some(i);
        }
        i += 1;
    }
    None
}

} // verus!
