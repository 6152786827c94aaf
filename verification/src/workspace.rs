//! The query workspace: the SQL being edited, the last result and its
//! messages, and the schema tree shown beside the editor.
use vstd::prelude::*;
use std::collections::BTreeSet;
use crate::results::QueryResult;
use crate::connection::{validation_messages, ConnectionForm};
use crate::details::{source_for, DetailsSource};
use crate::driver::DatabaseDriver;
use crate::text::{
    chars_of, decimal, eq_ci, eq_ignore_ascii_case, is_empty_text, join, join_strings, lemma_split_nonempty,
    owned, push_char, split, split_char, str_eq, trim, trim_str, usize_to_decimal, views,
};

verus! {

/// The kind of an object of the schema tree.
#[derive(Debug, Clone, Copy, PartialEq, Eq, Structural)]
pub enum SchemaObjectKind {
    Database,
    Table,
    View,
    Index,
    Collection,
    Column,
}

/// One row of the schema tree: an object and how deep it is nested.
#[derive(Debug)]
pub struct SchemaObject {
    pub kind: SchemaObjectKind,
    pub name: String,
    pub depth: usize,
}

impl Clone for SchemaObject {
    fn clone(&self) -> (r: Self)
        ensures
            r == *self,
    {
        SchemaObject { kind: self.kind, name: self.name.clone(), depth: self.depth }
    }
}

impl SchemaObject {
    pub fn new(kind: SchemaObjectKind, name: String, depth: usize) -> (r: Self)
        ensures
            r.kind == kind,
            r.name == name,
            r.depth == depth,
    {
        SchemaObject { kind, name, depth }
    }

    /// How deep the object is nested; databases are at depth 0.
    pub fn depth(&self) -> (r: usize)
        ensures
            r == self.depth,
    {
        self.depth
    }
}

/// The marker in front of a tree row: `v` for an open database or an
/// expanded table, view or collection, `>` for other containers, `-` for a
/// column.
pub open spec fn tree_marker(kind: SchemaObjectKind, active: bool, expanded: bool) -> Seq<char> {
    match kind {
        SchemaObjectKind::Database => if active {
            "v"@
        } else {
            ">"@
        },
        SchemaObjectKind::Table | SchemaObjectKind::View | SchemaObjectKind::Collection => if expanded {
            "v"@
        } else {
            ">"@
        },
        SchemaObjectKind::Index => ">"@,
        SchemaObjectKind::Column => "-"@,
    }
}

/// The marker of a schema tree row.
pub fn query_tree_marker(kind: SchemaObjectKind, active: bool, expanded: bool) -> (r: &'static str)
    ensures
        r@ == tree_marker(kind, active, expanded),
{
    match kind {
        SchemaObjectKind::Database => if active {
            "v"
        } else {
            ">"
        },
        SchemaObjectKind::Table | SchemaObjectKind::View | SchemaObjectKind::Collection => if expanded {
            "v"
        } else {
            ">"
        },
        SchemaObjectKind::Index => ">",
        SchemaObjectKind::Column => "-",
    }
}

/// What running a query gave: a result, or the messages of its failure.
#[derive(Debug)]
pub enum QueryExecutionOutcome {
    Success(QueryResult),
    Failure(Vec<String>),
}

/// What loading the schema gave: the objects, or the messages of its
/// failure.
#[derive(Debug)]
pub enum SchemaLoadOutcome {
    Success(Vec<SchemaObject>),
    Failure(Vec<String>),
}

/// What the status bar shows after a query.
#[derive(Debug)]
pub struct QueryExecutionSummary {
    pub row_count: usize,
    pub elapsed_ms: Option<u128>,
    pub status_message: String,
}

/// What the status bar shows after a schema refresh.
#[derive(Debug)]
pub struct SchemaLoadSummary {
    pub status_message: String,
}

/// The query editor with its last result and the schema tree.
#[derive(Debug)]
pub struct QueryWorkspace {
    sql: String,
    last_result: Option<QueryResult>,
    messages: Vec<String>,
    schema_objects: Vec<SchemaObject>,
    schema_message: String,
}

/// The SQL a new workspace starts with.
pub open spec fn default_sql() -> Seq<char> {
    "select 1 as ok;"@
}

impl Default for QueryWorkspace {
    /// A workspace with the default query, no result and no schema.
    fn default() -> (r: Self)
        ensures
            r.sql_view() == default_sql(),
            r.last_result_view() is None,
            r.messages_view() == seq!["Ready to execute a query."@],
            r.objects_view().len() == 0,
            r.schema_message_view() == "Schema not loaded."@,
    {
        let mut messages: Vec<String> = Vec::new();
        messages.push(owned("Ready to execute a query."));
        let r = QueryWorkspace {
            sql: owned("select 1 as ok;"),
            last_result: None,
            messages,
            schema_objects: Vec::new(),
            schema_message: owned("Schema not loaded."),
        };
        assert(views(r.messages@) =~= seq!["Ready to execute a query."@]);
        r
    }
}

/// The message of a failed query.
pub open spec fn query_failed_message(issues: nat) -> Seq<char> {
    "Query failed with "@ + decimal(issues) + " issue(s)."@
}

/// The message of a loaded schema.
pub open spec fn schema_loaded_message(objects: nat) -> Seq<char> {
    "Loaded "@ + decimal(objects) + " schema object(s)."@
}

/// The message of a failed schema refresh.
pub open spec fn schema_failed_message(issues: nat) -> Seq<char> {
    "Schema refresh failed with "@ + decimal(issues) + " issue(s)."@
}

/// The object at `parent` is followed by a deeper one, its first child.
pub open spec fn has_children(objects: Seq<SchemaObject>, parent: int) -> bool {
    0 <= parent && parent + 1 < objects.len() && objects[parent + 1].depth > objects[parent].depth
}

impl QueryWorkspace {
    pub closed spec fn sql_view(&self) -> Seq<char> {
        self.sql@
    }

    pub closed spec fn last_result_view(&self) -> Option<QueryResult> {
        self.last_result
    }

    pub closed spec fn messages_view(&self) -> Seq<Seq<char>> {
        views(self.messages@)
    }

    pub closed spec fn objects_view(&self) -> Seq<SchemaObject> {
        self.schema_objects@
    }

    pub closed spec fn schema_message_view(&self) -> Seq<char> {
        self.schema_message@
    }

    /// The SQL being edited.
    pub fn sql(&self) -> (r: &str)
        ensures
            r@ == self.sql_view(),
    {
        self.sql.as_str()
    }

    /// The rows of the schema tree.
    pub fn schema_objects(&self) -> (r: &Vec<SchemaObject>)
        ensures
            r@ == self.objects_view(),
    {
        &self.schema_objects
    }

    /// The status of the schema tree.
    pub fn schema_message(&self) -> (r: &str)
        ensures
            r@ == self.schema_message_view(),
    {
        self.schema_message.as_str()
    }

    /// The messages of the last run.
    pub fn messages(&self) -> (r: &Vec<String>)
        ensures
            views(r@) == self.messages_view(),
    {
        &self.messages
    }

    /// The result of the last successful run.
    pub fn last_result(&self) -> (r: &Option<QueryResult>)
        ensures
            *r == self.last_result_view(),
    {
        &self.last_result
    }

    /// Replaces the SQL being edited.
    pub fn set_sql(&mut self, sql: String)
        ensures
            final(self).sql_view() == sql@,
            final(self).last_result_view() == old(self).last_result_view(),
            final(self).messages_view() == old(self).messages_view(),
            final(self).objects_view() == old(self).objects_view(),
            final(self).schema_message_view() == old(self).schema_message_view(),
    {
        self.sql = sql;
    }

    /// Whether the object at `parent_index` already shows its children.
    pub fn schema_object_has_children(&self, parent_index: usize) -> (r: bool)
        ensures
            r == has_children(self.objects_view(), parent_index as int),
    {
        if parent_index >= self.schema_objects.len() || parent_index + 1 >= self.schema_objects.len() {
            return false;
        }
        self.schema_objects[parent_index + 1].depth > self.schema_objects[parent_index].depth
    }

    /// Puts loaded children right after their parent and returns how many
    /// were inserted; nothing is inserted when there are none, the parent
    /// does not exist, or it shows children already.
    pub fn insert_schema_children(&mut self, parent_index: usize, children: Vec<SchemaObject>) -> (r:
        usize)
        ensures
            ({
                let before = old(self).objects_view();
                if children@.len() == 0 || parent_index >= before.len() || has_children(
                    before,
                    parent_index as int,
                ) {
                    r == 0 && final(self).objects_view() == before
                } else {
                    r == children@.len() && final(self).objects_view() == before.take(
                        parent_index + 1,
                    ) + children@ + before.skip(parent_index + 1)
                }
            }),
            final(self).sql_view() == old(self).sql_view(),
            final(self).last_result_view() == old(self).last_result_view(),
            final(self).messages_view() == old(self).messages_view(),
            final(self).schema_message_view() == old(self).schema_message_view(),
    {
        if children.len() == 0 || parent_index >= self.schema_objects.len()
            || self.schema_object_has_children(parent_index) {
            return 0;
        }
        let inserted = children.len();
        let ghost before = self.schema_objects@;
        let ghost cv = children@;
        let mut rest = self.schema_objects.split_off(parent_index + 1);
        let mut children = children;
        self.schema_objects.append(&mut children);
        self.schema_objects.append(&mut rest);
        assert(self.schema_objects@ =~= before.take(parent_index + 1) + cv + before.skip(
            parent_index + 1,
        ));
        inserted
    }

    /// Records the outcome of a run: a result becomes the last result and
    /// its message the only message; a failure clears the result and keeps
    /// its messages.
    pub fn apply_execution_outcome(&mut self, outcome: QueryExecutionOutcome) -> (r:
        QueryExecutionSummary)
        ensures
            match outcome {
                QueryExecutionOutcome::Success(result) => {
                    &&& r.row_count == result.row_count_spec()
                    &&& r.elapsed_ms == Some(result.elapsed_ms)
                    &&& r.status_message == result.message
                    &&& final(self).messages_view() == seq![result.message@]
                    &&& final(self).last_result_view() == Some(result)
                },
                QueryExecutionOutcome::Failure(messages) => {
                    &&& r.row_count == 0
                    &&& r.elapsed_ms is None
                    &&& r.status_message@ == query_failed_message(messages@.len())
                    &&& final(self).messages_view() == views(messages@)
                    &&& final(self).last_result_view() is None
                },
            },
            final(self).sql_view() == old(self).sql_view(),
            final(self).objects_view() == old(self).objects_view(),
            final(self).schema_message_view() == old(self).schema_message_view(),
    {
        match outcome {
            QueryExecutionOutcome::Success(result) => {
                let summary = QueryExecutionSummary {
                    row_count: result.row_count(),
                    elapsed_ms: Some(result.elapsed_ms),
                    status_message: result.message.clone(),
                };
                let mut messages: Vec<String> = Vec::new();
                messages.push(result.message.clone());
                assert(views(messages@) =~= seq![result.message@]);
                self.messages = messages;
                self.last_result = Some(result);
                summary
            },
            QueryExecutionOutcome::Failure(messages) => {
                let mut status_message = owned("Query failed with ");
                status_message.append(usize_to_decimal(messages.len()).as_str());
                status_message.append(" issue(s).");
                self.messages = messages;
                self.last_result = None;
                QueryExecutionSummary { row_count: 0, elapsed_ms: None, status_message }
            },
        }
    }

    /// Records a schema refresh: loaded objects replace the tree; a failure
    /// empties it and keeps its messages, joined, as the tree's status.
    pub fn apply_schema_outcome(&mut self, outcome: SchemaLoadOutcome) -> (r: SchemaLoadSummary)
        ensures
            match outcome {
                SchemaLoadOutcome::Success(objects) => {
                    &&& r.status_message@ == schema_loaded_message(objects@.len())
                    &&& final(self).objects_view() == objects@
                    &&& final(self).schema_message_view() == r.status_message@
                    &&& final(self).messages_view() == old(self).messages_view()
                },
                SchemaLoadOutcome::Failure(messages) => {
                    &&& r.status_message@ == schema_failed_message(messages@.len())
                    &&& final(self).objects_view().len() == 0
                    &&& final(self).schema_message_view() == join(views(messages@), " "@)
                    &&& final(self).messages_view() == views(messages@)
                },
            },
            final(self).sql_view() == old(self).sql_view(),
            final(self).last_result_view() == old(self).last_result_view(),
    {
        match outcome {
            SchemaLoadOutcome::Success(objects) => {
                let mut status_message = owned("Loaded ");
                status_message.append(usize_to_decimal(objects.len()).as_str());
                status_message.append(" schema object(s).");
                self.schema_objects = objects;
                self.schema_message = status_message.clone();
                SchemaLoadSummary { status_message }
            },
            SchemaLoadOutcome::Failure(messages) => {
                let mut status_message = owned("Schema refresh failed with ");
                status_message.append(usize_to_decimal(messages.len()).as_str());
                status_message.append(" issue(s).");
                self.schema_objects = Vec::new();
                self.schema_message = join_strings(&messages, " ");
                self.messages = messages;
                SchemaLoadSummary { status_message }
            },
        }
    }
}

/// The kinds of the rows of a schema tree.
pub open spec fn kinds(objects: Seq<SchemaObject>) -> Seq<SchemaObjectKind> {
    objects.map_values(|o: SchemaObject| o.kind)
}

/// The shown rows of a schema tree, with whether the last table, view,
/// index or collection is expanded: databases and their tables are always
/// shown, columns only under an expanded parent.
pub open spec fn tree_rows(kinds: Seq<SchemaObjectKind>, expanded: Seq<usize>) -> (Seq<int>, bool)
    decreases kinds.len(),
{
    if kinds.len() == 0 {
        (Seq::<int>::empty(), false)
    } else {
        let (rows, open) = tree_rows(kinds.drop_last(), expanded);
        let i = kinds.len() - 1;
        match kinds.last() {
            SchemaObjectKind::Database => (rows.push(i), false),
            SchemaObjectKind::Column => if open {
                (rows.push(i), open)
            } else {
                (rows, open)
            },
            _ => (rows.push(i), expanded.contains(i as usize)),
        }
    }
}

fn index_listed(expanded: &Vec<usize>, i: usize) -> (r: bool)
    ensures
        r == expanded@.contains(i),
{
    let mut k: usize = 0;
    while k < expanded.len()
        invariant
            k <= expanded.len(),
            forall|j: int| 0 <= j < k ==> expanded@[j] != i,
        decreases expanded.len() - k,
    {
        if expanded[k] == i {
            assert(expanded@[k as int] == i);
            return true;
        }
        k += 1;
    }
    false
}

/// The positions of the schema tree rows that are shown, given the
/// positions of the expanded rows.
pub fn visible_schema_rows(objects: &Vec<SchemaObject>, expanded: &Vec<usize>) -> (r: Vec<usize>)
    ensures
        r@.map_values(|i: usize| i as int) == tree_rows(kinds(objects@), expanded@).0,
{
    let ghost ks = kinds(objects@);
    let mut rows: Vec<usize> = Vec::new();
    let mut open = false;
    let mut i: usize = 0;
    while i < objects.len()
        invariant
            i <= objects.len(),
            ks == kinds(objects@),
            (rows@.map_values(|x: usize| x as int), open) == tree_rows(ks.take(i as int), expanded@),
        decreases objects.len() - i,
    {
        proof {
            assert(ks.take(i + 1).drop_last() == ks.take(i as int));
            assert(ks.take(i + 1).last() == objects@[i as int].kind);
        }
        let ghost before = rows@.map_values(|x: usize| x as int);
        match objects[i].kind {
            SchemaObjectKind::Database => {
                rows.push(i);
                open = false;
                assert(rows@.map_values(|x: usize| x as int) =~= before.push(i as int));
            },
            SchemaObjectKind::Column => {
                if open {
                    rows.push(i);
                    assert(rows@.map_values(|x: usize| x as int) =~= before.push(i as int));
                }
            },
            _ => {
                rows.push(i);
                open = index_listed(expanded, i);
                assert(rows@.map_values(|x: usize| x as int) =~= before.push(i as int));
            },
        }
        i += 1;
    }
    assert(ks.take(objects.len() as int) == ks);
    rows
}

/// The schema tree lists databases (rather than the tables of one) when no
/// database is chosen or the tree holds databases.
pub open spec fn lists_databases(database: Seq<char>, objects: Seq<SchemaObject>) -> bool {
    trim(database).len() == 0 || exists|i: int|
        0 <= i < objects.len() && objects[i].kind == SchemaObjectKind::Database
}

/// Whether the schema tree is titled as a list of databases.
pub fn schema_tree_lists_databases(database: &str, objects: &Vec<SchemaObject>) -> (r: bool)
    ensures
        r == lists_databases(database@, objects@),
{
    if is_empty_text(trim_str(database)) {
        return true;
    }
    let mut i: usize = 0;
    while i < objects.len()
        invariant
            i <= objects.len(),
            forall|j: int| 0 <= j < i ==> objects@[j].kind != SchemaObjectKind::Database,
        decreases objects.len() - i,
    {
        if objects[i].kind == SchemaObjectKind::Database {
            return true;
        }
        i += 1;
    }
    false
}

/// The positions of the rows that hold data: tables, views and collections.
pub open spec fn data_rows(kinds: Seq<SchemaObjectKind>) -> Seq<int>
    decreases kinds.len(),
{
    if kinds.len() == 0 {
        Seq::<int>::empty()
    } else {
        let rest = data_rows(kinds.drop_last());
        match kinds.last() {
            SchemaObjectKind::Table | SchemaObjectKind::View | SchemaObjectKind::Collection => rest.push(
                kinds.len() - 1,
            ),
            _ => rest,
        }
    }
}

/// The positions of the tables, views and collections of the schema tree,
/// in order, as the workbench lists them.
pub fn browsable_table_rows(objects: &Vec<SchemaObject>) -> (r: Vec<usize>)
    ensures
        r@.map_values(|i: usize| i as int) == data_rows(kinds(objects@)),
{
    let ghost ks = kinds(objects@);
    let mut rows: Vec<usize> = Vec::new();
    let mut i: usize = 0;
    while i < objects.len()
        invariant
            i <= objects.len(),
            ks == kinds(objects@),
            rows@.map_values(|x: usize| x as int) == data_rows(ks.take(i as int)),
        decreases objects.len() - i,
    {
        proof {
            assert(ks.take(i + 1).drop_last() == ks.take(i as int));
            assert(ks.take(i + 1).last() == objects@[i as int].kind);
        }
        let ghost before = rows@.map_values(|x: usize| x as int);
        match objects[i].kind {
            SchemaObjectKind::Table | SchemaObjectKind::View | SchemaObjectKind::Collection => {
                rows.push(i);
                assert(rows@.map_values(|x: usize| x as int) =~= before.push(i as int));
            },
            _ => {},
        }
        i += 1;
    }
    assert(ks.take(objects.len() as int) == ks);
    rows
}

/// Moves a remembered tree position past rows inserted after `parent_index`:
/// a position after the parent moves down by `offset`; others stay.
pub fn shift_schema_index_after(index: &mut Option<usize>, parent_index: usize, offset: usize)
    requires
        match *old(index) {
            Some(v) => v > parent_index ==> v + offset <= usize::MAX,
            None => true,
        },
    ensures
        *final(index) == match *old(index) {
            Some(v) => if v > parent_index {
                Some((v + offset) as usize)
            } else {
                Some(v)
            },
            None => None,
        },
{
    if let Some(value) = *index {
        if value > parent_index {
            *index = Some(value + offset);
        }
    }
}

/// Where a remembered tree position lands once `offset` rows are inserted
/// after `parent_index`.
pub open spec fn shifted_position(index: usize, parent_index: usize, offset: usize) -> usize {
    if index > parent_index {
        (index + offset) as usize
    } else {
        index
    }
}

/// Moving positions past inserted rows never merges two of them: as many
/// rows stay open as were open before.
pub proof fn shifting_keeps_positions_apart(positions: Set<usize>, parent_index: usize, offset: usize)
    requires
        positions.finite(),
        forall|i: usize| #[trigger] positions.contains(i) && i > parent_index ==> i + offset <= usize::MAX,
    ensures
        positions.map(|i: usize| shifted_position(i, parent_index, offset)).finite(),
        positions.map(|i: usize| shifted_position(i, parent_index, offset)).len() == positions.len(),
{
    let f = |i: usize| shifted_position(i, parent_index, offset);
    assert forall|a: usize, b: usize|
        positions.contains(a) && positions.contains(b) && #[trigger] f(a) == #[trigger] f(b) implies a
        == b by {}
    assert(vstd::relations::injective_on(f, positions));
    vstd::set_lib::lemma_map_size(positions, positions.map(f), f);
}

proof fn lemma_take_whole(s: Seq<usize>)
    ensures
        s.take(s.len() as int) == s,
{
}

/// Moves every remembered tree position past rows inserted after
/// `parent_index`: positions after the parent move down by `offset`, the
/// others stay.
pub fn shift_schema_indices_after(indices: &mut BTreeSet<usize>, parent_index: usize, offset: usize)
    requires
        forall|i: usize| #[trigger] old(indices)@.contains(i) && i > parent_index ==> i + offset <= usize::MAX,
    ensures
        final(indices)@ == old(indices)@.map(|i: usize| shifted_position(i, parent_index, offset)),
{
    broadcast use vstd::std_specs::btree::group_btree_axioms, vstd::laws_cmp::group_laws_cmp;

    let ghost before = indices@;
    if offset == 0 {
        assert(before.map(|i: usize| shifted_position(i, parent_index, offset)) =~= before) by {
            assert forall|i: usize| before.contains(i) implies before.map(
                |i: usize| shifted_position(i, parent_index, offset),
            ).contains(i) by {
                assert(shifted_position(i, parent_index, offset) == i);
            }
        }
        return;
    }
    let mut shifted: BTreeSet<usize> = BTreeSet::new();
    let ghost full = vstd::std_specs::iter::IteratorSpec::remaining(
        &vstd::std_specs::btree::spec_btree_keys_iter(indices),
    ).unref();
    for x in it: indices.iter()
        invariant
            before == indices@,
            full == it.seq().unref(),
            full.to_set() == before,
            forall|i: usize| #[trigger] before.contains(i) && i > parent_index ==> i + offset <= usize::MAX,
            shifted@ == it.seq().unref().take(it.index()).to_set().map(
                |i: usize| shifted_position(i, parent_index, offset),
            ),
    {
        let v: usize = *x;
        let ghost k = it.index();
        proof {
            assert(full[k] == v);
            assert(full.contains(v));
            assert(before.contains(v));
        }
        let n: usize = if v > parent_index {
            v + offset
        } else {
            v
        };
        shifted.insert(n);
        proof {
            let s = full;
            let f = |i: usize| shifted_position(i, parent_index, offset);
            assert(s.take(k + 1) == s.take(k).push(v));
            s.take(k).lemma_push_to_set_commute(v);
            s.take(k).to_set().lemma_set_map_insert_commute(v, f);
            assert(f(v) == n);
        }
    }
    proof {
        lemma_take_whole(full);
    }
    *indices = shifted;
}

// ---------------------------------------------------------------------------
// Building the tree
// ---------------------------------------------------------------------------

impl SchemaObjectKind {
    /// The kind of a row of `sqlite_master`: tables, views and indexes.
    pub open spec fn from_sqlite_type_spec(object_type: Seq<char>) -> Option<SchemaObjectKind> {
        if object_type == "table"@ {
            Some(SchemaObjectKind::Table)
        } else if object_type == "view"@ {
            Some(SchemaObjectKind::View)
        } else if object_type == "index"@ {
            Some(SchemaObjectKind::Index)
        } else {
            None
        }
    }

    /// The kind of a row of `sqlite_master`, or `None` for other rows.
    pub fn from_sqlite_type(object_type: &str) -> (r: Option<SchemaObjectKind>)
        ensures
            r == Self::from_sqlite_type_spec(object_type@),
    {
        if str_eq(object_type, "table") {
            Some(SchemaObjectKind::Table)
        } else if str_eq(object_type, "view") {
            Some(SchemaObjectKind::View)
        } else if str_eq(object_type, "index") {
            Some(SchemaObjectKind::Index)
        } else {
            None
        }
    }
}

/// How deep an object of a kind sits in the tree: databases at the top,
/// their tables, views, indexes and collections below, columns below
/// those.
pub open spec fn kind_depth(kind: SchemaObjectKind) -> nat {
    match kind {
        SchemaObjectKind::Database => 0,
        SchemaObjectKind::Column => 2,
        _ => 1,
    }
}

/// A tree object of a kind, at its kind's depth.
pub fn schema_object(kind: SchemaObjectKind, name: String) -> (r: SchemaObject)
    ensures
        r.kind == kind,
        r.name == name,
        r.depth == kind_depth(kind),
{
    let depth: usize = match kind {
        SchemaObjectKind::Database => 0,
        SchemaObjectKind::Column => 2,
        _ => 1,
    };
    SchemaObject { kind, name, depth }
}

/// A table of `information_schema.tables` is a view when its type says so
/// (in any ASCII case), else a table.
pub fn table_kind(table_type: &str) -> (r: SchemaObjectKind)
    ensures
        r == (if eq_ci(table_type@, "VIEW"@) {
            SchemaObjectKind::View
        } else {
            SchemaObjectKind::Table
        }),
{
    if eq_ignore_ascii_case(table_type, "VIEW") {
        SchemaObjectKind::View
    } else {
        SchemaObjectKind::Table
    }
}

/// The name of a SQLite database in the tree: the last part of its path,
/// or `main` when that part is empty.
pub open spec fn sqlite_label(location: Seq<char>) -> Seq<char> {
    let last = split(trim(location), '/').last();
    if last.len() == 0 {
        "main"@
    } else {
        last
    }
}

/// The tree name of a SQLite database file.
pub fn sqlite_database_label(location: &str) -> (r: String)
    ensures
        r@ == sqlite_label(location@),
{
    let parts = split_char(trim_str(location), '/');
    proof {
        lemma_split_nonempty(trim(location@), '/');
    }
    let last = parts[parts.len() - 1].clone();
    if is_empty_text(last.as_str()) {
        owned("main")
    } else {
        last
    }
}

/// The index of the first `.` of a text.
pub open spec fn first_dot(s: Seq<char>) -> Option<int> {
    if exists|i: int| 0 <= i < s.len() && s[i] == '.' {
        Some(choose|i: int| 0 <= i < s.len() && s[i] == '.' && forall|k: int| 0 <= k < i ==> s[k] != '.')
    } else {
        None
    }
}

/// A `schema.table` name split at its first dot, both parts trimmed; none
/// when there is no dot or a part is empty.
pub open spec fn table_ref(name: Seq<char>) -> Option<(Seq<char>, Seq<char>)> {
    match first_dot(name) {
        Some(i) => {
            let schema = trim(name.take(i));
            let table = trim(name.skip(i + 1));
            if schema.len() > 0 && table.len() > 0 {
                Some((schema, table))
            } else {
                None
            }
        },
        None => None,
    }
}

fn chars_text(v: &Vec<char>, from: usize, to: usize) -> (r: String)
    requires
        from <= to <= v@.len(),
    ensures
        r@ == v@.subrange(from as int, to as int),
{
    let mut r = String::new();
    let mut i = from;
    while i < to
        invariant
            from <= i <= to <= v@.len(),
            r@ == v@.subrange(from as int, i as int),
        decreases to - i,
    {
        push_char(&mut r, v[i]);
        assert(v@.subrange(from as int, i + 1) == v@.subrange(from as int, i as int).push(v@[i as int]));
        i += 1;
    }
    r
}

/// The schema and table of a PostgreSQL tree name `schema.table`.
pub fn postgres_table_ref(name: &str) -> (r: Option<(String, String)>)
    ensures
        match r {
            Some((schema, table)) => table_ref(name@) == Some((schema@, table@)),
            None => table_ref(name@) is None,
        },
{
    let v = chars_of(name);
    let mut i: usize = 0;
    while i < v.len()
        invariant
            i <= v@.len(),
            v@ == name@,
            forall|k: int| 0 <= k < i ==> v@[k] != '.',
        decreases v.len() - i,
    {
        if v[i] == '.' {
            proof {
                let w = choose|j: int|
                    0 <= j < name@.len() && name@[j] == '.' && forall|k: int| 0 <= k < j ==> name@[k] != '.';
                assert(0 <= i < name@.len() && name@[i as int] == '.');
                if w < i {
                    assert(name@[w] != '.');
                }
                if w > i {
                    assert(name@[i as int] != '.');
                }
                assert(first_dot(name@) == Some(i as int));
            }
            let before = chars_text(&v, 0, i);
            let after = chars_text(&v, i + 1, v.len());
            assert(before@ == name@.take(i as int));
            assert(after@ == name@.skip(i + 1));
            let schema = owned(trim_str(before.as_str()));
            let table = owned(trim_str(after.as_str()));
            if is_empty_text(schema.as_str()) || is_empty_text(table.as_str()) {
                return None;
            }
            return Some((schema, table));
        }
        i += 1;
    }
    None
}

/// The tree with the chosen database's children shown under it: every
/// database, each followed by the children when it is the chosen one.
pub open spec fn with_children(
    databases: Seq<SchemaObject>,
    selected: Seq<char>,
    children: Seq<SchemaObject>,
) -> Seq<SchemaObject>
    decreases databases.len(),
{
    if databases.len() == 0 {
        Seq::<SchemaObject>::empty()
    } else {
        let rest = with_children(databases.drop_last(), selected, children).push(databases.last());
        if databases.last().name@ == selected {
            rest + children
        } else {
            rest
        }
    }
}

/// Some database is named `selected`.
pub open spec fn lists_database(databases: Seq<SchemaObject>, selected: Seq<char>) -> bool {
    exists|i: int| 0 <= i < databases.len() && databases[i].name@ == selected
}

/// Puts the chosen database's children under it in the list of databases;
/// when the list lacks it, the database is added at the end (at the top
/// level) with its children after it.
pub fn expand_selected_database(
    databases: Vec<SchemaObject>,
    selected_database: &str,
    selected_children: Vec<SchemaObject>,
) -> (r: Vec<SchemaObject>)
    ensures
        lists_database(databases@, selected_database@) ==> r@ == with_children(
            databases@,
            selected_database@,
            selected_children@,
        ),
        !lists_database(databases@, selected_database@) ==> {
            let head = with_children(databases@, selected_database@, selected_children@);
            &&& r@.len() == head.len() + 1 + selected_children@.len()
            &&& r@.take(head.len() as int) == head
            &&& r@[head.len() as int].kind == SchemaObjectKind::Database
            &&& r@[head.len() as int].name@ == selected_database@
            &&& r@[head.len() as int].depth == 0
            &&& r@.skip(head.len() + 1int) == selected_children@
        },
{
    let mut objects: Vec<SchemaObject> = Vec::new();
    let mut found = false;
    let mut i: usize = 0;
    while i < databases.len()
        invariant
            i <= databases@.len(),
            objects@ == with_children(databases@.take(i as int), selected_database@, selected_children@),
            found == lists_database(databases@.take(i as int), selected_database@),
        decreases databases.len() - i,
    {
        let database = databases[i].clone();
        let is_selected = str_eq(database.name.as_str(), selected_database);
        proof {
            let t = databases@.take(i + 1);
            assert(t.drop_last() == databases@.take(i as int));
            assert(t.last() == databases@[i as int]);
            if is_selected {
                assert(t[i as int].name@ == selected_database@);
            }
            if lists_database(t, selected_database@) && !is_selected {
                let k = choose|k: int| 0 <= k < t.len() && t[k].name@ == selected_database@;
                assert(databases@.take(i as int)[k] == t[k]);
            }
            if found {
                let k = choose|k: int|
                    0 <= k < databases@.take(i as int).len() && databases@.take(i as int)[k].name@
                        == selected_database@;
                assert(t[k] == databases@.take(i as int)[k]);
            }
        }
        objects.push(database);
        if is_selected {
            found = true;
            let mut c: usize = 0;
            let ghost start = objects@;
            while c < selected_children.len()
                invariant
                    c <= selected_children@.len(),
                    objects@ == start + selected_children@.take(c as int),
                decreases selected_children.len() - c,
            {
                objects.push(selected_children[c].clone());
                assert(selected_children@.take(c + 1) == selected_children@.take(c as int).push(
                    selected_children@[c as int],
                ));
                c += 1;
            }
            assert(selected_children@.take(selected_children.len() as int) == selected_children@);
        }
        i += 1;
    }
    assert(databases@.take(databases.len() as int) == databases@);
    if !found {
        let ghost head = objects@;
        objects.push(SchemaObject::new(SchemaObjectKind::Database, owned(selected_database), 0));
        let mut children = selected_children;
        let ghost kids = children@;
        objects.append(&mut children);
        assert(objects@.take(head.len() as int) =~= head);
        assert(objects@.skip(head.len() + 1int) =~= kids);
    }
    objects
}

/// Where a form's schema tree is read from, or why it cannot be: the form's
/// errors, or a driver without a live inspector.
pub open spec fn schema_request(form: ConnectionForm) -> Result<DetailsSource, Seq<Seq<char>>> {
    if validation_messages(form).len() > 0 {
        Err(validation_messages(form))
    } else if source_for(form.driver) == DetailsSource::Fallback {
        Err(
            seq![
                form.driver.display_name_spec()
                    + " schema browsing needs a native driver dependency before it can inspect metadata."@,
            ],
        )
    } else {
        Ok(source_for(form.driver))
    }
}

/// Where the schema tree of a form is read from, or the errors that stop
/// it.
pub fn schema_source(form: &ConnectionForm) -> (r: Result<DetailsSource, Vec<String>>)
    ensures
        match r {
            Ok(s) => schema_request(*form) == Ok::<DetailsSource, Seq<Seq<char>>>(s),
            Err(e) => schema_request(*form) == Err::<DetailsSource, Seq<Seq<char>>>(views(e@)),
        },
{
    match form.validate() {
        Ok(()) => {},
        Err(errors) => {
            return Err(errors);
        },
    }
    match form.driver {
        DatabaseDriver::Sqlite => Ok(DetailsSource::Sqlite),
        DatabaseDriver::MySql | DatabaseDriver::MariaDb | DatabaseDriver::TiDb => Ok(
            DetailsSource::MySql,
        ),
        DatabaseDriver::PostgreSql | DatabaseDriver::CockroachDb => Ok(DetailsSource::Postgres),
        DatabaseDriver::MongoDb => Ok(DetailsSource::MongoDb),
        _ => {
            let mut m = owned(form.driver.display_name());
            m.append(
                " schema browsing needs a native driver dependency before it can inspect metadata.",
            );
            let ghost mv = m@;
            let mut errors: Vec<String> = Vec::new();
            errors.push(m);
            assert(views(errors@) =~= seq![mv]);
            Err(errors)
        },
    }
}

/// Where the columns of a tree object are read from once the form is
/// valid: `None` for MongoDB and drivers without a live inspector, which
/// list no columns.
pub fn schema_columns_source(form: &ConnectionForm) -> (r: Result<Option<DetailsSource>, Vec<String>>)
    ensures
        match r {
            Ok(s) => validation_messages(*form).len() == 0 && s == (match source_for(form.driver) {
                DetailsSource::MongoDb | DetailsSource::Fallback => None,
                other => Some(other),
            }),
            Err(e) => validation_messages(*form).len() > 0 && views(e@) == validation_messages(
                *form,
            ),
        },
{
    match form.validate() {
        Ok(()) => {},
        Err(errors) => {
            return Err(errors);
        },
    }
    match form.driver {
        DatabaseDriver::Sqlite => Ok(Some(DetailsSource::Sqlite)),
        DatabaseDriver::MySql | DatabaseDriver::MariaDb | DatabaseDriver::TiDb => Ok(
            Some(DetailsSource::MySql),
        ),
        DatabaseDriver::PostgreSql | DatabaseDriver::CockroachDb => Ok(Some(DetailsSource::Postgres)),
        _ => Ok(None),
    }
}

/// Children that are deeper than their parent are loaded once: after
/// they are inserted the parent shows children, so inserting again under it
/// inserts nothing.
pub proof fn schema_children_loaded_once(
    objects: Seq<SchemaObject>,
    parent: int,
    children: Seq<SchemaObject>,
)
    requires
        0 <= parent < objects.len(),
        !has_children(objects, parent),
        children.len() > 0,
        children[0].depth > objects[parent].depth,
    ensures
        has_children(objects.take(parent + 1) + children + objects.skip(parent + 1), parent),
{
    let after = objects.take(parent + 1) + children + objects.skip(parent + 1);
    assert(after[parent] == objects[parent]);
    assert(after[parent + 1] == children[0]);
}

} // verus!
