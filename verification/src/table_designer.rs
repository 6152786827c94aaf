//! The table designer's state and what each of its actions does to it:
//! editing, adding, moving, removing and reverting column rows of an
//! alter-table draft, and preparing its index and constraint parts.
use vstd::prelude::*;
use crate::designer::{
    added_column, column_inserted, column_names_of, insert_create_table_column, default_alter_table_column_type, index_name_for_column,
    index_name_text, is_pending_alter_table_column, move_vec_item, moved, name_used,
    identifier_part, new_column_type, next_alter_table_column_name, next_column_name,
    sanitize_identifier_part,
    pending_alter_table_column_index, reset_alter_table_column_operation,
    clear_alter_table_constraint_draft_impl, clear_alter_table_index_draft_impl,
    sync_alter_table_add_column,
};
use crate::schema::{
    append_index_column, appended_columns, toggle_index_column, toggled_columns, constraint_types, default_constraint_type, default_index_type, first_or, index_types,
};
use crate::sql_alter_table::{definition_tail, table_column_definition_tail};
use crate::details::TableDetails;
use crate::drafts::{
    CreateTableConstraintDraft, CreateTableDraft, CreateTableIndexDraft, CreateTableColumnDraft,
    same_column_fields, same_column_op, same_constraint, same_head, same_index, same_rows, AlterTableDraft,
    AlterTableOperation, TableColumnDetail,
};
use crate::driver::DatabaseDriver;
use crate::text::{
    decimal, eq_ci, eq_ignore_ascii_case, is_empty_text, owned, trim, trim_str, usize_to_decimal,
    views,
};

verus! {

/// The tab of the alter-table designer.
#[derive(Debug, Clone, Copy, PartialEq, Eq, Structural)]
pub enum AlterTableTab {
    Columns,
    Indexes,
    Constraints,
    Ddl,
}

/// The tab of the create-table designer.
#[derive(Debug, Clone, Copy, PartialEq, Eq, Structural)]
pub enum CreateTableTab {
    Columns,
    Indexes,
    Constraints,
    Sql,
}

/// A cell of a column row.
#[derive(Debug, Clone, Copy, PartialEq, Eq, Structural)]
pub enum CreateTableColumnField {
    Name,
    DataType,
    Nullable,
    DefaultValue,
    Extra,
}

/// A field of the create-table form.
#[derive(Debug, Clone, Copy, PartialEq, Eq, Structural)]
pub enum CreateTableField {
    Name,
    Engine,
    Charset,
    Collation,
    Comment,
}

/// A cell of an index row of the create-table form.
#[derive(Debug, Clone, Copy, PartialEq, Eq, Structural)]
pub enum CreateTableIndexField {
    Name,
    Columns,
    IndexType,
}

/// A cell of a constraint row of the create-table form.
#[derive(Debug, Clone, Copy, PartialEq, Eq, Structural)]
pub enum CreateTableConstraintField {
    Name,
    Kind,
    Expression,
}

/// A field of the alter-table form.
#[derive(Debug, Clone, Copy, PartialEq, Eq, Structural)]
pub enum AlterTableField {
    ColumnName,
    NewColumnName,
    ColumnType,
    ColumnDefinition,
    IndexName,
    IndexColumns,
    IndexType,
    ConstraintName,
    ConstraintKind,
    ConstraintExpression,
    ColumnPosition,
    AfterColumn,
}

/// The state of the table designer: the driver of the connection, the
/// table's metadata once loaded, the drafts, the selected row, the tabs and
/// the message shown to the user.
#[derive(Debug)]
pub struct TableDesigner {
    pub driver: DatabaseDriver,
    pub table_details: Option<TableDetails>,
    pub alter_table_draft: Option<AlterTableDraft>,
    pub selected_alter_table_column: Option<usize>,
    pub alter_table_tab: AlterTableTab,
    pub create_table_draft: Option<CreateTableDraft>,
    pub create_table_tab: CreateTableTab,
    pub status_message: String,
}

// ---------------------------------------------------------------------------
// The rows being edited
// ---------------------------------------------------------------------------

/// The rows of a draft once it is prepared for editing: its own rows, or
/// the table's columns while it has none.
pub open spec fn ensured_rows(d: AlterTableDraft, t: TableDetails) -> Seq<TableColumnDetail> {
    if d.reordered_columns@.len() == 0 {
        t.columns@
    } else {
        d.reordered_columns@
    }
}

/// The original names of a draft once it is prepared: its own, or the
/// table's column names while it has no rows.
pub open spec fn ensured_names(d: AlterTableDraft, t: TableDetails) -> Seq<Seq<char>> {
    if d.reordered_columns@.len() == 0 {
        column_names_of(t.columns@)
    } else {
        views(d.original_column_names@)
    }
}

/// The draft after it is prepared: rows and names as above, all else kept.
pub open spec fn is_ensured(after: AlterTableDraft, d: AlterTableDraft, t: TableDetails) -> bool {
    &&& after.reordered_columns@ == ensured_rows(d, t)
    &&& views(after.original_column_names@) == ensured_names(d, t)
    &&& d.reordered_columns@.len() != 0 ==> after.original_column_names@
        == d.original_column_names@
    &&& same_head(after, d)
    &&& same_column_op(after, d)
    &&& same_index(after, d)
    &&& same_constraint(after, d)
}

/// The designer can edit rows: the table's metadata is loaded and the
/// designer is open.
pub open spec fn ready(s: TableDesigner) -> bool {
    s.table_details is Some && s.alter_table_draft is Some
}

/// Why the designer cannot edit rows.
pub open spec fn not_ready_message(s: TableDesigner) -> Seq<char> {
    if s.table_details is None {
        "Table columns are still loading."@
    } else {
        "Table designer is not open."@
    }
}

/// Everything but the alter draft, the selection, its tab and the message
/// is kept.
pub open spec fn same_context(a: TableDesigner, b: TableDesigner) -> bool {
    &&& a.driver == b.driver
    &&& a.table_details == b.table_details
    &&& a.create_table_draft == b.create_table_draft
    &&& a.create_table_tab == b.create_table_tab
}

/// Everything of the alter-table side is kept.
pub open spec fn same_alter_side(a: TableDesigner, b: TableDesigner) -> bool {
    &&& a.driver == b.driver
    &&& a.table_details == b.table_details
    &&& a.alter_table_draft == b.alter_table_draft
    &&& a.selected_alter_table_column == b.selected_alter_table_column
    &&& a.alter_table_tab == b.alter_table_tab
}

/// The row at `j` is a column still to be added: no original name matches
/// it, up to ASCII case.
pub open spec fn pending_at(names: Seq<Seq<char>>, rows: Seq<TableColumnDetail>, j: int) -> bool {
    0 <= j < rows.len() && !name_used(names, rows[j].name@)
}

/// The first row still to be added, or the last row when there is none.
pub open spec fn first_pending_or_last(names: Seq<Seq<char>>, rows: Seq<TableColumnDetail>) -> int {
    if exists|j: int| pending_at(names, rows, j) {
        choose|j: int|
            pending_at(names, rows, j) && forall|k: int| 0 <= k < j ==> !pending_at(names, rows, k)
    } else {
        rows.len() - 1
    }
}

proof fn lemma_first_pending(names: Seq<Seq<char>>, rows: Seq<TableColumnDetail>, i: int)
    requires
        pending_at(names, rows, i),
        forall|k: int| 0 <= k < i ==> !pending_at(names, rows, k),
    ensures
        first_pending_or_last(names, rows) == i,
{
    let w = choose|j: int|
        pending_at(names, rows, j) && forall|k: int| 0 <= k < j ==> !pending_at(names, rows, k);
    assert(pending_at(names, rows, w));
    if w < i {
        assert(!pending_at(names, rows, w));
    }
    if w > i {
        assert(!pending_at(names, rows, i));
    }
}

/// The rows the arrows move through: the draft's rows once it has any, else
/// the table's columns.
pub open spec fn move_rows(s: TableDesigner) -> Option<Seq<TableColumnDetail>> {
    if s.alter_table_draft is Some && s.alter_table_draft->0.reordered_columns@.len() > 0 {
        Some(s.alter_table_draft->0.reordered_columns@)
    } else if s.table_details is Some {
        Some(s.table_details->0.columns@)
    } else {
        None
    }
}

/// The row one step from `index`: the one before it for a negative step,
/// else the one after it; none past either end.
pub open spec fn step_target(len: nat, index: nat, delta: i32) -> Option<nat> {
    if len == 0 || index >= len {
        None
    } else if delta < 0 {
        if index == 0 {
            None
        } else {
            Some((index - 1) as nat)
        }
    } else if index + 1 < len {
        Some(index + 1)
    } else {
        None
    }
}

/// The message of a prepared move.
pub open spec fn move_message(name: Seq<char>) -> Seq<char> {
    "MOVE COLUMN prepared for "@ + name + ". Apply to execute."@
}

/// The message of a prepared index.
pub open spec fn index_message(name: Seq<char>) -> Seq<char> {
    "INDEX prepared for "@ + name + "."@
}

/// Why a move of the row at `index` by `delta` is refused, if it is: a row
/// is still to be added, the row does not exist, or it is already at the
/// end it moves towards.
pub open spec fn move_refusal(d: AlterTableDraft, t: TableDetails, index: nat, delta: i32) -> Option<
    Seq<char>,
> {
    let rows = ensured_rows(d, t);
    if rows.len() > ensured_names(d, t).len() {
        Some("Apply or remove the pending ADD COLUMN row before moving columns."@)
    } else if index >= rows.len() {
        Some("Column row was not found."@)
    } else if delta < 0 && index == 0 {
        Some("Column is already first."@)
    } else if delta >= 0 && index + 1 >= rows.len() {
        Some("Column is already last."@)
    } else {
        None
    }
}

/// `after` is `d`, prepared, with the row at `index` moved by `delta` and a
/// move prepared for the row one step from it: its name, type and
/// definition, placed first or after the row before it; the original names
/// move alike.
pub open spec fn prepared_move(
    after: AlterTableDraft,
    d: AlterTableDraft,
    t: TableDetails,
    index: nat,
    delta: i32,
) -> bool {
    let rows = moved(ensured_rows(d, t), index, delta);
    let target: int = if delta < 0 {
        index - 1
    } else {
        index + 1int
    };
    let c = rows[target];
    let first = delta < 0 && target == 0;
    &&& after.operation == AlterTableOperation::MoveColumn
    &&& after.column_name == c.name
    &&& after.column_type == c.data_type
    &&& after.column_definition@ == definition_tail(c)
    &&& after.column_position@ == (if first {
        "FIRST"@
    } else {
        "AFTER"@
    })
    &&& after.after_column@ == (if first {
        ""@
    } else {
        rows[target - 1].name@
    })
    &&& after.reordered_columns@ == rows
    &&& views(after.original_column_names@) == moved(ensured_names(d, t), index, delta)
    &&& after.new_column_name == d.new_column_name
    &&& same_head(after, d)
    &&& same_index(after, d)
    &&& same_constraint(after, d)
}

/// What preparing a move does: nothing but the message while the designer
/// is not ready; the prepared draft and the refusal as the message when it
/// is refused; else the prepared move, the columns tab and its message.
pub open spec fn move_outcome(after: TableDesigner, before: TableDesigner, index: nat, delta: i32) -> bool {
    &&& same_context(after, before)
    &&& if !ready(before) {
        &&& after.alter_table_draft == before.alter_table_draft
        &&& after.alter_table_tab == before.alter_table_tab
        &&& after.status_message@ == not_ready_message(before)
    } else {
        let d = before.alter_table_draft->0;
        let t = before.table_details->0;
        &&& after.alter_table_draft is Some
        &&& match move_refusal(d, t, index, delta) {
            Some(m) => {
                &&& is_ensured(after.alter_table_draft->0, d, t)
                &&& after.alter_table_tab == before.alter_table_tab
                &&& after.status_message@ == m
            },
            None => {
                &&& prepared_move(after.alter_table_draft->0, d, t, index, delta)
                &&& after.alter_table_tab == AlterTableTab::Columns
                &&& after.status_message@ == move_message(after.alter_table_draft->0.column_name@)
            },
        }
    }
}

/// The position one past `i`, staying at the largest `usize`.
pub open spec fn after_position(i: usize) -> nat {
    if i == usize::MAX {
        i as nat
    } else {
        (i + 1) as nat
    }
}

/// The state while the designer is not ready: only the message changes.
pub open spec fn refused_not_ready(after: TableDesigner, before: TableDesigner) -> bool {
    &&& after.alter_table_draft == before.alter_table_draft
    &&& after.alter_table_tab == before.alter_table_tab
    &&& after.status_message@ == not_ready_message(before)
}

/// What adding a row at `insert_at` does. While a row is still to be
/// added, that row (the first one, else the last row) is made the added
/// column again and the user is told to finish it. Else a nullable row
/// with a free name and the driver's new-column type goes in at
/// `insert_at` (at the end when past it) and becomes the added column.
pub open spec fn insert_outcome(after: TableDesigner, before: TableDesigner, insert_at: nat) -> bool {
    &&& same_context(after, before)
    &&& if !ready(before) {
        refused_not_ready(after, before)
    } else {
        let d = before.alter_table_draft->0;
        let t = before.table_details->0;
        let rows = ensured_rows(d, t);
        let names = ensured_names(d, t);
        let a = after.alter_table_draft->0;
        &&& after.alter_table_draft is Some
        &&& after.alter_table_tab == AlterTableTab::Columns
        &&& views(a.original_column_names@) == names
        &&& if rows.len() > names.len() {
            &&& added_column(a, d, rows, first_pending_or_last(names, rows))
            &&& after.status_message@ == "Finish the pending ADD COLUMN row before applying."@
        } else {
            let at: int = if insert_at < rows.len() {
                insert_at as int
            } else {
                rows.len() as int
            };
            let row = a.reordered_columns@[at];
            &&& a.reordered_columns@.len() == rows.len() + 1
            &&& a.reordered_columns@.take(at) == rows.take(at)
            &&& a.reordered_columns@.skip(at + 1) == rows.skip(at)
            &&& row.name@ == next_column_name(column_names_of(rows))
            &&& row.data_type@ == new_column_type(before.driver)
            &&& row.nullable@ == "YES"@
            &&& row.default_value@ == ""@
            &&& row.extra@ == ""@
            &&& added_column(a, d, a.reordered_columns@, at)
            &&& after.status_message@ == "ADD COLUMN row added. Apply to execute."@
        }
    }
}

/// Why an index for the row at `index` is refused, if it is.
pub open spec fn index_refusal(d: AlterTableDraft, t: TableDetails, index: nat) -> Option<Seq<char>> {
    let rows = ensured_rows(d, t);
    if rows.len() > ensured_names(d, t).len() {
        Some("Apply or remove the pending ADD COLUMN row before adding an index."@)
    } else if index >= rows.len() {
        Some("Column row was not found."@)
    } else {
        None
    }
}

/// What preparing an index on the row at `index` does: an index named for
/// the table and the column, on that column, of the driver's default type,
/// shown on the indexes tab.
pub open spec fn index_outcome(after: TableDesigner, before: TableDesigner, index: nat) -> bool {
    &&& same_context(after, before)
    &&& if !ready(before) {
        refused_not_ready(after, before)
    } else {
        let d = before.alter_table_draft->0;
        let t = before.table_details->0;
        let a = after.alter_table_draft->0;
        &&& after.alter_table_draft is Some
        &&& match index_refusal(d, t, index) {
            Some(m) => {
                &&& is_ensured(a, d, t)
                &&& after.alter_table_tab == before.alter_table_tab
                &&& after.status_message@ == m
            },
            None => {
                let name = ensured_rows(d, t)[index as int].name@;
                &&& a.operation == AlterTableOperation::AddIndex
                &&& a.index_name@ == index_name_text(d.table@, name)
                &&& a.index_columns@ == name
                &&& a.index_type@ == first_or(index_types(before.driver), "INDEX"@)
                &&& a.reordered_columns@ == ensured_rows(d, t)
                &&& views(a.original_column_names@) == ensured_names(d, t)
                &&& same_head(a, d)
                &&& same_column_fields(a, d)
                &&& same_constraint(a, d)
                &&& after.alter_table_tab == AlterTableTab::Indexes
                &&& after.status_message@ == index_message(name)
            },
        }
    }
}

/// What removing the row at `index` does: only a row still to be added
/// goes, and the column operation starts over; the tab is kept.
pub open spec fn remove_outcome(after: TableDesigner, before: TableDesigner, index: nat) -> bool {
    &&& same_context(after, before)
    &&& after.alter_table_tab == before.alter_table_tab
    &&& if !ready(before) {
        refused_not_ready(after, before)
    } else {
        let d = before.alter_table_draft->0;
        let t = before.table_details->0;
        let rows = ensured_rows(d, t);
        let names = ensured_names(d, t);
        let a = after.alter_table_draft->0;
        &&& after.alter_table_draft is Some
        &&& if !pending_at(names, rows, index as int) {
            &&& is_ensured(a, d, t)
            &&& after.status_message@ == "Only pending ADD COLUMN rows can be removed."@
        } else {
            &&& a.reordered_columns@ == rows.remove(index as int)
            &&& views(a.original_column_names@) == names
            &&& a.operation == AlterTableOperation::RenameColumn
            &&& a.column_name@.len() == 0
            &&& a.column_type@ == new_column_type(before.driver)
            &&& a.column_definition@.len() == 0
            &&& a.column_position@ == "LAST"@
            &&& a.after_column@.len() == 0
            &&& a.new_column_name == d.new_column_name
            &&& same_head(a, d)
            &&& same_index(a, d)
            &&& same_constraint(a, d)
            &&& after.status_message@ == "Pending ADD COLUMN row removed."@
        }
    }
}

/// The row selected after a move by `delta` from row `i`: the row one step
/// from it, or `i` itself when there is none.
pub open spec fn next_selected(s: TableDesigner, i: nat, delta: i32) -> nat {
    match move_rows(s) {
        Some(rows) => match step_target(rows.len(), i, delta) {
            Some(v) => v,
            None => i,
        },
        None => i,
    }
}

/// The column operation started over: a rename with no names, the driver's
/// new-column type and the column placed last.
pub open spec fn column_op_reset(a: AlterTableDraft, driver: DatabaseDriver) -> bool {
    &&& a.operation == AlterTableOperation::RenameColumn
    &&& a.column_name@.len() == 0
    &&& a.new_column_name@.len() == 0
    &&& a.column_type@ == new_column_type(driver)
    &&& a.column_definition@.len() == 0
    &&& a.column_position@ == "LAST"@
    &&& a.after_column@.len() == 0
}

/// What reverting every change does: the rows, names and statement come
/// back from the table's metadata (or the rows are emptied while it is
/// loading), every operation starts over, nothing is selected and the
/// columns tab shows.
pub open spec fn revert_all_outcome(after: TableDesigner, before: TableDesigner) -> bool {
    &&& same_context(after, before)
    &&& if before.alter_table_draft is None {
        &&& after.alter_table_draft == before.alter_table_draft
        &&& after.alter_table_tab == before.alter_table_tab
        &&& after.selected_alter_table_column == before.selected_alter_table_column
        &&& after.status_message@ == "Table designer is not open."@
    } else {
        let d = before.alter_table_draft->0;
        let a = after.alter_table_draft->0;
        let driver = before.driver;
        &&& after.alter_table_draft is Some
        &&& match before.table_details {
            Some(t) => {
                &&& views(a.original_column_names@) == column_names_of(t.columns@)
                &&& a.reordered_columns@ == t.columns@
                &&& a.create_statement == t.create_statement
            },
            None => {
                &&& a.original_column_names@.len() == 0
                &&& a.reordered_columns@.len() == 0
                &&& a.create_statement == d.create_statement
            },
        }
        &&& a.table == d.table
        &&& column_op_reset(a, driver)
        &&& a.index_name@.len() == 0
        &&& a.index_columns@.len() == 0
        &&& a.index_type@ == first_or(index_types(driver), "INDEX"@)
        &&& a.constraint_name@.len() == 0
        &&& a.constraint_kind@ == first_or(constraint_types(driver), "CHECK"@)
        &&& a.constraint_expression@.len() == 0
        &&& after.selected_alter_table_column is None
        &&& after.alter_table_tab == AlterTableTab::Columns
        &&& after.status_message@ == "All structure changes reverted."@
    }
}

/// The column at `j` is named `name`, up to ASCII case.
pub open spec fn matches_at(cols: Seq<TableColumnDetail>, name: Seq<char>, j: int) -> bool {
    0 <= j < cols.len() && eq_ci(cols[j].name@, name)
}

/// The first column named `name`, up to ASCII case.
pub open spec fn first_match(cols: Seq<TableColumnDetail>, name: Seq<char>) -> Option<int> {
    if exists|j: int| matches_at(cols, name, j) {
        Some(
            choose|j: int|
                matches_at(cols, name, j) && forall|k: int| 0 <= k < j ==> !matches_at(cols, name, k),
        )
    } else {
        None
    }
}

proof fn lemma_first_match(cols: Seq<TableColumnDetail>, name: Seq<char>, i: int)
    requires
        matches_at(cols, name, i),
        forall|k: int| 0 <= k < i ==> !matches_at(cols, name, k),
    ensures
        first_match(cols, name) == Some(i),
{
    let w = choose|j: int|
        matches_at(cols, name, j) && forall|k: int| 0 <= k < j ==> !matches_at(cols, name, k);
    assert(matches_at(cols, name, w));
    if w < i {
        assert(!matches_at(cols, name, w));
    }
    if w > i {
        assert(!matches_at(cols, name, i));
    }
}

/// A draft whose column operation started over and whose rows and names
/// are as given, with the rest of `d`.
pub open spec fn reverted_rows(
    a: AlterTableDraft,
    d: AlterTableDraft,
    rows: Seq<TableColumnDetail>,
    names: Seq<Seq<char>>,
    driver: DatabaseDriver,
) -> bool {
    &&& a.reordered_columns@ == rows
    &&& views(a.original_column_names@) == names
    &&& column_op_reset(a, driver)
    &&& same_head(a, d)
    &&& same_index(a, d)
    &&& same_constraint(a, d)
}

/// What reverting the selected change does. On the indexes tab with an
/// index prepared, the index part is cleared; on the constraints tab with a
/// constraint prepared, the constraint part. Else the selected row: a row
/// still to be added goes; another row takes back the table's column of
/// its original name (all rows do after a move), and the names come back.
/// The column operation then starts over.
pub open spec fn revert_selected_outcome(after: TableDesigner, before: TableDesigner) -> bool {
    let driver = before.driver;
    let a = after.alter_table_draft->0;
    &&& same_context(after, before)
    &&& after.alter_table_tab == before.alter_table_tab
    &&& if before.alter_table_draft is None {
        &&& after.alter_table_draft == before.alter_table_draft
        &&& after.selected_alter_table_column == before.selected_alter_table_column
        &&& after.status_message@ == "Table designer is not open."@
    } else {
        let d = before.alter_table_draft->0;
        if before.alter_table_tab == AlterTableTab::Indexes && d.operation
            == AlterTableOperation::AddIndex {
            &&& after.alter_table_draft is Some
            &&& a.operation == AlterTableOperation::RenameColumn
            &&& a.index_name@.len() == 0
            &&& a.index_columns@.len() == 0
            &&& a.index_type@ == first_or(index_types(driver), "INDEX"@)
            &&& same_head(a, d)
            &&& same_column_fields(a, d)
            &&& same_constraint(a, d)
            &&& same_rows(a, d)
            &&& after.selected_alter_table_column == before.selected_alter_table_column
            &&& after.status_message@ == "Selected ADD INDEX change reverted."@
        } else if before.alter_table_tab == AlterTableTab::Constraints && d.operation
            == AlterTableOperation::AddConstraint {
            &&& after.alter_table_draft is Some
            &&& a.operation == AlterTableOperation::RenameColumn
            &&& a.constraint_name@.len() == 0
            &&& a.constraint_kind@ == first_or(constraint_types(driver), "CHECK"@)
            &&& a.constraint_expression@.len() == 0
            &&& same_head(a, d)
            &&& same_column_fields(a, d)
            &&& same_index(a, d)
            &&& same_rows(a, d)
            &&& after.selected_alter_table_column == before.selected_alter_table_column
            &&& after.status_message@ == "Selected ADD CONSTRAINT change reverted."@
        } else if before.selected_alter_table_column is None {
            &&& after.alter_table_draft == before.alter_table_draft
            &&& after.selected_alter_table_column is None
            &&& after.status_message@ == "Select a column change before reverting."@
        } else if before.table_details is None {
            &&& after.alter_table_draft == before.alter_table_draft
            &&& after.selected_alter_table_column == before.selected_alter_table_column
            &&& after.status_message@ == "Table columns are still loading."@
        } else {
            let i = before.selected_alter_table_column->0 as int;
            let t = before.table_details->0;
            let rows = ensured_rows(d, t);
            let names = ensured_names(d, t);
            let original = if i < names.len() {
                names[i]
            } else {
                rows[i].name@
            };
            &&& after.alter_table_draft is Some
            &&& if i >= rows.len() {
                &&& is_ensured(a, d, t)
                &&& after.selected_alter_table_column == before.selected_alter_table_column
                &&& after.status_message@ == "Column row was not found."@
            } else if pending_at(names, rows, i) {
                &&& reverted_rows(a, d, rows.remove(i), names, driver)
                &&& after.selected_alter_table_column is None
                &&& after.status_message@ == "Selected ADD COLUMN change reverted."@
            } else {
                &&& after.selected_alter_table_column == before.selected_alter_table_column
                &&& match first_match(t.columns@, original) {
                    None => {
                        &&& is_ensured(a, d, t)
                        &&& after.status_message@ == "Original column metadata was not found."@
                    },
                    Some(k) => {
                        &&& reverted_rows(
                            a,
                            d,
                            if d.operation == AlterTableOperation::MoveColumn {
                                t.columns@
                            } else {
                                rows.update(i, t.columns@[k])
                            },
                            column_names_of(t.columns@),
                            driver,
                        )
                        &&& after.status_message@ == "Selected column change reverted."@
                    },
                }
            }
        }
    }
}

/// The row with one cell set to `value`.
pub open spec fn edited(c: TableColumnDetail, field: CreateTableColumnField, value: String) -> TableColumnDetail {
    match field {
        CreateTableColumnField::Name => TableColumnDetail { name: value, ..c },
        CreateTableColumnField::DataType => TableColumnDetail { data_type: value, ..c },
        CreateTableColumnField::Nullable => TableColumnDetail { nullable: value, ..c },
        CreateTableColumnField::DefaultValue => TableColumnDetail { default_value: value, ..c },
        CreateTableColumnField::Extra => TableColumnDetail { extra: value, ..c },
    }
}

/// What editing a cell of the row at `index` does. While a row is still to
/// be added only that row may change. The cell is set; a row still to be
/// added (after the edit) becomes the added column again; a rename of an
/// existing row prepares a rename from its original name; other cells of
/// existing rows keep the edit but are reported read-only.
pub open spec fn update_outcome(
    after: TableDesigner,
    before: TableDesigner,
    index: nat,
    field: CreateTableColumnField,
    value: String,
) -> bool {
    &&& same_context(after, before)
    &&& if !ready(before) {
        refused_not_ready(after, before)
    } else {
        let d = before.alter_table_draft->0;
        let t = before.table_details->0;
        let rows = ensured_rows(d, t);
        let names = ensured_names(d, t);
        let a = after.alter_table_draft->0;
        let i = index as int;
        &&& after.alter_table_draft is Some
        &&& if rows.len() > names.len() && !pending_at(names, rows, i) {
            &&& is_ensured(a, d, t)
            &&& after.alter_table_tab == before.alter_table_tab
            &&& after.status_message@
                == "Apply or remove the pending ADD COLUMN row before editing existing columns."@
        } else if i >= rows.len() {
            &&& is_ensured(a, d, t)
            &&& after.alter_table_tab == before.alter_table_tab
            &&& after.status_message@ == "Column row was not found."@
        } else {
            let rows2 = rows.update(i, edited(rows[i], field, value));
            &&& views(a.original_column_names@) == names
            &&& if pending_at(names, rows2, i) {
                &&& added_column(a, d, rows2, i)
                &&& after.alter_table_tab == AlterTableTab::Columns
                &&& after.status_message@ == "Table structure draft updated. Apply to execute."@
            } else if field == CreateTableColumnField::Name {
                &&& a.reordered_columns@ == rows2
                &&& (if i < names.len() {
                    &&& a.operation == AlterTableOperation::RenameColumn
                    &&& a.column_name@ == names[i]
                    &&& a.new_column_name == value
                    &&& a.column_type == d.column_type
                    &&& a.column_definition == d.column_definition
                    &&& a.column_position == d.column_position
                    &&& a.after_column == d.after_column
                } else {
                    same_column_op(a, d)
                })
                &&& same_head(a, d)
                &&& same_index(a, d)
                &&& same_constraint(a, d)
                &&& after.alter_table_tab == AlterTableTab::Columns
                &&& after.status_message@ == "Table structure draft updated. Apply to execute."@
            } else {
                &&& a.reordered_columns@ == rows2
                &&& same_column_op(a, d)
                &&& same_head(a, d)
                &&& same_index(a, d)
                &&& same_constraint(a, d)
                &&& after.alter_table_tab == before.alter_table_tab
                &&& after.status_message@
                    == "This existing column attribute is read-only; rename and reorder are supported."@
            }
        }
    }
}

/// The designer is closed: only the message changes.
pub open spec fn refused_closed(after: TableDesigner, before: TableDesigner) -> bool {
    &&& after.alter_table_draft == before.alter_table_draft
    &&& after.alter_table_tab == before.alter_table_tab
    &&& after.status_message@ == "Table designer is not open."@
}

/// What choosing a tab does to the draft: the columns tab leaves an index
/// or constraint operation for a rename; the indexes tab prepares an index
/// of the driver's default type; the constraints tab prepares a constraint
/// of the driver's default kind, named `ck_<table>` when it has no name;
/// the statement tab changes nothing.
pub open spec fn tab_draft(a: AlterTableDraft, d: AlterTableDraft, tab: AlterTableTab, driver: DatabaseDriver) -> bool {
    &&& same_head(a, d)
    &&& same_column_fields(a, d)
    &&& same_rows(a, d)
    &&& match tab {
        AlterTableTab::Columns => {
            &&& a.operation == (if d.operation == AlterTableOperation::AddIndex || d.operation
                == AlterTableOperation::AddConstraint {
                AlterTableOperation::RenameColumn
            } else {
                d.operation
            })
            &&& same_index(a, d)
            &&& same_constraint(a, d)
        },
        AlterTableTab::Indexes => {
            &&& a.operation == AlterTableOperation::AddIndex
            &&& a.index_name == d.index_name
            &&& a.index_columns == d.index_columns
            &&& a.index_type@ == first_or(index_types(driver), "INDEX"@)
            &&& same_constraint(a, d)
        },
        AlterTableTab::Constraints => {
            &&& a.operation == AlterTableOperation::AddConstraint
            &&& a.constraint_name@ == (if trim(d.constraint_name@).len() == 0 {
                "ck_"@ + identifier_part(d.table@)
            } else {
                d.constraint_name@
            })
            &&& a.constraint_kind@ == first_or(constraint_types(driver), "CHECK"@)
            &&& a.constraint_expression == d.constraint_expression
            &&& same_index(a, d)
        },
        AlterTableTab::Ddl => a == d,
    }
}

/// The message after a column chip was toggled.
pub open spec fn chip_message(column: Seq<char>) -> Seq<char> {
    "Index columns: "@ + column
}

/// The draft with one field of the form set to `value`; a field of the
/// index part makes it an index operation, one of the constraint part a
/// constraint operation.
pub open spec fn field_set(a: AlterTableDraft, d: AlterTableDraft, field: AlterTableField, value: String) -> bool {
    &&& same_head(a, d)
    &&& same_rows(a, d)
    &&& match field {
        AlterTableField::ColumnName => a == AlterTableDraft { column_name: value, ..d },
        AlterTableField::NewColumnName => a == AlterTableDraft { new_column_name: value, ..d },
        AlterTableField::ColumnType => a == AlterTableDraft { column_type: value, ..d },
        AlterTableField::ColumnDefinition => a == AlterTableDraft { column_definition: value, ..d },
        AlterTableField::IndexName => a == AlterTableDraft {
            operation: AlterTableOperation::AddIndex,
            index_name: value,
            ..d
        },
        AlterTableField::IndexColumns => a == AlterTableDraft {
            operation: AlterTableOperation::AddIndex,
            index_columns: value,
            ..d
        },
        AlterTableField::IndexType => a == AlterTableDraft {
            operation: AlterTableOperation::AddIndex,
            index_type: value,
            ..d
        },
        AlterTableField::ConstraintName => a == AlterTableDraft {
            operation: AlterTableOperation::AddConstraint,
            constraint_name: value,
            ..d
        },
        AlterTableField::ConstraintKind => a == AlterTableDraft {
            operation: AlterTableOperation::AddConstraint,
            constraint_kind: value,
            ..d
        },
        AlterTableField::ConstraintExpression => a == AlterTableDraft {
            operation: AlterTableOperation::AddConstraint,
            constraint_expression: value,
            ..d
        },
        AlterTableField::ColumnPosition => a == AlterTableDraft { column_position: value, ..d },
        AlterTableField::AfterColumn => a == AlterTableDraft { after_column: value, ..d },
    }
}

/// The create-table form is closed: only the message changes.
pub open spec fn create_closed(after: TableDesigner, before: TableDesigner) -> bool {
    &&& after.create_table_draft == before.create_table_draft
    &&& after.create_table_tab == before.create_table_tab
    &&& after.status_message@ == "Create table form is not open."@
}

/// A column row with one cell set to `value`.
pub open spec fn edited_create_column(
    c: CreateTableColumnDraft,
    field: CreateTableColumnField,
    value: String,
) -> CreateTableColumnDraft {
    match field {
        CreateTableColumnField::Name => CreateTableColumnDraft { name: value, ..c },
        CreateTableColumnField::DataType => CreateTableColumnDraft { data_type: value, ..c },
        CreateTableColumnField::Nullable => CreateTableColumnDraft { nullable: value, ..c },
        CreateTableColumnField::DefaultValue => CreateTableColumnDraft { default_value: value, ..c },
        CreateTableColumnField::Extra => CreateTableColumnDraft { extra: value, ..c },
    }
}

/// An index row with one cell set to `value`.
pub open spec fn edited_create_index(
    i: CreateTableIndexDraft,
    field: CreateTableIndexField,
    value: String,
) -> CreateTableIndexDraft {
    match field {
        CreateTableIndexField::Name => CreateTableIndexDraft { name: value, ..i },
        CreateTableIndexField::Columns => CreateTableIndexDraft { columns: value, ..i },
        CreateTableIndexField::IndexType => CreateTableIndexDraft { index_type: value, ..i },
    }
}

/// A constraint row with one cell set to `value`.
pub open spec fn edited_create_constraint(
    c: CreateTableConstraintDraft,
    field: CreateTableConstraintField,
    value: String,
) -> CreateTableConstraintDraft {
    match field {
        CreateTableConstraintField::Name => CreateTableConstraintDraft { name: value, ..c },
        CreateTableConstraintField::Kind => CreateTableConstraintDraft { kind: value, ..c },
        CreateTableConstraintField::Expression => CreateTableConstraintDraft { expression: value, ..c },
    }
}

/// The create-table draft with only its columns changed.
pub open spec fn only_columns_changed(a: CreateTableDraft, d: CreateTableDraft) -> bool {
    &&& a.name == d.name
    &&& a.engine == d.engine
    &&& a.charset == d.charset
    &&& a.collation == d.collation
    &&& a.comment == d.comment
    &&& a.indexes@ == d.indexes@
    &&& a.constraints@ == d.constraints@
}

/// The create-table draft with only its indexes changed.
pub open spec fn only_indexes_changed(a: CreateTableDraft, d: CreateTableDraft) -> bool {
    &&& a.name == d.name
    &&& a.engine == d.engine
    &&& a.charset == d.charset
    &&& a.collation == d.collation
    &&& a.comment == d.comment
    &&& a.columns@ == d.columns@
    &&& a.constraints@ == d.constraints@
}

/// The create-table draft with only its constraints changed.
pub open spec fn only_constraints_changed(a: CreateTableDraft, d: CreateTableDraft) -> bool {
    &&& a.name == d.name
    &&& a.engine == d.engine
    &&& a.charset == d.charset
    &&& a.collation == d.collation
    &&& a.comment == d.comment
    &&& a.columns@ == d.columns@
    &&& a.indexes@ == d.indexes@
}

proof fn lemma_views_moved(v: Seq<String>, index: nat, delta: i32)
    ensures
        views(moved(v, index, delta)) == moved(views(v), index, delta),
{
    assert(views(moved(v, index, delta)) =~= moved(views(v), index, delta));
}

fn clone_columns(v: &Vec<TableColumnDetail>) -> (r: Vec<TableColumnDetail>)
    ensures
        r@ == v@,
{
    let mut r: Vec<TableColumnDetail> = Vec::new();
    let mut i: usize = 0;
    while i < v.len()
        invariant
            i <= v.len(),
            r@ == v@.take(i as int),
        decreases v.len() - i,
    {
        r.push(v[i].clone());
        assert(v@.take(i + 1) == v@.take(i as int).push(v@[i as int]));
        i += 1;
    }
    assert(v@.take(v.len() as int) == v@);
    r
}

fn names_of(v: &Vec<TableColumnDetail>) -> (r: Vec<String>)
    ensures
        views(r@) == column_names_of(v@),
{
    let mut r: Vec<String> = Vec::new();
    let mut i: usize = 0;
    while i < v.len()
        invariant
            i <= v.len(),
            views(r@) == column_names_of(v@.take(i as int)),
        decreases v.len() - i,
    {
        let ghost before = views(r@);
        let n = v[i].name.clone();
        let ghost nv = n@;
        r.push(n);
        assert(views(r@) =~= before.push(nv));
        assert(v@.take(i + 1) == v@.take(i as int).push(v@[i as int]));
        assert(column_names_of(v@.take(i + 1)) =~= column_names_of(v@.take(i as int)).push(
            v@[i as int].name@,
        ));
        i += 1;
    }
    assert(v@.take(v.len() as int) == v@);
    r
}

fn find_column_ci(cols: &Vec<TableColumnDetail>, name: &str) -> (r: Option<usize>)
    ensures
        match r {
            Some(k) => first_match(cols@, name@) == Some(k as int) && k < cols@.len(),
            None => first_match(cols@, name@) is None,
        },
{
    let mut i: usize = 0;
    while i < cols.len()
        invariant
            i <= cols.len(),
            forall|k: int| 0 <= k < i ==> !matches_at(cols@, name@, k),
        decreases cols.len() - i,
    {
        if eq_ignore_ascii_case(cols[i].name.as_str(), name) {
            proof {
                lemma_first_match(cols@, name@, i as int);
            }
            return Some(i);
        }
        i += 1;
    }
    None
}

impl TableDesigner {
    /// A closed designer for a connection with `driver`.
    pub fn new(driver: DatabaseDriver) -> (r: Self)
        ensures
            r.driver == driver,
            r.table_details is None,
            r.alter_table_draft is None,
            r.selected_alter_table_column is None,
            r.alter_table_tab == AlterTableTab::Columns,
            r.create_table_draft is None,
            r.create_table_tab == CreateTableTab::Columns,
            r.status_message@.len() == 0,
    {
        TableDesigner {
            driver,
            table_details: None,
            alter_table_draft: None,
            selected_alter_table_column: None,
            alter_table_tab: AlterTableTab::Columns,
            create_table_draft: None,
            create_table_tab: CreateTableTab::Columns,
            status_message: String::new(),
        }
    }

    /// Prepares the draft for editing rows: a draft without rows takes the
    /// table's columns and their names. `false`, with the reason as the
    /// message, while the metadata is loading or the designer is closed.
    pub fn ensure_alter_table_column_draft(&mut self) -> (ok: bool)
        ensures
            ok == ready(*old(self)),
            same_context(*final(self), *old(self)),
            final(self).selected_alter_table_column == old(self).selected_alter_table_column,
            final(self).alter_table_tab == old(self).alter_table_tab,
            !ok ==> final(self).alter_table_draft == old(self).alter_table_draft,
            !ok ==> final(self).status_message@ == not_ready_message(*old(self)),
            ok ==> final(self).status_message == old(self).status_message,
            ok ==> final(self).alter_table_draft is Some && is_ensured(
                final(self).alter_table_draft->0,
                old(self).alter_table_draft->0,
                old(self).table_details->0,
            ),
    {
        if self.table_details.is_none() {
            self.status_message = owned("Table columns are still loading.");
            return false;
        }
        if self.alter_table_draft.is_none() {
            self.status_message = owned("Table designer is not open.");
            return false;
        }
        let (names, rows) = match &self.table_details {
            Some(t) => (names_of(&t.columns), clone_columns(&t.columns)),
            None => (Vec::new(), Vec::new()),
        };
        match &mut self.alter_table_draft {
            Some(d) => {
                if d.reordered_columns.len() == 0 {
                    d.original_column_names = names;
                    d.reordered_columns = rows;
                }
            },
            None => {},
        }
        true
    }

    /// The row a move by `delta` selects next: the one before or after
    /// `index` among the rows the arrows move through; `None` past either
    /// end or with no rows.
    pub fn alter_table_column_move_target(&self, index: usize, delta: i32) -> (r: Option<usize>)
        ensures
            match move_rows(*self) {
                Some(rows) => match r {
                    Some(v) => step_target(rows.len(), index as nat, delta) == Some(v as nat),
                    None => step_target(rows.len(), index as nat, delta) is None,
                },
                None => r is None,
            },
    {
        let len: usize = match &self.alter_table_draft {
            Some(d) if d.reordered_columns.len() > 0 => d.reordered_columns.len(),
            _ => match &self.table_details {
                Some(t) => t.columns.len(),
                None => {
                    return None;
                },
            },
        };
        if len == 0 || index >= len {
            return None;
        }
        if delta < 0 {
            if index == 0 {
                None
            } else {
                Some(index - 1)
            }
        } else if index + 1 < len {
            Some(index + 1)
        } else {
            None
        }
    }

    /// Selects the row at `index`.
    pub fn select_alter_table_column(&mut self, index: usize)
        requires
            index < usize::MAX,
        ensures
            final(self).selected_alter_table_column == Some(index),
            final(self).status_message@ == "Column row "@ + decimal((index + 1) as nat) + " selected."@,
            final(self).alter_table_draft == old(self).alter_table_draft,
            final(self).alter_table_tab == old(self).alter_table_tab,
            same_context(*final(self), *old(self)),
    {
        self.selected_alter_table_column = Some(index);
        let mut m = owned("Column row ");
        m.append(usize_to_decimal(index + 1).as_str());
        m.append(" selected.");
        self.status_message = m;
    }

    /// Moves the row at `index` one step by `delta` and prepares the move of
    /// the row that lands one step from it, as `move_outcome` states.
    pub fn prepare_alter_table_column_move(&mut self, index: usize, delta: i32)
        ensures
            move_outcome(*final(self), *old(self), index as nat, delta),
            final(self).selected_alter_table_column == old(self).selected_alter_table_column,
    {
        if !self.ensure_alter_table_column_draft() {
            return;
        }
        let (row_count, name_count) = match &self.alter_table_draft {
            Some(d) => (d.reordered_columns.len(), d.original_column_names.len()),
            None => (0, 0),
        };
        if row_count > name_count {
            self.status_message = owned(
                "Apply or remove the pending ADD COLUMN row before moving columns.",
            );
            return;
        }
        if index >= row_count {
            self.status_message = owned("Column row was not found.");
            return;
        }
        let target: usize = if delta < 0 {
            if index == 0 {
                self.status_message = owned("Column is already first.");
                return;
            }
            index - 1
        } else {
            if index + 1 >= row_count {
                self.status_message = owned("Column is already last.");
                return;
            }
            index + 1
        };
        let mut message = owned("MOVE COLUMN prepared for ");
        match &mut self.alter_table_draft {
            Some(d) => {
                let ghost names0 = d.original_column_names@;
                move_vec_item(&mut d.reordered_columns, index, delta);
                move_vec_item(&mut d.original_column_names, index, delta);
                proof {
                    lemma_views_moved(names0, index as nat, delta);
                }
                let column = d.reordered_columns[target].clone();
                d.operation = AlterTableOperation::MoveColumn;
                d.column_definition = table_column_definition_tail(&column);
                if delta < 0 && target == 0 {
                    d.column_position = owned("FIRST");
                    d.after_column = owned("");
                } else {
                    d.column_position = owned("AFTER");
                    d.after_column = d.reordered_columns[target - 1].name.clone();
                }
                message.append(column.name.as_str());
                d.column_name = column.name;
                d.column_type = column.data_type;
            },
            None => {},
        }
        message.append(". Apply to execute.");
        self.alter_table_tab = AlterTableTab::Columns;
        self.status_message = message;
    }

    /// Adds a row at `insert_at`, as `insert_outcome` states.
    pub fn insert_alter_table_column_at(&mut self, insert_at: usize)
        ensures
            insert_outcome(*final(self), *old(self), insert_at as nat),
            final(self).selected_alter_table_column == old(self).selected_alter_table_column,
    {
        if !self.ensure_alter_table_column_draft() {
            return;
        }
        let driver = self.driver;
        let mut finish = false;
        match &mut self.alter_table_draft {
            Some(d) => {
                let ghost names = views(d.original_column_names@);
                let ghost rows = d.reordered_columns@;
                if d.reordered_columns.len() > d.original_column_names.len() {
                    let index = match pending_alter_table_column_index(d) {
                        Some(i) => {
                            proof {
                                assert forall|k: int| 0 <= k < i implies !pending_at(
                                    names,
                                    rows,
                                    k,
                                ) by {
                                    assert(!crate::designer::is_pending_column(*d, k));
                                }
                                assert(crate::designer::is_pending_column(*d, i as int));
                                lemma_first_pending(names, rows, i as int);
                            }
                            i
                        },
                        None => {
                            proof {
                                assert forall|j: int| !pending_at(names, rows, j) by {
                                    if 0 <= j < rows.len() {
                                        assert(!crate::designer::is_pending_column(*d, j));
                                    }
                                }
                            }
                            d.reordered_columns.len() - 1
                        },
                    };
                    sync_alter_table_add_column(d, index);
                    finish = true;
                } else {
                    let at = if insert_at < d.reordered_columns.len() {
                        insert_at
                    } else {
                        d.reordered_columns.len()
                    };
                    let name = next_alter_table_column_name(&d.reordered_columns);
                    let row = TableColumnDetail {
                        name,
                        data_type: default_alter_table_column_type(driver),
                        nullable: owned("YES"),
                        default_value: owned(""),
                        extra: owned(""),
                    };
                    d.reordered_columns.insert(at, row);
                    assert(d.reordered_columns@.take(at as int) =~= rows.take(at as int));
                    assert(d.reordered_columns@.skip(at + 1) =~= rows.skip(at as int));
                    sync_alter_table_add_column(d, at);
                }
            },
            None => {},
        }
        self.alter_table_tab = AlterTableTab::Columns;
        self.status_message = if finish {
            owned("Finish the pending ADD COLUMN row before applying.")
        } else {
            owned("ADD COLUMN row added. Apply to execute.")
        };
    }

    /// Reverts every change, as `revert_all_outcome` states.
    pub fn revert_all_alter_table_changes(&mut self)
        ensures
            revert_all_outcome(*final(self), *old(self)),
    {
        if self.alter_table_draft.is_none() {
            self.status_message = owned("Table designer is not open.");
            return;
        }
        let driver = self.driver;
        let restored = match &self.table_details {
            Some(t) => Some((names_of(&t.columns), clone_columns(&t.columns), t.create_statement.clone())),
            None => None,
        };
        match &mut self.alter_table_draft {
            Some(d) => {
                match restored {
                    Some((names, rows, statement)) => {
                        d.original_column_names = names;
                        d.reordered_columns = rows;
                        d.create_statement = statement;
                    },
                    None => {
                        d.original_column_names = Vec::new();
                        d.reordered_columns = Vec::new();
                    },
                }
                reset_alter_table_column_operation(d, driver);
                d.index_name = String::new();
                d.index_columns = String::new();
                d.index_type = owned(default_index_type(driver));
                d.constraint_name = String::new();
                d.constraint_kind = owned(default_constraint_type(driver));
                d.constraint_expression = String::new();
            },
            None => {},
        }
        self.selected_alter_table_column = None;
        self.alter_table_tab = AlterTableTab::Columns;
        self.status_message = owned("All structure changes reverted.");
    }

    /// Reverts the selected change, as `revert_selected_outcome` states.
    #[verifier::rlimit(40)]
    pub fn revert_selected_alter_table_change(&mut self)
        ensures
            revert_selected_outcome(*final(self), *old(self)),
    {
        let driver = self.driver;
        let operation = match &self.alter_table_draft {
            Some(d) => d.operation,
            None => {
                self.status_message = owned("Table designer is not open.");
                return;
            },
        };
        if self.alter_table_tab == AlterTableTab::Indexes && operation
            == AlterTableOperation::AddIndex {
            match &mut self.alter_table_draft {
                Some(d) => clear_alter_table_index_draft_impl(d, driver),
                None => {},
            }
            self.status_message = owned("Selected ADD INDEX change reverted.");
            return;
        }
        if self.alter_table_tab == AlterTableTab::Constraints && operation
            == AlterTableOperation::AddConstraint {
            match &mut self.alter_table_draft {
                Some(d) => clear_alter_table_constraint_draft_impl(d, driver),
                None => {},
            }
            self.status_message = owned("Selected ADD CONSTRAINT change reverted.");
            return;
        }
        let index = match self.selected_alter_table_column {
            Some(i) => i,
            None => {
                self.status_message = owned("Select a column change before reverting.");
                return;
            },
        };
        if !self.ensure_alter_table_column_draft() {
            return;
        }
        let (row_count, pending, original) = match &self.alter_table_draft {
            Some(d) => {
                if index >= d.reordered_columns.len() {
                    (d.reordered_columns.len(), false, String::new())
                } else {
                    let pending = is_pending_alter_table_column(d, index);
                    let original = if index < d.original_column_names.len() {
                        d.original_column_names[index].clone()
                    } else {
                        d.reordered_columns[index].name.clone()
                    };
                    (d.reordered_columns.len(), pending, original)
                }
            },
            None => (0, false, String::new()),
        };
        if index >= row_count {
            self.status_message = owned("Column row was not found.");
            return;
        }
        if pending {
            match &mut self.alter_table_draft {
                Some(d) => {
                    d.reordered_columns.remove(index);
                    reset_alter_table_column_operation(d, driver);
                },
                None => {},
            }
            self.selected_alter_table_column = None;
            self.status_message = owned("Selected ADD COLUMN change reverted.");
            return;
        }
        let found = match &self.table_details {
            Some(t) => match find_column_ci(&t.columns, original.as_str()) {
                Some(k) => Some((t.columns[k].clone(), names_of(&t.columns), clone_columns(&t.columns))),
                None => None,
            },
            None => None,
        };
        match found {
            None => {
                self.status_message = owned("Original column metadata was not found.");
            },
            Some((column, names, columns)) => {
                match &mut self.alter_table_draft {
                    Some(d) => {
                        d.reordered_columns.set(index, column);
                        d.original_column_names = names;
                        if d.operation == AlterTableOperation::MoveColumn {
                            d.reordered_columns = columns;
                        }
                        reset_alter_table_column_operation(d, driver);
                    },
                    None => {},
                }
                self.status_message = owned("Selected column change reverted.");
            },
        }
    }

    /// Sets one cell of the row at `index`, as `update_outcome` states.
    #[verifier::rlimit(40)]
    pub fn update_alter_table_column(&mut self, index: usize, field: CreateTableColumnField, value: String)
        ensures
            update_outcome(*final(self), *old(self), index as nat, field, value),
            final(self).selected_alter_table_column == old(self).selected_alter_table_column,
    {
        if !self.ensure_alter_table_column_draft() {
            return;
        }
        let outcome: u8 = match &mut self.alter_table_draft {
            Some(d) => {
                let pending_before = is_pending_alter_table_column(d, index);
                if d.reordered_columns.len() > d.original_column_names.len() && !pending_before {
                    1
                } else if index >= d.reordered_columns.len() {
                    2
                } else {
                    let original_name: Option<String> = if index < d.original_column_names.len() {
                        Some(d.original_column_names[index].clone())
                    } else {
                        None
                    };
                    let mut column = d.reordered_columns[index].clone();
                    match field {
                        CreateTableColumnField::Name => column.name = value,
                        CreateTableColumnField::DataType => column.data_type = value,
                        CreateTableColumnField::Nullable => column.nullable = value,
                        CreateTableColumnField::DefaultValue => column.default_value = value,
                        CreateTableColumnField::Extra => column.extra = value,
                    }
                    let edited_name = column.name.clone();
                    d.reordered_columns.set(index, column);
                    if is_pending_alter_table_column(d, index) {
                        sync_alter_table_add_column(d, index);
                        0
                    } else if field == CreateTableColumnField::Name {
                        match original_name {
                            Some(name) => {
                                d.operation = AlterTableOperation::RenameColumn;
                                d.column_name = name;
                                d.new_column_name = edited_name;
                            },
                            None => {},
                        }
                        0
                    } else {
                        3
                    }
                }
            },
            None => 2,
        };
        if outcome == 0 {
            self.alter_table_tab = AlterTableTab::Columns;
            self.status_message = owned("Table structure draft updated. Apply to execute.");
        } else if outcome == 1 {
            self.status_message = owned(
                "Apply or remove the pending ADD COLUMN row before editing existing columns.",
            );
        } else if outcome == 2 {
            self.status_message = owned("Column row was not found.");
        } else {
            self.status_message = owned(
                "This existing column attribute is read-only; rename and reorder are supported.",
            );
        }
    }

    /// Shows `tab`, preparing the draft for it as `tab_draft` states.
    pub fn select_alter_table_tab(&mut self, tab: AlterTableTab)
        ensures
            same_context(*final(self), *old(self)),
            final(self).selected_alter_table_column == old(self).selected_alter_table_column,
            old(self).alter_table_draft is None ==> refused_closed(*final(self), *old(self)),
            old(self).alter_table_draft is Some ==> {
                &&& final(self).alter_table_draft is Some
                &&& tab_draft(
                    final(self).alter_table_draft->0,
                    old(self).alter_table_draft->0,
                    tab,
                    old(self).driver,
                )
                &&& final(self).alter_table_tab == tab
                &&& final(self).status_message == old(self).status_message
            },
    {
        let driver = self.driver;
        match &mut self.alter_table_draft {
            Some(d) => {
                match tab {
                    AlterTableTab::Columns => {
                        if d.operation == AlterTableOperation::AddIndex || d.operation
                            == AlterTableOperation::AddConstraint {
                            d.operation = AlterTableOperation::RenameColumn;
                        }
                    },
                    AlterTableTab::Indexes => {
                        d.operation = AlterTableOperation::AddIndex;
                        d.index_type = owned(default_index_type(driver));
                    },
                    AlterTableTab::Constraints => {
                        d.operation = AlterTableOperation::AddConstraint;
                        if is_empty_text(trim_str(d.constraint_name.as_str())) {
                            let mut name = owned("ck_");
                            name.append(sanitize_identifier_part(d.table.as_str()).as_str());
                            d.constraint_name = name;
                        }
                        d.constraint_kind = owned(default_constraint_type(driver));
                    },
                    AlterTableTab::Ddl => {},
                }
            },
            None => {
                self.status_message = owned("Table designer is not open.");
                return;
            },
        }
        self.alter_table_tab = tab;
    }

    /// Adds `column_name` to the index's columns, or takes it out when it is
    /// listed; an index without a name is named for the table and this
    /// column.
    pub fn toggle_alter_table_index_column(&mut self, column_name: &str)
        ensures
            same_context(*final(self), *old(self)),
            final(self).selected_alter_table_column == old(self).selected_alter_table_column,
            old(self).alter_table_draft is None ==> refused_closed(*final(self), *old(self)),
            old(self).alter_table_draft is Some ==> {
                let d = old(self).alter_table_draft->0;
                let a = final(self).alter_table_draft->0;
                &&& final(self).alter_table_draft is Some
                &&& a.operation == AlterTableOperation::AddIndex
                &&& a.index_columns@ == toggled_columns(d.index_columns@, column_name@)
                &&& a.index_name@ == (if trim(d.index_name@).len() == 0 {
                    index_name_text(d.table@, column_name@)
                } else {
                    d.index_name@
                })
                &&& a.index_type == d.index_type
                &&& same_head(a, d)
                &&& same_column_fields(a, d)
                &&& same_constraint(a, d)
                &&& same_rows(a, d)
                &&& final(self).alter_table_tab == AlterTableTab::Indexes
                &&& final(self).status_message@ == chip_message(column_name@)
            },
    {
        match &mut self.alter_table_draft {
            Some(d) => {
                d.operation = AlterTableOperation::AddIndex;
                toggle_index_column(&mut d.index_columns, column_name);
                if is_empty_text(trim_str(d.index_name.as_str())) {
                    d.index_name = index_name_for_column(d.table.as_str(), column_name);
                }
            },
            None => {
                self.status_message = owned("Table designer is not open.");
                return;
            },
        }
        self.alter_table_tab = AlterTableTab::Indexes;
        let mut m = owned("Index columns: ");
        m.append(column_name);
        self.status_message = m;
    }

    /// Starts a fresh index draft: named for the table, with no columns and
    /// the driver's default type.
    pub fn prepare_alter_table_index(&mut self)
        ensures
            same_context(*final(self), *old(self)),
            final(self).selected_alter_table_column == old(self).selected_alter_table_column,
            old(self).alter_table_draft is None ==> refused_closed(*final(self), *old(self)),
            old(self).alter_table_draft is Some ==> {
                let d = old(self).alter_table_draft->0;
                let a = final(self).alter_table_draft->0;
                &&& final(self).alter_table_draft is Some
                &&& a.operation == AlterTableOperation::AddIndex
                &&& a.index_name@ == index_name_text(d.table@, "column"@)
                &&& a.index_columns@.len() == 0
                &&& a.index_type@ == first_or(index_types(old(self).driver), "INDEX"@)
                &&& same_head(a, d)
                &&& same_column_fields(a, d)
                &&& same_constraint(a, d)
                &&& same_rows(a, d)
                &&& final(self).alter_table_tab == AlterTableTab::Indexes
                &&& final(self).status_message@ == "ADD INDEX draft prepared."@
            },
    {
        let driver = self.driver;
        match &mut self.alter_table_draft {
            Some(d) => {
                d.operation = AlterTableOperation::AddIndex;
                d.index_name = index_name_for_column(d.table.as_str(), "column");
                d.index_columns = String::new();
                d.index_type = owned(default_index_type(driver));
            },
            None => {
                self.status_message = owned("Table designer is not open.");
                return;
            },
        }
        self.alter_table_tab = AlterTableTab::Indexes;
        self.status_message = owned("ADD INDEX draft prepared.");
    }

    /// Empties the index draft, keeping the operation.
    pub fn clear_alter_table_index(&mut self)
        ensures
            same_context(*final(self), *old(self)),
            final(self).selected_alter_table_column == old(self).selected_alter_table_column,
            final(self).alter_table_tab == old(self).alter_table_tab,
            old(self).alter_table_draft is None ==> refused_closed(*final(self), *old(self)),
            old(self).alter_table_draft is Some ==> {
                let d = old(self).alter_table_draft->0;
                let a = final(self).alter_table_draft->0;
                &&& final(self).alter_table_draft is Some
                &&& a.operation == d.operation
                &&& a.index_name@.len() == 0
                &&& a.index_columns@.len() == 0
                &&& a.index_type@ == first_or(index_types(old(self).driver), "INDEX"@)
                &&& same_head(a, d)
                &&& same_column_fields(a, d)
                &&& same_constraint(a, d)
                &&& same_rows(a, d)
                &&& final(self).status_message@ == "ADD INDEX draft cleared."@
            },
    {
        let driver = self.driver;
        match &mut self.alter_table_draft {
            Some(d) => {
                d.index_name = String::new();
                d.index_columns = String::new();
                d.index_type = owned(default_index_type(driver));
            },
            None => {
                self.status_message = owned("Table designer is not open.");
                return;
            },
        }
        self.status_message = owned("ADD INDEX draft cleared.");
    }

    /// Sets one field of the alter-table form, as `field_set` states.
    pub fn set_alter_table_field(&mut self, field: AlterTableField, value: String)
        ensures
            same_context(*final(self), *old(self)),
            final(self).selected_alter_table_column == old(self).selected_alter_table_column,
            final(self).alter_table_tab == old(self).alter_table_tab,
            old(self).alter_table_draft is None ==> refused_closed(*final(self), *old(self)),
            old(self).alter_table_draft is Some ==> {
                &&& final(self).alter_table_draft is Some
                &&& field_set(
                    final(self).alter_table_draft->0,
                    old(self).alter_table_draft->0,
                    field,
                    value,
                )
                &&& final(self).status_message == old(self).status_message
            },
    {
        match &mut self.alter_table_draft {
            Some(d) => {
                match field {
                    AlterTableField::ColumnName => d.column_name = value,
                    AlterTableField::NewColumnName => d.new_column_name = value,
                    AlterTableField::ColumnType => d.column_type = value,
                    AlterTableField::ColumnDefinition => d.column_definition = value,
                    AlterTableField::IndexName => {
                        d.operation = AlterTableOperation::AddIndex;
                        d.index_name = value;
                    },
                    AlterTableField::IndexColumns => {
                        d.operation = AlterTableOperation::AddIndex;
                        d.index_columns = value;
                    },
                    AlterTableField::IndexType => {
                        d.operation = AlterTableOperation::AddIndex;
                        d.index_type = value;
                    },
                    AlterTableField::ConstraintName => {
                        d.operation = AlterTableOperation::AddConstraint;
                        d.constraint_name = value;
                    },
                    AlterTableField::ConstraintKind => {
                        d.operation = AlterTableOperation::AddConstraint;
                        d.constraint_kind = value;
                    },
                    AlterTableField::ConstraintExpression => {
                        d.operation = AlterTableOperation::AddConstraint;
                        d.constraint_expression = value;
                    },
                    AlterTableField::ColumnPosition => d.column_position = value,
                    AlterTableField::AfterColumn => d.after_column = value,
                }
            },
            None => {
                self.status_message = owned("Table designer is not open.");
            },
        }
    }

    /// Clears the index part of the draft, if the designer is open, leaving
    /// a rename.
    pub fn clear_alter_table_index_draft(&mut self)
        ensures
            same_context(*final(self), *old(self)),
            final(self).selected_alter_table_column == old(self).selected_alter_table_column,
            final(self).alter_table_tab == old(self).alter_table_tab,
            final(self).status_message == old(self).status_message,
            final(self).alter_table_draft is Some == old(self).alter_table_draft is Some,
            old(self).alter_table_draft is Some ==> {
                let d = old(self).alter_table_draft->0;
                let a = final(self).alter_table_draft->0;
                &&& a.operation == AlterTableOperation::RenameColumn
                &&& a.index_name@.len() == 0
                &&& a.index_columns@.len() == 0
                &&& a.index_type@ == first_or(index_types(old(self).driver), "INDEX"@)
                &&& same_head(a, d)
                &&& same_column_fields(a, d)
                &&& same_constraint(a, d)
                &&& same_rows(a, d)
            },
    {
        let driver = self.driver;
        match &mut self.alter_table_draft {
            Some(d) => clear_alter_table_index_draft_impl(d, driver),
            None => {},
        }
    }

    /// Clears the constraint part of the draft, if the designer is open,
    /// leaving a rename.
    pub fn clear_alter_table_constraint_draft(&mut self)
        ensures
            same_context(*final(self), *old(self)),
            final(self).selected_alter_table_column == old(self).selected_alter_table_column,
            final(self).alter_table_tab == old(self).alter_table_tab,
            final(self).status_message == old(self).status_message,
            final(self).alter_table_draft is Some == old(self).alter_table_draft is Some,
            old(self).alter_table_draft is Some ==> {
                let d = old(self).alter_table_draft->0;
                let a = final(self).alter_table_draft->0;
                &&& a.operation == AlterTableOperation::RenameColumn
                &&& a.constraint_name@.len() == 0
                &&& a.constraint_kind@ == first_or(constraint_types(old(self).driver), "CHECK"@)
                &&& a.constraint_expression@.len() == 0
                &&& same_head(a, d)
                &&& same_column_fields(a, d)
                &&& same_index(a, d)
                &&& same_rows(a, d)
            },
    {
        let driver = self.driver;
        match &mut self.alter_table_draft {
            Some(d) => clear_alter_table_constraint_draft_impl(d, driver),
            None => {},
        }
    }

    /// Adds a row at the end.
    pub fn add_alter_table_column(&mut self)
        ensures
            insert_outcome(*final(self), *old(self), usize::MAX as nat),
            final(self).selected_alter_table_column == old(self).selected_alter_table_column,
    {
        self.insert_alter_table_column_at(usize::MAX);
    }

    /// Adds a row after the row at `index`.
    pub fn insert_alter_table_column_after(&mut self, index: usize)
        ensures
            insert_outcome(*final(self), *old(self), after_position(index)),
            final(self).selected_alter_table_column == old(self).selected_alter_table_column,
    {
        let at = if index == usize::MAX {
            index
        } else {
            index + 1
        };
        self.insert_alter_table_column_at(at);
    }

    /// Prepares an index on the row at `index`, as `index_outcome` states.
    pub fn add_alter_table_index_for_column(&mut self, index: usize)
        ensures
            index_outcome(*final(self), *old(self), index as nat),
            final(self).selected_alter_table_column == old(self).selected_alter_table_column,
    {
        if !self.ensure_alter_table_column_draft() {
            return;
        }
        let driver = self.driver;
        let mut message = owned("Column row was not found.");
        let mut prepared = false;
        match &mut self.alter_table_draft {
            Some(d) => {
                if d.reordered_columns.len() > d.original_column_names.len() {
                    message = owned(
                        "Apply or remove the pending ADD COLUMN row before adding an index.",
                    );
                } else if index < d.reordered_columns.len() {
                    let name = d.reordered_columns[index].name.clone();
                    d.operation = AlterTableOperation::AddIndex;
                    d.index_name = index_name_for_column(d.table.as_str(), name.as_str());
                    d.index_type = owned(default_index_type(driver));
                    message = owned("INDEX prepared for ");
                    message.append(name.as_str());
                    message.append(".");
                    d.index_columns = name;
                    prepared = true;
                }
            },
            None => {},
        }
        if prepared {
            self.alter_table_tab = AlterTableTab::Indexes;
        }
        self.status_message = message;
    }

    /// Removes the row at `index` if it is still to be added, as
    /// `remove_outcome` states.
    pub fn remove_alter_table_column(&mut self, index: usize)
        ensures
            remove_outcome(*final(self), *old(self), index as nat),
            final(self).selected_alter_table_column == old(self).selected_alter_table_column,
    {
        if !self.ensure_alter_table_column_draft() {
            return;
        }
        let driver = self.driver;
        let removed = match &mut self.alter_table_draft {
            Some(d) => {
                let ghost names = views(d.original_column_names@);
                let ghost rows = d.reordered_columns@;
                let pending = is_pending_alter_table_column(d, index);
                assert(pending == pending_at(names, rows, index as int));
                if !pending || index >= d.reordered_columns.len() {
                    false
                } else {
                    d.reordered_columns.remove(index);
                    d.operation = AlterTableOperation::RenameColumn;
                    d.column_name = String::new();
                    d.column_type = default_alter_table_column_type(driver);
                    d.column_definition = String::new();
                    d.column_position = owned("LAST");
                    d.after_column = String::new();
                    true
                }
            },
            None => false,
        };
        self.status_message = if removed {
            owned("Pending ADD COLUMN row removed.")
        } else {
            owned("Only pending ADD COLUMN rows can be removed.")
        };
    }

    /// Adds a row after the selected row, selecting the position after it,
    /// or at the end when no row is selected.
    pub fn insert_alter_table_column_after_selection(&mut self)
        ensures
            match old(self).selected_alter_table_column {
                Some(i) => {
                    &&& final(self).selected_alter_table_column == Some(after_position(i) as usize)
                    &&& insert_outcome(*final(self), *old(self), after_position(i))
                },
                None => {
                    &&& final(self).selected_alter_table_column is None
                    &&& insert_outcome(*final(self), *old(self), usize::MAX as nat)
                },
            },
    {
        match self.selected_alter_table_column {
            Some(i) => {
                let next = if i == usize::MAX {
                    i
                } else {
                    i + 1
                };
                self.selected_alter_table_column = Some(next);
                self.insert_alter_table_column_after(i);
            },
            None => {
                self.add_alter_table_column();
            },
        }
    }

    /// Removes the row at `index` if it is still to be added, and clears
    /// the selection.
    pub fn remove_alter_table_column_row(&mut self, index: usize)
        ensures
            remove_outcome(*final(self), *old(self), index as nat),
            final(self).selected_alter_table_column is None,
    {
        self.remove_alter_table_column(index);
        self.selected_alter_table_column = None;
    }

    /// Removes the selected row if it is still to be added; asks for a
    /// selection when there is none.
    pub fn remove_selected_alter_table_column(&mut self)
        ensures
            match old(self).selected_alter_table_column {
                Some(i) => {
                    &&& remove_outcome(*final(self), *old(self), i as nat)
                    &&& final(self).selected_alter_table_column is None
                },
                None => {
                    &&& final(self).alter_table_draft == old(self).alter_table_draft
                    &&& final(self).alter_table_tab == old(self).alter_table_tab
                    &&& final(self).selected_alter_table_column is None
                    &&& same_context(*final(self), *old(self))
                    &&& final(self).status_message@ == "Select a column row before removing."@
                },
            },
    {
        match self.selected_alter_table_column {
            Some(i) => {
                self.remove_alter_table_column(i);
                self.selected_alter_table_column = None;
            },
            None => {
                self.status_message = owned("Select a column row before removing.");
            },
        }
    }

    /// Moves the selected row one step by `delta`, preparing the move, and
    /// selects the row one step from it; asks for a selection when there is
    /// none.
    pub fn move_selected_alter_table_column(&mut self, delta: i32)
        ensures
            match old(self).selected_alter_table_column {
                Some(i) => {
                    &&& move_outcome(*final(self), *old(self), i as nat, delta)
                    &&& final(self).selected_alter_table_column == Some(
                        next_selected(*old(self), i as nat, delta) as usize,
                    )
                },
                None => {
                    &&& final(self).alter_table_draft == old(self).alter_table_draft
                    &&& final(self).alter_table_tab == old(self).alter_table_tab
                    &&& final(self).selected_alter_table_column is None
                    &&& same_context(*final(self), *old(self))
                    &&& final(self).status_message@ == "Select a column row before moving."@
                },
            },
    {
        match self.selected_alter_table_column {
            Some(i) => {
                let next = self.alter_table_column_move_target(i, delta);
                self.prepare_alter_table_column_move(i, delta);
                self.selected_alter_table_column = Some(
                    match next {
                        Some(v) => v,
                        None => i,
                    },
                );
            },
            None => {
                self.status_message = owned("Select a column row before moving.");
            },
        }
    }

    /// Selects the row at `index` and prepares an index on it.
    pub fn add_alter_table_index_for_selected(&mut self, index: usize)
        ensures
            index_outcome(*final(self), *old(self), index as nat),
            final(self).selected_alter_table_column == Some(index),
    {
        self.selected_alter_table_column = Some(index);
        self.add_alter_table_index_for_column(index);
    }

    // -----------------------------------------------------------------------
    // The create-table form
    // -----------------------------------------------------------------------

    /// Sets one field of the create-table form; a new charset brings its
    /// default collation.
    pub fn set_create_table_field(&mut self, field: CreateTableField, value: String)
        ensures
            same_alter_side(*final(self), *old(self)),
            final(self).create_table_tab == old(self).create_table_tab,
            old(self).create_table_draft is None ==> create_closed(*final(self), *old(self)),
            old(self).create_table_draft is Some ==> {
                let d = old(self).create_table_draft->0;
                let a = final(self).create_table_draft->0;
                &&& final(self).create_table_draft is Some
                &&& final(self).status_message == old(self).status_message
                &&& match field {
                    CreateTableField::Name => a == CreateTableDraft { name: value, ..d },
                    CreateTableField::Engine => a == CreateTableDraft { engine: value, ..d },
                    CreateTableField::Charset => {
                        &&& a == CreateTableDraft { charset: value, collation: a.collation, ..d }
                        &&& a.collation@ == old(self).driver.default_collation_for_charset_spec(
                            value@,
                        )
                    },
                    CreateTableField::Collation => a == CreateTableDraft { collation: value, ..d },
                    CreateTableField::Comment => a == CreateTableDraft { comment: value, ..d },
                }
            },
    {
        let driver = self.driver;
        match &mut self.create_table_draft {
            Some(d) => {
                match field {
                    CreateTableField::Name => d.name = value,
                    CreateTableField::Engine => d.engine = value,
                    CreateTableField::Charset => {
                        d.collation = owned(driver.default_collation_for_charset(value.as_str()));
                        d.charset = value;
                    },
                    CreateTableField::Collation => d.collation = value,
                    CreateTableField::Comment => d.comment = value,
                }
            },
            None => {
                self.status_message = owned("Create table form is not open.");
            },
        }
    }

    /// Sets one cell of the column row at `index`.
    pub fn set_create_table_column_field(
        &mut self,
        index: usize,
        field: CreateTableColumnField,
        value: String,
    )
        ensures
            same_alter_side(*final(self), *old(self)),
            final(self).create_table_tab == old(self).create_table_tab,
            old(self).create_table_draft is None ==> create_closed(*final(self), *old(self)),
            old(self).create_table_draft is Some ==> {
                let d = old(self).create_table_draft->0;
                let a = final(self).create_table_draft->0;
                &&& final(self).create_table_draft is Some
                &&& if index < d.columns@.len() {
                    &&& a.columns@ == d.columns@.update(
                        index as int,
                        edited_create_column(d.columns@[index as int], field, value),
                    )
                    &&& only_columns_changed(a, d)
                    &&& final(self).status_message == old(self).status_message
                } else {
                    &&& a == d
                    &&& final(self).status_message@ == "Column row was not found."@
                }
            },
    {
        match &mut self.create_table_draft {
            Some(d) => {
                if index < d.columns.len() {
                    let mut c = CreateTableColumnDraft {
                        name: d.columns[index].name.clone(),
                        data_type: d.columns[index].data_type.clone(),
                        nullable: d.columns[index].nullable.clone(),
                        default_value: d.columns[index].default_value.clone(),
                        extra: d.columns[index].extra.clone(),
                    };
                    match field {
                        CreateTableColumnField::Name => c.name = value,
                        CreateTableColumnField::DataType => c.data_type = value,
                        CreateTableColumnField::Nullable => c.nullable = value,
                        CreateTableColumnField::DefaultValue => c.default_value = value,
                        CreateTableColumnField::Extra => c.extra = value,
                    }
                    d.columns.set(index, c);
                } else {
                    self.status_message = owned("Column row was not found.");
                }
            },
            None => {
                self.status_message = owned("Create table form is not open.");
            },
        }
    }

    /// Sets one cell of the index row at `index`.
    pub fn set_create_table_index_field(
        &mut self,
        index: usize,
        field: CreateTableIndexField,
        value: String,
    )
        ensures
            same_alter_side(*final(self), *old(self)),
            final(self).create_table_tab == old(self).create_table_tab,
            old(self).create_table_draft is None ==> create_closed(*final(self), *old(self)),
            old(self).create_table_draft is Some ==> {
                let d = old(self).create_table_draft->0;
                let a = final(self).create_table_draft->0;
                &&& final(self).create_table_draft is Some
                &&& if index < d.indexes@.len() {
                    &&& a.indexes@ == d.indexes@.update(
                        index as int,
                        edited_create_index(d.indexes@[index as int], field, value),
                    )
                    &&& only_indexes_changed(a, d)
                    &&& final(self).status_message == old(self).status_message
                } else {
                    &&& a == d
                    &&& final(self).status_message@ == "Index row was not found."@
                }
            },
    {
        match &mut self.create_table_draft {
            Some(d) => {
                if index < d.indexes.len() {
                    let mut i = CreateTableIndexDraft {
                        name: d.indexes[index].name.clone(),
                        columns: d.indexes[index].columns.clone(),
                        index_type: d.indexes[index].index_type.clone(),
                    };
                    match field {
                        CreateTableIndexField::Name => i.name = value,
                        CreateTableIndexField::Columns => i.columns = value,
                        CreateTableIndexField::IndexType => i.index_type = value,
                    }
                    d.indexes.set(index, i);
                } else {
                    self.status_message = owned("Index row was not found.");
                }
            },
            None => {
                self.status_message = owned("Create table form is not open.");
            },
        }
    }

    /// Sets one cell of the constraint row at `index`.
    pub fn set_create_table_constraint_field(
        &mut self,
        index: usize,
        field: CreateTableConstraintField,
        value: String,
    )
        ensures
            same_alter_side(*final(self), *old(self)),
            final(self).create_table_tab == old(self).create_table_tab,
            old(self).create_table_draft is None ==> create_closed(*final(self), *old(self)),
            old(self).create_table_draft is Some ==> {
                let d = old(self).create_table_draft->0;
                let a = final(self).create_table_draft->0;
                &&& final(self).create_table_draft is Some
                &&& if index < d.constraints@.len() {
                    &&& a.constraints@ == d.constraints@.update(
                        index as int,
                        edited_create_constraint(d.constraints@[index as int], field, value),
                    )
                    &&& only_constraints_changed(a, d)
                    &&& final(self).status_message == old(self).status_message
                } else {
                    &&& a == d
                    &&& final(self).status_message@ == "Constraint row was not found."@
                }
            },
    {
        match &mut self.create_table_draft {
            Some(d) => {
                if index < d.constraints.len() {
                    let mut c = CreateTableConstraintDraft {
                        name: d.constraints[index].name.clone(),
                        kind: d.constraints[index].kind.clone(),
                        expression: d.constraints[index].expression.clone(),
                    };
                    match field {
                        CreateTableConstraintField::Name => c.name = value,
                        CreateTableConstraintField::Kind => c.kind = value,
                        CreateTableConstraintField::Expression => c.expression = value,
                    }
                    d.constraints.set(index, c);
                } else {
                    self.status_message = owned("Constraint row was not found.");
                }
            },
            None => {
                self.status_message = owned("Create table form is not open.");
            },
        }
    }

    /// Shows a tab of the create-table form.
    pub fn select_create_table_tab(&mut self, tab: CreateTableTab)
        ensures
            same_alter_side(*final(self), *old(self)),
            final(self).create_table_draft == old(self).create_table_draft,
            final(self).create_table_tab == tab,
            final(self).status_message == old(self).status_message,
    {
        self.create_table_tab = tab;
    }

    /// Adds a new column row at `index` (at the end when past it), as
    /// `column_inserted` states.
    pub fn insert_create_table_column_at(&mut self, index: usize)
        ensures
            same_alter_side(*final(self), *old(self)),
            final(self).create_table_tab == old(self).create_table_tab,
            old(self).create_table_draft is None ==> create_closed(*final(self), *old(self)),
            old(self).create_table_draft is Some ==> {
                &&& final(self).create_table_draft is Some
                &&& column_inserted(
                    final(self).create_table_draft->0,
                    old(self).create_table_draft->0,
                    index as nat,
                    old(self).driver,
                )
                &&& final(self).status_message == old(self).status_message
            },
    {
        let driver = self.driver;
        match &mut self.create_table_draft {
            Some(d) => insert_create_table_column(d, index, driver),
            None => {
                self.status_message = owned("Create table form is not open.");
            },
        }
    }

    /// Adds a new column row at the end.
    pub fn add_create_table_column(&mut self)
        ensures
            same_alter_side(*final(self), *old(self)),
            final(self).create_table_tab == old(self).create_table_tab,
            old(self).create_table_draft is None ==> create_closed(*final(self), *old(self)),
            old(self).create_table_draft is Some ==> {
                &&& final(self).create_table_draft is Some
                &&& column_inserted(
                    final(self).create_table_draft->0,
                    old(self).create_table_draft->0,
                    old(self).create_table_draft->0.columns@.len(),
                    old(self).driver,
                )
                &&& final(self).status_message == old(self).status_message
            },
    {
        let at = match &self.create_table_draft {
            Some(d) => d.columns.len(),
            None => 0,
        };
        self.insert_create_table_column_at(at);
    }

    /// Adds a new column row after the row at `index`.
    pub fn insert_create_table_column_after(&mut self, index: usize)
        ensures
            same_alter_side(*final(self), *old(self)),
            final(self).create_table_tab == old(self).create_table_tab,
            old(self).create_table_draft is None ==> create_closed(*final(self), *old(self)),
            old(self).create_table_draft is Some ==> {
                &&& final(self).create_table_draft is Some
                &&& column_inserted(
                    final(self).create_table_draft->0,
                    old(self).create_table_draft->0,
                    after_position(index),
                    old(self).driver,
                )
                &&& final(self).status_message == old(self).status_message
            },
    {
        let at = if index == usize::MAX {
            index
        } else {
            index + 1
        };
        self.insert_create_table_column_at(at);
    }

    /// Removes the column row at `index`, if there is one.
    pub fn remove_create_table_column(&mut self, index: usize)
        ensures
            same_alter_side(*final(self), *old(self)),
            final(self).create_table_tab == old(self).create_table_tab,
            old(self).create_table_draft is None ==> create_closed(*final(self), *old(self)),
            old(self).create_table_draft is Some ==> {
                let d = old(self).create_table_draft->0;
                let a = final(self).create_table_draft->0;
                &&& final(self).create_table_draft is Some
                &&& a.columns@ == (if index < d.columns@.len() {
                    d.columns@.remove(index as int)
                } else {
                    d.columns@
                })
                &&& only_columns_changed(a, d)
                &&& final(self).status_message == old(self).status_message
            },
    {
        match &mut self.create_table_draft {
            Some(d) => {
                if index < d.columns.len() {
                    d.columns.remove(index);
                }
            },
            None => {
                self.status_message = owned("Create table form is not open.");
            },
        }
    }

    /// Moves the column row at `index` by `delta`, swapping it with the row
    /// it lands on.
    pub fn move_create_table_column(&mut self, index: usize, delta: i32)
        ensures
            same_alter_side(*final(self), *old(self)),
            final(self).create_table_tab == old(self).create_table_tab,
            old(self).create_table_draft is None ==> create_closed(*final(self), *old(self)),
            old(self).create_table_draft is Some ==> {
                let d = old(self).create_table_draft->0;
                let a = final(self).create_table_draft->0;
                &&& final(self).create_table_draft is Some
                &&& a.columns@ == moved(d.columns@, index as nat, delta)
                &&& only_columns_changed(a, d)
                &&& final(self).status_message == old(self).status_message
            },
    {
        match &mut self.create_table_draft {
            Some(d) => move_vec_item(&mut d.columns, index, delta),
            None => {
                self.status_message = owned("Create table form is not open.");
            },
        }
    }

    /// Adds an index on the column row at `index`, named for the table and
    /// the column, of the driver's default type, and shows the indexes tab.
    pub fn add_create_table_index_for_column(&mut self, index: usize)
        ensures
            same_alter_side(*final(self), *old(self)),
            old(self).create_table_draft is None ==> create_closed(*final(self), *old(self)),
            old(self).create_table_draft is Some ==> {
                let d = old(self).create_table_draft->0;
                let a = final(self).create_table_draft->0;
                &&& final(self).create_table_draft is Some
                &&& if index < d.columns@.len() {
                    let column = d.columns@[index as int].name@;
                    let added = a.indexes@.last();
                    &&& a.indexes@.drop_last() == d.indexes@
                    &&& a.indexes@.len() == d.indexes@.len() + 1
                    &&& added.name@ == index_name_text(d.name@, column)
                    &&& added.columns@ == column
                    &&& added.index_type@ == first_or(index_types(old(self).driver), "INDEX"@)
                    &&& only_indexes_changed(a, d)
                    &&& final(self).create_table_tab == CreateTableTab::Indexes
                    &&& final(self).status_message@ == index_message(column)
                } else {
                    &&& a == d
                    &&& final(self).create_table_tab == old(self).create_table_tab
                    &&& final(self).status_message@ == "Column row was not found."@
                }
            },
    {
        let driver = self.driver;
        let column = match &mut self.create_table_draft {
            Some(d) => {
                if index < d.columns.len() {
                    let column = d.columns[index].name.clone();
                    let name = index_name_for_column(d.name.as_str(), column.as_str());
                    let index_draft = CreateTableIndexDraft::with_type(
                        name.as_str(),
                        column.as_str(),
                        default_index_type(driver),
                    );
                    let ghost before = d.indexes@;
                    d.indexes.push(index_draft);
                    assert(d.indexes@.drop_last() =~= before);
                    Some(column)
                } else {
                    self.status_message = owned("Column row was not found.");
                    return;
                }
            },
            None => {
                self.status_message = owned("Create table form is not open.");
                return;
            },
        };
        match column {
            Some(c) => {
                self.create_table_tab = CreateTableTab::Indexes;
                let mut m = owned("INDEX prepared for ");
                m.append(c.as_str());
                m.append(".");
                self.status_message = m;
            },
            None => {},
        }
    }

    /// Adds a placeholder index row of the driver's default type.
    pub fn add_create_table_index(&mut self)
        ensures
            same_alter_side(*final(self), *old(self)),
            final(self).create_table_tab == old(self).create_table_tab,
            old(self).create_table_draft is None ==> create_closed(*final(self), *old(self)),
            old(self).create_table_draft is Some ==> {
                let d = old(self).create_table_draft->0;
                let a = final(self).create_table_draft->0;
                let added = a.indexes@.last();
                &&& final(self).create_table_draft is Some
                &&& a.indexes@.len() == d.indexes@.len() + 1
                &&& a.indexes@.drop_last() == d.indexes@
                &&& added.name@ == "idx_new_table_column"@
                &&& added.columns@ == "new_column"@
                &&& added.index_type@ == first_or(index_types(old(self).driver), "INDEX"@)
                &&& only_indexes_changed(a, d)
                &&& final(self).status_message == old(self).status_message
            },
    {
        let driver = self.driver;
        match &mut self.create_table_draft {
            Some(d) => {
                let ghost before = d.indexes@;
                d.indexes.push(
                    CreateTableIndexDraft::with_type(
                        "idx_new_table_column",
                        "new_column",
                        default_index_type(driver),
                    ),
                );
                assert(d.indexes@.drop_last() =~= before);
            },
            None => {
                self.status_message = owned("Create table form is not open.");
            },
        }
    }

    /// Adds a column to the columns of the index row at `index` unless it is
    /// listed already, and shows the indexes tab.
    pub fn append_create_table_index_column(&mut self, index: usize, column_name: &str)
        ensures
            same_alter_side(*final(self), *old(self)),
            old(self).create_table_draft is None ==> create_closed(*final(self), *old(self)),
            old(self).create_table_draft is Some ==> {
                let d = old(self).create_table_draft->0;
                let a = final(self).create_table_draft->0;
                &&& final(self).create_table_draft is Some
                &&& if index < d.indexes@.len() {
                    let i = d.indexes@[index as int];
                    &&& a.indexes@.len() == d.indexes@.len()
                    &&& forall|k: int|
                        0 <= k < d.indexes@.len() && k != index ==> a.indexes@[k] == d.indexes@[k]
                    &&& a.indexes@[index as int].name == i.name
                    &&& a.indexes@[index as int].index_type == i.index_type
                    &&& a.indexes@[index as int].columns@ == appended_columns(i.columns@, column_name@)
                    &&& only_indexes_changed(a, d)
                    &&& final(self).create_table_tab == CreateTableTab::Indexes
                    &&& final(self).status_message@ == chip_message(column_name@)
                } else {
                    &&& a == d
                    &&& final(self).create_table_tab == old(self).create_table_tab
                    &&& final(self).status_message@ == "Index row was not found."@
                }
            },
    {
        match &mut self.create_table_draft {
            Some(d) => {
                if index < d.indexes.len() {
                    let mut i = CreateTableIndexDraft {
                        name: d.indexes[index].name.clone(),
                        columns: d.indexes[index].columns.clone(),
                        index_type: d.indexes[index].index_type.clone(),
                    };
                    append_index_column(&mut i.columns, column_name);
                    d.indexes.set(index, i);
                } else {
                    self.status_message = owned("Index row was not found.");
                    return;
                }
            },
            None => {
                self.status_message = owned("Create table form is not open.");
                return;
            },
        }
        self.create_table_tab = CreateTableTab::Indexes;
        let mut m = owned("Index columns: ");
        m.append(column_name);
        self.status_message = m;
    }

    /// Removes the index row at `index`, if there is one.
    pub fn remove_create_table_index(&mut self, index: usize)
        ensures
            same_alter_side(*final(self), *old(self)),
            final(self).create_table_tab == old(self).create_table_tab,
            old(self).create_table_draft is None ==> create_closed(*final(self), *old(self)),
            old(self).create_table_draft is Some ==> {
                let d = old(self).create_table_draft->0;
                let a = final(self).create_table_draft->0;
                &&& final(self).create_table_draft is Some
                &&& a.indexes@ == (if index < d.indexes@.len() {
                    d.indexes@.remove(index as int)
                } else {
                    d.indexes@
                })
                &&& only_indexes_changed(a, d)
                &&& final(self).status_message == old(self).status_message
            },
    {
        match &mut self.create_table_draft {
            Some(d) => {
                if index < d.indexes.len() {
                    d.indexes.remove(index);
                }
            },
            None => {
                self.status_message = owned("Create table form is not open.");
            },
        }
    }

    /// Adds a placeholder check constraint row.
    pub fn add_create_table_constraint(&mut self)
        ensures
            same_alter_side(*final(self), *old(self)),
            final(self).create_table_tab == old(self).create_table_tab,
            old(self).create_table_draft is None ==> create_closed(*final(self), *old(self)),
            old(self).create_table_draft is Some ==> {
                let d = old(self).create_table_draft->0;
                let a = final(self).create_table_draft->0;
                let added = a.constraints@.last();
                &&& final(self).create_table_draft is Some
                &&& a.constraints@.len() == d.constraints@.len() + 1
                &&& a.constraints@.drop_last() == d.constraints@
                &&& added.name@ == "ck_new_table"@
                &&& added.kind@ == "CHECK"@
                &&& added.expression@ == "new_column is not null"@
                &&& only_constraints_changed(a, d)
                &&& final(self).status_message == old(self).status_message
            },
    {
        match &mut self.create_table_draft {
            Some(d) => {
                let ghost before = d.constraints@;
                d.constraints.push(
                    CreateTableConstraintDraft::new("ck_new_table", "CHECK", "new_column is not null"),
                );
                assert(d.constraints@.drop_last() =~= before);
            },
            None => {
                self.status_message = owned("Create table form is not open.");
            },
        }
    }

    /// Removes the constraint row at `index`, if there is one.
    pub fn remove_create_table_constraint(&mut self, index: usize)
        ensures
            same_alter_side(*final(self), *old(self)),
            final(self).create_table_tab == old(self).create_table_tab,
            old(self).create_table_draft is None ==> create_closed(*final(self), *old(self)),
            old(self).create_table_draft is Some ==> {
                let d = old(self).create_table_draft->0;
                let a = final(self).create_table_draft->0;
                &&& final(self).create_table_draft is Some
                &&& a.constraints@ == (if index < d.constraints@.len() {
                    d.constraints@.remove(index as int)
                } else {
                    d.constraints@
                })
                &&& only_constraints_changed(a, d)
                &&& final(self).status_message == old(self).status_message
            },
    {
        match &mut self.create_table_draft {
            Some(d) => {
                if index < d.constraints.len() {
                    d.constraints.remove(index);
                }
            },
            None => {
                self.status_message = owned("Create table form is not open.");
            },
        }
    }

    /// Closes the create-table form.
    pub fn cancel_create_table(&mut self)
        ensures
            same_alter_side(*final(self), *old(self)),
            final(self).create_table_draft is None,
            final(self).create_table_tab == CreateTableTab::Columns,
            final(self).status_message@ == "Create table cancelled."@,
    {
        self.create_table_draft = None;
        self.create_table_tab = CreateTableTab::Columns;
        self.status_message = owned("Create table cancelled.");
    }
}


// ---------------------------------------------------------------------------
// Laws
// ---------------------------------------------------------------------------

/// Moving a row one step down and then, from where it landed, one step
/// back up gives back the rows and original names the designer started
/// from.
pub proof fn move_down_then_up_restores_rows(
    s0: TableDesigner,
    s1: TableDesigner,
    s2: TableDesigner,
    i: nat,
)
    requires
        ready(s0),
        move_refusal(s0.alter_table_draft->0, s0.table_details->0, i, 1i32) is None,
        move_outcome(s1, s0, i, 1i32),
        move_outcome(s2, s1, i + 1, -1i32),
    ensures
        s2.alter_table_draft is Some,
        s2.alter_table_draft->0.reordered_columns@ == ensured_rows(
            s0.alter_table_draft->0,
            s0.table_details->0,
        ),
        views(s2.alter_table_draft->0.original_column_names@) == ensured_names(
            s0.alter_table_draft->0,
            s0.table_details->0,
        ),
{
    let d0 = s0.alter_table_draft->0;
    let t = s0.table_details->0;
    let rows0 = ensured_rows(d0, t);
    let names0 = ensured_names(d0, t);
    let d1 = s1.alter_table_draft->0;
    assert(d1.reordered_columns@ == moved(rows0, i, 1i32));
    assert(ready(s1));
    assert(ensured_rows(d1, t) == moved(rows0, i, 1i32));
    assert(ensured_names(d1, t) == moved(names0, i, 1i32));
    assert(move_refusal(d1, t, i + 1, -1i32) is None);
    crate::designer::move_down_then_up(rows0, i);
    crate::designer::move_down_then_up(names0, i);
}

/// A row added to a table whose rows all keep their original names can be
/// removed again, giving back the rows and names the designer started
/// from, with the column operation started over.
pub proof fn inserted_row_can_be_removed(
    s0: TableDesigner,
    s1: TableDesigner,
    s2: TableDesigner,
    insert_at: nat,
)
    requires
        ready(s0),
        ensured_names(s0.alter_table_draft->0, s0.table_details->0) == column_names_of(
            ensured_rows(s0.alter_table_draft->0, s0.table_details->0),
        ),
        insert_outcome(s1, s0, insert_at),
        remove_outcome(
            s2,
            s1,
            if insert_at < ensured_rows(s0.alter_table_draft->0, s0.table_details->0).len() {
                insert_at
            } else {
                ensured_rows(s0.alter_table_draft->0, s0.table_details->0).len()
            },
        ),
    ensures
        s2.alter_table_draft is Some,
        s2.alter_table_draft->0.reordered_columns@ == ensured_rows(
            s0.alter_table_draft->0,
            s0.table_details->0,
        ),
        views(s2.alter_table_draft->0.original_column_names@) == ensured_names(
            s0.alter_table_draft->0,
            s0.table_details->0,
        ),
        s2.alter_table_draft->0.operation == AlterTableOperation::RenameColumn,
{
    let d0 = s0.alter_table_draft->0;
    let t = s0.table_details->0;
    let rows0 = ensured_rows(d0, t);
    let names0 = ensured_names(d0, t);
    let at: int = if insert_at < rows0.len() {
        insert_at as int
    } else {
        rows0.len() as int
    };
    let d1 = s1.alter_table_draft->0;
    let rows1 = d1.reordered_columns@;
    assert(ready(s1));
    assert(ensured_rows(d1, t) == rows1);
    assert(ensured_names(d1, t) == names0);
    crate::designer::next_column_name_is_free(names0);
    assert(pending_at(names0, rows1, at));
    assert(rows1.remove(at) =~= rows0) by {
        assert forall|k: int| 0 <= k < rows0.len() implies #[trigger] rows1.remove(at)[k]
            == rows0[k] by {
            if k < at {
                assert(rows1.take(at)[k] == rows0.take(at)[k]);
            } else {
                assert(rows1.skip(at + 1)[k - at] == rows0.skip(at)[k - at]);
            }
        }
    }
}

} // verus!
