//! Editing the table designer's drafts: moving, inserting and naming
//! columns, naming indexes, and preparing an added column for the alter
//! statement.
use vstd::prelude::*;
use crate::drafts::{
    same_column_fields, same_constraint, same_head, same_index, same_rows, AlterTableDraft,
    AlterTableOperation, CreateTableColumnDraft, CreateTableDraft, TableColumnDetail,
};
use crate::driver::DatabaseDriver;
use crate::schema::{constraint_types, default_constraint_type, default_index_type, first_or, index_types};
use crate::sql_alter_table::{definition_tail, last_part, last_table_part, table_column_definition_tail};
use crate::text::{
    ascii_lower, chars_of, char_ascii_lower, decimal, digit_char, eq_ci, lower, eq_ignore_ascii_case, owned,
    push_char, views,
};

verus! {

// ---------------------------------------------------------------------------
// Moving rows
// ---------------------------------------------------------------------------

/// Where a row moves by `delta`: back to the first row at most, forward to
/// the last row at most.
pub open spec fn move_target(len: nat, index: nat, delta: i32) -> nat {
    if delta < 0 {
        if -delta > index {
            0
        } else {
            (index + delta) as nat
        }
    } else if index + delta > len - 1 {
        (len - 1) as nat
    } else {
        (index + delta) as nat
    }
}

/// The rows after moving the row at `index` by `delta`: it trades places
/// with the row at the target; nothing changes for a row that does not
/// exist.
pub open spec fn moved<T>(items: Seq<T>, index: nat, delta: i32) -> Seq<T> {
    if items.len() == 0 || index >= items.len() {
        items
    } else {
        let t = move_target(items.len(), index, delta) as int;
        items.update(index as int, items[t]).update(t, items[index as int])
    }
}

fn move_target_index(len: usize, index: usize, delta: i32) -> (r: usize)
    requires
        index < len,
    ensures
        r == move_target(len as nat, index as nat, delta),
        r < len,
{
    if delta < 0 {
        let back: usize = (0 - (delta as i64)) as usize;
        if back > index {
            0
        } else {
            index - back
        }
    } else {
        let ahead: usize = delta as usize;
        if ahead > len - 1 - index {
            len - 1
        } else {
            index + ahead
        }
    }
}

fn swap_items<T>(items: &mut Vec<T>, lo: usize, hi: usize)
    requires
        lo < hi < old(items)@.len(),
    ensures
        final(items)@ == old(items)@.update(lo as int, old(items)@[hi as int]).update(
            hi as int,
            old(items)@[lo as int],
        ),
{
    let ghost before = items@;
    let upper = items.remove(hi);
    let lower = items.remove(lo);
    items.insert(lo, upper);
    items.insert(hi, lower);
    assert(items@ =~= before.update(lo as int, before[hi as int]).update(hi as int, before[lo as int]));
}

/// Moves the row at `index` by `delta` places, swapping it with the row it
/// lands on.
pub fn move_vec_item<T>(items: &mut Vec<T>, index: usize, delta: i32)
    ensures
        final(items)@ == moved(old(items)@, index as nat, delta),
{
    let len = items.len();
    if len == 0 || index >= len {
        return;
    }
    let target = move_target_index(len, index, delta);
    let ghost before = items@;
    if target == index {
        assert(before.update(index as int, before[index as int]).update(
            index as int,
            before[index as int],
        ) =~= before);
    } else if index < target {
        swap_items(items, index, target);
    } else {
        swap_items(items, target, index);
        assert(items@ =~= before.update(index as int, before[target as int]).update(
            target as int,
            before[index as int],
        ));
    }
}

/// Moving a row one place down and then one place up gives the rows back.
pub proof fn move_down_then_up<T>(items: Seq<T>, index: nat)
    requires
        index + 1 < items.len(),
    ensures
        moved(moved(items, index, 1i32), index + 1, -1i32) == items,
{
    let once = moved(items, index, 1i32);
    assert(move_target(items.len(), index, 1i32) == index + 1);
    assert(once.len() == items.len());
    assert(move_target(once.len(), index + 1, -1i32) == index);
    assert(moved(once, index + 1, -1i32) =~= items);
}

// ---------------------------------------------------------------------------
// New columns
// ---------------------------------------------------------------------------

/// The type a new column starts with for a driver.
pub open spec fn new_column_type(driver: DatabaseDriver) -> Seq<char> {
    match driver {
        DatabaseDriver::MySql | DatabaseDriver::MariaDb | DatabaseDriver::TiDb => "VARCHAR(255)"@,
        DatabaseDriver::PostgreSql | DatabaseDriver::CockroachDb => "TEXT"@,
        DatabaseDriver::Sqlite => "TEXT"@,
        DatabaseDriver::SqlServer => "NVARCHAR(255)"@,
        DatabaseDriver::Oracle => "VARCHAR2(255)"@,
        DatabaseDriver::MongoDb => "String"@,
    }
}

/// The type a new column starts with.
pub fn default_alter_table_column_type(driver: DatabaseDriver) -> (r: String)
    ensures
        r@ == new_column_type(driver),
{
    match driver {
        DatabaseDriver::MySql | DatabaseDriver::MariaDb | DatabaseDriver::TiDb => owned("VARCHAR(255)"),
        DatabaseDriver::PostgreSql | DatabaseDriver::CockroachDb => owned("TEXT"),
        DatabaseDriver::Sqlite => owned("TEXT"),
        DatabaseDriver::SqlServer => owned("NVARCHAR(255)"),
        DatabaseDriver::Oracle => owned("VARCHAR2(255)"),
        DatabaseDriver::MongoDb => owned("String"),
    }
}

/// Some column is named `name`, up to ASCII case.
pub open spec fn name_used(names: Seq<Seq<char>>, name: Seq<char>) -> bool {
    exists|i: int| 0 <= i < names.len() && eq_ci(names[i], name)
}

/// The names of columns.
pub open spec fn column_names_of(columns: Seq<TableColumnDetail>) -> Seq<Seq<char>> {
    columns.map_values(|c: TableColumnDetail| c.name@)
}

/// The numbered name `new_column_<n>`.
pub open spec fn numbered_name(n: nat) -> Seq<char> {
    "new_column_"@ + decimal(n)
}

/// The name a new column gets: `new_column`, else the first free
/// `new_column_<n>` from 2 on. Among `k` names one of the first `k + 1`
/// numbers is free, so the search stops there.
pub open spec fn next_column_name(names: Seq<Seq<char>>) -> Seq<char> {
    if !name_used(names, "new_column"@) {
        "new_column"@
    } else if exists|n: nat| 2 <= n <= names.len() + 2 && !name_used(names, numbered_name(n)) {
        numbered_name(
            choose|n: nat|
                2 <= n <= names.len() + 2 && !name_used(names, numbered_name(n)) && forall|m: nat|
                    2 <= m < n ==> name_used(names, numbered_name(m)),
        )
    } else {
        "new_column"@
    }
}

proof fn lemma_decimal_shape(n: nat)
    ensures
        decimal(n).len() >= 1,
        n >= 10 ==> decimal(n).len() >= 2,
        forall|i: int| 0 <= i < decimal(n).len() ==> '0' <= #[trigger] decimal(n)[i] <= '9',
    decreases n,
{
    if n >= 10 {
        lemma_decimal_shape(n / 10);
        let d = decimal(n / 10);
        assert forall|i: int| 0 <= i < decimal(n).len() implies '0' <= #[trigger] decimal(n)[i]
            <= '9' by {
            if i < d.len() {
                assert(decimal(n)[i] == d[i]);
            }
        }
    }
}

proof fn lemma_digit_char_injective(a: nat, b: nat)
    requires
        a < 10,
        b < 10,
        digit_char(a) == digit_char(b),
    ensures
        a == b,
{
    assert((digit_char(a) as u32) == 48 + a);
    assert((digit_char(b) as u32) == 48 + b);
}

proof fn lemma_decimal_injective(a: nat, b: nat)
    requires
        decimal(a) == decimal(b),
    ensures
        a == b,
    decreases a,
{
    lemma_decimal_shape(a);
    lemma_decimal_shape(b);
    if a < 10 && b < 10 {
        assert(decimal(a)[0] == digit_char(a));
        assert(decimal(b)[0] == digit_char(b));
        lemma_digit_char_injective(a, b);
    } else if a >= 10 && b >= 10 {
        assert(decimal(a).last() == digit_char(a % 10));
        assert(decimal(b).last() == digit_char(b % 10));
        lemma_digit_char_injective(a % 10, b % 10);
        assert(decimal(a).drop_last() == decimal(a / 10));
        assert(decimal(b).drop_last() == decimal(b / 10));
        lemma_decimal_injective(a / 10, b / 10);
    }
}

proof fn lemma_numbered_name_lower(n: nat)
    ensures
        lower(numbered_name(n)) == numbered_name(n),
{
    reveal_strlit("new_column_");
    lemma_decimal_shape(n);
    let s = numbered_name(n);
    assert forall|i: int| 0 <= i < s.len() implies ascii_lower(#[trigger] s[i]) == s[i] by {
        if i >= 11 {
            assert(s[i] == decimal(n)[i - 11]);
        }
    }
    assert(lower(s) =~= s);
}

proof fn lemma_numbered_names_distinct(a: nat, b: nat)
    requires
        eq_ci(numbered_name(a), numbered_name(b)),
    ensures
        a == b,
{
    lemma_numbered_name_lower(a);
    lemma_numbered_name_lower(b);
    reveal_strlit("new_column_");
    assert(numbered_name(a).skip(11) =~= decimal(a));
    assert(numbered_name(b).skip(11) =~= decimal(b));
    lemma_decimal_injective(a, b);
}

/// The row that holds a name matching `numbered_name(n)`.
spec fn holder(names: Seq<Seq<char>>, n: int) -> int {
    choose|j: int| 0 <= j < names.len() && eq_ci(names[j], numbered_name(n as nat))
}

proof fn lemma_some_number_free(names: Seq<Seq<char>>)
    ensures
        exists|n: nat| 2 <= n <= names.len() + 2 && !name_used(names, numbered_name(n)),
{
    let len = names.len() as int;
    if forall|n: nat| 2 <= n <= names.len() + 2 ==> name_used(names, numbered_name(n)) {
        let x = vstd::set_lib::set_int_range(2, len + 3);
        let y = vstd::set_lib::set_int_range(0, len);
        let f = |n: int| holder(names, n);
        vstd::set_lib::lemma_int_range(2, len + 3);
        vstd::set_lib::lemma_int_range(0, len);
        assert forall|a: int, b: int|
            x.contains(a) && x.contains(b) && #[trigger] f(a) == #[trigger] f(b) implies a == b by {
            assert(name_used(names, numbered_name(a as nat)));
            assert(name_used(names, numbered_name(b as nat)));
            let j = holder(names, a);
            assert(eq_ci(names[j], numbered_name(a as nat)));
            assert(eq_ci(names[j], numbered_name(b as nat)));
            lemma_numbered_names_distinct(a as nat, b as nat);
        }
        assert(vstd::relations::injective_on(f, x));
        let image = x.map(f);
        vstd::set_lib::lemma_map_size(x, image, f);
        assert forall|v: int| image.contains(v) implies y.contains(v) by {
            let a = choose|a: int| x.contains(a) && f(a) == v;
            assert(name_used(names, numbered_name(a as nat)));
        }
        vstd::set_lib::lemma_len_subset(image, y);
        assert(false);
    }
}

proof fn lemma_least_free(names: Seq<Seq<char>>, n: nat)
    requires
        2 <= n <= names.len() + 2,
        !name_used(names, numbered_name(n)),
    ensures
        exists|w: nat|
            2 <= w <= names.len() + 2 && !name_used(names, numbered_name(w)) && forall|m: nat|
                2 <= m < w ==> name_used(names, numbered_name(m)),
    decreases n,
{
    if exists|m: nat| 2 <= m < n && !name_used(names, numbered_name(m)) {
        let m = choose|m: nat| 2 <= m < n && !name_used(names, numbered_name(m));
        lemma_least_free(names, m);
    }
}

/// The name a new column gets is free: no column has it, up to ASCII case.
pub proof fn next_column_name_is_free(names: Seq<Seq<char>>)
    ensures
        !name_used(names, next_column_name(names)),
{
    if name_used(names, "new_column"@) {
        lemma_some_number_free(names);
        let n = choose|n: nat| 2 <= n <= names.len() + 2 && !name_used(names, numbered_name(n));
        lemma_least_free(names, n);
    }
}

fn name_taken(columns: &Vec<TableColumnDetail>, name: &str) -> (r: bool)
    ensures
        r == name_used(column_names_of(columns@), name@),
{
    let ghost names = column_names_of(columns@);
    let mut i: usize = 0;
    while i < columns.len()
        invariant
            i <= columns.len(),
            names == column_names_of(columns@),
            forall|j: int| 0 <= j < i ==> !eq_ci(names[j], name@),
        decreases columns.len() - i,
    {
        if eq_ignore_ascii_case(columns[i].name.as_str(), name) {
            assert(eq_ci(names[i as int], name@));
            return true;
        }
        i += 1;
    }
    false
}

proof fn lemma_first_free_name(names: Seq<Seq<char>>, n: nat)
    requires
        name_used(names, "new_column"@),
        2 <= n <= names.len() + 2,
        !name_used(names, numbered_name(n)),
        forall|m: nat| 2 <= m < n ==> name_used(names, numbered_name(m)),
    ensures
        next_column_name(names) == numbered_name(n),
{
    let w = choose|w: nat|
        2 <= w <= names.len() + 2 && !name_used(names, numbered_name(w)) && forall|m: nat|
            2 <= m < w ==> name_used(names, numbered_name(m));
    if w < n {
        assert(name_used(names, numbered_name(w)));
    }
    if w > n {
        assert(name_used(names, numbered_name(n)));
    }
}

/// The name for a new column that no column has yet: `new_column`, or
/// `new_column_2`, `new_column_3`, and so on.
pub fn next_alter_table_column_name(columns: &Vec<TableColumnDetail>) -> (r: String)
    ensures
        r@ == next_column_name(column_names_of(columns@)),
{
    let ghost names = column_names_of(columns@);
    if !name_taken(columns, "new_column") {
        return owned("new_column");
    }
    let limit: u128 = columns.len() as u128 + 2;
    let mut n: u128 = 2;
    while n <= limit
        invariant
            2 <= n <= limit + 1,
            limit == names.len() + 2,
            names.len() <= usize::MAX,
            names == column_names_of(columns@),
            name_used(names, "new_column"@),
            forall|m: nat| 2 <= m < n ==> name_used(names, numbered_name(m)),
        decreases limit + 1 - n,
    {
        let mut candidate = owned("new_column_");
        candidate.append(crate::text::u128_to_decimal(n).as_str());
        if !name_taken(columns, candidate.as_str()) {
            proof {
                lemma_first_free_name(names, n as nat);
            }
            return candidate;
        }
        n += 1;
    }
    owned("new_column")
}

fn column_details(cols: &Vec<CreateTableColumnDraft>) -> (r: Vec<TableColumnDetail>)
    ensures
        column_names_of(r@) == cols@.map_values(|c: CreateTableColumnDraft| c.name@),
{
    let mut existing: Vec<TableColumnDetail> = Vec::new();
    let mut i: usize = 0;
    while i < cols.len()
        invariant
            i <= cols.len(),
            column_names_of(existing@) == cols@.take(i as int).map_values(
                |c: CreateTableColumnDraft| c.name@,
            ),
        decreases cols.len() - i,
    {
        let c = &cols[i];
        let detail = TableColumnDetail {
            name: c.name.clone(),
            data_type: c.data_type.clone(),
            nullable: c.nullable.clone(),
            default_value: c.default_value.clone(),
            extra: c.extra.clone(),
        };
        let ghost before = column_names_of(existing@);
        let ghost nv = detail.name@;
        existing.push(detail);
        assert(column_names_of(existing@) =~= before.push(nv));
        assert(cols@.take(i + 1) == cols@.take(i as int).push(cols@[i as int]));
        assert(column_names_of(existing@) =~= cols@.take(i + 1).map_values(
            |c: CreateTableColumnDraft| c.name@,
        ));
        i += 1;
    }
    assert(cols@.take(cols.len() as int) == cols@);
    existing
}

/// `after` is `before` with a new nullable column, named and typed for the
/// driver, at `index` (at the end when `index` is past it).
pub open spec fn column_inserted(
    after: CreateTableDraft,
    before: CreateTableDraft,
    index: nat,
    driver: DatabaseDriver,
) -> bool {
    let at = if index < before.columns@.len() {
        index as int
    } else {
        before.columns@.len() as int
    };
    &&& after.columns@.len() == before.columns@.len() + 1
    &&& after.columns@.take(at) == before.columns@.take(at)
    &&& after.columns@.skip(at + 1) == before.columns@.skip(at)
    &&& after.columns@[at].name@ == next_column_name(
        before.columns@.map_values(|c: CreateTableColumnDraft| c.name@),
    )
    &&& after.columns@[at].data_type@ == new_column_type(driver)
    &&& after.columns@[at].nullable@ == "YES"@
    &&& after.columns@[at].default_value@ == ""@
    &&& after.columns@[at].extra@ == ""@
    &&& after.name == before.name
    &&& after.engine == before.engine
    &&& after.charset == before.charset
    &&& after.collation == before.collation
    &&& after.comment == before.comment
    &&& after.indexes@ == before.indexes@
    &&& after.constraints@ == before.constraints@
}

/// Inserts a new nullable column, named and typed for the driver, at
/// `index` (at the end when `index` is past it).
pub fn insert_create_table_column(draft: &mut CreateTableDraft, index: usize, driver: DatabaseDriver)
    ensures
        column_inserted(*final(draft), *old(draft), index as nat, driver),
{
    let existing = column_details(&draft.columns);
    let name = next_alter_table_column_name(&existing);
    let data_type = default_alter_table_column_type(driver);
    let at = if index < draft.columns.len() {
        index
    } else {
        draft.columns.len()
    };
    let column = CreateTableColumnDraft::new(name.as_str(), data_type.as_str(), "YES", "", "");
    let ghost before = draft.columns@;
    draft.columns.insert(at, column);
    assert(draft.columns@.take(at as int) =~= before.take(at as int));
    assert(draft.columns@.skip(at + 1) =~= before.skip(at as int));
}

// ---------------------------------------------------------------------------
// Names of indexes
// ---------------------------------------------------------------------------

/// An ASCII letter or digit.
pub open spec fn is_ascii_alnum(c: char) -> bool {
    ('a' <= c <= 'z') || ('A' <= c <= 'Z') || ('0' <= c <= '9')
}

/// Letters, digits and underscores kept (letters lower-cased), every other
/// character made an underscore.
pub open spec fn identifier_chars(s: Seq<char>) -> Seq<char> {
    s.map_values(
        |c: char|
            if is_ascii_alnum(c) || c == '_' {
                ascii_lower(c)
            } else {
                '_'
            },
    )
}

/// The text without `c` at its start.
pub open spec fn strip_start(s: Seq<char>, c: char) -> Seq<char>
    decreases s.len(),
{
    if s.len() > 0 && s[0] == c {
        strip_start(s.drop_first(), c)
    } else {
        s
    }
}

/// The text without `c` at its end.
pub open spec fn strip_end(s: Seq<char>, c: char) -> Seq<char>
    decreases s.len(),
{
    if s.len() > 0 && s.last() == c {
        strip_end(s.drop_last(), c)
    } else {
        s
    }
}

/// The text without `c` at either end, as `str::trim_matches` with a
/// character.
pub open spec fn strip(s: Seq<char>, c: char) -> Seq<char> {
    strip_end(strip_start(s, c), c)
}

/// A piece of an index name made from any text: lower-case letters, digits
/// and inner underscores, or `column` when nothing is left.
pub open spec fn identifier_part(value: Seq<char>) -> Seq<char> {
    let s = strip(identifier_chars(value), '_');
    if s.len() == 0 {
        "column"@
    } else {
        s
    }
}

proof fn lemma_strip_start_skip(s: Seq<char>, c: char, i: int)
    requires
        0 <= i <= s.len(),
        forall|j: int| 0 <= j < i ==> s[j] == c,
    ensures
        strip_start(s, c) == strip_start(s.skip(i), c),
    decreases i,
{
    if i > 0 {
        let t = s.drop_first();
        assert forall|j: int| 0 <= j < i - 1 implies t[j] == c by {
            assert(t[j] == s[j + 1]);
        }
        lemma_strip_start_skip(t, c, i - 1);
        assert(t.skip(i - 1) =~= s.skip(i));
    } else {
        assert(s.skip(0) =~= s);
    }
}

proof fn lemma_strip_end_take(s: Seq<char>, c: char, k: int)
    requires
        0 <= k <= s.len(),
        forall|j: int| k <= j < s.len() ==> s[j] == c,
    ensures
        strip_end(s, c) == strip_end(s.take(k), c),
    decreases s.len() - k,
{
    if k < s.len() {
        let t = s.drop_last();
        assert forall|j: int| k <= j < t.len() implies t[j] == c by {
            assert(t[j] == s[j]);
        }
        assert(s.last() == s[s.len() - 1]);
        lemma_strip_end_take(t, c, k);
        assert(t.take(k) =~= s.take(k));
    } else {
        assert(s.take(k) =~= s);
    }
}

fn strip_char(v: &Vec<char>, c: char) -> (r: String)
    ensures
        r@ == strip(v@, c),
{
    let n = v.len();
    let mut start: usize = 0;
    while start < n && v[start] == c
        invariant
            n == v.len(),
            start <= n,
            forall|j: int| 0 <= j < start ==> v@[j] == c,
        decreases n - start,
    {
        start += 1;
    }
    proof {
        lemma_strip_start_skip(v@, c, start as int);
    }
    let ghost rest = v@.skip(start as int);
    assert(start == n || rest[0] != c);
    assert(strip_start(rest, c) == rest);
    let mut end: usize = n;
    while end > start && v[end - 1] == c
        invariant
            n == v.len(),
            start <= end <= n,
            forall|j: int| end <= j < n ==> v@[j] == c,
        decreases end - start,
    {
        end -= 1;
    }
    proof {
        lemma_strip_end_take(rest, c, end - start);
    }
    let ghost kept = rest.take(end - start);
    assert(kept.len() == 0 || kept.last() != c);
    assert(strip_end(kept, c) == kept);
    let mut r = String::new();
    let mut k: usize = start;
    while k < end
        invariant
            start <= k <= end <= n,
            n == v.len(),
            r@ == v@.subrange(start as int, k as int),
        decreases end - k,
    {
        push_char(&mut r, v[k]);
        assert(v@.subrange(start as int, k + 1) == v@.subrange(start as int, k as int).push(v@[k as int]));
        k += 1;
    }
    assert(r@ =~= kept);
    r
}

/// A text made fit for an index name: letters and digits kept in lower
/// case, anything else an underscore, no underscore at either end, and
/// `column` when nothing is left.
pub fn sanitize_identifier_part(value: &str) -> (r: String)
    ensures
        r@ == identifier_part(value@),
{
    let v = chars_of(value);
    let mut mapped: Vec<char> = Vec::new();
    let mut i: usize = 0;
    while i < v.len()
        invariant
            v@ == value@,
            i <= v.len(),
            mapped@ == identifier_chars(value@.take(i as int)),
        decreases v.len() - i,
    {
        let c = v[i];
        let keep = ('a' <= c && c <= 'z') || ('A' <= c && c <= 'Z') || ('0' <= c && c <= '9') || c == '_';
        let m = if keep {
            char_ascii_lower(c)
        } else {
            '_'
        };
        mapped.push(m);
        assert(identifier_chars(value@.take(i + 1)) =~= identifier_chars(value@.take(i as int)).push(m));
        i += 1;
    }
    assert(value@.take(v.len() as int) == value@);
    let s = strip_char(&mapped, '_');
    if s.as_str().is_empty() {
        owned("column")
    } else {
        s
    }
}

/// The name of an index on one column of a table: `idx_<table>_<column>`,
/// from the table's last dotted part without surrounding quotes.
pub open spec fn index_name_text(table: Seq<char>, column: Seq<char>) -> Seq<char> {
    let t = strip(strip(last_part(table), '"'), '`');
    "idx_"@ + identifier_part(t) + "_"@ + identifier_part(column)
}

/// The name the designer gives an index on one column.
pub fn index_name_for_column(table: &str, column: &str) -> (r: String)
    ensures
        r@ == index_name_text(table@, column@),
{
    let last = last_table_part(table);
    let unquoted = strip_char(&chars_of(last.as_str()), '"');
    let bare = strip_char(&chars_of(unquoted.as_str()), '`');
    let mut r = owned("idx_");
    r.append(sanitize_identifier_part(bare.as_str()).as_str());
    r.append("_");
    r.append(sanitize_identifier_part(column).as_str());
    r
}

// ---------------------------------------------------------------------------
// The alter draft
// ---------------------------------------------------------------------------

/// The column at `index` is not yet in the table: no original column has
/// its name, up to ASCII case.
pub open spec fn is_pending_column(draft: AlterTableDraft, index: int) -> bool {
    &&& 0 <= index < draft.reordered_columns@.len()
    &&& !name_used(views(draft.original_column_names@), draft.reordered_columns@[index].name@)
}

/// Whether the row at `index` is a column still to be added.
pub fn is_pending_alter_table_column(draft: &AlterTableDraft, index: usize) -> (r: bool)
    ensures
        r == is_pending_column(*draft, index as int),
{
    if index >= draft.reordered_columns.len() {
        return false;
    }
    let name = draft.reordered_columns[index].name.as_str();
    let mut i: usize = 0;
    while i < draft.original_column_names.len()
        invariant
            i <= draft.original_column_names.len(),
            index < draft.reordered_columns@.len(),
            name@ == draft.reordered_columns@[index as int].name@,
            forall|j: int| 0 <= j < i ==> !eq_ci(views(draft.original_column_names@)[j], name@),
        decreases draft.original_column_names.len() - i,
    {
        if eq_ignore_ascii_case(draft.original_column_names[i].as_str(), name) {
            assert(eq_ci(views(draft.original_column_names@)[i as int], name@));
            return false;
        }
        i += 1;
    }
    true
}

/// The first row that is a column still to be added.
pub fn pending_alter_table_column_index(draft: &AlterTableDraft) -> (r: Option<usize>)
    ensures
        match r {
            Some(i) => is_pending_column(*draft, i as int) && forall|j: int|
                0 <= j < i ==> !is_pending_column(*draft, j),
            None => forall|j: int|
                0 <= j < draft.reordered_columns@.len() ==> !is_pending_column(*draft, j),
        },
{
    let mut i: usize = 0;
    while i < draft.reordered_columns.len()
        invariant
            i <= draft.reordered_columns.len(),
            forall|j: int| 0 <= j < i ==> !is_pending_column(*draft, j),
        decreases draft.reordered_columns.len() - i,
    {
        if is_pending_alter_table_column(draft, i) {
            return Some(i);
        }
        i += 1;
    }
    None
}

/// The column operation of the draft back at its start: a rename with no
/// names, the driver's new-column type and the column placed last.
pub fn reset_alter_table_column_operation(draft: &mut AlterTableDraft, driver: DatabaseDriver)
    ensures
        final(draft).operation == AlterTableOperation::RenameColumn,
        final(draft).column_name@.len() == 0,
        final(draft).new_column_name@.len() == 0,
        final(draft).column_type@ == new_column_type(driver),
        final(draft).column_definition@.len() == 0,
        final(draft).column_position@ == "LAST"@,
        final(draft).after_column@.len() == 0,
        same_head(*final(draft), *old(draft)),
        same_index(*final(draft), *old(draft)),
        same_constraint(*final(draft), *old(draft)),
        same_rows(*final(draft), *old(draft)),
{
    draft.operation = AlterTableOperation::RenameColumn;
    draft.column_name = String::new();
    draft.new_column_name = String::new();
    draft.column_type = default_alter_table_column_type(driver);
    draft.column_definition = String::new();
    draft.column_position = owned("LAST");
    draft.after_column = String::new();
}

/// The index part of the draft cleared, with the driver's default type.
pub fn clear_alter_table_index_draft_impl(draft: &mut AlterTableDraft, driver: DatabaseDriver)
    ensures
        final(draft).operation == AlterTableOperation::RenameColumn,
        final(draft).index_name@.len() == 0,
        final(draft).index_columns@.len() == 0,
        final(draft).index_type@ == first_or(index_types(driver), "INDEX"@),
        same_head(*final(draft), *old(draft)),
        same_column_fields(*final(draft), *old(draft)),
        same_constraint(*final(draft), *old(draft)),
        same_rows(*final(draft), *old(draft)),
{
    draft.operation = AlterTableOperation::RenameColumn;
    draft.index_name = String::new();
    draft.index_columns = String::new();
    draft.index_type = owned(default_index_type(driver));
}

/// The constraint part of the draft cleared, with the driver's default
/// kind.
pub fn clear_alter_table_constraint_draft_impl(draft: &mut AlterTableDraft, driver: DatabaseDriver)
    ensures
        final(draft).operation == AlterTableOperation::RenameColumn,
        final(draft).constraint_name@.len() == 0,
        final(draft).constraint_kind@ == first_or(constraint_types(driver), "CHECK"@),
        final(draft).constraint_expression@.len() == 0,
        same_head(*final(draft), *old(draft)),
        same_column_fields(*final(draft), *old(draft)),
        same_index(*final(draft), *old(draft)),
        same_rows(*final(draft), *old(draft)),
{
    draft.operation = AlterTableOperation::RenameColumn;
    draft.constraint_name = String::new();
    draft.constraint_kind = owned(default_constraint_type(driver));
    draft.constraint_expression = String::new();
}

/// `after` adds the row at `index` of `rows`, which are its rows: its
/// name, type and the rest of its definition, placed first, last, or after
/// the row before it; the new name, the table, index and constraint parts
/// are those of `before`.
pub open spec fn added_column(
    after: AlterTableDraft,
    before: AlterTableDraft,
    rows: Seq<TableColumnDetail>,
    index: int,
) -> bool {
    let c = rows[index];
    &&& after.operation == AlterTableOperation::AddColumn
    &&& after.column_name == c.name
    &&& after.column_type == c.data_type
    &&& after.column_definition@ == definition_tail(c)
    &&& after.column_position@ == (if index == 0 {
        "FIRST"@
    } else if index + 1 == rows.len() {
        "LAST"@
    } else {
        "AFTER"@
    })
    &&& after.after_column@ == (if index == 0 || index + 1 == rows.len() {
        ""@
    } else {
        rows[index - 1].name@
    })
    &&& after.reordered_columns@ == rows
    &&& after.new_column_name == before.new_column_name
    &&& same_head(after, before)
    &&& same_index(after, before)
    &&& same_constraint(after, before)
}

/// Makes the column at `index` the column the draft adds: its name, type
/// and the rest of its definition, placed first, last, or after the row
/// before it. Nothing changes when there is no such row.
pub fn sync_alter_table_add_column(draft: &mut AlterTableDraft, index: usize)
    ensures
        index >= old(draft).reordered_columns@.len() ==> *final(draft) == *old(draft),
        index < old(draft).reordered_columns@.len() ==> added_column(
            *final(draft),
            *old(draft),
            old(draft).reordered_columns@,
            index as int,
        ),
        final(draft).original_column_names@ == old(draft).original_column_names@,
{
    if index >= draft.reordered_columns.len() {
        return;
    }
    let column = draft.reordered_columns[index].clone();
    let tail = table_column_definition_tail(&column);
    draft.operation = AlterTableOperation::AddColumn;
    draft.column_name = column.name;
    draft.column_type = column.data_type;
    draft.column_definition = tail;
    if index == 0 {
        draft.column_position = owned("FIRST");
        draft.after_column = owned("");
    } else if index + 1 == draft.reordered_columns.len() {
        draft.column_position = owned("LAST");
        draft.after_column = owned("");
    } else {
        draft.column_position = owned("AFTER");
        draft.after_column = draft.reordered_columns[index - 1].name.clone();
    }
}

} // verus!
