use vstd::prelude::*;
use crate::time::Timestamp;

verus! {

/// A value bound to a statement parameter or held in a column.
///
/// Amounts with two decimals (money, bathrooms, percentages) are held as
/// hundredths.
#[derive(Debug, PartialEq)]
pub enum SqlValue {
    Null,
    Integer(i64),
    Hundredths(i64),
    Text(String),
    Bool(bool),
    Time(Timestamp),
}

impl SqlValue {
    /// A value equal to this one.
    pub fn duplicate(&self) -> (r: SqlValue)
        ensures
            r == *self,
    {
        match self {
            SqlValue::Null => SqlValue::Null,
            SqlValue::Integer(n) => SqlValue::Integer(*n),
            SqlValue::Hundredths(n) => SqlValue::Hundredths(*n),
            SqlValue::Text(s) => SqlValue::Text(s.clone()),
            SqlValue::Bool(b) => SqlValue::Bool(*b),
            SqlValue::Time(t) => SqlValue::Time(*t),
        }
    }
}

/// One column of an entity's schema together with what a payload supplies
/// for it: `None` leaves the column out, `Some(SqlValue::Null)` clears it,
/// any other value sets it.
#[derive(Debug)]
pub struct Slot {
    pub column: &'static str,
    pub value: Option<SqlValue>,
}

/// A parameterized statement: its text, with one `?` per parameter, and the
/// parameters in order.
#[derive(Debug, PartialEq)]
pub struct Statement {
    pub sql: String,
    pub params: Vec<SqlValue>,
}

impl Statement {
    /// A statement with the same text and parameters.
    pub fn duplicate(&self) -> (r: Statement)
        ensures
            r.sql == self.sql,
            r.params@ == self.params@,
    {
        let mut params: Vec<SqlValue> = Vec::new();
        let mut i: usize = 0;
        while i < self.params.len()
            invariant
                0 <= i <= self.params.len(),
                params@ == self.params@.subrange(0, i as int),
            decreases self.params.len() - i,
        {
            params.push(self.params[i].duplicate());
            assert(params@ =~= self.params@.subrange(0, i as int + 1));
            i += 1;
        }
        assert(params@ =~= self.params@);
        Statement { sql: self.sql.clone(), params }
    }
}

/// The column that every mutation stamps with the time of the mutation.
pub const UPDATED_AT: &'static str = "updated_at";

/// The column that an insert stamps with the time of creation.
pub const CREATED_AT: &'static str = "created_at";

/// A stored row: column name to value.
pub type Row = Map<Seq<char>, SqlValue>;

/// The (column, value) pairs of the slots that a payload supplies, in schema
/// order.
pub open spec fn present(slots: Seq<Slot>) -> Seq<(Seq<char>, SqlValue)>
    decreases slots.len(),
{
    if slots.len() == 0 {
        seq![]
    } else {
        let prev = present(slots.drop_last());
        match slots.last().value {
            Some(v) => prev.push((slots.last().column@, v)),
            None => prev,
        }
    }
}

/// What an update writes: the supplied slots, then the update time.
pub open spec fn update_assignments(slots: Seq<Slot>, now: Timestamp) -> Seq<(Seq<char>, SqlValue)> {
    present(slots).push((UPDATED_AT@, SqlValue::Time(now)))
}

/// What an insert writes: the supplied slots, then the creation and update
/// times.
pub open spec fn insert_assignments(slots: Seq<Slot>, now: Timestamp) -> Seq<(Seq<char>, SqlValue)> {
    present(slots).push((CREATED_AT@, SqlValue::Time(now))).push((UPDATED_AT@, SqlValue::Time(now)))
}

/// The columns of (column, value) pairs.
pub open spec fn columns(a: Seq<(Seq<char>, SqlValue)>) -> Seq<Seq<char>> {
    a.map_values(|p: (Seq<char>, SqlValue)| p.0)
}

/// The values of (column, value) pairs.
pub open spec fn values(a: Seq<(Seq<char>, SqlValue)>) -> Seq<SqlValue> {
    a.map_values(|p: (Seq<char>, SqlValue)| p.1)
}

/// `items[0] + sep + items[1] + ... ` with `suffix` after each item.
pub open spec fn joined(items: Seq<Seq<char>>, suffix: Seq<char>, sep: Seq<char>) -> Seq<char>
    decreases items.len(),
{
    if items.len() == 0 {
        seq![]
    } else if items.len() == 1 {
        items[0] + suffix
    } else {
        joined(items.drop_last(), suffix, sep) + sep + items.last() + suffix
    }
}

/// `UPDATE <table> SET c1 = ?, c2 = ? WHERE id = ?`
pub open spec fn update_sql(table: Seq<char>, cols: Seq<Seq<char>>) -> Seq<char> {
    "UPDATE "@ + table + " SET "@ + joined(cols, " = ?"@, ", "@) + " WHERE id = ?"@
}

/// `n` parameter marks.
pub open spec fn marks(n: nat) -> Seq<Seq<char>> {
    Seq::new(n, |i: int| "?"@)
}

/// `INSERT INTO <table> (c1, c2) VALUES (?, ?)`
pub open spec fn insert_sql(table: Seq<char>, cols: Seq<Seq<char>>) -> Seq<char> {
    "INSERT INTO "@ + table + " ("@ + joined(cols, ""@, ", "@) + ") VALUES ("@
        + joined(marks(cols.len()), ""@, ", "@) + ")"@
}

/// The row after writing each (column, value) pair in turn.
pub open spec fn assign_all(row: Row, a: Seq<(Seq<char>, SqlValue)>) -> Row
    decreases a.len(),
{
    if a.len() == 0 {
        row
    } else {
        assign_all(row, a.drop_last()).insert(a.last().0, a.last().1)
    }
}

/// The row that an update statement built from `slots` leaves behind.
pub open spec fn updated_row(row: Row, slots: Seq<Slot>, now: Timestamp) -> Row {
    assign_all(row, update_assignments(slots, now))
}

/// The data that an insert statement built from `slots` stores.
pub open spec fn inserted_row(slots: Seq<Slot>, now: Timestamp) -> Row {
    assign_all(Map::empty(), insert_assignments(slots, now))
}

proof fn lemma_present_step(slots: Seq<Slot>, i: int)
    requires
        0 <= i < slots.len(),
    ensures
        present(slots.subrange(0, i + 1)) == (match slots[i].value {
            Some(v) => present(slots.subrange(0, i)).push((slots[i].column@, v)),
            None => present(slots.subrange(0, i)),
        }),
{
    assert(slots.subrange(0, i + 1).drop_last() =~= slots.subrange(0, i));
}

proof fn lemma_joined_push(items: Seq<Seq<char>>, x: Seq<char>, suffix: Seq<char>, sep: Seq<char>)
    ensures
        joined(items.push(x), suffix, sep) == if items.len() == 0 {
            x + suffix
        } else {
            joined(items, suffix, sep) + sep + x + suffix
        },
{
    assert(items.push(x).drop_last() =~= items);
    if items.len() == 0 {
        assert(items.push(x)[0] == x);
    }
}

/// Appends `item + suffix` to a joined list, with `sep` first unless the list
/// was empty.
fn append_item(s: &mut String, empty: bool, item: &str, suffix: &str, sep: &str)
    ensures
        final(s)@ == old(s)@ + (if empty {
            item@ + suffix@
        } else {
            sep@ + item@ + suffix@
        }),
{
    if !empty {
        s.append(sep);
    }
    s.append(item);
    s.append(suffix);
    proof {
        if empty {
            assert(final(s)@ =~= old(s)@ + (item@ + suffix@));
        } else {
            assert(final(s)@ =~= old(s)@ + (sep@ + item@ + suffix@));
        }
    }
}

proof fn lemma_columns_push(a: Seq<(Seq<char>, SqlValue)>, x: (Seq<char>, SqlValue))
    ensures
        columns(a.push(x)) == columns(a).push(x.0),
        values(a.push(x)) == values(a).push(x.1),
{
    assert(columns(a.push(x)) =~= columns(a).push(x.0));
    assert(values(a.push(x)) =~= values(a).push(x.1));
}

/// Appends the pairs of the supplied slots to a joined list of
/// `<column><suffix>` and to the parameters, and returns whether nothing
/// was supplied.
fn append_present(
    text: &mut String,
    marks_text: &mut String,
    params: &mut Vec<SqlValue>,
    slots: &Vec<Slot>,
    suffix: &str,
) -> (empty: bool)
    ensures
        final(text)@ == old(text)@ + joined(columns(present(slots@)), suffix@, ", "@),
        final(marks_text)@ == old(marks_text)@ + joined(marks(present(slots@).len()), ""@, ", "@),
        final(params)@ == old(params)@ + values(present(slots@)),
        empty == (present(slots@).len() == 0),
{
    let ghost t0 = text@;
    let ghost m0 = marks_text@;
    let ghost p0 = params@;
    let mut empty = true;
    let mut i: usize = 0;
    while i < slots.len()
        invariant
            0 <= i <= slots.len(),
            text@ == t0 + joined(columns(present(slots@.subrange(0, i as int))), suffix@, ", "@),
            marks_text@ == m0 + joined(marks(present(slots@.subrange(0, i as int)).len()), ""@, ", "@),
            params@ == p0 + values(present(slots@.subrange(0, i as int))),
            empty == (present(slots@.subrange(0, i as int)).len() == 0),
        decreases slots.len() - i,
    {
        proof {
            lemma_present_step(slots@, i as int);
        }
        let ghost before = present(slots@.subrange(0, i as int));
        match &slots[i].value {
            Some(v) => {
                let ghost x = (slots@[i as int].column@, *v);
                proof {
                    lemma_columns_push(before, x);
                    lemma_joined_push(columns(before), x.0, suffix@, ", "@);
                    lemma_joined_push(marks(before.len()), "?"@, ""@, ", "@);
                    assert(marks(before.len() + 1) =~= marks(before.len()).push("?"@));
                    if before.len() == 0 {
                        assert(columns(before) =~= seq![]);
                        assert(marks(before.len()) =~= seq![]);
                    }
                }
                append_item(text, empty, slots[i].column, suffix, ", ");
                append_item(marks_text, empty, "?", "", ", ");
                params.push(v.duplicate());
                empty = false;
                proof {
                    assert(text@ =~= t0 + joined(columns(before.push(x)), suffix@, ", "@));
                    assert(marks_text@ =~= m0 + joined(marks(before.push(x).len()), ""@, ", "@));
                    assert(params@ =~= p0 + values(before.push(x)));
                }
            },
            None => {},
        }
        i += 1;
    }
    proof {
        assert(slots@.subrange(0, slots.len() as int) =~= slots@);
    }
    empty
}

/// The partial-update statement for the row `id` of `table`: one assignment
/// for each slot that the payload supplies, in schema order, then
/// `updated_at = now`.
pub fn update_statement(table: &str, slots: &Vec<Slot>, id: i64, now: Timestamp) -> (r: Statement)
    ensures
        r.sql@ == update_sql(table@, columns(update_assignments(slots@, now))),
        r.params@ == values(update_assignments(slots@, now)).push(SqlValue::Integer(id)),
{
    let mut sql = String::from_str("UPDATE ");
    sql.append(table);
    sql.append(" SET ");
    let mut unused = String::new();
    let mut params: Vec<SqlValue> = Vec::new();
    let ghost s0 = sql@;
    let empty = append_present(&mut sql, &mut unused, &mut params, slots, " = ?");
    let ghost p = present(slots@);
    let ghost x = (UPDATED_AT@, SqlValue::Time(now));
    proof {
        lemma_columns_push(p, x);
        lemma_joined_push(columns(p), x.0, " = ?"@, ", "@);
        if empty {
            assert(columns(p) =~= seq![]);
        }
    }
    append_item(&mut sql, empty, UPDATED_AT, " = ?", ", ");
    params.push(SqlValue::Time(now));
    sql.append(" WHERE id = ?");
    params.push(SqlValue::Integer(id));
    proof {
        assert(sql@ =~= update_sql(table@, columns(p.push(x))));
        assert(params@ =~= values(p.push(x)).push(SqlValue::Integer(id)));
    }
    Statement { sql, params }
}

/// The insert statement for a new row of `table`: one column for each slot
/// that the payload supplies, in schema order, then `created_at` and
/// `updated_at`, both `now`.
pub fn insert_statement(table: &str, slots: &Vec<Slot>, now: Timestamp) -> (r: Statement)
    ensures
        r.sql@ == insert_sql(table@, columns(insert_assignments(slots@, now))),
        r.params@ == values(insert_assignments(slots@, now)),
{
    let mut cols = String::new();
    let mut marks_text = String::new();
    let mut params: Vec<SqlValue> = Vec::new();
    let empty = append_present(&mut cols, &mut marks_text, &mut params, slots, "");
    let ghost p = present(slots@);
    let ghost x = (CREATED_AT@, SqlValue::Time(now));
    let ghost y = (UPDATED_AT@, SqlValue::Time(now));
    proof {
        lemma_columns_push(p, x);
        lemma_columns_push(p.push(x), y);
        lemma_joined_push(columns(p), x.0, ""@, ", "@);
        lemma_joined_push(columns(p).push(x.0), y.0, ""@, ", "@);
        lemma_joined_push(marks(p.len()), "?"@, ""@, ", "@);
        lemma_joined_push(marks(p.len() + 1), "?"@, ""@, ", "@);
        assert(marks(p.len() + 1) =~= marks(p.len()).push("?"@));
        assert(marks(p.len() + 2) =~= marks(p.len() + 1).push("?"@));
        if empty {
            assert(columns(p) =~= seq![]);
            assert(marks(p.len()) =~= seq![]);
        }
    }
    append_item(&mut cols, empty, CREATED_AT, "", ", ");
    append_item(&mut marks_text, empty, "?", "", ", ");
    append_item(&mut cols, false, UPDATED_AT, "", ", ");
    append_item(&mut marks_text, false, "?", "", ", ");
    params.push(SqlValue::Time(now));
    params.push(SqlValue::Time(now));
    let mut sql = String::from_str("INSERT INTO ");
    sql.append(table);
    sql.append(" (");
    sql.append(cols.as_str());
    sql.append(") VALUES (");
    sql.append(marks_text.as_str());
    sql.append(")");
    proof {
        let q = p.push(x).push(y);
        assert(columns(q).len() == q.len());
        assert(cols@ =~= joined(columns(q), ""@, ", "@));
        assert(marks_text@ =~= joined(marks(columns(q).len()), ""@, ", "@));
        assert(sql@ =~= insert_sql(table@, columns(q)));
        assert(params@ =~= values(q));
    }
    Statement { sql, params }
}

/// A nullable text column's value.
pub open spec fn opt_text(o: Option<String>) -> SqlValue {
    match o {
        Some(s) => SqlValue::Text(s),
        None => SqlValue::Null,
    }
}

/// A nullable integer column's value.
pub open spec fn opt_integer(o: Option<i64>) -> SqlValue {
    match o {
        Some(n) => SqlValue::Integer(n),
        None => SqlValue::Null,
    }
}

/// A nullable column's value, of an amount in hundredths.
pub open spec fn opt_hundredths(o: Option<i64>) -> SqlValue {
    match o {
        Some(n) => SqlValue::Hundredths(n),
        None => SqlValue::Null,
    }
}

/// A nullable time column's value.
pub open spec fn opt_time(o: Option<Timestamp>) -> SqlValue {
    match o {
        Some(t) => SqlValue::Time(t),
        None => SqlValue::Null,
    }
}

/// What a patch field of a column that cannot be null supplies.
pub open spec fn supplied<T>(o: Option<T>, f: spec_fn(T) -> SqlValue) -> Option<SqlValue> {
    match o {
        Some(v) => Some(f(v)),
        None => None,
    }
}

/// A nullable text column's value, from the field.
pub fn text_value(o: &Option<String>) -> (r: SqlValue)
    ensures
        r == opt_text(*o),
{
    match o {
        Some(s) => SqlValue::Text(s.clone()),
        None => SqlValue::Null,
    }
}

/// A nullable integer column's value, from the field.
pub fn integer_value(o: Option<i64>) -> (r: SqlValue)
    ensures
        r == opt_integer(o),
{
    match o {
        Some(n) => SqlValue::Integer(n),
        None => SqlValue::Null,
    }
}

/// A nullable amount column's value, from the field.
pub fn hundredths_value(o: Option<i64>) -> (r: SqlValue)
    ensures
        r == opt_hundredths(o),
{
    match o {
        Some(n) => SqlValue::Hundredths(n),
        None => SqlValue::Null,
    }
}

/// A nullable time column's value, from the field.
pub fn time_value(o: Option<Timestamp>) -> (r: SqlValue)
    ensures
        r == opt_time(o),
{
    match o {
        Some(t) => SqlValue::Time(t),
        None => SqlValue::Null,
    }
}

/// A column, with a value supplied.
pub fn supply(column: &'static str, value: SqlValue) -> (r: Slot)
    ensures
        r == (Slot { column, value: Some(value) }),
{
    Slot { column, value: Some(value) }
}

/// A column that a patch may set to a text.
pub fn text_patch(column: &'static str, o: &Option<String>) -> (r: Slot)
    ensures
        r == (Slot { column, value: supplied(*o, |s: String| SqlValue::Text(s)) }),
{
    match o {
        Some(s) => Slot { column, value: Some(SqlValue::Text(s.clone())) },
        None => Slot { column, value: None },
    }
}

/// A column that a patch may set to a text or clear.
pub fn nullable_text_patch(column: &'static str, o: &Option<Option<String>>) -> (r: Slot)
    ensures
        r == (Slot { column, value: supplied(*o, |v: Option<String>| opt_text(v)) }),
{
    match o {
        Some(v) => Slot { column, value: Some(text_value(v)) },
        None => Slot { column, value: None },
    }
}

/// A column that a patch may set to an integer.
pub fn integer_patch(column: &'static str, o: Option<i64>) -> (r: Slot)
    ensures
        r == (Slot { column, value: supplied(o, |n: i64| SqlValue::Integer(n)) }),
{
    match o {
        Some(n) => Slot { column, value: Some(SqlValue::Integer(n)) },
        None => Slot { column, value: None },
    }
}

/// A column that a patch may set to an integer or clear.
pub fn nullable_integer_patch(column: &'static str, o: Option<Option<i64>>) -> (r: Slot)
    ensures
        r == (Slot { column, value: supplied(o, |v: Option<i64>| opt_integer(v)) }),
{
    match o {
        Some(v) => Slot { column, value: Some(integer_value(v)) },
        None => Slot { column, value: None },
    }
}

/// A column that a patch may set to an amount in hundredths.
pub fn hundredths_patch(column: &'static str, o: Option<i64>) -> (r: Slot)
    ensures
        r == (Slot { column, value: supplied(o, |n: i64| SqlValue::Hundredths(n)) }),
{
    match o {
        Some(n) => Slot { column, value: Some(SqlValue::Hundredths(n)) },
        None => Slot { column, value: None },
    }
}

/// A column that a patch may set to an amount in hundredths or clear.
pub fn nullable_hundredths_patch(column: &'static str, o: Option<Option<i64>>) -> (r: Slot)
    ensures
        r == (Slot { column, value: supplied(o, |v: Option<i64>| opt_hundredths(v)) }),
{
    match o {
        Some(v) => Slot { column, value: Some(hundredths_value(v)) },
        None => Slot { column, value: None },
    }
}

/// A column that a patch may set to a time.
pub fn time_patch(column: &'static str, o: Option<Timestamp>) -> (r: Slot)
    ensures
        r == (Slot { column, value: supplied(o, |t: Timestamp| SqlValue::Time(t)) }),
{
    match o {
        Some(t) => Slot { column, value: Some(SqlValue::Time(t)) },
        None => Slot { column, value: None },
    }
}

/// A column that a patch may set to a time or clear.
pub fn nullable_time_patch(column: &'static str, o: Option<Option<Timestamp>>) -> (r: Slot)
    ensures
        r == (Slot { column, value: supplied(o, |v: Option<Timestamp>| opt_time(v)) }),
{
    match o {
        Some(v) => Slot { column, value: Some(time_value(v)) },
        None => Slot { column, value: None },
    }
}

/// A column that a patch may set to a flag.
pub fn bool_patch(column: &'static str, o: Option<bool>) -> (r: Slot)
    ensures
        r == (Slot { column, value: supplied(o, |b: bool| SqlValue::Bool(b)) }),
{
    match o {
        Some(b) => Slot { column, value: Some(SqlValue::Bool(b)) },
        None => Slot { column, value: None },
    }
}

proof fn lemma_present_none(slots: Seq<Slot>)
    requires
        forall|i: int| 0 <= i < slots.len() ==> slots[i].value is None,
    ensures
        present(slots) == Seq::<(Seq<char>, SqlValue)>::empty(),
    decreases slots.len(),
{
    if slots.len() > 0 {
        lemma_present_none(slots.drop_last());
    }
}

proof fn lemma_present_single(slots: Seq<Slot>, k: int, v: SqlValue)
    requires
        0 <= k < slots.len(),
        slots[k].value == Some(v),
        forall|i: int| 0 <= i < slots.len() && i != k ==> slots[i].value is None,
    ensures
        present(slots) == seq![(slots[k].column@, v)],
    decreases slots.len(),
{
    if k == slots.len() - 1 {
        lemma_present_none(slots.drop_last());
        assert(present(slots) =~= seq![(slots[k].column@, v)]);
    } else {
        lemma_present_single(slots.drop_last(), k, v);
    }
}

/// Writing pairs none of which names `c` leaves column `c` as it was.
pub proof fn lemma_assign_all_untouched(row: Row, a: Seq<(Seq<char>, SqlValue)>, c: Seq<char>)
    requires
        !columns(a).contains(c),
    ensures
        assign_all(row, a).dom().contains(c) == row.dom().contains(c),
        row.dom().contains(c) ==> assign_all(row, a)[c] == row[c],
    decreases a.len(),
{
    if a.len() > 0 {
        assert(columns(a.drop_last()) =~= columns(a).drop_last());
        assert(columns(a).last() == a.last().0);
        lemma_assign_all_untouched(row, a.drop_last(), c);
    }
}

/// A pair that no later pair overrides decides its column.
pub proof fn lemma_assign_all_last_write(row: Row, a: Seq<(Seq<char>, SqlValue)>, j: int)
    requires
        0 <= j < a.len(),
        forall|i: int| j < i < a.len() ==> a[i].0 != a[j].0,
    ensures
        assign_all(row, a).dom().contains(a[j].0),
        assign_all(row, a)[a[j].0] == a[j].1,
    decreases a.len(),
{
    if j < a.len() - 1 {
        lemma_assign_all_last_write(row, a.drop_last(), j);
    }
}

/// An update whose payload supplies no field leaves every column as it was,
/// but for `updated_at`, which becomes the time of the update.
pub proof fn lemma_empty_update(row: Row, slots: Seq<Slot>, now: Timestamp)
    requires
        forall|i: int| 0 <= i < slots.len() ==> slots[i].value is None,
    ensures
        updated_row(row, slots, now) == row.insert(UPDATED_AT@, SqlValue::Time(now)),
{
    lemma_present_none(slots);
    let a = update_assignments(slots, now);
    assert(a.drop_last() =~= Seq::<(Seq<char>, SqlValue)>::empty());
    assert(assign_all(row, a.drop_last()) == row);
    assert(a.last() == (UPDATED_AT@, SqlValue::Time(now)));
}

/// An update whose payload supplies the one field `slots[k]` writes that
/// column and `updated_at`, and leaves every other column as it was.
pub proof fn lemma_single_field_update(row: Row, slots: Seq<Slot>, k: int, v: SqlValue, now: Timestamp)
    requires
        0 <= k < slots.len(),
        slots[k].value == Some(v),
        forall|i: int| 0 <= i < slots.len() && i != k ==> slots[i].value is None,
    ensures
        updated_row(row, slots, now) == row.insert(slots[k].column@, v).insert(
            UPDATED_AT@,
            SqlValue::Time(now),
        ),
{
    lemma_present_single(slots, k, v);
    let a = update_assignments(slots, now);
    assert(a.drop_last().drop_last() =~= Seq::<(Seq<char>, SqlValue)>::empty());
    assert(assign_all(row, a.drop_last().drop_last()) == row);
    assert(a.drop_last().last() == (slots[k].column@, v));
    assert(assign_all(row, a.drop_last()) == row.insert(slots[k].column@, v));
    assert(a.last() == (UPDATED_AT@, SqlValue::Time(now)));
}

/// A column that the payload of an update does not supply keeps its stored
/// value, whatever else the payload supplies.
pub proof fn lemma_absent_column_kept(row: Row, slots: Seq<Slot>, now: Timestamp, c: Seq<char>)
    requires
        c != UPDATED_AT@,
        !columns(present(slots)).contains(c),
        row.dom().contains(c),
    ensures
        updated_row(row, slots, now).dom().contains(c),
        updated_row(row, slots, now)[c] == row[c],
{
    let p = present(slots);
    lemma_assign_all_untouched(row, p, c);
    let a = update_assignments(slots, now);
    assert(a.drop_last() =~= p);
}

} // verus!
