//! Query builders and the state they accumulate.
//!
//! Each builder is a value-semantics accumulator: it collects filter
//! predicates (implicitly AND-combined, in insertion order) or column
//! assignments (in positional order), and becomes immutable input to the
//! execution backend once handed off.

use vstd::prelude::*;
use crate::value::Value;

verus! {

/// The comparison a filter predicate applies between a column and a value.
#[derive(Clone, Copy, Debug, PartialEq, Eq, Structural)]
pub enum CompareOp {
    /// Equality on the column.
    Eq,
    /// Containment: the column's text contains the value's text
    /// (rendered as a LIKE pattern by the backend).
    Like,
}

/// Which of the four operations a finished builder stands for.
#[derive(Clone, Copy, Debug, PartialEq, Eq, Structural)]
pub enum StatementKind {
    /// A read.
    Select,
    /// A row insertion.
    Insert,
    /// A row update.
    Update,
    /// A row removal.
    Delete,
}

/// One filter predicate: `(column, comparison operator, value)`.
#[derive(Debug, PartialEq, Eq)]
pub struct Filter {
    /// The column the predicate constrains.
    pub col: String,
    /// The comparison applied.
    pub op: CompareOp,
    /// The value compared against, carried as an opaque parameter.
    pub value: Value,
}

/// One column assignment: `column -> new value`.
#[derive(Debug, PartialEq, Eq)]
pub struct Assignment {
    /// The column written.
    pub col: String,
    /// The value written.
    pub value: Value,
}

/// The write model: a per-column "unset / set-to-value" state, positional
/// over the owning entity's column declaration order. Unset columns are
/// omitted from the emitted statement.
#[derive(Debug, PartialEq, Eq)]
pub struct Changeset {
    /// One entry per entity column, in declaration order; `None` is unset.
    pub values: Vec<Option<Value>>,
}

/// The read model: an immutable snapshot of one tuple, positional over the
/// owning entity's column declaration order.
#[derive(Debug, PartialEq, Eq)]
pub struct Model {
    /// One value per entity column, in declaration order.
    pub values: Vec<Value>,
}

impl Changeset {
    /// A changeset over `width` columns with every column unset.
    pub fn new(width: usize) -> (r: Changeset)
        ensures
            r.values@.len() == width,
            forall|i: int| 0 <= i < width ==> r.values@[i] is None,
    {
        let mut values: Vec<Option<Value>> = Vec::new();
        let mut i: usize = 0;
        while i < width
            invariant
                i <= width,
                values@.len() == i,
                forall|k: int| 0 <= k < i ==> values@[k] is None,
            decreases width - i,
        {
            values.push(None);
            i = i + 1;
        }
        Changeset { values }
    }

    /// Set the column at position `idx` to `value`.
    pub fn set(&mut self, idx: usize, value: Value)
        requires
            idx < old(self).values@.len(),
        ensures
            final(self).values@ == old(self).values@.update(idx as int, Some(value)),
    {
        self.values[idx] = Some(value);
    }

    /// Clear the column at position `idx` back to unset.
    pub fn unset(&mut self, idx: usize)
        requires
            idx < old(self).values@.len(),
        ensures
            final(self).values@ == old(self).values@.update(idx as int, None::<Value>),
    {
        self.values[idx] = None;
    }
}

/// The `column -> value` pairs a changeset emits: its set columns in
/// declaration order, each paired with the column's name, with unset
/// columns omitted and the columns at positions in `skip` left out.
pub open spec fn set_assignments(
    cols: Seq<String>,
    vals: Seq<Option<Value>>,
    skip: Seq<usize>,
) -> Seq<Assignment>
    decreases vals.len(),
{
    if vals.len() == 0 {
        Seq::empty()
    } else {
        let i = vals.len() - 1;
        let init = set_assignments(cols, vals.drop_last(), skip);
        if vals.last() is Some && !skip.contains(i as usize) {
            init.push(Assignment { col: cols[i], value: vals.last()->Some_0 })
        } else {
            init
        }
    }
}

/// Whether `positions` holds `i`.
fn position_listed(positions: &Vec<usize>, i: usize) -> (r: bool)
    ensures
        r == positions@.contains(i),
{
    let mut j: usize = 0;
    while j < positions.len()
        invariant
            j <= positions@.len(),
            forall|k: int| 0 <= k < j ==> positions@[k] != i,
        decreases positions@.len() - j,
    {
        if positions[j] == i {
            return true;
        }
        j = j + 1;
    }
    false
}

/// Emit the `column -> value` pairs of the set columns of `vals`, in
/// column declaration order, omitting unset columns and the columns at
/// positions in `skip`.
pub fn assignments(cols: &Vec<String>, vals: &Vec<Option<Value>>, skip: &Vec<usize>) -> (r: Vec<
    Assignment,
>)
    requires
        vals@.len() <= cols@.len(),
    ensures
        r@ == set_assignments(cols@, vals@, skip@),
{
    let mut r: Vec<Assignment> = Vec::new();
    let mut i: usize = 0;
    while i < vals.len()
        invariant
            i <= vals@.len(),
            vals@.len() <= cols@.len(),
            r@ == set_assignments(cols@, vals@.take(i as int), skip@),
        decreases vals@.len() - i,
    {
        proof {
            assert(vals@.take(i + 1).drop_last() =~= vals@.take(i as int));
            assert(vals@.take(i + 1).last() == vals@[i as int]);
        }
        match &vals[i] {
            Some(v) => {
                if !position_listed(skip, i) {
                    r.push(Assignment { col: cols[i].clone(), value: v.clone() });
                }
            },
            None => {},
        }
        i = i + 1;
    }
    proof {
        assert(vals@.take(vals@.len() as int) =~= vals@);
    }
    r
}

/// An unexecuted read: projection and ordered filter predicates over one
/// table.
#[derive(Debug, PartialEq, Eq)]
pub struct Select {
    /// The table read.
    pub table: String,
    /// The columns projected, in declaration order.
    pub projection: Vec<String>,
    /// The filter predicates, AND-combined, in insertion order.
    pub filters: Vec<Filter>,
}

impl Select {
    /// The statement kind this builder stands for.
    pub fn kind(&self) -> (r: StatementKind)
        ensures
            r == StatementKind::Select,
    {
        StatementKind::Select
    }

    /// Append one filter predicate; earlier predicates keep their order.
    pub fn filter(self, f: Filter) -> (r: Select)
        ensures
            r.table == self.table,
            r.projection == self.projection,
            r.filters@ == self.filters@.push(f),
    {
        let mut filters = self.filters;
        filters.push(f);
        Select { table: self.table, projection: self.projection, filters }
    }
}

/// An unexecuted insert: an ordered list of rows, each a changeset over
/// the table's columns. The whole list is emitted as one multi-row
/// statement.
#[derive(Debug, PartialEq, Eq)]
pub struct Insert {
    /// The table written.
    pub table: String,
    /// The table's column names, in declaration order.
    pub columns: Vec<String>,
    /// The rows inserted, in the order supplied.
    pub rows: Vec<Changeset>,
}

impl Insert {
    /// The statement kind this builder stands for.
    pub fn kind(&self) -> (r: StatementKind)
        ensures
            r == StatementKind::Insert,
    {
        StatementKind::Insert
    }

    /// Every row is positional over this insert's columns.
    pub open spec fn wf(self) -> bool {
        forall|i: int| 0 <= i < self.rows@.len() ==> self.rows@[i].values@.len()
            == self.columns@.len()
    }

    /// Append one row; earlier rows keep their order.
    pub fn add(self, row: Changeset) -> (r: Insert)
        requires
            row.values@.len() == self.columns@.len(),
        ensures
            r.table == self.table,
            r.columns == self.columns,
            r.rows@ == self.rows@.push(row),
    {
        let mut rows = self.rows;
        rows.push(row);
        Insert { table: self.table, columns: self.columns, rows }
    }

    /// The `column -> value` pairs row `i` emits: its set columns in
    /// declaration order, unset columns omitted.
    pub fn row_assignments(&self, i: usize) -> (r: Vec<Assignment>)
        requires
            i < self.rows@.len(),
            self.wf(),
        ensures
            r@ == set_assignments(self.columns@, self.rows@[i as int].values@, Seq::empty()),
    {
        let skip: Vec<usize> = Vec::new();
        assignments(&self.columns, &self.rows[i].values, &skip)
    }
}

/// An unexecuted update: ordered column assignments plus filter
/// predicates over one table. Freshly constructed by `update_many` it
/// carries no filter at all and would affect every row; that breadth is
/// intentional bulk-operation semantics, not an oversight — add filters
/// before executing.
#[derive(Debug, PartialEq, Eq)]
pub struct Update {
    /// The table written.
    pub table: String,
    /// The `column -> new value` pairs, in insertion order.
    pub assigns: Vec<Assignment>,
    /// The filter predicates, AND-combined, in insertion order.
    pub filters: Vec<Filter>,
}

impl Update {
    /// The statement kind this builder stands for.
    pub fn kind(&self) -> (r: StatementKind)
        ensures
            r == StatementKind::Update,
    {
        StatementKind::Update
    }

    /// Append one column assignment; earlier assignments keep their order.
    pub fn set(self, col: String, value: Value) -> (r: Update)
        ensures
            r.table == self.table,
            r.assigns@ == self.assigns@.push(Assignment { col, value }),
            r.filters == self.filters,
    {
        let mut assigns = self.assigns;
        assigns.push(Assignment { col, value });
        Update { table: self.table, assigns, filters: self.filters }
    }

    /// Append one filter predicate; earlier predicates keep their order.
    pub fn filter(self, f: Filter) -> (r: Update)
        ensures
            r.table == self.table,
            r.assigns == self.assigns,
            r.filters@ == self.filters@.push(f),
    {
        let mut filters = self.filters;
        filters.push(f);
        Update { table: self.table, assigns: self.assigns, filters }
    }
}

/// An unexecuted delete: filter predicates over one table. Freshly
/// constructed by `delete_many` it carries no filter at all and would
/// remove every row; that breadth is intentional bulk-operation
/// semantics, not an oversight — add filters before executing.
#[derive(Debug, PartialEq, Eq)]
pub struct Delete {
    /// The table written.
    pub table: String,
    /// The filter predicates, AND-combined, in insertion order.
    pub filters: Vec<Filter>,
}

impl Delete {
    /// The statement kind this builder stands for.
    pub fn kind(&self) -> (r: StatementKind)
        ensures
            r == StatementKind::Delete,
    {
        StatementKind::Delete
    }

    /// Append one filter predicate; earlier predicates keep their order.
    pub fn filter(self, f: Filter) -> (r: Delete)
        ensures
            r.table == self.table,
            r.filters@ == self.filters@.push(f),
    {
        let mut filters = self.filters;
        filters.push(f);
        Delete { table: self.table, filters }
    }
}

} // verus!
