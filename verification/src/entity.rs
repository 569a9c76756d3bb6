//! Entity descriptors: a table name bound to its columns, its ordered
//! primary key, and factory operations for the four query builders.
//!
//! A descriptor is constructed once, holds no per-instance state, and is
//! shared read-only for the process duration, like a schema catalog.

use vstd::prelude::*;
use vstd::string::StringExecFns;
use crate::query::{
    assignments, set_assignments, Assignment, Changeset, CompareOp, Delete, Filter, Insert, Model,
    Select, Update,
};
use crate::relation::{RelationBuilder, RelationDef, RelationType};
use crate::value::Value;

verus! {

/// A static table identifier: a copyable token whose text never changes.
pub trait IdenStatic: Copy {
    /// The identifier's text.
    fn as_str(&self) -> &str;
}

/// A named table binding.
pub trait EntityName: IdenStatic {
    /// The table's name in the database.
    fn table_name(&self) -> &str;

    /// The module name the entity goes by in code; by default the table
    /// name.
    fn module_name(&self) -> &str {
        self.table_name()
    }
}

/// The text a containment filter compares against: the needle wrapped in
/// `%` wildcards.
pub open spec fn like_pattern(s: Seq<char>) -> Seq<char> {
    seq!['%'] + s + seq!['%']
}

/// One named field of an entity's row shape, with its comparison
/// capabilities.
#[derive(Debug, PartialEq, Eq)]
pub struct ColumnDef {
    /// The column's name, unique within its entity.
    pub name: String,
}

impl Clone for ColumnDef {
    fn clone(&self) -> (r: Self)
        ensures
            r == *self,
    {
        ColumnDef { name: self.name.clone() }
    }
}

impl ColumnDef {
    /// A column descriptor named `name`.
    pub fn new(name: String) -> (r: ColumnDef)
        ensures
            r.name == name,
    {
        ColumnDef { name }
    }

    /// An equality predicate on this column: `column = value`.
    pub fn eq(&self, value: Value) -> (r: Filter)
        ensures
            r.col == self.name,
            r.op == CompareOp::Eq,
            r.value == value,
    {
        Filter { col: self.name.clone(), op: CompareOp::Eq, value }
    }

    /// A containment predicate on this column: the column's text contains
    /// `needle`, carried as the pattern `%needle%`.
    pub fn contains(&self, needle: &str) -> (r: Filter)
        ensures
            r.col == self.name,
            r.op == CompareOp::Like,
            r.value matches Value::Text(p) && p@ == like_pattern(needle@),
    {
        let mut pattern = String::new();
        pattern.append("%");
        pattern.append(needle);
        pattern.append("%");
        proof {
            reveal_strlit("%");
            assert("%"@ =~= seq!['%']);
            assert(pattern@ =~= like_pattern(needle@));
        }
        Filter { col: self.name.clone(), op: CompareOp::Like, value: Value::Text(pattern) }
    }
}

/// A table description: its name, its columns in declaration order, and
/// its primary key as an ordered, non-empty sequence of column positions.
#[derive(Debug, PartialEq, Eq)]
pub struct EntityDef {
    /// The table's name in the database.
    pub table_name: String,
    /// The table's columns, in declaration order.
    pub columns: Vec<ColumnDef>,
    /// Positions into `columns` forming the primary key, in key order.
    pub primary_key: Vec<usize>,
}

impl EntityDef {
    /// The primary key names at least one column and every key position
    /// lies inside the column list.
    pub open spec fn wf(self) -> bool {
        &&& self.primary_key@.len() >= 1
        &&& forall|j: int|
            0 <= j < self.primary_key@.len() ==> (self.primary_key@[j] as int)
                < self.columns@.len()
    }

    /// The column names, in declaration order: the default projection.
    pub open spec fn projection_all(self) -> Seq<String> {
        Seq::new(self.columns@.len(), |i: int| self.columns@[i].name)
    }

    /// Equality filters on every primary-key column, in key order, each
    /// comparing against the value at the same position of `vals`.
    pub open spec fn pk_eq_filters(self, vals: Seq<Value>) -> Seq<Filter> {
        Seq::new(
            self.primary_key@.len(),
            |j: int|
                Filter {
                    col: self.columns@[self.primary_key@[j] as int].name,
                    op: CompareOp::Eq,
                    value: vals[j],
                },
        )
    }

    /// The values a changeset holds for the primary-key columns, in key
    /// order.
    pub open spec fn pk_values_of_changeset(self, vals: Seq<Option<Value>>) -> Seq<Value> {
        Seq::new(self.primary_key@.len(), |j: int| vals[self.primary_key@[j] as int].unwrap())
    }

    /// The values a model holds for the primary-key columns, in key order.
    pub open spec fn pk_values_of_model(self, vals: Seq<Value>) -> Seq<Value> {
        Seq::new(self.primary_key@.len(), |j: int| vals[self.primary_key@[j] as int])
    }

    /// The primary-key column names, in key order.
    pub open spec fn pk_names(self) -> Seq<String> {
        Seq::new(
            self.primary_key@.len(),
            |j: int| self.columns@[self.primary_key@[j] as int].name,
        )
    }

    /// Every primary-key column of the changeset is set.
    pub open spec fn changeset_sets_key(self, row: Changeset) -> bool {
        forall|j: int|
            0 <= j < self.primary_key@.len() ==> row.values@[self.primary_key@[j] as int] is Some
    }

    /// A descriptor for the table `table_name` with the given columns and
    /// primary-key positions.
    pub fn new(table_name: String, columns: Vec<ColumnDef>, primary_key: Vec<usize>) -> (r:
        EntityDef)
        requires
            primary_key@.len() >= 1,
            forall|j: int|
                0 <= j < primary_key@.len() ==> (primary_key@[j] as int) < columns@.len(),
        ensures
            r.table_name == table_name,
            r.columns == columns,
            r.primary_key == primary_key,
            r.wf(),
    {
        EntityDef { table_name, columns, primary_key }
    }

    /// The column names, in declaration order.
    pub fn column_names(&self) -> (r: Vec<String>)
        ensures
            r@ == self.projection_all(),
    {
        let mut names: Vec<String> = Vec::new();
        let mut i: usize = 0;
        while i < self.columns.len()
            invariant
                i <= self.columns@.len(),
                names@ == self.projection_all().take(i as int),
            decreases self.columns@.len() - i,
        {
            names.push(self.columns[i].name.clone());
            proof {
                assert(self.projection_all().take(i + 1) =~= self.projection_all().take(
                    i as int,
                ).push(self.projection_all()[i as int]));
            }
            i = i + 1;
        }
        proof {
            assert(self.projection_all().take(self.columns@.len() as int)
                =~= self.projection_all());
        }
        names
    }

    /// The primary-key column names, in key order: the ordered iteration
    /// the key descriptor offers.
    pub fn pk_column_names(&self) -> (r: Vec<String>)
        requires
            self.wf(),
        ensures
            r@ == self.pk_names(),
    {
        let mut names: Vec<String> = Vec::new();
        let mut j: usize = 0;
        while j < self.primary_key.len()
            invariant
                self.wf(),
                j <= self.primary_key@.len(),
                names@ == self.pk_names().take(j as int),
            decreases self.primary_key@.len() - j,
        {
            let idx = self.primary_key[j];
            names.push(self.columns[idx].name.clone());
            proof {
                assert(self.pk_names().take(j + 1) =~= self.pk_names().take(j as int).push(
                    self.pk_names()[j as int],
                ));
            }
            j = j + 1;
        }
        proof {
            assert(self.pk_names().take(self.primary_key@.len() as int) =~= self.pk_names());
        }
        names
    }

    /// A read of every row: no filters, projecting all declared columns in
    /// declaration order.
    pub fn find(&self) -> (r: Select)
        ensures
            r.table == self.table_name,
            r.projection@ == self.projection_all(),
            r.filters@ == Seq::<Filter>::empty(),
    {
        Select {
            table: self.table_name.clone(),
            projection: self.column_names(),
            filters: Vec::new(),
        }
    }

    /// A read of the one row identified by `values`: equality on every
    /// primary-key column, matched positionally against `values` in key
    /// order. The caller must supply exactly one value per key column —
    /// a count mismatch is a contract violation between caller and
    /// schema, not a runtime data condition.
    pub fn find_by_id(&self, values: &Vec<Value>) -> (r: Select)
        requires
            self.wf(),
            values@.len() == self.primary_key@.len(),
        ensures
            r.table == self.table_name,
            r.projection@ == self.projection_all(),
            r.filters@ == self.pk_eq_filters(values@),
    {
        let mut select = self.find();
        let mut j: usize = 0;
        while j < self.primary_key.len()
            invariant
                self.wf(),
                values@.len() == self.primary_key@.len(),
                j <= self.primary_key@.len(),
                select.table == self.table_name,
                select.projection@ == self.projection_all(),
                select.filters@ == self.pk_eq_filters(values@).take(j as int),
            decreases self.primary_key@.len() - j,
        {
            let idx = self.primary_key[j];
            let f = self.columns[idx].eq(values[j].clone());
            proof {
                assert(f == self.pk_eq_filters(values@)[j as int]);
                assert(self.pk_eq_filters(values@).take(j + 1) =~= self.pk_eq_filters(
                    values@,
                ).take(j as int).push(self.pk_eq_filters(values@)[j as int]));
            }
            select = select.filter(f);
            j = j + 1;
        }
        proof {
            assert(self.pk_eq_filters(values@).take(self.primary_key@.len() as int)
                =~= self.pk_eq_filters(values@));
        }
        select
    }

    /// An insert of exactly one row.
    pub fn insert(&self, row: Changeset) -> (r: Insert)
        requires
            row.values@.len() == self.columns@.len(),
        ensures
            r.table == self.table_name,
            r.columns@ == self.projection_all(),
            r.rows@ == seq![row],
            r.wf(),
    {
        let mut rows: Vec<Changeset> = Vec::new();
        rows.push(row);
        proof {
            assert(rows@ =~= seq![row]);
        }
        Insert { table: self.table_name.clone(), columns: self.column_names(), rows }
    }

    /// An insert of the given rows, in the order supplied, emitted as one
    /// multi-row statement rather than one statement per row. An empty
    /// list yields an insert of zero rows.
    pub fn insert_many(&self, rows: Vec<Changeset>) -> (r: Insert)
        requires
            forall|i: int|
                0 <= i < rows@.len() ==> rows@[i].values@.len() == self.columns@.len(),
        ensures
            r.table == self.table_name,
            r.columns@ == self.projection_all(),
            r.rows@ == rows@,
            r.wf(),
    {
        Insert { table: self.table_name.clone(), columns: self.column_names(), rows }
    }

    /// An update of the one row the changeset's primary-key values
    /// identify: every primary-key column of `row` must be set; the
    /// update assigns the set non-key columns in declaration order and
    /// filters by equality on every primary-key column in key order.
    pub fn update(&self, row: Changeset) -> (r: Update)
        requires
            self.wf(),
            row.values@.len() == self.columns@.len(),
            self.changeset_sets_key(row),
        ensures
            r.table == self.table_name,
            r.assigns@ == set_assignments(self.projection_all(), row.values@, self.primary_key@),
            r.filters@ == self.pk_eq_filters(self.pk_values_of_changeset(row.values@)),
    {
        let names = self.column_names();
        let assigns = assignments(&names, &row.values, &self.primary_key);
        let ghost key_vals = self.pk_values_of_changeset(row.values@);
        let mut filters: Vec<Filter> = Vec::new();
        let mut j: usize = 0;
        while j < self.primary_key.len()
            invariant
                self.wf(),
                row.values@.len() == self.columns@.len(),
                self.changeset_sets_key(row),
                key_vals == self.pk_values_of_changeset(row.values@),
                j <= self.primary_key@.len(),
                filters@ == self.pk_eq_filters(key_vals).take(j as int),
            decreases self.primary_key@.len() - j,
        {
            let idx = self.primary_key[j];
            let value = match &row.values[idx] {
                Some(v) => v.clone(),
                None => vstd::pervasive::unreached(),
            };
            let f = self.columns[idx].eq(value);
            proof {
                assert(f == self.pk_eq_filters(key_vals)[j as int]);
                assert(self.pk_eq_filters(key_vals).take(j + 1) =~= self.pk_eq_filters(
                    key_vals,
                ).take(j as int).push(self.pk_eq_filters(key_vals)[j as int]));
            }
            filters.push(f);
            j = j + 1;
        }
        proof {
            assert(self.pk_eq_filters(key_vals).take(self.primary_key@.len() as int)
                =~= self.pk_eq_filters(key_vals));
        }
        Update { table: self.table_name.clone(), assigns, filters }
    }

    /// An update with no implicit row scope and no assignments yet: until
    /// filters are added it would affect every row of the table. That
    /// breadth is intentional bulk-operation semantics — add filters
    /// before executing.
    pub fn update_many(&self) -> (r: Update)
        ensures
            r.table == self.table_name,
            r.assigns@ == Seq::<Assignment>::empty(),
            r.filters@ == Seq::<Filter>::empty(),
    {
        Update { table: self.table_name.clone(), assigns: Vec::new(), filters: Vec::new() }
    }

    /// A delete of the one row `model` identifies: equality on every
    /// primary-key column using the model's corresponding field values,
    /// in key order.
    pub fn delete(&self, model: &Model) -> (r: Delete)
        requires
            self.wf(),
            model.values@.len() == self.columns@.len(),
        ensures
            r.table == self.table_name,
            r.filters@ == self.pk_eq_filters(self.pk_values_of_model(model.values@)),
    {
        let ghost key_vals = self.pk_values_of_model(model.values@);
        let mut filters: Vec<Filter> = Vec::new();
        let mut j: usize = 0;
        while j < self.primary_key.len()
            invariant
                self.wf(),
                model.values@.len() == self.columns@.len(),
                key_vals == self.pk_values_of_model(model.values@),
                j <= self.primary_key@.len(),
                filters@ == self.pk_eq_filters(key_vals).take(j as int),
            decreases self.primary_key@.len() - j,
        {
            let idx = self.primary_key[j];
            let f = self.columns[idx].eq(model.values[idx].clone());
            proof {
                assert(f == self.pk_eq_filters(key_vals)[j as int]);
                assert(self.pk_eq_filters(key_vals).take(j + 1) =~= self.pk_eq_filters(
                    key_vals,
                ).take(j as int).push(self.pk_eq_filters(key_vals)[j as int]));
            }
            filters.push(f);
            j = j + 1;
        }
        proof {
            assert(self.pk_eq_filters(key_vals).take(self.primary_key@.len() as int)
                =~= self.pk_eq_filters(key_vals));
        }
        Delete { table: self.table_name.clone(), filters }
    }

    /// A delete with no implicit scope: until filters are added it would
    /// remove every row of the table, the same intentional bulk-operation
    /// breadth as `update_many`.
    pub fn delete_many(&self) -> (r: Delete)
        ensures
            r.table == self.table_name,
            r.filters@ == Seq::<Filter>::empty(),
    {
        Delete { table: self.table_name.clone(), filters: Vec::new() }
    }

    /// Declare a has-one edge from this entity to `related`: this entity
    /// holds the foreign key. The join columns are still to be given.
    pub fn belongs_to(&self, related: &EntityDef) -> (r: RelationBuilder)
        ensures
            r.rel_type == RelationType::HasOne,
            r.from_table == self.table_name,
            r.to_table == related.table_name,
            r.from_col is None,
            r.to_col is None,
    {
        RelationBuilder::new(
            RelationType::HasOne,
            self.table_name.clone(),
            related.table_name.clone(),
        )
    }

    /// Derive this entity's has-one edge by reversing an edge the related
    /// entity already declares towards this entity: the related side
    /// holds the foreign key, and the forward direction is obtained for
    /// free rather than declared twice.
    pub fn has_one(&self, rel_to_self: &RelationDef) -> (r: RelationBuilder)
        requires
            rel_to_self.to_table@ == self.table_name@,
        ensures
            r.rel_type == RelationType::HasOne,
            r.from_table == rel_to_self.to_table,
            r.to_table == rel_to_self.from_table,
            r.from_col == Some(rel_to_self.to_col),
            r.to_col == Some(rel_to_self.from_col),
    {
        RelationBuilder::from_rel(RelationType::HasOne, rel_to_self.rev())
    }

    /// Derive this entity's has-many edge by reversing an edge the
    /// related entity already declares towards this entity. The derived
    /// edge carries cardinality many towards the related table, while the
    /// related entity's own declaration keeps its cardinality — the two
    /// directions never duplicate one.
    pub fn has_many(&self, rel_to_self: &RelationDef) -> (r: RelationBuilder)
        requires
            rel_to_self.to_table@ == self.table_name@,
        ensures
            r.rel_type == RelationType::HasMany,
            r.from_table == rel_to_self.to_table,
            r.to_table == rel_to_self.from_table,
            r.from_col == Some(rel_to_self.to_col),
            r.to_col == Some(rel_to_self.from_col),
    {
        RelationBuilder::from_rel(RelationType::HasMany, rel_to_self.rev())
    }
}

/// For an entity with a single-column primary key, the identity filters
/// on a value `v` are the one predicate `key_column = v` and nothing else.
pub proof fn lemma_single_key_filters(e: EntityDef, v: Value)
    requires
        e.wf(),
        e.primary_key@.len() == 1,
    ensures
        e.pk_eq_filters(seq![v]) == seq![
            Filter {
                col: e.columns@[e.primary_key@[0] as int].name,
                op: CompareOp::Eq,
                value: v,
            },
        ],
{
    assert(e.pk_eq_filters(seq![v]) =~= seq![
        Filter { col: e.columns@[e.primary_key@[0] as int].name, op: CompareOp::Eq, value: v },
    ]);
}

} // verus!
