//! Directed, cardinality-tagged edges between entities.
//!
//! A relation is declared from one side only; the opposite side obtains
//! its edge by pure reversal, so the two directions can never disagree.

use vstd::prelude::*;

verus! {

/// The cardinality tag of a relation's forward direction.
#[derive(Clone, Copy, Debug, PartialEq, Eq, Structural)]
pub enum RelationType {
    /// The source reaches at most one target row (has-one / belongs-to).
    HasOne,
    /// The source reaches any number of target rows (has-many).
    HasMany,
}

/// A directed edge between two entities: source table, target table,
/// cardinality, and the join condition `from_col = to_col`.
#[derive(Debug, PartialEq, Eq)]
pub struct RelationDef {
    /// The cardinality of the edge as seen from the source.
    pub rel_type: RelationType,
    /// The source entity's table.
    pub from_table: String,
    /// The target entity's table.
    pub to_table: String,
    /// The join column on the source table.
    pub from_col: String,
    /// The join column on the target table.
    pub to_col: String,
}

/// The reverse of an edge: endpoints and join columns swap, and the
/// cardinality inverts — reversing has-many yields has-one on the other
/// side, never has-many on both.
pub open spec fn spec_rev(r: RelationDef) -> RelationDef {
    RelationDef {
        rel_type: match r.rel_type {
            RelationType::HasOne => RelationType::HasMany,
            RelationType::HasMany => RelationType::HasOne,
        },
        from_table: r.to_table,
        to_table: r.from_table,
        from_col: r.to_col,
        to_col: r.from_col,
    }
}

impl RelationDef {
    /// The same edge seen from the other side.
    pub fn rev(&self) -> (r: RelationDef)
        ensures
            r == spec_rev(*self),
    {
        RelationDef {
            rel_type: match self.rel_type {
                RelationType::HasOne => RelationType::HasMany,
                RelationType::HasMany => RelationType::HasOne,
            },
            from_table: self.to_table.clone(),
            to_table: self.from_table.clone(),
            from_col: self.to_col.clone(),
            to_col: self.from_col.clone(),
        }
    }
}

/// Reversal law: the reverse edge swaps source and target and inverts the
/// cardinality — the two directions never share one — and reversing twice
/// restores the declared edge exactly.
pub proof fn lemma_reversal(r: RelationDef)
    ensures
        spec_rev(r).from_table == r.to_table,
        spec_rev(r).to_table == r.from_table,
        spec_rev(r).from_col == r.to_col,
        spec_rev(r).to_col == r.from_col,
        spec_rev(r).rel_type != r.rel_type,
        r.rel_type == RelationType::HasMany ==> spec_rev(r).rel_type == RelationType::HasOne,
        r.rel_type == RelationType::HasOne ==> spec_rev(r).rel_type == RelationType::HasMany,
        spec_rev(spec_rev(r)) == r,
{
}

/// Accumulates one relation declaration: the edge's type and endpoints
/// first, the join columns afterwards, then builds the finished edge.
#[derive(Debug, PartialEq, Eq)]
pub struct RelationBuilder {
    /// The cardinality the declaration states.
    pub rel_type: RelationType,
    /// The source entity's table.
    pub from_table: String,
    /// The target entity's table.
    pub to_table: String,
    /// The join column on the source table, once given.
    pub from_col: Option<String>,
    /// The join column on the target table, once given.
    pub to_col: Option<String>,
}

impl RelationBuilder {
    /// Start a declaration of an edge of type `rel_type` from `from_table`
    /// to `to_table`, with no join columns given yet.
    pub fn new(rel_type: RelationType, from_table: String, to_table: String) -> (r:
        RelationBuilder)
        ensures
            r.rel_type == rel_type,
            r.from_table == from_table,
            r.to_table == to_table,
            r.from_col is None,
            r.to_col is None,
    {
        RelationBuilder { rel_type, from_table, to_table, from_col: None, to_col: None }
    }

    /// Start a declaration from an existing edge, overriding its
    /// cardinality with `rel_type` and keeping its endpoints and join
    /// columns.
    pub fn from_rel(rel_type: RelationType, rel: RelationDef) -> (r: RelationBuilder)
        ensures
            r.rel_type == rel_type,
            r.from_table == rel.from_table,
            r.to_table == rel.to_table,
            r.from_col == Some(rel.from_col),
            r.to_col == Some(rel.to_col),
    {
        RelationBuilder {
            rel_type,
            from_table: rel.from_table,
            to_table: rel.to_table,
            from_col: Some(rel.from_col),
            to_col: Some(rel.to_col),
        }
    }

    /// Give the join column on the source table.
    pub fn from(self, col: String) -> (r: RelationBuilder)
        ensures
            r == (RelationBuilder { from_col: Some(col), ..self }),
    {
        RelationBuilder { from_col: Some(col), ..self }
    }

    /// Give the join column on the target table.
    pub fn to(self, col: String) -> (r: RelationBuilder)
        ensures
            r == (RelationBuilder { to_col: Some(col), ..self }),
    {
        RelationBuilder { to_col: Some(col), ..self }
    }

    /// Finish the declaration. Both join columns must have been given.
    pub fn build(self) -> (r: RelationDef)
        requires
            self.from_col is Some,
            self.to_col is Some,
        ensures
            r.rel_type == self.rel_type,
            r.from_table == self.from_table,
            r.to_table == self.to_table,
            Some(r.from_col) == self.from_col,
            Some(r.to_col) == self.to_col,
    {
        RelationDef {
            rel_type: self.rel_type,
            from_table: self.from_table,
            to_table: self.to_table,
            from_col: self.from_col.unwrap(),
            to_col: self.to_col.unwrap(),
        }
    }
}

} // verus!
