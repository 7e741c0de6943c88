//! Introspects the catalog of a relational database into a structural
//! data model (tables, columns, composite and enumeration types) and
//! offers a typed query-construction algebra over that model, rendered
//! to parameterized query text.

mod casing;
mod column;
mod error;
mod query;
mod quote;
mod select;
mod struct_builder;
mod strutil;
mod table;
mod types;

use vstd::prelude::*;

use crate::strutil::str_eq;
use crate::table::{has_null_default, table_text};
use crate::types::{type_def_name, type_def_text};

pub use crate::column::{Column, Constraint, ForeignKey, ForeignKeyRow, NewField};
pub use crate::error::SchemaError;
pub use crate::select::{
    AndExpression, ComparisonExpression, Either, Expr, NotExpression, Operator, OrExpression,
    Query, Where,
};
pub use crate::query::{
    CmpOp, Cond, Field, FieldRef, Operand, QueryError, Sql, SqlQuery, Value, ValueOrFieldRef,
};
pub use crate::struct_builder::StructBuilder;
pub use crate::table::{
    inline_column_type, nullable_flag, parse_constraint_kind, ConstraintAction, ConstraintKind,
    Table,
};
pub use crate::types::{
    expect_single, CatalogTypeRow, Composite, CompositeRef, Enum, EnumRef, Resolution, ScalarType,
    Type, TypeAsRef, TypeDefinition, KIND_TAG_BASE, KIND_TAG_COMPOSITE, KIND_TAG_ENUM,
};

verus! {

/// The full scan result: the schema's tables and the distinct type
/// definitions referenced by their columns, deduplicated by name.
pub struct Schema {
    pub tables: Vec<Table>,
    pub types: Vec<TypeDefinition>,
}

/// A type definition of the given name is already listed.
pub open spec fn has_type_def(defs: Seq<TypeDefinition>, name: Seq<char>) -> bool {
    exists|i: int| 0 <= i < defs.len() && type_def_name(defs[i]) == name
}

impl Schema {
    /// An empty scan result.
    pub fn new() -> (r: Schema)
        ensures
            r.tables@ =~= Seq::<Table>::empty(),
            r.types@ =~= Seq::<TypeDefinition>::empty(),
    {
        Schema { tables: Vec::new(), types: Vec::new() }
    }

    /// Appends a scanned table.
    pub fn push_table(&mut self, table: Table)
        ensures
            final(self).tables@ == old(self).tables@.push(table),
            final(self).types == old(self).types,
    {
        self.tables.push(table);
    }

    /// Records a type definition referenced by some column,
    /// deduplicated by name: a definition whose name is already listed
    /// leaves the schema unchanged.
    pub fn push_type_def(&mut self, def: TypeDefinition)
        ensures
            final(self).tables == old(self).tables,
            has_type_def(old(self).types@, type_def_name(def)) ==> final(self).types == old(
                self,
            ).types,
            !has_type_def(old(self).types@, type_def_name(def)) ==> final(self).types@ == old(
                self,
            ).types@.push(def),
    {
        let mut i: usize = 0;
        while i < self.types.len()
            invariant
                *self == *old(self),
                i <= self.types@.len(),
                forall|j: int| 0 <= j < i ==> type_def_name(self.types@[j]) != type_def_name(def),
            decreases self.types@.len() - i,
        {
            if str_eq(self.types[i].def_name(), def.def_name()) {
                proof {
                    assert(has_type_def(old(self).types@, type_def_name(def)));
                }
                return ;
            }
            i += 1;
        }
        self.types.push(def);
    }
}

/// The source text of the schema's type definitions, in recorded
/// order, each followed by a blank line.
pub open spec fn schema_types_text(defs: Seq<TypeDefinition>, n: int) -> Seq<char>
    decreases n,
{
    if n <= 0 {
        Seq::empty()
    } else {
        schema_types_text(defs, n - 1) + type_def_text(defs[n - 1]) + "\n"@
    }
}

impl Schema {
    /// Renders the source text of the schema's type definitions, in
    /// the order they were recorded, each followed by a blank line.
    pub fn render_types(&self) -> (r: String)
        ensures
            r@ == schema_types_text(self.types@, self.types@.len() as int),
    {
        let mut r = String::new();
        let mut i: usize = 0;
        while i < self.types.len()
            invariant
                i <= self.types@.len(),
                r@ == schema_types_text(self.types@, i as int),
            decreases self.types@.len() - i,
        {
            let text = self.types[i].render();
            r.append(text.as_str());
            r.append("\n");
            proof {
                assert(r@ =~= schema_types_text(self.types@, i + 1));
            }
            i += 1;
        }
        r
    }
}


/// The source text of the schema's tables, in scan order, each
/// followed by a blank line.
pub open spec fn schema_tables_text(tables: Seq<Table>, n: int) -> Seq<char>
    decreases n,
{
    if n <= 0 {
        Seq::empty()
    } else {
        schema_tables_text(tables, n - 1) + table_text(tables[n - 1]) + "\n"@
    }
}

/// Some table holds a column that is both nullable and carries a
/// default value, so the schema cannot be rendered.
pub open spec fn schema_has_null_default(tables: Seq<Table>) -> bool {
    exists|i: int| 0 <= i < tables.len() && has_null_default(tables[i].columns@)
}

impl Schema {
    /// Renders the whole scan result: every table's value types in
    /// scan order, then the referenced type definitions, each followed
    /// by a blank line. Fails, deterministically, on a column that is
    /// both nullable and carries a default value.
    pub fn render(&self) -> (r: Result<String, SchemaError>)
        ensures
            schema_has_null_default(self.tables@) ==> r == Err::<String, SchemaError>(
                SchemaError::NullAndDefault,
            ),
            !schema_has_null_default(self.tables@) ==> (r matches Ok(text) && text@
                == schema_tables_text(self.tables@, self.tables@.len() as int)
                + schema_types_text(self.types@, self.types@.len() as int)),
    {
        let mut r = String::new();
        let mut i: usize = 0;
        while i < self.tables.len()
            invariant
                i <= self.tables@.len(),
                r@ == schema_tables_text(self.tables@, i as int),
                forall|j: int| 0 <= j < i ==> !has_null_default(self.tables@[j].columns@),
            decreases self.tables@.len() - i,
        {
            let text = match self.tables[i].render() {
                Ok(text) => text,
                Err(e) => {
                    return Err(e);
                },
            };
            r.append(text.as_str());
            r.append("\n");
            proof {
                assert(r@ =~= schema_tables_text(self.tables@, i + 1));
            }
            i += 1;
        }
        let types = self.render_types();
        r.append(types.as_str());
        Ok(r)
    }
}

} // verus!
