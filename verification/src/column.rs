use vstd::prelude::*;

use crate::casing::{snake_of, to_snake_case};
use crate::error::SchemaError;
use crate::types::{lifetime_view, ref_text, type_text, Type, TypeAsRef};

verus! {

/// One column of a table: its name, resolved type, nullability,
/// uniqueness and key flags, optional foreign key, optional default
/// expression, and optional inline type definition text. Created
/// during the catalog scan and mutated in place while constraint rows
/// are merged in.
#[derive(Debug, PartialEq, Eq)]
pub struct Column {
    pub name: String,
    pub ty: Type,
    pub null: bool,
    pub primary_key: bool,
    pub foreign_key: Option<ForeignKey>,
    pub unique: bool,
    pub default: Option<String>,
    pub type_def: Option<String>,
}

/// A single-column foreign key: the referenced table and the
/// referenced columns (exactly one; composite foreign keys are
/// unsupported).
#[derive(Debug, PartialEq, Eq)]
pub struct ForeignKey {
    pub to_table: String,
    pub columns: Vec<String>,
}

/// A table-level constraint.
#[derive(Debug, PartialEq, Eq)]
pub enum Constraint {
    ForeignKey { name: String, columns: Vec<String>, ref_table: String, ref_columns: Vec<String> },
    PrimaryKey { name: Vec<String>, columns: Vec<String> },
}

/// One row of the catalog's key-column-usage listing for a foreign key
/// constraint: the referenced table and column.
#[derive(Debug)]
pub struct ForeignKeyRow {
    pub table_name: String,
    pub column_name: String,
}

impl ForeignKey {
    /// Builds a foreign key from the catalog rows of its key-column
    /// usage. Exactly one row is demanded: none is a lookup failure,
    /// and several mean a composite foreign key, which is explicitly
    /// unsupported rather than silently truncated.
    pub fn from_rows(mut rows: Vec<ForeignKeyRow>) -> (r: Result<ForeignKey, SchemaError>)
        ensures
            rows@.len() == 1 ==> (r matches Ok(fk) && fk.to_table == rows@[0].table_name
                && fk.columns@ =~= seq![rows@[0].column_name]),
            rows@.len() == 0 ==> r == Err::<ForeignKey, SchemaError>(SchemaError::NotFound),
            rows@.len() > 1 ==> r == Err::<ForeignKey, SchemaError>(
                SchemaError::CompositeForeignKey,
            ),
    {
        if rows.len() == 1 {
            match rows.pop() {
                Some(row) => {
                    let mut columns: Vec<String> = Vec::new();
                    columns.push(row.column_name);
                    Ok(ForeignKey { to_table: row.table_name, columns })
                },
                None => Err(SchemaError::NotFound),
            }
        } else if rows.len() == 0 {
            Err(SchemaError::NotFound)
        } else {
            Err(SchemaError::CompositeForeignKey)
        }
    }
}

/// The field line a column renders to: its snake_case name and its
/// type text, the latter wrapped in the optional-value wrapper exactly
/// when the column is nullable.
pub open spec fn column_text(c: Column) -> Seq<char> {
    if c.null {
        snake_of(c.name@) + ": Option<"@ + type_text(c.ty) + ">"@
    } else {
        snake_of(c.name@) + ": "@ + type_text(c.ty)
    }
}

impl Column {
    /// A freshly scanned column: not nullable, not unique, not a key,
    /// with no foreign key, default or inline type definition.
    pub fn new(name: String, ty: Type) -> (r: Column)
        ensures
            r.name == name,
            r.ty == ty,
            !r.null,
            !r.primary_key,
            r.foreign_key is None,
            !r.unique,
            r.default is None,
            r.type_def is None,
    {
        Column {
            name,
            ty,
            null: false,
            primary_key: false,
            foreign_key: None,
            unique: false,
            default: None,
            type_def: None,
        }
    }

    /// The borrowed-field view of this column for "new value" type
    /// definitions.
    pub fn new_field(&self) -> (r: NewField<'_>)
        ensures
            r.lifetime matches Some(l) && l@ == "a"@,
            r.val == self,
    {
        NewField { lifetime: Some("a"), val: self }
    }

    /// Renders the column's field line; a nullable column is wrapped
    /// in the optional-value wrapper, a non-nullable one is not.
    pub fn render(&self) -> (r: String)
        ensures
            r@ == column_text(*self),
    {
        let mut r = to_snake_case(self.name.as_str());
        if self.null {
            r.append(": Option<");
            let ty_text = self.ty.render();
            r.append(ty_text.as_str());
            r.append(">");
        } else {
            r.append(": ");
            let ty_text = self.ty.render();
            r.append(ty_text.as_str());
        }
        proof {
            assert(r@ =~= column_text(*self));
        }
        r
    }
}

/// The borrowed form of a column, as it appears in a "new value" type
/// definition: borrowed text and slices under the given lifetime.
pub struct NewField<'a> {
    pub lifetime: Option<&'a str>,
    pub val: &'a Column,
}

/// The field line a column's borrowed form renders to: wrapped in the
/// optional-value wrapper when the column is nullable or carries a
/// default expression.
pub open spec fn new_field_text(c: Column, lt: Option<Seq<char>>) -> Seq<char> {
    if c.null || c.default is Some {
        snake_of(c.name@) + ": Option<"@ + ref_text(c.ty, lt) + ">"@
    } else {
        snake_of(c.name@) + ": "@ + ref_text(c.ty, lt)
    }
}

impl<'a> NewField<'a> {
    /// Renders the borrowed field line. A column that is both nullable
    /// and carries a default expression violates the model's contract
    /// and is rejected, deterministically, rather than rendered.
    pub fn render(&self) -> (r: Result<String, SchemaError>)
        ensures
            self.val.null && self.val.default is Some ==> r == Err::<String, SchemaError>(
                SchemaError::NullAndDefault,
            ),
            !(self.val.null && self.val.default is Some) ==> (r matches Ok(text) && text@
                == new_field_text(*self.val, lifetime_view(self.lifetime))),
    {
        if self.val.null && self.val.default.is_some() {
            return Err(SchemaError::NullAndDefault);
        }
        let mut r = to_snake_case(self.val.name.as_str());
        let as_ref = TypeAsRef { lifetime: self.lifetime, val: &self.val.ty };
        let ty_text = as_ref.render();
        if self.val.null || self.val.default.is_some() {
            r.append(": Option<");
            r.append(ty_text.as_str());
            r.append(">");
        } else {
            r.append(": ");
            r.append(ty_text.as_str());
        }
        proof {
            assert(r@ =~= new_field_text(*self.val, lifetime_view(self.lifetime)));
        }
        Ok(r)
    }
}

} // verus!
