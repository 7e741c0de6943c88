use vstd::prelude::*;

use crate::casing::{camel_of, snake_of, to_snake_case, to_upper_camel_case};
use crate::column::{column_text, new_field_text, Column, Constraint, NewField};
use crate::error::SchemaError;
use crate::strutil::{dec_nat, str_eq, u64_to_string};

verus! {

/// Builds the source text for one table's value types: the owned
/// value type, the borrowed "new value" type without the generated
/// primary-key columns, and the positional insert-statement template.
#[derive(Debug, PartialEq, Eq)]
pub struct StructBuilder {
    pub name: String,
    pub columns: Vec<Column>,
    pub constraints: Vec<Constraint>,
}

/// A column of the given name is present.
pub open spec fn builder_has_column(cols: Seq<Column>, name: Seq<char>) -> bool {
    exists|i: int| 0 <= i < cols.len() && cols[i].name@ == name
}

/// A non-primary-key column stands before position `m`.
pub open spec fn has_non_pk(cols: Seq<Column>, m: int) -> bool {
    exists|i: int| 0 <= i < m && !cols[i].primary_key
}

/// How many non-primary-key columns stand before position `m`.
pub open spec fn count_non_pk(cols: Seq<Column>, m: int) -> int
    decreases m,
{
    if m <= 0 {
        0
    } else {
        count_non_pk(cols, m - 1) + (if cols[m - 1].primary_key {
            0int
        } else {
            1int
        })
    }
}

/// The owned value-type lines, one per column, in declaration order.
pub open spec fn builder_struct_lines(cols: Seq<Column>, n: int) -> Seq<char>
    decreases n,
{
    if n <= 0 {
        Seq::empty()
    } else {
        builder_struct_lines(cols, n - 1) + "    pub "@ + column_text(cols[n - 1]) + ",\n"@
    }
}

/// The owned value-type definition.
pub open spec fn build_type_text(b: StructBuilder) -> Seq<char> {
    "pub struct "@ + camel_of(b.name@) + " {\n"@ + builder_struct_lines(
        b.columns@,
        b.columns@.len() as int,
    ) + "}\n        "@
}

/// The borrowed "new value" lines: one per column, skipping
/// primary-key columns.
pub open spec fn builder_new_lines(cols: Seq<Column>, n: int) -> Seq<char>
    decreases n,
{
    if n <= 0 {
        Seq::empty()
    } else {
        builder_new_lines(cols, n - 1) + (if cols[n - 1].primary_key {
            Seq::<char>::empty()
        } else {
            "    pub "@ + new_field_text(cols[n - 1], Some("a"@)) + ",\n"@
        })
    }
}

/// The borrowed "new value" type definition, without primary-key
/// columns.
pub open spec fn build_new_type_text(b: StructBuilder) -> Seq<char> {
    "pub struct "@ + camel_of(b.name@) + "New<'a> {\n"@ + builder_new_lines(
        b.columns@,
        b.columns@.len() as int,
    ) + "}\n        "@
}

/// A non-primary-key column that is both nullable and carries a
/// default value cannot be rendered.
pub open spec fn has_non_pk_null_default(cols: Seq<Column>) -> bool {
    exists|i: int|
        0 <= i < cols.len() && !cols[i].primary_key && cols[i].null && cols[i].default is Some
}

/// The comma-separated non-primary-key column names.
pub open spec fn names_join(cols: Seq<Column>, n: int) -> Seq<char>
    decreases n,
{
    if n <= 0 {
        Seq::empty()
    } else {
        names_join(cols, n - 1) + (if cols[n - 1].primary_key {
            Seq::<char>::empty()
        } else if has_non_pk(cols, n - 1) {
            ", "@ + cols[n - 1].name@
        } else {
            cols[n - 1].name@
        })
    }
}

/// The comma-separated positional parameters, one per non-primary-key
/// column, numbered from one in column order.
pub open spec fn params_join(cols: Seq<Column>, n: int) -> Seq<char>
    decreases n,
{
    if n <= 0 {
        Seq::empty()
    } else {
        params_join(cols, n - 1) + (if cols[n - 1].primary_key {
            Seq::<char>::empty()
        } else if has_non_pk(cols, n - 1) {
            ", $"@ + dec_nat(count_non_pk(cols, n - 1) + 1)
        } else {
            "$"@ + dec_nat(count_non_pk(cols, n - 1) + 1)
        })
    }
}

/// The comma-separated borrowed field accesses handed to the insert
/// call, one per non-primary-key column.
pub open spec fn fields_join(cols: Seq<Column>, n: int) -> Seq<char>
    decreases n,
{
    if n <= 0 {
        Seq::empty()
    } else {
        fields_join(cols, n - 1) + (if cols[n - 1].primary_key {
            Seq::<char>::empty()
        } else if has_non_pk(cols, n - 1) {
            ", &entry."@ + snake_of(cols[n - 1].name@)
        } else {
            "&entry."@ + snake_of(cols[n - 1].name@)
        })
    }
}

/// The insert statement: the non-primary-key columns in declaration
/// order, and one positional parameter per column.
pub open spec fn insert_statement_text(b: StructBuilder) -> Seq<char> {
    "INSERT INTO "@ + b.name@ + "("@ + names_join(b.columns@, b.columns@.len() as int)
        + ") VALUES("@ + params_join(b.columns@, b.columns@.len() as int) + ");"@
}

/// The insert method: prepares the positional insert statement once
/// and executes it for each borrowed "new value".
pub open spec fn build_type_methods_text(b: StructBuilder) -> Seq<char> {
    "impl "@ + camel_of(b.name@)
        + " {\n        pub fn insert_slice(client: &mut postgres::Client, slice: &["@ + camel_of(
        b.name@,
    ) + "New<'_>]) -> Result<(), postgres::Error> {\n            let statement = client.prepare(\""@
        + insert_statement_text(b)
        + "\")?;\n            for entry in slice {\n                client.execute(&statement, &["@
        + fields_join(b.columns@, b.columns@.len() as int)
        + "])?;\n            }\n            Ok(())\n        }\n}\n        "@
}

impl StructBuilder {
    /// An empty builder for the given table name.
    pub fn new(name: String) -> (r: StructBuilder)
        ensures
            r.name == name,
            r.columns@ =~= Seq::<Column>::empty(),
            r.constraints@ =~= Seq::<Constraint>::empty(),
    {
        StructBuilder { name, columns: Vec::new(), constraints: Vec::new() }
    }

    /// Inserts a column, keyed by its name: a column of the same name
    /// is replaced in place, any other is appended in declaration
    /// order.
    pub fn add_column(&mut self, val: Column)
        ensures
            final(self).name == old(self).name,
            final(self).constraints == old(self).constraints,
            !builder_has_column(old(self).columns@, val.name@) ==> final(self).columns@ == old(
                self,
            ).columns@.push(val),
            builder_has_column(old(self).columns@, val.name@) ==> exists|i: int|
                0 <= i < old(self).columns@.len() && old(self).columns@[i].name@ == val.name@
                    && final(self).columns@ == old(self).columns@.update(i, val),
    {
        let mut i: usize = 0;
        while i < self.columns.len()
            invariant
                *self == *old(self),
                i <= self.columns@.len(),
                forall|j: int| 0 <= j < i ==> self.columns@[j].name@ != val.name@,
            decreases self.columns@.len() - i,
        {
            if str_eq(self.columns[i].name.as_str(), val.name.as_str()) {
                proof {
                    assert(builder_has_column(old(self).columns@, val.name@));
                }
                self.columns[i] = val;
                proof {
                    assert(self.columns@ =~= old(self).columns@.update(i as int, val));
                }
                return ;
            }
            i += 1;
        }
        self.columns.push(val);
    }

    /// Renders the owned value-type definition, one field line per
    /// column in declaration order.
    pub fn build_type(&self) -> (r: String)
        ensures
            r@ == build_type_text(*self),
    {
        let camel = to_upper_camel_case(self.name.as_str());
        let mut r = String::from_str("pub struct ");
        r.append(camel.as_str());
        r.append(" {\n");
        let ghost head = r@;
        let mut i: usize = 0;
        while i < self.columns.len()
            invariant
                i <= self.columns@.len(),
                head == "pub struct "@ + camel_of(self.name@) + " {\n"@,
                r@ == head + builder_struct_lines(self.columns@, i as int),
            decreases self.columns@.len() - i,
        {
            r.append("    pub ");
            let line = self.columns[i].render();
            r.append(line.as_str());
            r.append(",\n");
            proof {
                assert(r@ =~= head + builder_struct_lines(self.columns@, i + 1));
            }
            i += 1;
        }
        r.append("}\n        ");
        proof {
            assert(r@ =~= build_type_text(*self));
        }
        r
    }

    /// Renders the borrowed "new value" type definition, omitting the
    /// generated primary-key columns. Fails, deterministically, on a
    /// column that is both nullable and carries a default value.
    pub fn build_new_type(&self) -> (r: Result<String, SchemaError>)
        ensures
            has_non_pk_null_default(self.columns@) ==> r == Err::<String, SchemaError>(
                SchemaError::NullAndDefault,
            ),
            !has_non_pk_null_default(self.columns@) ==> (r matches Ok(text) && text@
                == build_new_type_text(*self)),
    {
        let camel = to_upper_camel_case(self.name.as_str());
        let mut r = String::from_str("pub struct ");
        r.append(camel.as_str());
        r.append("New<'a> {\n");
        let ghost head = r@;
        let mut i: usize = 0;
        while i < self.columns.len()
            invariant
                i <= self.columns@.len(),
                head == "pub struct "@ + camel_of(self.name@) + "New<'a> {\n"@,
                r@ == head + builder_new_lines(self.columns@, i as int),
                forall|j: int|
                    0 <= j < i ==> !(!self.columns@[j].primary_key && self.columns@[j].null
                        && self.columns@[j].default is Some),
            decreases self.columns@.len() - i,
        {
            if !self.columns[i].primary_key {
                r.append("    pub ");
                let field = NewField { lifetime: Some("a"), val: &self.columns[i] };
                let line = match field.render() {
                    Ok(line) => line,
                    Err(e) => {
                        return Err(e);
                    },
                };
                r.append(line.as_str());
                r.append(",\n");
            }
            proof {
                assert(r@ =~= head + builder_new_lines(self.columns@, i + 1));
            }
            i += 1;
        }
        r.append("}\n        ");
        proof {
            assert(r@ =~= build_new_type_text(*self));
        }
        Ok(r)
    }

    /// Renders the insert method: the positional insert-statement
    /// template over the non-primary-key columns in declaration order,
    /// executed once per borrowed "new value".
    pub fn build_type_methods(&self) -> (r: String)
        ensures
            r@ == build_type_methods_text(*self),
    {
        let camel = to_upper_camel_case(self.name.as_str());

        let mut statement = String::from_str("INSERT INTO ");
        statement.append(self.name.as_str());
        statement.append("(");
        let ghost stmt_head = statement@;
        let mut count: usize = 0;
        let mut i: usize = 0;
        while i < self.columns.len()
            invariant
                i <= self.columns@.len(),
                stmt_head == "INSERT INTO "@ + self.name@ + "("@,
                statement@ == stmt_head + names_join(self.columns@, i as int),
                count == count_non_pk(self.columns@, i as int),
                count <= i,
                (count > 0) == has_non_pk(self.columns@, i as int),
            decreases self.columns@.len() - i,
        {
            if !self.columns[i].primary_key {
                if count > 0 {
                    statement.append(", ");
                }
                statement.append(self.columns[i].name.as_str());
                count += 1;
            }
            proof {
                assert(statement@ =~= stmt_head + names_join(self.columns@, i + 1));
            }
            i += 1;
        }
        statement.append(") VALUES(");
        let ghost stmt_mid = statement@;
        let mut count: usize = 0;
        let mut i: usize = 0;
        while i < self.columns.len()
            invariant
                i <= self.columns@.len(),
                stmt_mid == "INSERT INTO "@ + self.name@ + "("@ + names_join(
                    self.columns@,
                    self.columns@.len() as int,
                ) + ") VALUES("@,
                statement@ == stmt_mid + params_join(self.columns@, i as int),
                count == count_non_pk(self.columns@, i as int),
                count <= i,
                (count > 0) == has_non_pk(self.columns@, i as int),
            decreases self.columns@.len() - i,
        {
            if !self.columns[i].primary_key {
                if count > 0 {
                    statement.append(", $");
                } else {
                    statement.append("$");
                }
                let num = u64_to_string((count as u64) + 1);
                statement.append(num.as_str());
                count += 1;
            }
            proof {
                assert(statement@ =~= stmt_mid + params_join(self.columns@, i + 1));
            }
            i += 1;
        }
        statement.append(");");

        let mut fields = String::new();
        let mut count: usize = 0;
        let mut i: usize = 0;
        while i < self.columns.len()
            invariant
                i <= self.columns@.len(),
                fields@ == fields_join(self.columns@, i as int),
                count == count_non_pk(self.columns@, i as int),
                count <= i,
                (count > 0) == has_non_pk(self.columns@, i as int),
            decreases self.columns@.len() - i,
        {
            if !self.columns[i].primary_key {
                if count > 0 {
                    fields.append(", &entry.");
                } else {
                    fields.append("&entry.");
                }
                let snake = to_snake_case(self.columns[i].name.as_str());
                fields.append(snake.as_str());
                count += 1;
            }
            proof {
                assert(fields@ =~= fields_join(self.columns@, i + 1));
            }
            i += 1;
        }

        let mut r = String::from_str("impl ");
        r.append(camel.as_str());
        r.append(" {\n        pub fn insert_slice(client: &mut postgres::Client, slice: &[");
        r.append(camel.as_str());
        r.append("New<'_>]) -> Result<(), postgres::Error> {\n            let statement = client.prepare(\"");
        r.append(statement.as_str());
        r.append("\")?;\n            for entry in slice {\n                client.execute(&statement, &[");
        r.append(fields.as_str());
        r.append("])?;\n            }\n            Ok(())\n        }\n}\n        ");
        proof {
            assert(statement@ == insert_statement_text(*self));
            assert(r@ =~= build_type_methods_text(*self));
        }
        r
    }
}

impl Default for StructBuilder {
    /// An empty builder with an empty table name.
    fn default() -> (r: StructBuilder)
        ensures
            r.name@ =~= Seq::<char>::empty(),
            r.columns@ =~= Seq::<Column>::empty(),
            r.constraints@ =~= Seq::<Constraint>::empty(),
    {
        StructBuilder { name: String::new(), columns: Vec::new(), constraints: Vec::new() }
    }
}

} // verus!
