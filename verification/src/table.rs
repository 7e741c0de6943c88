use vstd::prelude::*;

use crate::casing::{camel_of, snake_of, to_snake_case, to_upper_camel_case};
use crate::column::{column_text, new_field_text, Column, Constraint, ForeignKey, NewField};
use crate::error::SchemaError;
use crate::strutil::{dec_nat, str_eq, u64_to_string};
use crate::types::{from_name_spec, Type};

verus! {

/// A table of the scanned schema: its name, its columns in catalog
/// scan order (order is preserved for downstream emission), and its
/// table-level constraints. Every constraint merged into the table
/// references a column present in `columns`.
#[derive(Debug, PartialEq, Eq)]
pub struct Table {
    pub name: String,
    pub columns: Vec<Column>,
    pub constraints: Vec<Constraint>,
}

/// Column names are unique within a table: the ordered column list
/// models an insertion-ordered map keyed by name.
pub open spec fn table_wf(t: Table) -> bool {
    forall|i: int, j: int|
        0 <= i < j < t.columns@.len() ==> t.columns@[i].name@ != t.columns@[j].name@
}

/// A column of the given name is present.
pub open spec fn has_column(cols: Seq<Column>, name: Seq<char>) -> bool {
    exists|i: int| 0 <= i < cols.len() && cols[i].name@ == name
}

/// The supported table-constraint kinds of the catalog.
#[derive(Debug, PartialEq, Eq)]
pub enum ConstraintKind {
    Unique,
    PrimaryKey,
    ForeignKey,
}

/// What merging one constraint row does to its referenced column.
#[derive(Debug)]
pub enum ConstraintAction {
    SetUnique,
    SetPrimaryKey,
    SetForeignKey(ForeignKey),
}

/// The column after a constraint row has been merged into it.
pub open spec fn apply_action(c: Column, action: ConstraintAction) -> Column {
    match action {
        ConstraintAction::SetUnique => Column { unique: true, ..c },
        ConstraintAction::SetPrimaryKey => Column { primary_key: true, ..c },
        ConstraintAction::SetForeignKey(fk) => Column { foreign_key: Some(fk), ..c },
    }
}

/// Parses a catalog constraint-kind label; anything outside the
/// supported vocabulary is an explicit failure, never approximated.
pub fn parse_constraint_kind(kind: &str) -> (r: Result<ConstraintKind, SchemaError>)
    ensures
        kind@ == "UNIQUE"@ ==> r == Ok::<ConstraintKind, SchemaError>(ConstraintKind::Unique),
        kind@ == "PRIMARY KEY"@ ==> r == Ok::<ConstraintKind, SchemaError>(
            ConstraintKind::PrimaryKey,
        ),
        kind@ == "FOREIGN KEY"@ ==> r == Ok::<ConstraintKind, SchemaError>(
            ConstraintKind::ForeignKey,
        ),
        kind@ != "UNIQUE"@ && kind@ != "PRIMARY KEY"@ && kind@ != "FOREIGN KEY"@ ==> (r matches Err(
            e,
        ) && e matches SchemaError::UnknownConstraintType(n) && n@ == kind@),
{
    proof {
        reveal_strlit("UNIQUE");
        reveal_strlit("PRIMARY KEY");
        reveal_strlit("FOREIGN KEY");
        crate::strutil::lemma_seq_ne_len("UNIQUE"@, "PRIMARY KEY"@);
        crate::strutil::lemma_seq_ne_len("UNIQUE"@, "FOREIGN KEY"@);
        crate::strutil::lemma_seq_ne_at("PRIMARY KEY"@, "FOREIGN KEY"@, 0);
    }
    if str_eq(kind, "UNIQUE") {
        Ok(ConstraintKind::Unique)
    } else if str_eq(kind, "PRIMARY KEY") {
        Ok(ConstraintKind::PrimaryKey)
    } else if str_eq(kind, "FOREIGN KEY") {
        Ok(ConstraintKind::ForeignKey)
    } else {
        Err(SchemaError::UnknownConstraintType(String::from_str(kind)))
    }
}

/// The catalog's nullability flag for a scanned column.
pub fn nullable_flag(is_nullable: &str) -> (r: bool)
    ensures
        r == (is_nullable@ == "YES"@),
{
    str_eq(is_nullable, "YES")
}

/// The declared type of a scanned column, when the declaration carries
/// it inline. An array or user-defined marker returns nothing: the
/// caller must resolve the underlying type name against the catalog
/// instead.
pub fn inline_column_type(data_type: &str) -> (r: Result<Option<Type>, SchemaError>)
    ensures
        data_type@ == "ARRAY"@ || data_type@ == "USER-DEFINED"@ ==> r == Ok::<
            Option<Type>,
            SchemaError,
        >(None),
        data_type@ != "ARRAY"@ && data_type@ != "USER-DEFINED"@ ==> match from_name_spec(
            data_type@,
        ) {
            Some(t) => r == Ok::<Option<Type>, SchemaError>(Some(t)),
            None => (r matches Err(e) && e matches SchemaError::UnknownScalarName(n) && n@
                == data_type@),
        },
{
    if str_eq(data_type, "ARRAY") || str_eq(data_type, "USER-DEFINED") {
        Ok(None)
    } else {
        match Type::from_name(data_type) {
            Ok(t) => Ok(Some(t)),
            Err(e) => Err(e),
        }
    }
}

impl Table {
    /// An empty table of the given name.
    pub fn new(name: String) -> (r: Table)
        ensures
            r.name == name,
            r.columns@ =~= Seq::<Column>::empty(),
            r.constraints@ =~= Seq::<Constraint>::empty(),
            table_wf(r),
    {
        Table { name, columns: Vec::new(), constraints: Vec::new() }
    }

    /// Inserts a scanned column, keyed by its name: a column of the
    /// same name is replaced in place (keeping its scan position), any
    /// other is appended. Preserves the name-uniqueness invariant.
    pub fn push_column(&mut self, col: Column)
        ensures
            final(self).name == old(self).name,
            final(self).constraints == old(self).constraints,
            !has_column(old(self).columns@, col.name@) ==> final(self).columns@ == old(
                self,
            ).columns@.push(col),
            has_column(old(self).columns@, col.name@) ==> exists|i: int|
                0 <= i < old(self).columns@.len() && old(self).columns@[i].name@ == col.name@
                    && final(self).columns@ == old(self).columns@.update(i, col),
            table_wf(*old(self)) ==> table_wf(*final(self)),
    {
        let mut i: usize = 0;
        while i < self.columns.len()
            invariant
                *self == *old(self),
                i <= self.columns@.len(),
                forall|j: int| 0 <= j < i ==> self.columns@[j].name@ != col.name@,
            decreases self.columns@.len() - i,
        {
            if str_eq(self.columns[i].name.as_str(), col.name.as_str()) {
                proof {
                    assert(has_column(old(self).columns@, col.name@));
                }
                self.columns[i] = col;
                proof {
                    assert(self.columns@ =~= old(self).columns@.update(i as int, col));
                    assert forall|k: int| 0 <= k < self.columns@.len() implies (
                    self.columns@[k].name@ == old(self).columns@[k].name@) by {}
                }
                return ;
            }
            i += 1;
        }
        self.columns.push(col);
    }

    /// Merges one constraint row into the table: the referenced column
    /// must exist in the previously scanned column set — a constraint
    /// on an unknown column marks a catalog desync and fails the scan,
    /// leaving the table unchanged, rather than being silently
    /// dropped.
    pub fn apply_constraint(&mut self, column_name: &str, action: ConstraintAction) -> (r: Result<
        (),
        SchemaError,
    >)
        ensures
            !has_column(old(self).columns@, column_name@) ==> (r matches Err(e) && e matches
                SchemaError::UnknownColumn(n) && n@ == column_name@ && *final(self) == *old(self)),
            has_column(old(self).columns@, column_name@) ==> (r == Ok::<(), SchemaError>(())
                && exists|i: int|
                0 <= i < old(self).columns@.len() && old(self).columns@[i].name@ == column_name@
                    && final(self).columns@ == old(self).columns@.update(
                    i,
                    apply_action(old(self).columns@[i], action),
                )),
            final(self).name == old(self).name,
            final(self).constraints == old(self).constraints,
            table_wf(*old(self)) ==> table_wf(*final(self)),
    {
        let mut i: usize = 0;
        while i < self.columns.len()
            invariant
                *self == *old(self),
                i <= self.columns@.len(),
                forall|j: int| 0 <= j < i ==> self.columns@[j].name@ != column_name@,
            decreases self.columns@.len() - i,
        {
            if str_eq(self.columns[i].name.as_str(), column_name) {
                proof {
                    assert(has_column(old(self).columns@, column_name@));
                }
                match action {
                    ConstraintAction::SetUnique => {
                        self.columns[i].unique = true;
                    },
                    ConstraintAction::SetPrimaryKey => {
                        self.columns[i].primary_key = true;
                    },
                    ConstraintAction::SetForeignKey(fk) => {
                        self.columns[i].foreign_key = Some(fk);
                    },
                }
                proof {
                    assert(self.columns@ =~= old(self).columns@.update(
                        i as int,
                        apply_action(old(self).columns@[i as int], action),
                    ));
                    assert forall|k: int| 0 <= k < self.columns@.len() implies (
                    self.columns@[k].name@ == old(self).columns@[k].name@) by {}
                }
                return Ok(());
            }
            i += 1;
        }
        Err(SchemaError::UnknownColumn(String::from_str(column_name)))
    }
}

/// The value-type lines of a table's columns, in declaration order.
pub open spec fn struct_lines(cols: Seq<Column>, n: int) -> Seq<char>
    decreases n,
{
    if n <= 0 {
        Seq::empty()
    } else {
        struct_lines(cols, n - 1) + "    pub "@ + column_text(cols[n - 1]) + ",\n"@
    }
}

/// The borrowed "new value" lines of a table's columns, in declaration
/// order.
pub open spec fn new_struct_lines(cols: Seq<Column>, n: int) -> Seq<char>
    decreases n,
{
    if n <= 0 {
        Seq::empty()
    } else {
        new_struct_lines(cols, n - 1) + "    pub "@ + new_field_text(cols[n - 1], Some("a"@))
            + ",\n"@
    }
}

/// The value-type definition a table renders to, followed by its
/// borrowed "new value" type definition.
pub open spec fn table_text(t: Table) -> Seq<char> {
    "pub struct "@ + camel_of(t.name@) + " {\n"@ + struct_lines(t.columns@, t.columns@.len() as int)
        + "}\n\npub struct New"@ + camel_of(t.name@) + "<'a> {\n"@ + new_struct_lines(
        t.columns@,
        t.columns@.len() as int,
    ) + "}\n"@
}

/// A column that is both nullable and carries a default value cannot
/// be rendered.
pub open spec fn has_null_default(cols: Seq<Column>) -> bool {
    exists|i: int| 0 <= i < cols.len() && cols[i].null && cols[i].default is Some
}

impl Table {
    /// Renders the table's value-type definition and its borrowed
    /// "new value" type definition, one field line per column in
    /// declaration order. Fails, deterministically, on a column that
    /// is both nullable and carries a default value.
    pub fn render(&self) -> (r: Result<String, SchemaError>)
        ensures
            has_null_default(self.columns@) ==> r == Err::<String, SchemaError>(
                SchemaError::NullAndDefault,
            ),
            !has_null_default(self.columns@) ==> (r matches Ok(text) && text@ == table_text(*self)),
    {
        let camel = to_upper_camel_case(self.name.as_str());
        let mut r = String::from_str("pub struct ");
        r.append(camel.as_str());
        r.append(" {\n");
        let ghost head = r@;
        let mut i: usize = 0;
        while i < self.columns.len()
            invariant
                i <= self.columns@.len(),
                head == "pub struct "@ + camel_of(self.name@) + " {\n"@,
                r@ == head + struct_lines(self.columns@, i as int),
            decreases self.columns@.len() - i,
        {
            r.append("    pub ");
            let line = self.columns[i].render();
            r.append(line.as_str());
            r.append(",\n");
            proof {
                assert(r@ =~= head + struct_lines(self.columns@, i + 1));
            }
            i += 1;
        }
        r.append("}\n\npub struct New");
        r.append(camel.as_str());
        r.append("<'a> {\n");
        let ghost mid = r@;
        proof {
            assert(mid == head + struct_lines(self.columns@, self.columns@.len() as int)
                + "}\n\npub struct New"@ + camel_of(self.name@) + "<'a> {\n"@);
        }
        let mut i: usize = 0;
        while i < self.columns.len()
            invariant
                i <= self.columns@.len(),
                mid == "pub struct "@ + camel_of(self.name@) + " {\n"@ + struct_lines(
                    self.columns@,
                    self.columns@.len() as int,
                ) + "}\n\npub struct New"@ + camel_of(self.name@) + "<'a> {\n"@,
                r@ == mid + new_struct_lines(self.columns@, i as int),
                forall|j: int|
                    0 <= j < i ==> !(self.columns@[j].null && self.columns@[j].default is Some),
            decreases self.columns@.len() - i,
        {
            r.append("    pub ");
            let field = NewField { lifetime: Some("a"), val: &self.columns[i] };
            let line = match field.render() {
                Ok(line) => line,
                Err(e) => {
                    return Err(e);
                },
            };
            r.append(line.as_str());
            r.append(",\n");
            proof {
                assert(r@ =~= mid + new_struct_lines(self.columns@, i + 1));
            }
            i += 1;
        }
        r.append("}\n");
        proof {
            assert(r@ =~= table_text(*self));
        }
        Ok(r)
    }
}


/// How many columns named "id" stand before position `m`; the insert
/// template skips them and renumbers its parameters accordingly.
pub open spec fn count_id(cols: Seq<Column>, m: int) -> int
    decreases m,
{
    if m <= 0 {
        0
    } else {
        count_id(cols, m - 1) + (if cols[m - 1].name@ == "id"@ {
            1int
        } else {
            0int
        })
    }
}

/// The column-name lines of the insert statement, skipping columns
/// named "id"; only the line of the last column of the table drops its
/// trailing comma.
pub open spec fn insert_name_lines(cols: Seq<Column>, n: int) -> Seq<char>
    decreases n,
{
    if n <= 0 {
        Seq::empty()
    } else {
        insert_name_lines(cols, n - 1) + (if cols[n - 1].name@ == "id"@ {
            Seq::<char>::empty()
        } else {
            "                "@ + cols[n - 1].name@ + (if n == cols.len() {
                "\n"@
            } else {
                ",\n"@
            })
        })
    }
}

/// The positional parameters of the insert statement, numbered in
/// column order with the skipped "id" columns left out; only the
/// parameter of the last column of the table drops its trailing comma.
pub open spec fn insert_value_parts(cols: Seq<Column>, n: int) -> Seq<char>
    decreases n,
{
    if n <= 0 {
        Seq::empty()
    } else {
        insert_value_parts(cols, n - 1) + (if cols[n - 1].name@ == "id"@ {
            Seq::<char>::empty()
        } else {
            "$"@ + dec_nat(n - count_id(cols, n - 1)) + (if n == cols.len() {
                Seq::<char>::empty()
            } else {
                ", "@
            })
        })
    }
}

/// The field accesses handed to the insert execution, one per column
/// not named "id".
pub open spec fn insert_field_lines(cols: Seq<Column>, n: int) -> Seq<char>
    decreases n,
{
    if n <= 0 {
        Seq::empty()
    } else {
        insert_field_lines(cols, n - 1) + (if cols[n - 1].name@ == "id"@ {
            Seq::<char>::empty()
        } else {
            "                entry."@ + snake_of(cols[n - 1].name@) + ",\n"@
        })
    }
}

/// The insert method a table renders to: a prepared statement over the
/// columns not named "id", executed once per "new value".
pub open spec fn insert_text(t: Table) -> Seq<char> {
    "impl "@ + camel_of(t.name@) + " {\n    pub async fn insert(slice: &[New"@ + camel_of(t.name@)
        + "<'_>]) -> Result<(), tokio_postgres::Error> {\n        let statement = client.prepare(\n            \"INSERT INTO "@
        + t.name@ + " (\n"@ + insert_name_lines(t.columns@, t.columns@.len() as int)
        + "            ) VALUES ("@ + insert_value_parts(t.columns@, t.columns@.len() as int)
        + ")\"\n        ).await?;\n        for entry in slice {\n            client.execute(&statement, &[\n"@
        + insert_field_lines(t.columns@, t.columns@.len() as int)
        + "            ]).await?;\n        }\n\n        Ok(())\n    }\n}\n"@
}

impl Table {
    /// Renders the table's insert method: the statement names the
    /// columns not named "id" in declaration order and numbers one
    /// positional parameter per named column; each "new value" is then
    /// executed against the prepared statement.
    pub fn render_insert(&self) -> (r: String)
        ensures
            r@ == insert_text(*self),
    {
        let camel = to_upper_camel_case(self.name.as_str());
        let num = self.columns.len();
        let mut r = String::from_str("impl ");
        r.append(camel.as_str());
        r.append(" {\n    pub async fn insert(slice: &[New");
        r.append(camel.as_str());
        r.append(
            "<'_>]) -> Result<(), tokio_postgres::Error> {\n        let statement = client.prepare(\n            \"INSERT INTO ",
        );
        r.append(self.name.as_str());
        r.append(" (\n");
        let ghost head = r@;
        let mut i: usize = 0;
        while i < num
            invariant
                num == self.columns@.len(),
                i <= num,
                r@ == head + insert_name_lines(self.columns@, i as int),
            decreases num - i,
        {
            if !str_eq(self.columns[i].name.as_str(), "id") {
                r.append("                ");
                r.append(self.columns[i].name.as_str());
                if i == num - 1 {
                    r.append("\n");
                } else {
                    r.append(",\n");
                }
            }
            proof {
                assert(r@ =~= head + insert_name_lines(self.columns@, i + 1));
            }
            i += 1;
        }
        r.append("            ) VALUES (");
        let ghost mid = r@;
        proof {
            assert(mid == head + insert_name_lines(self.columns@, num as int)
                + "            ) VALUES ("@);
        }
        let mut skipped: usize = 0;
        let mut i: usize = 0;
        while i < num
            invariant
                num == self.columns@.len(),
                i <= num,
                mid == head + insert_name_lines(self.columns@, num as int)
                    + "            ) VALUES ("@,
                r@ == mid + insert_value_parts(self.columns@, i as int),
                skipped == count_id(self.columns@, i as int),
                skipped <= i,
            decreases num - i,
        {
            if str_eq(self.columns[i].name.as_str(), "id") {
                skipped += 1;
            } else {
                let idx = i + 1 - skipped;
                r.append("$");
                let idx_text = u64_to_string(idx as u64);
                r.append(idx_text.as_str());
                if i != num - 1 {
                    r.append(", ");
                }
            }
            proof {
                assert(r@ =~= mid + insert_value_parts(self.columns@, i + 1));
            }
            i += 1;
        }
        r.append(
            ")\"\n        ).await?;\n        for entry in slice {\n            client.execute(&statement, &[\n",
        );
        let ghost tail = r@;
        let mut i: usize = 0;
        while i < num
            invariant
                num == self.columns@.len(),
                i <= num,
                tail == mid + insert_value_parts(self.columns@, num as int)
                    + ")\"\n        ).await?;\n        for entry in slice {\n            client.execute(&statement, &[\n"@,
                r@ == tail + insert_field_lines(self.columns@, i as int),
            decreases num - i,
        {
            if !str_eq(self.columns[i].name.as_str(), "id") {
                r.append("                entry.");
                let snake = to_snake_case(self.columns[i].name.as_str());
                r.append(snake.as_str());
                r.append(",\n");
            }
            proof {
                assert(r@ =~= tail + insert_field_lines(self.columns@, i + 1));
            }
            i += 1;
        }
        r.append("            ]).await?;\n        }\n\n        Ok(())\n    }\n}\n");
        proof {
            assert(r@ =~= insert_text(*self));
        }
        r
    }
}

} // verus!
