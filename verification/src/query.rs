use vstd::prelude::*;

use crate::quote::{quote_text, quoted_text};
use crate::strutil::{dec_int, dec_nat, i32_to_string, i64_to_string, u64_to_string};
use crate::types::ScalarType;

verus! {

/// Failures of query construction: the operands of a comparison must
/// be of one logical value type.
#[derive(Debug, PartialEq, Eq)]
pub enum QueryError {
    TypeMismatch,
}

/// A literal value usable against a typed field.
#[derive(Debug, PartialEq, Eq)]
pub enum Value {
    Bool(bool),
    I32(i32),
    I64(i64),
    Text(String),
    Timestamp(String),
}

/// The scalar kind a literal value carries.
pub open spec fn value_kind(v: Value) -> ScalarType {
    match v {
        Value::Bool(_) => ScalarType::Bool,
        Value::I32(_) => ScalarType::Int4,
        Value::I64(_) => ScalarType::Int8,
        Value::Text(_) => ScalarType::Text,
        Value::Timestamp(_) => ScalarType::Timestamp,
    }
}

/// The query text a literal value renders to: text-like values are
/// inlined between collision-free delimiters.
pub open spec fn value_text(v: Value) -> Seq<char> {
    match v {
        Value::Bool(b) => if b {
            "TRUE"@
        } else {
            "FALSE"@
        },
        Value::I32(n) => dec_int(n as int),
        Value::I64(n) => dec_int(n as int),
        Value::Text(s) => quoted_text(s@),
        Value::Timestamp(s) => quoted_text(s@),
    }
}

impl Value {
    /// Renders the literal's query text.
    pub fn render(&self) -> (r: String)
        ensures
            r@ == value_text(*self),
    {
        match self {
            Value::Bool(b) => {
                if *b {
                    String::from_str("TRUE")
                } else {
                    String::from_str("FALSE")
                }
            },
            Value::I32(n) => i32_to_string(*n),
            Value::I64(n) => i64_to_string(*n),
            Value::Text(s) => quote_text(s.as_str()),
            Value::Timestamp(s) => quote_text(s.as_str()),
        }
    }
}

/// A column of an owning table, bound to a logical value type tag and
/// a nullability flag; the tag is what the comparison operators check
/// their operands against.
#[derive(Debug, PartialEq, Eq)]
pub struct Field {
    pub table: String,
    pub column: String,
    pub kind: ScalarType,
    pub nullable: bool,
}

/// Field reference with explicit table and column identifiers.
#[derive(Debug, PartialEq, Eq)]
pub struct FieldRef {
    pub table: String,
    pub column: String,
}

/// The reference a field lowers to once its compatibility has been
/// checked.
pub open spec fn field_ref_spec(f: Field) -> FieldRef {
    FieldRef { table: f.table, column: f.column }
}

impl Field {
    /// A field of the given owning table, column name, value kind and
    /// nullability.
    pub fn new(table: String, column: String, kind: ScalarType, nullable: bool) -> (r: Field)
        ensures
            r.table == table,
            r.column == column,
            r.kind == kind,
            r.nullable == nullable,
    {
        Field { table, column, kind, nullable }
    }

    /// The field's table-and-column reference.
    pub fn field_ref(&self) -> (r: FieldRef)
        ensures
            r == field_ref_spec(*self),
    {
        FieldRef { table: self.table.clone(), column: self.column.clone() }
    }
}

/// Either a literal value or a field reference: the right-hand operand
/// of a comparison after its compatibility has been checked.
#[derive(Debug, PartialEq, Eq)]
pub enum ValueOrFieldRef {
    Value(Value),
    FieldRef(FieldRef),
}

/// The right-hand operand of a comparison as given by the caller: a
/// literal value or another typed field.
#[derive(Debug)]
pub enum Operand {
    Value(Value),
    Field(Field),
}

/// The scalar kind an operand carries.
pub open spec fn operand_kind(o: Operand) -> ScalarType {
    match o {
        Operand::Value(v) => value_kind(v),
        Operand::Field(f) => f.kind,
    }
}

/// A right-hand operand is compatible with a field exactly when it
/// carries the field's own scalar kind; nullable and non-nullable
/// sides are cross-compatible in both directions, and no widening
/// between distinct scalar kinds is permitted.
pub open spec fn compatible(f: Field, o: Operand) -> bool {
    operand_kind(o) == f.kind
}

/// The checked operand lowered to what the condition stores.
pub open spec fn lower_operand(o: Operand) -> ValueOrFieldRef {
    match o {
        Operand::Value(v) => ValueOrFieldRef::Value(v),
        Operand::Field(f) => ValueOrFieldRef::FieldRef(field_ref_spec(f)),
    }
}

fn kind_code(k: &ScalarType) -> (r: u8)
    ensures
        r == kind_code_spec(*k),
{
    match k {
        ScalarType::Bool => 0,
        ScalarType::Int2 => 1,
        ScalarType::Int4 => 2,
        ScalarType::Int8 => 3,
        ScalarType::Float4 => 4,
        ScalarType::Float8 => 5,
        ScalarType::Text => 6,
        ScalarType::Bytea => 7,
        ScalarType::Timestamp => 8,
        ScalarType::TimestampTz => 9,
        ScalarType::Uuid => 10,
        ScalarType::Inet => 11,
        ScalarType::Interval => 12,
        ScalarType::Jsonb => 13,
        ScalarType::Vector => 14,
    }
}

/// A distinct code for each scalar kind, so kinds can be compared.
pub open spec fn kind_code_spec(k: ScalarType) -> u8 {
    match k {
        ScalarType::Bool => 0,
        ScalarType::Int2 => 1,
        ScalarType::Int4 => 2,
        ScalarType::Int8 => 3,
        ScalarType::Float4 => 4,
        ScalarType::Float8 => 5,
        ScalarType::Text => 6,
        ScalarType::Bytea => 7,
        ScalarType::Timestamp => 8,
        ScalarType::TimestampTz => 9,
        ScalarType::Uuid => 10,
        ScalarType::Inet => 11,
        ScalarType::Interval => 12,
        ScalarType::Jsonb => 13,
        ScalarType::Vector => 14,
    }
}

fn kind_eq(a: &ScalarType, b: &ScalarType) -> (r: bool)
    ensures
        r == (a == b),
{
    let r = kind_code(a) == kind_code(b);
    proof {
        assert(kind_code_spec(*a) == kind_code_spec(*b) ==> *a == *b);
    }
    r
}

impl Operand {
    /// The scalar kind this operand carries.
    pub fn kind(&self) -> (r: ScalarType)
        ensures
            r == operand_kind(*self),
    {
        match self {
            Operand::Value(v) => match v {
                Value::Bool(_) => ScalarType::Bool,
                Value::I32(_) => ScalarType::Int4,
                Value::I64(_) => ScalarType::Int8,
                Value::Text(_) => ScalarType::Text,
                Value::Timestamp(_) => ScalarType::Timestamp,
            },
            Operand::Field(f) => f.kind,
        }
    }

    fn lower(self) -> (r: ValueOrFieldRef)
        ensures
            r == lower_operand(self),
    {
        match self {
            Operand::Value(v) => ValueOrFieldRef::Value(v),
            Operand::Field(f) => ValueOrFieldRef::FieldRef(FieldRef {
                table: f.table,
                column: f.column,
            }),
        }
    }
}

/// The comparison operators of rendered conditions.
#[derive(Debug, PartialEq, Eq, Clone, Copy)]
pub enum CmpOp {
    Eq,
    Ne,
    Lt,
    Le,
    Gt,
    Ge,
    Is,
    IsNot,
}

/// The query text of a condition operator.
pub open spec fn cmp_op_text(op: CmpOp) -> Seq<char> {
    match op {
        CmpOp::Eq => "="@,
        CmpOp::Ne => "<>"@,
        CmpOp::Lt => "<"@,
        CmpOp::Le => "<="@,
        CmpOp::Gt => ">"@,
        CmpOp::Ge => ">="@,
        CmpOp::Is => "IS"@,
        CmpOp::IsNot => "IS NOT"@,
    }
}

fn cmp_op_render(op: &CmpOp) -> (r: String)
    ensures
        r@ == cmp_op_text(*op),
{
    match op {
        CmpOp::Eq => String::from_str("="),
        CmpOp::Ne => String::from_str("<>"),
        CmpOp::Lt => String::from_str("<"),
        CmpOp::Le => String::from_str("<="),
        CmpOp::Gt => String::from_str(">"),
        CmpOp::Ge => String::from_str(">="),
        CmpOp::Is => String::from_str("IS"),
        CmpOp::IsNot => String::from_str("IS NOT"),
    }
}

/// A condition tree: comparisons and null checks over field
/// references, composed with AND and OR.
#[derive(Debug, PartialEq, Eq)]
pub enum Cond {
    Cmp { left: FieldRef, op: CmpOp, right: ValueOrFieldRef },
    IsNull(FieldRef),
    IsNotNull(FieldRef),
    And(Box<Cond>, Box<Cond>),
    Or(Box<Cond>, Box<Cond>),
}

/// A field reference's query text: qualified by its table name in
/// multi-table mode, the bare column name in single-table mode.
pub open spec fn field_ref_text(f: FieldRef, qualify: bool) -> Seq<char> {
    if qualify {
        f.table@ + "."@ + f.column@
    } else {
        f.column@
    }
}

/// A checked right-hand operand's query text.
pub open spec fn operand_text(o: ValueOrFieldRef, qualify: bool) -> Seq<char> {
    match o {
        ValueOrFieldRef::Value(v) => value_text(v),
        ValueOrFieldRef::FieldRef(f) => field_ref_text(f, qualify),
    }
}

/// A condition's query text: comparisons and boolean compositions are
/// fully parenthesized; null checks render after their operand.
pub open spec fn cond_text(c: Cond, qualify: bool) -> Seq<char>
    decreases c,
{
    match c {
        Cond::Cmp { left, op, right } => "("@ + field_ref_text(left, qualify) + ") "@ + cmp_op_text(
            op,
        ) + " ("@ + operand_text(right, qualify) + ")"@,
        Cond::IsNull(f) => field_ref_text(f, qualify) + " IS NULL"@,
        Cond::IsNotNull(f) => field_ref_text(f, qualify) + " IS NOT NULL"@,
        Cond::And(a, b) => "("@ + cond_text(*a, qualify) + ") AND ("@ + cond_text(*b, qualify)
            + ")"@,
        Cond::Or(a, b) => "("@ + cond_text(*a, qualify) + ") OR ("@ + cond_text(*b, qualify)
            + ")"@,
    }
}

fn field_ref_render(f: &FieldRef, qualify: bool) -> (r: String)
    ensures
        r@ == field_ref_text(*f, qualify),
{
    if qualify {
        let mut r = String::new();
        r.append(f.table.as_str());
        r.append(".");
        r.append(f.column.as_str());
        proof {
            assert(r@ =~= field_ref_text(*f, qualify));
        }
        r
    } else {
        let mut r = String::new();
        r.append(f.column.as_str());
        proof {
            assert(r@ =~= field_ref_text(*f, qualify));
        }
        r
    }
}

impl Cond {
    /// Renders the condition's query text.
    pub fn render(&self, qualify: bool) -> (r: String)
        ensures
            r@ == cond_text(*self, qualify),
        decreases *self,
    {
        match self {
            Cond::Cmp { left, op, right } => {
                let mut r = String::from_str("(");
                let left_text = field_ref_render(left, qualify);
                r.append(left_text.as_str());
                r.append(") ");
                let op_str = cmp_op_render(op);
                r.append(op_str.as_str());
                r.append(" (");
                match right {
                    ValueOrFieldRef::Value(v) => {
                        let value = v.render();
                        r.append(value.as_str());
                    },
                    ValueOrFieldRef::FieldRef(f) => {
                        let fr = field_ref_render(f, qualify);
                        r.append(fr.as_str());
                    },
                }
                r.append(")");
                proof {
                    assert(r@ =~= cond_text(*self, qualify));
                }
                r
            },
            Cond::IsNull(f) => {
                let mut r = field_ref_render(f, qualify);
                r.append(" IS NULL");
                r
            },
            Cond::IsNotNull(f) => {
                let mut r = field_ref_render(f, qualify);
                r.append(" IS NOT NULL");
                r
            },
            Cond::And(a, b) => {
                let mut r = String::from_str("(");
                let a_text = a.render(qualify);
                r.append(a_text.as_str());
                r.append(") AND (");
                let b_text = b.render(qualify);
                r.append(b_text.as_str());
                r.append(")");
                proof {
                    assert(r@ =~= cond_text(*self, qualify));
                }
                r
            },
            Cond::Or(a, b) => {
                let mut r = String::from_str("(");
                let a_text = a.render(qualify);
                r.append(a_text.as_str());
                r.append(") OR (");
                let b_text = b.render(qualify);
                r.append(b_text.as_str());
                r.append(")");
                proof {
                    assert(r@ =~= cond_text(*self, qualify));
                }
                r
            },
        }
    }
}

/// A condition usable in a query's filters; comparisons are only
/// granted to operands compatible with the left-hand field, checked
/// when the condition is built.
#[derive(Debug, PartialEq, Eq)]
pub struct Sql {
    pub cond: Cond,
}

impl Sql {
    fn cmp(left: &Field, op: CmpOp, right: Operand) -> (r: Result<Sql, QueryError>)
        ensures
            compatible(*left, right) ==> (r matches Ok(s) && s.cond == (Cond::Cmp {
                left: field_ref_spec(*left),
                op: op,
                right: lower_operand(right),
            })),
            !compatible(*left, right) ==> r == Err::<Sql, QueryError>(QueryError::TypeMismatch),
    {
        let rk = right.kind();
        if !kind_eq(&left.kind, &rk) {
            return Err(QueryError::TypeMismatch);
        }
        Ok(Sql { cond: Cond::Cmp { left: left.field_ref(), op, right: right.lower() } })
    }

    /// Equality condition; the right-hand operand must carry the
    /// field's value kind.
    pub fn eq(left: &Field, right: Operand) -> (r: Result<Sql, QueryError>)
        ensures
            compatible(*left, right) ==> (r matches Ok(s) && s.cond == (Cond::Cmp {
                left: field_ref_spec(*left),
                op: CmpOp::Eq,
                right: lower_operand(right),
            })),
            !compatible(*left, right) ==> r == Err::<Sql, QueryError>(QueryError::TypeMismatch),
    {
        Self::cmp(left, CmpOp::Eq, right)
    }

    /// Inequality condition.
    pub fn ne(left: &Field, right: Operand) -> (r: Result<Sql, QueryError>)
        ensures
            compatible(*left, right) ==> (r matches Ok(s) && s.cond == (Cond::Cmp {
                left: field_ref_spec(*left),
                op: CmpOp::Ne,
                right: lower_operand(right),
            })),
            !compatible(*left, right) ==> r == Err::<Sql, QueryError>(QueryError::TypeMismatch),
    {
        Self::cmp(left, CmpOp::Ne, right)
    }

    /// Greater-than condition.
    pub fn gt(left: &Field, right: Operand) -> (r: Result<Sql, QueryError>)
        ensures
            compatible(*left, right) ==> (r matches Ok(s) && s.cond == (Cond::Cmp {
                left: field_ref_spec(*left),
                op: CmpOp::Gt,
                right: lower_operand(right),
            })),
            !compatible(*left, right) ==> r == Err::<Sql, QueryError>(QueryError::TypeMismatch),
    {
        Self::cmp(left, CmpOp::Gt, right)
    }

    /// Greater-or-equal condition.
    pub fn gte(left: &Field, right: Operand) -> (r: Result<Sql, QueryError>)
        ensures
            compatible(*left, right) ==> (r matches Ok(s) && s.cond == (Cond::Cmp {
                left: field_ref_spec(*left),
                op: CmpOp::Ge,
                right: lower_operand(right),
            })),
            !compatible(*left, right) ==> r == Err::<Sql, QueryError>(QueryError::TypeMismatch),
    {
        Self::cmp(left, CmpOp::Ge, right)
    }

    /// Less-than condition.
    pub fn lt(left: &Field, right: Operand) -> (r: Result<Sql, QueryError>)
        ensures
            compatible(*left, right) ==> (r matches Ok(s) && s.cond == (Cond::Cmp {
                left: field_ref_spec(*left),
                op: CmpOp::Lt,
                right: lower_operand(right),
            })),
            !compatible(*left, right) ==> r == Err::<Sql, QueryError>(QueryError::TypeMismatch),
    {
        Self::cmp(left, CmpOp::Lt, right)
    }

    /// Less-or-equal condition.
    pub fn lte(left: &Field, right: Operand) -> (r: Result<Sql, QueryError>)
        ensures
            compatible(*left, right) ==> (r matches Ok(s) && s.cond == (Cond::Cmp {
                left: field_ref_spec(*left),
                op: CmpOp::Le,
                right: lower_operand(right),
            })),
            !compatible(*left, right) ==> r == Err::<Sql, QueryError>(QueryError::TypeMismatch),
    {
        Self::cmp(left, CmpOp::Le, right)
    }

    /// IS condition against a literal value.
    pub fn is(left: &Field, right: Value) -> (r: Result<Sql, QueryError>)
        ensures
            compatible(*left, Operand::Value(right)) ==> (r matches Ok(s) && s.cond == (Cond::Cmp {
                left: field_ref_spec(*left),
                op: CmpOp::Is,
                right: ValueOrFieldRef::Value(right),
            })),
            !compatible(*left, Operand::Value(right)) ==> r == Err::<Sql, QueryError>(
                QueryError::TypeMismatch,
            ),
    {
        Self::cmp(left, CmpOp::Is, Operand::Value(right))
    }

    /// IS NOT condition against a literal value.
    pub fn is_not(left: &Field, right: Value) -> (r: Result<Sql, QueryError>)
        ensures
            compatible(*left, Operand::Value(right)) ==> (r matches Ok(s) && s.cond == (Cond::Cmp {
                left: field_ref_spec(*left),
                op: CmpOp::IsNot,
                right: ValueOrFieldRef::Value(right),
            })),
            !compatible(*left, Operand::Value(right)) ==> r == Err::<Sql, QueryError>(
                QueryError::TypeMismatch,
            ),
    {
        Self::cmp(left, CmpOp::IsNot, Operand::Value(right))
    }

    /// Null check of a field.
    pub fn is_null(col: &Field) -> (r: Sql)
        ensures
            r.cond == Cond::IsNull(field_ref_spec(*col)),
    {
        Sql { cond: Cond::IsNull(col.field_ref()) }
    }

    /// Non-null check of a field.
    pub fn is_not_null(col: &Field) -> (r: Sql)
        ensures
            r.cond == Cond::IsNotNull(field_ref_spec(*col)),
    {
        Sql { cond: Cond::IsNotNull(col.field_ref()) }
    }

    /// Both conditions hold.
    pub fn and(self, rhs: Sql) -> (r: Sql)
        ensures
            r.cond == Cond::And(Box::new(self.cond), Box::new(rhs.cond)),
    {
        Sql { cond: Cond::And(Box::new(self.cond), Box::new(rhs.cond)) }
    }

    /// At least one condition holds.
    pub fn or(self, rhs: Sql) -> (r: Sql)
        ensures
            r.cond == Cond::Or(Box::new(self.cond), Box::new(rhs.cond)),
    {
        Sql { cond: Cond::Or(Box::new(self.cond), Box::new(rhs.cond)) }
    }
}

/// A query built incrementally: the tables in scope (growable by
/// composition), the selected columns, the accumulated filter
/// conditions, and an optional row limit.
#[derive(Debug, PartialEq, Eq)]
pub struct SqlQuery {
    pub tables: Vec<String>,
    pub columns: Vec<FieldRef>,
    pub conditions: Vec<Cond>,
    pub limit: Option<u64>,
}

/// The selected columns' query text, comma-separated, in selection
/// order.
pub open spec fn columns_text(cols: Seq<FieldRef>, n: int, qualify: bool) -> Seq<char>
    decreases n,
{
    if n <= 0 {
        Seq::empty()
    } else if n == 1 {
        field_ref_text(cols[0], qualify)
    } else {
        columns_text(cols, n - 1, qualify) + ", "@ + field_ref_text(cols[n - 1], qualify)
    }
}

/// The table list's query text, comma-separated, in composition
/// order.
pub open spec fn tables_text(tables: Seq<String>, n: int) -> Seq<char>
    decreases n,
{
    if n <= 0 {
        Seq::empty()
    } else if n == 1 {
        tables[0]@
    } else {
        tables_text(tables, n - 1) + ", "@ + tables[n - 1]@
    }
}

/// The accumulated filters' query text: each later filter is appended
/// as another top-level AND operand.
pub open spec fn conditions_text(conds: Seq<Cond>, n: int, qualify: bool) -> Seq<char>
    decreases n,
{
    if n <= 0 {
        Seq::empty()
    } else if n == 1 {
        cond_text(conds[0], qualify)
    } else {
        "("@ + conditions_text(conds, n - 1, qualify) + ") AND ("@ + cond_text(
            conds[n - 1],
            qualify,
        ) + ")"@
    }
}

/// The whole query's text: the selected columns, the tables, the
/// filters after WHERE when any, and the row limit when one is set.
/// Field references are table-qualified exactly when more than one
/// table is in scope.
pub open spec fn sql_query_text(q: SqlQuery) -> Seq<char> {
    let qualify = q.tables@.len() > 1;
    "SELECT "@ + columns_text(q.columns@, q.columns@.len() as int, qualify) + " FROM "@
        + tables_text(q.tables@, q.tables@.len() as int) + (if q.conditions@.len() > 0 {
        " WHERE "@ + conditions_text(q.conditions@, q.conditions@.len() as int, qualify)
    } else {
        Seq::<char>::empty()
    }) + (match q.limit {
        Some(n) => " LIMIT "@ + dec_nat(n as int),
        None => Seq::<char>::empty(),
    })
}

impl SqlQuery {
    /// A query over one table, with nothing selected, no filter and no
    /// limit yet.
    pub fn new(table: String) -> (r: SqlQuery)
        ensures
            r.tables@ =~= seq![table],
            r.columns@ =~= Seq::<FieldRef>::empty(),
            r.conditions@ =~= Seq::<Cond>::empty(),
            r.limit is None,
    {
        let mut tables: Vec<String> = Vec::new();
        tables.push(table);
        SqlQuery { tables, columns: Vec::new(), conditions: Vec::new(), limit: None }
    }

    /// Selects the given fields, appended in order to the columns
    /// already selected.
    pub fn select(self, columns: Vec<Field>) -> (r: SqlQuery)
        ensures
            r.tables == self.tables,
            r.conditions == self.conditions,
            r.limit == self.limit,
            r.columns@.len() == self.columns@.len() + columns@.len(),
            forall|i: int| 0 <= i < self.columns@.len() ==> r.columns@[i] == self.columns@[i],
            forall|i: int|
                0 <= i < columns@.len() ==> r.columns@[self.columns@.len() + i] == field_ref_spec(
                    columns@[i],
                ),
    {
        let mut q = self;
        let ghost orig = q;
        let mut i: usize = 0;
        while i < columns.len()
            invariant
                i <= columns@.len(),
                q.tables == orig.tables,
                q.conditions == orig.conditions,
                q.limit == orig.limit,
                q.columns@.len() == orig.columns@.len() + i,
                forall|j: int| 0 <= j < orig.columns@.len() ==> q.columns@[j] == orig.columns@[j],
                forall|j: int|
                    0 <= j < i ==> q.columns@[orig.columns@.len() + j] == field_ref_spec(
                        columns@[j],
                    ),
            decreases columns@.len() - i,
        {
            let fr = columns[i].field_ref();
            q.columns.push(fr);
            i += 1;
        }
        q
    }

    /// Adds one filter; filters accumulate and render as top-level AND
    /// operands.
    pub fn filter(self, condition: Sql) -> (r: SqlQuery)
        ensures
            r.tables == self.tables,
            r.columns == self.columns,
            r.limit == self.limit,
            r.conditions@ == self.conditions@.push(condition.cond),
    {
        let mut q = self;
        q.conditions.push(condition.cond);
        q
    }

    /// Caps the number of rows returned.
    pub fn limit(self, limit: u64) -> (r: SqlQuery)
        ensures
            r.tables == self.tables,
            r.columns == self.columns,
            r.conditions == self.conditions,
            r.limit == Some(limit),
    {
        let mut q = self;
        q.limit = Some(limit);
        q
    }

    /// Brings one more table into scope, after those already in scope:
    /// the rendered table list keeps composition order.
    pub fn from(self, table: String) -> (r: SqlQuery)
        ensures
            r.tables@ == self.tables@.push(table),
            r.columns == self.columns,
            r.conditions == self.conditions,
            r.limit == self.limit,
    {
        let mut q = self;
        q.tables.push(table);
        q
    }

    /// Composes one more table into scope, exactly as `from` does: no
    /// join predicate or join kind is encoded; tables relate only
    /// through filter conditions.
    pub fn join(self, table: String) -> (r: SqlQuery)
        ensures
            r.tables@ == self.tables@.push(table),
            r.columns == self.columns,
            r.conditions == self.conditions,
            r.limit == self.limit,
    {
        let mut q = self;
        q.tables.push(table);
        q
    }

    /// Renders the whole query: selected columns, then the tables in
    /// composition order, then the filters, then the limit. Columns
    /// render in selection order, qualified by their table exactly
    /// when more than one table is in scope.
    pub fn to_text(&self) -> (r: String)
        ensures
            r@ == sql_query_text(*self),
    {
        let qualify = self.tables.len() > 1;
        let mut r = String::from_str("SELECT ");
        let ghost head = r@;
        let mut i: usize = 0;
        while i < self.columns.len()
            invariant
                i <= self.columns@.len(),
                qualify == (self.tables@.len() > 1),
                head == "SELECT "@,
                r@ == head + columns_text(self.columns@, i as int, qualify),
            decreases self.columns@.len() - i,
        {
            if i > 0 {
                r.append(", ");
            }
            let col = field_ref_render(&self.columns[i], qualify);
            r.append(col.as_str());
            proof {
                assert(r@ =~= head + columns_text(self.columns@, i + 1, qualify));
            }
            i += 1;
        }
        r.append(" FROM ");
        let ghost mid = r@;
        let mut i: usize = 0;
        while i < self.tables.len()
            invariant
                i <= self.tables@.len(),
                mid == "SELECT "@ + columns_text(
                    self.columns@,
                    self.columns@.len() as int,
                    self.tables@.len() > 1,
                ) + " FROM "@,
                r@ == mid + tables_text(self.tables@, i as int),
            decreases self.tables@.len() - i,
        {
            if i > 0 {
                r.append(", ");
            }
            r.append(self.tables[i].as_str());
            proof {
                assert(r@ =~= mid + tables_text(self.tables@, i + 1));
            }
            i += 1;
        }
        if self.conditions.len() > 0 {
            r.append(" WHERE ");
            let ghost before = r@;
            let first = self.conditions[0].render(qualify);
            let mut acc = first;
            let mut i: usize = 1;
            while i < self.conditions.len()
                invariant
                    1 <= i <= self.conditions@.len(),
                    self.conditions@.len() > 0,
                    qualify == (self.tables@.len() > 1),
                    acc@ == conditions_text(self.conditions@, i as int, qualify),
                decreases self.conditions@.len() - i,
            {
                let mut next = String::from_str("(");
                next.append(acc.as_str());
                next.append(") AND (");
                let cond = self.conditions[i].render(qualify);
                next.append(cond.as_str());
                next.append(")");
                proof {
                    assert(next@ =~= conditions_text(self.conditions@, i + 1, qualify));
                }
                acc = next;
                i += 1;
            }
            r.append(acc.as_str());
            proof {
                assert(r@ == before + conditions_text(
                    self.conditions@,
                    self.conditions@.len() as int,
                    qualify,
                ));
            }
        }
        match &self.limit {
            Some(n) => {
                r.append(" LIMIT ");
                let num = u64_to_string(*n);
                r.append(num.as_str());
            },
            None => {},
        }
        proof {
            assert(r@ =~= sql_query_text(*self));
        }
        r
    }
}

/// Order-preservation law for rendered columns: appending one more
/// selected column appends exactly its reference text (after a comma
/// separator) to the rendered column list, so columns always render in
/// selection order, which is table-declaration order when a table's
/// columns are selected in declaration order.
pub proof fn lemma_columns_render_in_order(cols: Seq<FieldRef>, f: FieldRef, qualify: bool)
    ensures
        cols.len() == 0 ==> columns_text(cols.push(f), cols.len() as int + 1, qualify)
            == field_ref_text(f, qualify),
        cols.len() > 0 ==> columns_text(cols.push(f), cols.len() as int + 1, qualify)
            == columns_text(
            cols,
            cols.len() as int,
            qualify,
        ) + ", "@ + field_ref_text(f, qualify),
{
    lemma_columns_text_prefix(cols.push(f), cols, cols.len() as int, qualify);
}

/// Rendering a column list only reads the entries below the rendered
/// length, so a longer list renders its prefix identically.
proof fn lemma_columns_text_prefix(a: Seq<FieldRef>, b: Seq<FieldRef>, n: int, qualify: bool)
    requires
        n <= a.len(),
        n <= b.len(),
        forall|i: int| 0 <= i < n ==> a[i] == b[i],
    ensures
        columns_text(a, n, qualify) == columns_text(b, n, qualify),
    decreases n,
{
    if n > 1 {
        lemma_columns_text_prefix(a, b, n - 1, qualify);
    }
}


/// Composition-order law for the table list: bringing one more table
/// into scope appends exactly its name (after a comma separator) to
/// the rendered FROM clause, so composed tables always render in
/// composition order.
pub proof fn lemma_tables_render_in_order(tables: Seq<String>, t: String)
    ensures
        tables.len() == 0 ==> tables_text(tables.push(t), tables.len() as int + 1) == t@,
        tables.len() > 0 ==> tables_text(tables.push(t), tables.len() as int + 1) == tables_text(
            tables,
            tables.len() as int,
        ) + ", "@ + t@,
{
    lemma_tables_text_prefix(tables.push(t), tables, tables.len() as int);
}

/// Rendering a table list only reads the entries below the rendered
/// length, so a longer list renders its prefix identically.
proof fn lemma_tables_text_prefix(a: Seq<String>, b: Seq<String>, n: int)
    requires
        n <= a.len(),
        n <= b.len(),
        forall|i: int| 0 <= i < n ==> a[i] == b[i],
    ensures
        tables_text(a, n) == tables_text(b, n),
    decreases n,
{
    if n > 1 {
        lemma_tables_text_prefix(a, b, n - 1);
    }
}

} // verus!
