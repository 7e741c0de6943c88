use vstd::prelude::*;

use core::marker::PhantomData;

use crate::quote::{quote_text, quoted_text};
use crate::strutil::{dec_int, i32_to_string, i64_to_string};

verus! {

/// An expression of the query algebra: anything that renders to a
/// query-text fragment. `Datatype` is the logical value type the
/// expression evaluates to; it exists only at the type level and
/// constrains which expressions may be combined, so that
/// type-incompatible comparisons are rejected at compile time.
pub trait Expr {
    type Datatype;

    /// The query-text fragment this expression renders to.
    spec fn sql_spec(&self) -> Seq<char>;

    /// Renders the expression to its query-text fragment.
    fn to_sql(&self) -> (r: String)
        ensures
            r@ == self.sql_spec(),
    ;
}

impl Expr for bool {
    type Datatype = bool;

    open spec fn sql_spec(&self) -> Seq<char> {
        if *self {
            "TRUE"@
        } else {
            "FALSE"@
        }
    }

    fn to_sql(&self) -> (r: String) {
        if *self {
            String::from_str("TRUE")
        } else {
            String::from_str("FALSE")
        }
    }
}

impl Expr for i32 {
    type Datatype = i32;

    open spec fn sql_spec(&self) -> Seq<char> {
        dec_int(*self as int)
    }

    fn to_sql(&self) -> (r: String) {
        i32_to_string(*self)
    }
}

impl Expr for i64 {
    type Datatype = i64;

    open spec fn sql_spec(&self) -> Seq<char> {
        dec_int(*self as int)
    }

    fn to_sql(&self) -> (r: String) {
        i64_to_string(*self)
    }
}

impl Expr for String {
    type Datatype = String;

    open spec fn sql_spec(&self) -> Seq<char> {
        quoted_text(self@)
    }

    fn to_sql(&self) -> (r: String) {
        quote_text(self.as_str())
    }
}

/// Either a reference to a table's column or a literal expression;
/// the two operand forms of a comparison.
#[verifier::reject_recursive_types(T)]
pub enum Either<T, E> where E: Expr<Datatype = T> {
    Column { table: String, name: String, phantom: PhantomData<T> },
    Expression { expr: E },
}

impl<T, E> Either<T, E> where E: Expr<Datatype = T> {
    /// A reference to a column of a table.
    pub fn column(table: String, name: String) -> (r: Self)
        ensures
            (r matches Either::Column { table: t, name: n, .. } && t == table && n == name),
    {
        Either::Column { table, name, phantom: PhantomData }
    }

    /// A literal expression operand.
    pub fn expr(expr: E) -> (r: Self)
        ensures
            (r matches Either::Expression { expr: e } && e == expr),
    {
        Either::Expression { expr }
    }
}

impl<T, E> Expr for Either<T, E> where E: Expr<Datatype = T> {
    type Datatype = T;

    open spec fn sql_spec(&self) -> Seq<char> {
        match self {
            Either::Column { table, name, .. } => table@ + "."@ + name@,
            Either::Expression { expr } => expr.sql_spec(),
        }
    }

    fn to_sql(&self) -> (r: String) {
        match self {
            Either::Column { table, name, .. } => {
                let mut r = String::new();
                r.append(table.as_str());
                r.append(".");
                r.append(name.as_str());
                proof {
                    assert(r@ =~= self.sql_spec());
                }
                r
            },
            Either::Expression { expr } => expr.to_sql(),
        }
    }
}

/// The conjunction of two boolean expressions.
pub struct AndExpression<A, B> where A: Expr<Datatype = bool>, B: Expr<Datatype = bool> {
    pub left: A,
    pub right: B,
}

impl<A, B> Expr for AndExpression<A, B> where A: Expr<Datatype = bool>, B: Expr<Datatype = bool> {
    type Datatype = bool;

    open spec fn sql_spec(&self) -> Seq<char> {
        "("@ + self.left.sql_spec() + ") AND ("@ + self.right.sql_spec() + ")"@
    }

    fn to_sql(&self) -> (r: String) {
        let mut r = String::from_str("(");
        let left = self.left.to_sql();
        r.append(left.as_str());
        r.append(") AND (");
        let right = self.right.to_sql();
        r.append(right.as_str());
        r.append(")");
        proof {
            assert(r@ =~= self.sql_spec());
        }
        r
    }
}

/// The disjunction of two boolean expressions.
pub struct OrExpression<A, B> where A: Expr<Datatype = bool>, B: Expr<Datatype = bool> {
    pub left: A,
    pub right: B,
}

impl<A, B> Expr for OrExpression<A, B> where A: Expr<Datatype = bool>, B: Expr<Datatype = bool> {
    type Datatype = bool;

    open spec fn sql_spec(&self) -> Seq<char> {
        "("@ + self.left.sql_spec() + ") OR ("@ + self.right.sql_spec() + ")"@
    }

    fn to_sql(&self) -> (r: String) {
        let mut r = String::from_str("(");
        let left = self.left.to_sql();
        r.append(left.as_str());
        r.append(") OR (");
        let right = self.right.to_sql();
        r.append(right.as_str());
        r.append(")");
        proof {
            assert(r@ =~= self.sql_spec());
        }
        r
    }
}

/// The negation of a boolean expression.
pub struct NotExpression<T> where T: Expr<Datatype = bool> {
    pub expr: T,
}

impl<T> Expr for NotExpression<T> where T: Expr<Datatype = bool> {
    type Datatype = bool;

    open spec fn sql_spec(&self) -> Seq<char> {
        "NOT ("@ + self.expr.sql_spec() + ")"@
    }

    fn to_sql(&self) -> (r: String) {
        let mut r = String::from_str("NOT (");
        let inner = self.expr.to_sql();
        r.append(inner.as_str());
        r.append(")");
        proof {
            assert(r@ =~= self.sql_spec());
        }
        r
    }
}

/// The comparison operators of the algebra.
#[derive(Debug, PartialEq, Eq, Clone, Copy)]
pub enum Operator {
    LessThan,
    GreaterThan,
    LessThanOrEqualTo,
    GreaterThanOrEqualTo,
    Equal,
    NotEqual,
}

/// The query text of a comparison operator.
pub open spec fn op_text(op: Operator) -> Seq<char> {
    match op {
        Operator::LessThan => "<"@,
        Operator::GreaterThan => ">"@,
        Operator::LessThanOrEqualTo => "<="@,
        Operator::GreaterThanOrEqualTo => ">="@,
        Operator::Equal => "="@,
        Operator::NotEqual => "!="@,
    }
}

impl Operator {
    /// Renders the operator's query text.
    pub fn render(&self) -> (r: String)
        ensures
            r@ == op_text(*self),
    {
        match self {
            Operator::LessThan => String::from_str("<"),
            Operator::GreaterThan => String::from_str(">"),
            Operator::LessThanOrEqualTo => String::from_str("<="),
            Operator::GreaterThanOrEqualTo => String::from_str(">="),
            Operator::Equal => String::from_str("="),
            Operator::NotEqual => String::from_str("!="),
        }
    }
}

/// A comparison of two operands of one logical value type; the shared
/// type parameter rejects type-incompatible comparisons statically.
#[verifier::reject_recursive_types(T)]
pub struct ComparisonExpression<T, L, R> where L: Expr<Datatype = T>, R: Expr<Datatype = T> {
    pub left: Either<T, L>,
    pub right: Either<T, R>,
    pub op: Operator,
}

impl<T, L, R> Expr for ComparisonExpression<T, L, R> where
    L: Expr<Datatype = T>,
    R: Expr<Datatype = T>,
 {
    type Datatype = bool;

    open spec fn sql_spec(&self) -> Seq<char> {
        "("@ + self.left.sql_spec() + ") "@ + op_text(self.op) + " ("@ + self.right.sql_spec()
            + ")"@
    }

    fn to_sql(&self) -> (r: String) {
        let mut r = String::from_str("(");
        let left = self.left.to_sql();
        r.append(left.as_str());
        r.append(") ");
        let op = self.op.render();
        r.append(op.as_str());
        r.append(" (");
        let right = self.right.to_sql();
        r.append(right.as_str());
        r.append(")");
        proof {
            assert(r@ =~= self.sql_spec());
        }
        r
    }
}

/// The condition combinators of the algebra.
pub struct Where;

impl Where {
    /// Both conditions hold.
    pub fn and<L, R>(left: L, right: R) -> (r: AndExpression<L, R>) where
        L: Expr<Datatype = bool>,
        R: Expr<Datatype = bool>,

        ensures
            r.left == left,
            r.right == right,
    {
        AndExpression { left, right }
    }

    /// At least one condition holds.
    pub fn or<L, R>(left: L, right: R) -> (r: OrExpression<L, R>) where
        L: Expr<Datatype = bool>,
        R: Expr<Datatype = bool>,

        ensures
            r.left == left,
            r.right == right,
    {
        OrExpression { left, right }
    }

    /// The condition does not hold.
    pub fn not<T>(expr: T) -> (r: NotExpression<T>) where T: Expr<Datatype = bool>
        ensures
            r.expr == expr,
    {
        NotExpression { expr }
    }

    /// Less-than comparison of two compatible operands.
    pub fn lt<T, L, R>(left: Either<T, L>, right: Either<T, R>) -> (r: ComparisonExpression<
        T,
        L,
        R,
    >) where L: Expr<Datatype = T>, R: Expr<Datatype = T>
        ensures
            r.left == left,
            r.right == right,
            r.op == Operator::LessThan,
    {
        ComparisonExpression { left, right, op: Operator::LessThan }
    }

    /// Greater-than comparison of two compatible operands.
    pub fn gt<T, L, R>(left: Either<T, L>, right: Either<T, R>) -> (r: ComparisonExpression<
        T,
        L,
        R,
    >) where L: Expr<Datatype = T>, R: Expr<Datatype = T>
        ensures
            r.left == left,
            r.right == right,
            r.op == Operator::GreaterThan,
    {
        ComparisonExpression { left, right, op: Operator::GreaterThan }
    }

    /// Less-than-or-equal comparison of two compatible operands.
    pub fn lte<T, L, R>(left: Either<T, L>, right: Either<T, R>) -> (r: ComparisonExpression<
        T,
        L,
        R,
    >) where L: Expr<Datatype = T>, R: Expr<Datatype = T>
        ensures
            r.left == left,
            r.right == right,
            r.op == Operator::LessThanOrEqualTo,
    {
        ComparisonExpression { left, right, op: Operator::LessThanOrEqualTo }
    }

    /// Greater-than-or-equal comparison of two compatible operands.
    pub fn gte<T, L, R>(left: Either<T, L>, right: Either<T, R>) -> (r: ComparisonExpression<
        T,
        L,
        R,
    >) where L: Expr<Datatype = T>, R: Expr<Datatype = T>
        ensures
            r.left == left,
            r.right == right,
            r.op == Operator::GreaterThanOrEqualTo,
    {
        ComparisonExpression { left, right, op: Operator::GreaterThanOrEqualTo }
    }

    /// Equality comparison of two compatible operands.
    pub fn eq<T, L, R>(left: Either<T, L>, right: Either<T, R>) -> (r: ComparisonExpression<
        T,
        L,
        R,
    >) where L: Expr<Datatype = T>, R: Expr<Datatype = T>
        ensures
            r.left == left,
            r.right == right,
            r.op == Operator::Equal,
    {
        ComparisonExpression { left, right, op: Operator::Equal }
    }

    /// Inequality comparison of two compatible operands.
    pub fn neq<T, L, R>(left: Either<T, L>, right: Either<T, R>) -> (r: ComparisonExpression<
        T,
        L,
        R,
    >) where L: Expr<Datatype = T>, R: Expr<Datatype = T>
        ensures
            r.left == left,
            r.right == right,
            r.op == Operator::NotEqual,
    {
        ComparisonExpression { left, right, op: Operator::NotEqual }
    }

    /// A reference to a column of a table, as an operand.
    pub fn column<T>(table: String, name: String) -> (r: Either<T, T>) where
        T: Expr<Datatype = T>,

        ensures
            (r matches Either::Column { table: t, name: n, .. } && t == table && n == name),
    {
        Either::Column { table, name, phantom: PhantomData }
    }

    /// A literal expression, as an operand.
    pub fn expr<T, E>(expr: E) -> (r: Either<T, E>) where E: Expr<Datatype = T>
        ensures
            (r matches Either::Expression { expr: e } && e == expr),
    {
        Either::Expression { expr }
    }
}

/// A single-table query: the selected column names, the table, and an
/// optional boolean filter expression.
pub struct Query<E> where E: Expr<Datatype = bool> {
    pub _prepare: bool,
    pub columns: Vec<String>,
    pub table: String,
    pub expression: Option<E>,
    pub _order_by: Option<String>,
}

/// The selected columns rendered in declaration order, each qualified
/// by the table name and separated by commas.
pub open spec fn query_columns_text(table: Seq<char>, cols: Seq<String>, n: int) -> Seq<char>
    decreases n,
{
    if n <= 0 {
        Seq::empty()
    } else if n == 1 {
        table + "."@ + cols[0]@
    } else {
        query_columns_text(table, cols, n - 1) + ", "@ + table + "."@ + cols[n - 1]@
    }
}

/// The query text a query renders to: the qualified columns, the
/// table, and the filter expression after a WHERE marker when one is
/// present.
pub open spec fn query_text<E: Expr<Datatype = bool>>(q: Query<E>) -> Seq<char> {
    "SELECT "@ + query_columns_text(q.table@, q.columns@, q.columns@.len() as int) + " FROM "@
        + q.table@ + " "@ + (match q.expression {
        Some(e) => "WHERE "@ + e.sql_spec(),
        None => " "@,
    })
}

impl<E> Query<E> where E: Expr<Datatype = bool> {
    /// A query over the given table, selecting the given columns,
    /// filtered by the given expression if any.
    pub fn new(_prepare: bool, columns: Vec<String>, table: String, expression: Option<E>) -> (r:
        Query<E>)
        ensures
            r._prepare == _prepare,
            r.columns == columns,
            r.table == table,
            r.expression == expression,
            r._order_by is None,
    {
        Query { _prepare, columns, table, expression, _order_by: None }
    }

    /// Renders the whole query: the columns in declaration order, each
    /// qualified by the table name, then the table, then the filter
    /// expression when one is present.
    pub fn to_string(&self) -> (r: String)
        ensures
            r@ == query_text(*self),
    {
        let mut r = String::from_str("SELECT ");
        let ghost head = r@;
        let mut i: usize = 0;
        while i < self.columns.len()
            invariant
                i <= self.columns@.len(),
                head == "SELECT "@,
                r@ == head + query_columns_text(self.table@, self.columns@, i as int),
            decreases self.columns@.len() - i,
        {
            if i > 0 {
                r.append(", ");
            }
            r.append(self.table.as_str());
            r.append(".");
            r.append(self.columns[i].as_str());
            proof {
                assert(r@ =~= head + query_columns_text(self.table@, self.columns@, i + 1));
            }
            i += 1;
        }
        r.append(" FROM ");
        r.append(self.table.as_str());
        r.append(" ");
        match &self.expression {
            Some(e) => {
                r.append("WHERE ");
                let expr = e.to_sql();
                r.append(expr.as_str());
            },
            None => {
                r.append(" ");
            },
        }
        proof {
            assert(r@ =~= query_text(*self));
        }
        r
    }
}

} // verus!
