use instant_models::{Either, Expr, Operator, Query, Where};

#[test]
fn comparison_renders_fully_parenthesized() {
    let left: Either<i32, i32> = Either::column("accounts".into(), "user_id".into());
    let right: Either<i32, i32> = Either::expr(1);
    let cmp = Where::gt(left, right);
    assert_eq!(cmp.to_sql(), "(accounts.user_id) > (1)");
}

#[test]
fn boolean_composition_renders_fully_parenthesized() {
    assert_eq!(Where::and(true, false).to_sql(), "(TRUE) AND (FALSE)");
    assert_eq!(Where::or(false, true).to_sql(), "(FALSE) OR (TRUE)");
    assert_eq!(Where::not(Where::or(true, false)).to_sql(), "NOT ((TRUE) OR (FALSE))");
}

#[test]
fn operators_render_their_symbols() {
    assert_eq!(Operator::LessThan.render(), "<");
    assert_eq!(Operator::GreaterThan.render(), ">");
    assert_eq!(Operator::LessThanOrEqualTo.render(), "<=");
    assert_eq!(Operator::GreaterThanOrEqualTo.render(), ">=");
    assert_eq!(Operator::Equal.render(), "=");
    assert_eq!(Operator::NotEqual.render(), "!=");
}

#[test]
fn integer_literals_render_in_decimal() {
    assert_eq!(0i64.to_sql(), "0");
    assert_eq!((-42i32).to_sql(), "-42");
    assert_eq!(i64::MIN.to_sql(), "-9223372036854775808");
    assert_eq!(i64::MAX.to_sql(), "9223372036854775807");
}

#[test]
fn text_literals_render_between_delimiters() {
    let s: String = "foo".into();
    assert_eq!(s.to_sql(), "$instantmodels$foo$instantmodels$");
    let empty: String = "".into();
    assert_eq!(empty.to_sql(), "$instantmodels$$instantmodels$");
}

#[test]
fn delimiter_tag_extends_past_embedded_occurrences() {
    // The literal already contains the delimiter the seed would
    // produce, so the renderer must extend the tag until the pair can
    // no longer be confused with the literal's own content.
    let tricky: String = "payload $instantmodels$ inside".into();
    assert_eq!(
        tricky.to_sql(),
        "$instantmodelsinstantmodels$payload $instantmodels$ inside$instantmodelsinstantmodels$"
    );

    let trickier: String = "a $instantmodels$ b $instantmodelsinstantmodels$ c".into();
    assert_eq!(
        trickier.to_sql(),
        "$instantmodelsinstantmodelsinstantmodels$a $instantmodels$ b $instantmodelsinstantmodels$ c$instantmodelsinstantmodelsinstantmodels$"
    );
}

#[test]
fn query_renders_columns_in_declaration_order() {
    let left: Either<i32, i32> = Either::column("accounts".into(), "user_id".into());
    let right: Either<i32, i32> = Either::expr(1);
    let filter = Where::gt(left, right);
    let query = Query::new(
        false,
        vec!["user_id".into(), "username".into()],
        "accounts".into(),
        Some(filter),
    );
    assert_eq!(
        query.to_string(),
        "SELECT accounts.user_id, accounts.username FROM accounts WHERE (accounts.user_id) > (1)"
    );
}

#[test]
fn query_without_filter_renders_no_condition() {
    let query = Query::<bool>::new(false, vec!["user_id".into()], "accounts".into(), None);
    assert_eq!(query.to_string(), "SELECT accounts.user_id FROM accounts  ");
}

#[test]
fn text_comparison_against_a_column() {
    let left: Either<String, String> = Either::column("accounts".into(), "username".into());
    let right: Either<String, String> = Either::expr("admin".into());
    let cmp = Where::eq(left, right);
    assert_eq!(
        cmp.to_sql(),
        "(accounts.username) = ($instantmodels$admin$instantmodels$)"
    );
}
