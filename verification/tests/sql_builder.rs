use instant_models::{Field, Operand, QueryError, ScalarType, Sql, SqlQuery, Value};

fn field(table: &str, column: &str, kind: ScalarType, nullable: bool) -> Field {
    Field::new(table.to_owned(), column.to_owned(), kind, nullable)
}

fn accounts_user_id() -> Field {
    field("accounts", "user_id", ScalarType::Int4, false)
}

fn accounts_username() -> Field {
    field("accounts", "username", ScalarType::Text, false)
}

fn accounts_email() -> Field {
    field("accounts", "email", ScalarType::Text, true)
}

#[test]
fn single_table_select_with_null_check() {
    // accounts(user_id int pk, username text unique, email text null):
    // in single-table mode fields render as bare column names.
    let query = SqlQuery::new("accounts".into())
        .select(vec![accounts_user_id(), accounts_username()])
        .filter(Sql::is_null(&accounts_email()));
    assert_eq!(
        query.to_text(),
        "SELECT user_id, username FROM accounts WHERE email IS NULL"
    );
}

#[test]
fn chained_filters_accumulate_as_top_level_ands() {
    let query = SqlQuery::new("accounts".into())
        .select(vec![accounts_user_id(), accounts_username()])
        .filter(Sql::gt(&accounts_user_id(), Operand::Value(Value::I32(1))).unwrap())
        .filter(Sql::is_null(&accounts_email()));
    assert_eq!(
        query.to_text(),
        "SELECT user_id, username FROM accounts WHERE ((user_id) > (1)) AND (email IS NULL)"
    );

    // One filter built with an explicit and() renders the same way.
    let combined = SqlQuery::new("accounts".into())
        .select(vec![accounts_user_id(), accounts_username()])
        .filter(
            Sql::gt(&accounts_user_id(), Operand::Value(Value::I32(1)))
                .unwrap()
                .and(Sql::is_null(&accounts_email())),
        );
    assert_eq!(
        combined.to_text(),
        "SELECT user_id, username FROM accounts WHERE ((user_id) > (1)) AND (email IS NULL)"
    );
}

#[test]
fn select_renders_columns_in_declaration_order() {
    let query = SqlQuery::new("accounts".into()).select(vec![
        accounts_user_id(),
        accounts_username(),
        accounts_email(),
    ]);
    assert_eq!(query.to_text(), "SELECT user_id, username, email FROM accounts");
}

#[test]
fn rendering_is_deterministic() {
    let build = || {
        SqlQuery::new("accounts".into())
            .select(vec![accounts_user_id(), accounts_username()])
            .filter(Sql::is_null(&accounts_email()))
            .limit(10)
            .to_text()
    };
    assert_eq!(build(), build());
}

#[test]
fn composed_tables_render_in_composition_order() {
    let access_user = field("access", "user", ScalarType::Int4, false);
    let query = SqlQuery::new("accounts".into())
        .from("access".into())
        .select(vec![accounts_user_id(), access_user]);
    // With more than one table in scope, fields render qualified.
    assert_eq!(
        query.to_text(),
        "SELECT accounts.user_id, access.user FROM accounts, access"
    );
}

#[test]
fn join_extends_the_table_list_like_from() {
    let query = SqlQuery::new("accounts".into()).join("access".into());
    assert_eq!(query.to_text(), "SELECT  FROM accounts, access");
}

#[test]
fn incompatible_operands_are_rejected() {
    // A text literal against an integer field.
    assert_eq!(
        Sql::eq(&accounts_user_id(), Operand::Value(Value::Text("x".into()))),
        Err(QueryError::TypeMismatch)
    );
    // No implicit widening between integer widths.
    assert_eq!(
        Sql::eq(&accounts_user_id(), Operand::Value(Value::I64(1))),
        Err(QueryError::TypeMismatch)
    );
    // Nullable and non-nullable sides of one kind are cross-compatible.
    assert!(Sql::eq(&accounts_email(), Operand::Field(accounts_username())).is_ok());
}

#[test]
fn is_conditions_render_against_literals() {
    let active = field("accounts", "active", ScalarType::Bool, false);
    let query = SqlQuery::new("accounts".into())
        .select(vec![accounts_user_id()])
        .filter(Sql::is(&active, Value::Bool(true)).unwrap());
    assert_eq!(
        query.to_text(),
        "SELECT user_id FROM accounts WHERE (active) IS (TRUE)"
    );

    let negated = SqlQuery::new("accounts".into())
        .select(vec![accounts_user_id()])
        .filter(Sql::is_not(&active, Value::Bool(false)).unwrap());
    assert_eq!(
        negated.to_text(),
        "SELECT user_id FROM accounts WHERE (active) IS NOT (FALSE)"
    );
}

#[test]
fn test_query_join() {
    let accounts_last_login = field("accounts", "last_login", ScalarType::Timestamp, true);
    let accounts_created_on = field("accounts", "created_on", ScalarType::Timestamp, false);
    let accounts_password = field("accounts", "password", ScalarType::Text, false);
    let accounts_email_field = field("accounts", "email", ScalarType::Text, false);
    let access_user = field("access", "user", ScalarType::Int4, false);
    let access_role = field("access", "role", ScalarType::Text, false);
    let examples_id = field("examples", "id", ScalarType::Int4, false);

    let user = "foo";
    let role = "DomainAdmin";
    let timestamp = "1970-01-01 00:00:00";

    let query = SqlQuery::new("accounts".into())
        .filter(
            Sql::eq(&accounts_username(), Operand::Value(Value::Text(user.into())))
                .unwrap()
                .and(Sql::is_not_null(&accounts_last_login).or(
                    Sql::ne(&accounts_created_on, Operand::Value(Value::Timestamp(
                        timestamp.into(),
                    )))
                    .unwrap(),
                )),
        )
        .from("access".into())
        .filter(
            Sql::eq(&accounts_user_id(), Operand::Field(access_user))
                .unwrap()
                .and(Sql::eq(&access_role, Operand::Value(Value::Text(role.into()))).unwrap()),
        )
        .from("examples".into())
        .filter(Sql::eq(&accounts_user_id(), Operand::Field(examples_id)).unwrap())
        .select(vec![
            accounts_user_id(),
            accounts_username(),
            accounts_password,
            accounts_email_field,
        ])
        .limit(1)
        .to_text();

    let quote = |s: &str| format!("$instantmodels${s}$instantmodels$");
    let c1 = format!(
        "((accounts.username) = ({})) AND ((accounts.last_login IS NOT NULL) OR ((accounts.created_on) <> ({})))",
        quote(user),
        quote(timestamp)
    );
    let c2 = format!(
        "((accounts.user_id) = (access.user)) AND ((access.role) = ({}))",
        quote(role)
    );
    let c3 = "(accounts.user_id) = (examples.id)";
    let expected = format!(
        "SELECT accounts.user_id, accounts.username, accounts.password, accounts.email \
         FROM accounts, access, examples WHERE (({c1}) AND ({c2})) AND ({c3}) LIMIT 1"
    );
    assert_eq!(query, expected);
}

#[test]
fn negative_literals_render_in_decimal() {
    let query = SqlQuery::new("accounts".into())
        .select(vec![accounts_user_id()])
        .filter(Sql::lt(&accounts_user_id(), Operand::Value(Value::I32(-5))).unwrap());
    assert_eq!(
        query.to_text(),
        "SELECT user_id FROM accounts WHERE (user_id) < (-5)"
    );

    let bounded = SqlQuery::new("accounts".into())
        .select(vec![accounts_user_id()])
        .filter(
            Sql::lte(&accounts_user_id(), Operand::Value(Value::I32(i32::MAX)))
                .unwrap()
                .and(Sql::gte(&accounts_user_id(), Operand::Value(Value::I32(i32::MIN))).unwrap()),
        );
    assert_eq!(
        bounded.to_text(),
        "SELECT user_id FROM accounts WHERE ((user_id) <= (2147483647)) AND ((user_id) >= (-2147483648))"
    );
}
