use instant_models::{
    inline_column_type, nullable_flag, parse_constraint_kind, Column, ConstraintAction,
    ConstraintKind, ForeignKey, ForeignKeyRow, SchemaError, Table, Type,
};

fn fk_row(table: &str, column: &str) -> ForeignKeyRow {
    ForeignKeyRow { table_name: table.to_owned(), column_name: column.to_owned() }
}

#[test]
fn nullable_column_renders_with_optional_wrapper() {
    let mut column = Column::new("email".into(), Type::from_name("text").unwrap());
    assert_eq!(column.render(), "email: String");
    column.null = true;
    assert_eq!(column.render(), "email: Option<String>");
}

#[test]
fn snake_casing_is_applied_to_field_names() {
    let column = Column::new("UserId".into(), Type::from_name("integer").unwrap());
    assert_eq!(column.render(), "user_id: i32");
}

#[test]
fn new_field_wraps_nullable_or_defaulted_columns() {
    let mut column = Column::new("email".into(), Type::from_name("text").unwrap());
    assert_eq!(column.new_field().render().unwrap(), "email: &'a str");

    column.null = true;
    assert_eq!(column.new_field().render().unwrap(), "email: Option<&'a str>");

    column.null = false;
    column.default = Some("now()".to_owned());
    assert_eq!(column.new_field().render().unwrap(), "email: Option<&'a str>");
}

#[test]
fn nullable_column_with_default_is_rejected() {
    let mut column = Column::new("email".into(), Type::from_name("text").unwrap());
    column.null = true;
    column.default = Some("'nobody'".to_owned());
    assert_eq!(column.new_field().render(), Err(SchemaError::NullAndDefault));

    let mut table = Table::new("accounts".into());
    table.push_column(column);
    assert_eq!(table.render(), Err(SchemaError::NullAndDefault));
}

#[test]
fn push_column_replaces_by_name_in_place() {
    let mut table = Table::new("accounts".into());
    table.push_column(Column::new("id".into(), Type::from_name("integer").unwrap()));
    table.push_column(Column::new("email".into(), Type::from_name("text").unwrap()));

    // A rescan of the same column keeps its position but replaces its
    // value.
    let mut replacement = Column::new("id".into(), Type::from_name("bigint").unwrap());
    replacement.unique = true;
    table.push_column(replacement);

    assert_eq!(table.columns.len(), 2);
    assert_eq!(table.columns[0].name, "id");
    assert_eq!(table.columns[0].render(), "id: i64");
    assert!(table.columns[0].unique);
    assert_eq!(table.columns[1].name, "email");
}

#[test]
fn constraint_on_unknown_column_is_a_fatal_desync() {
    let mut table = Table::new("accounts".into());
    table.push_column(Column::new("id".into(), Type::from_name("integer").unwrap()));

    match table.apply_constraint("no_such_column", ConstraintAction::SetUnique) {
        Err(SchemaError::UnknownColumn(name)) => assert_eq!(name, "no_such_column"),
        other => panic!("expected an unknown-column failure, got {other:?}"),
    }
    // The failed merge left the model unchanged.
    assert!(!table.columns[0].unique);
}

#[test]
fn constraints_merge_into_their_column() {
    let mut table = Table::new("accounts".into());
    table.push_column(Column::new("user_id".into(), Type::from_name("integer").unwrap()));
    table.push_column(Column::new("username".into(), Type::from_name("text").unwrap()));

    table.apply_constraint("user_id", ConstraintAction::SetPrimaryKey).unwrap();
    table.apply_constraint("username", ConstraintAction::SetUnique).unwrap();
    let fk = ForeignKey::from_rows(vec![fk_row("users", "id")]).unwrap();
    table.apply_constraint("user_id", ConstraintAction::SetForeignKey(fk)).unwrap();

    assert!(table.columns[0].primary_key);
    assert!(table.columns[0].foreign_key.is_some());
    assert!(!table.columns[0].unique);
    assert!(table.columns[1].unique);
    assert!(!table.columns[1].primary_key);
}

#[test]
fn constraint_kinds_parse_exactly() {
    assert_eq!(parse_constraint_kind("UNIQUE").unwrap(), ConstraintKind::Unique);
    assert_eq!(parse_constraint_kind("PRIMARY KEY").unwrap(), ConstraintKind::PrimaryKey);
    assert_eq!(parse_constraint_kind("FOREIGN KEY").unwrap(), ConstraintKind::ForeignKey);
    match parse_constraint_kind("CHECK") {
        Err(SchemaError::UnknownConstraintType(kind)) => assert_eq!(kind, "CHECK"),
        other => panic!("expected an unknown-constraint failure, got {other:?}"),
    }
}

#[test]
fn nullability_flag_reads_the_catalog_marker() {
    assert!(nullable_flag("YES"));
    assert!(!nullable_flag("NO"));
    assert!(!nullable_flag("yes"));
}

#[test]
fn inline_types_defer_array_and_user_defined_markers() {
    assert_eq!(inline_column_type("ARRAY").unwrap(), None);
    assert_eq!(inline_column_type("USER-DEFINED").unwrap(), None);
    assert_eq!(inline_column_type("integer").unwrap().unwrap().render(), "i32");
    assert!(matches!(
        inline_column_type("money"),
        Err(SchemaError::UnknownScalarName(_))
    ));
}

#[test]
fn foreign_keys_demand_exactly_one_usage_row() {
    assert!(matches!(ForeignKey::from_rows(Vec::new()), Err(SchemaError::NotFound)));
    assert!(ForeignKey::from_rows(vec![fk_row("users", "id")]).is_ok());
    assert_eq!(
        ForeignKey::from_rows(vec![fk_row("users", "id"), fk_row("users", "tenant")]),
        Err(SchemaError::CompositeForeignKey)
    );
}

#[test]
fn failures_describe_themselves() {
    assert_eq!(
        SchemaError::UnknownColumn("email".into()).describe(),
        "constraint for unknown column"
    );
    assert_eq!(SchemaError::NotFound.describe(), "no catalog row found");
}
