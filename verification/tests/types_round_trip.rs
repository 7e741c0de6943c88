use instant_models::{
    expect_single, CatalogTypeRow, Column, Composite, Enum, Resolution, Schema, SchemaError,
    Table, Type, TypeAsRef, TypeDefinition, KIND_TAG_BASE, KIND_TAG_COMPOSITE, KIND_TAG_ENUM,
};

fn row(name: &str, kind_tag: i8, element_id: u32) -> CatalogTypeRow {
    CatalogTypeRow {
        oid: 90000,
        name: name.to_owned(),
        kind_tag,
        relation_id: 0,
        element_id,
    }
}

#[test]
fn scalar_round_trip() {
    let table = [
        ("bigint", "i64"),
        ("boolean", "bool"),
        ("bytea", "Vec<u8>"),
        ("bytea[]", "Vec<Vec<u8>>"),
        ("float4", "f32"),
        ("real", "f32"),
        ("float8", "f64"),
        ("double precision", "f64"),
        ("inet", "std::net::IpAddr"),
        ("smallint", "i16"),
        ("int2", "i16"),
        ("integer", "i32"),
        ("int4", "i32"),
        ("interval", "PgInterval"),
        ("jsonb", "JsonB"),
        ("text", "String"),
        ("character varying", "String"),
        ("text[]", "Vec<String>"),
        ("timestamp with time zone", "chrono::DateTime<chrono::Utc>"),
        ("timestamp without time zone", "chrono::naive::NaiveDateTime"),
        ("uuid", "uuid::Uuid"),
        ("vector", "pgvector::Vector"),
        ("tsvector", "pgvector::Vector"),
    ];
    for (name, expected) in table {
        let ty = Type::from_name(name).unwrap();
        assert_eq!(ty.render(), expected, "for declared name {name}");
    }
}

#[test]
fn unknown_scalar_name_is_rejected() {
    match Type::from_name("money") {
        Err(SchemaError::UnknownScalarName(name)) => assert_eq!(name, "money"),
        other => panic!("expected an unknown-scalar failure, got {other:?}"),
    }
}

#[test]
fn known_oids_resolve_without_catalog_access() {
    assert_eq!(Type::from_known_oid(20).unwrap().render(), "i64");
    assert_eq!(Type::from_known_oid(25).unwrap().render(), "String");
    assert_eq!(Type::from_known_oid(1009).unwrap().render(), "Vec<String>");
    assert!(Type::from_known_oid(4).is_none());
}

#[test]
fn resolve_decision_branches() {
    // Base kind without an element type: name parsing.
    match Type::resolve_decision(&row("bigint", KIND_TAG_BASE, 0)) {
        Ok(Resolution::Done(t)) => assert_eq!(t.render(), "i64"),
        other => panic!("expected a resolved scalar, got {other:?}"),
    }
    // Base kind with an element type: the caller resolves the element.
    match Type::resolve_decision(&row("_int8", KIND_TAG_BASE, 20)) {
        Ok(Resolution::Element(oid)) => assert_eq!(oid, 20),
        other => panic!("expected an element request, got {other:?}"),
    }
    // Composite kind: a reference by name, never expanded here.
    match Type::resolve_decision(&row("my_point", KIND_TAG_COMPOSITE, 0)) {
        Ok(Resolution::Done(t)) => assert_eq!(t.render(), "MyPoint"),
        other => panic!("expected a composite reference, got {other:?}"),
    }
    // Enumeration kind: a reference by name.
    match Type::resolve_decision(&row("status_kind", KIND_TAG_ENUM, 0)) {
        Ok(Resolution::Done(t)) => assert_eq!(t.render(), "StatusKind"),
        other => panic!("expected an enumeration reference, got {other:?}"),
    }
    // Anything else is unsupported, not approximated.
    match Type::resolve_decision(&row("range_type", 114, 0)) {
        Err(SchemaError::UnsupportedCatalogType(tag)) => assert_eq!(tag, 114),
        other => panic!("expected an unsupported-kind failure, got {other:?}"),
    }
}

#[test]
fn single_row_lookups() {
    let no_rows: Vec<CatalogTypeRow> = Vec::new();
    assert!(matches!(expect_single(no_rows), Err(SchemaError::NotFound)));

    let one = vec![row("bigint", KIND_TAG_BASE, 0)];
    assert_eq!(expect_single(one).unwrap().name, "bigint");

    let two = vec![row("bigint", KIND_TAG_BASE, 0), row("bigint", KIND_TAG_BASE, 0)];
    assert!(matches!(expect_single(two), Err(SchemaError::Ambiguous)));
}

#[test]
fn copy_by_value_follows_the_type_tag() {
    assert!(Type::from_name("bigint").unwrap().is_copy());
    assert!(Type::from_name("boolean").unwrap().is_copy());
    assert!(Type::from_name("uuid").unwrap().is_copy());
    assert!(!Type::from_name("text").unwrap().is_copy());
    assert!(!Type::from_name("bytea").unwrap().is_copy());
    assert!(!Type::from_name("text[]").unwrap().is_copy());
    match Type::resolve_decision(&row("my_point", KIND_TAG_COMPOSITE, 0)).unwrap() {
        Resolution::Done(t) => assert!(!t.is_copy()),
        other => panic!("expected a composite reference, got {other:?}"),
    }
}

#[test]
fn borrowed_type_text() {
    let text = Type::from_name("text").unwrap();
    let as_ref = TypeAsRef { lifetime: Some("a"), val: &text };
    assert_eq!(as_ref.render(), "&'a str");
    let as_ref = TypeAsRef { lifetime: None, val: &text };
    assert_eq!(as_ref.render(), "&str");

    let bytes = Type::from_name("bytea").unwrap();
    let as_ref = TypeAsRef { lifetime: Some("a"), val: &bytes };
    assert_eq!(as_ref.render(), "&[u8]");

    let texts = Type::from_name("text[]").unwrap();
    let as_ref = TypeAsRef { lifetime: Some("a"), val: &texts };
    assert_eq!(as_ref.render(), "&'a [&'a str]");

    let number = Type::from_name("integer").unwrap();
    let as_ref = TypeAsRef { lifetime: Some("a"), val: &number };
    assert_eq!(as_ref.render(), "i32");
}

#[test]
fn composite_definition_renders_fields_in_order() {
    let mut composite = Composite::new("my_point".into());
    composite.push_field("x".into(), Type::from_name("integer").unwrap());
    composite.push_field("y".into(), Type::from_name("integer").unwrap());
    assert_eq!(composite.render(), "struct MyPoint {\n    x: i32,\n    y: i32,\n}\n");
}

#[test]
fn enum_definition_keeps_catalog_order() {
    let mut status = Enum::new("status_kind".into());
    status.push_variant("active".into());
    status.push_variant("on_hold".into());
    status.push_variant("closed".into());
    assert_eq!(
        status.render(),
        "enum StatusKind {\n    Active,\n    OnHold,\n    Closed,\n}\n"
    );
}

#[test]
fn schema_deduplicates_type_definitions_by_name() {
    let mut schema = Schema::new();
    let mut first = Enum::new("status_kind".into());
    first.push_variant("active".into());
    schema.push_type_def(TypeDefinition::Enum(first));

    // A second definition under the same name leaves the schema as it
    // was.
    let mut second = Enum::new("status_kind".into());
    second.push_variant("other".into());
    schema.push_type_def(TypeDefinition::Enum(second));

    let mut composite = Composite::new("my_point".into());
    composite.push_field("x".into(), Type::from_name("integer").unwrap());
    schema.push_type_def(TypeDefinition::Composite(composite));

    assert_eq!(
        schema.render_types(),
        "enum StatusKind {\n    Active,\n}\n\nstruct MyPoint {\n    x: i32,\n}\n\n"
    );
}

#[test]
fn schema_renders_tables_then_type_definitions() {
    let mut schema = Schema::new();
    let mut table = Table::new("jobs".into());
    table.push_column(Column::new("id".into(), Type::from_name("integer").unwrap()));
    schema.push_table(table);

    let mut status = Enum::new("status_kind".into());
    status.push_variant("active".into());
    schema.push_type_def(TypeDefinition::Enum(status));

    assert_eq!(
        schema.render().unwrap(),
        "pub struct Jobs {\n    pub id: i32,\n}\n\npub struct NewJobs<'a> {\n    pub id: i32,\n}\n\nenum StatusKind {\n    Active,\n}\n\n"
    );
}
