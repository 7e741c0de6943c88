use std::str::FromStr;

use instant_models::{Column, StructBuilder, Table, Type};

#[test]
fn basic() {
    let mut table = Table::new("account".into());

    let column = Column::new("id".into(), Type::from_str("integer").unwrap());
    table.push_column(column);

    let column = Column::new("name".into(), Type::from_str("text").unwrap());
    table.push_column(column);

    let column = Column::new("password".into(), Type::from_str("text").unwrap());
    table.push_column(column);

    let column = Column::new("email".into(), Type::from_str("text").unwrap());
    table.push_column(column);

    let column = Column::new(
        "created_at".into(),
        Type::from_str("timestamp with time zone").unwrap(),
    );
    table.push_column(column);

    let mut column = Column::new(
        "last_login".into(),
        Type::from_str("timestamp with time zone").unwrap(),
    );
    column.null = true;
    table.push_column(column);

    assert_eq!(
        table.render().unwrap(),
        r#"pub struct Account {
    pub id: i32,
    pub name: String,
    pub password: String,
    pub email: String,
    pub created_at: chrono::DateTime<chrono::Utc>,
    pub last_login: Option<chrono::DateTime<chrono::Utc>>,
}

pub struct NewAccount<'a> {
    pub id: i32,
    pub name: &'a str,
    pub password: &'a str,
    pub email: &'a str,
    pub created_at: chrono::DateTime<chrono::Utc>,
    pub last_login: Option<chrono::DateTime<chrono::Utc>>,
}
"#
    );
}

#[test]
fn insert_impl_skips_id_and_numbers_parameters() {
    let mut table = Table::new("account".into());
    let column = Column::new("id".into(), Type::from_str("integer").unwrap());
    table.push_column(column);
    let column = Column::new("name".into(), Type::from_str("text").unwrap());
    table.push_column(column);
    let column = Column::new("email".into(), Type::from_str("text").unwrap());
    table.push_column(column);

    let rendered = table.render_insert();
    let expected = "impl Account {\n    pub async fn insert(slice: &[NewAccount<'_>]) -> Result<(), tokio_postgres::Error> {\n        let statement = client.prepare(\n            \"INSERT INTO account (\n                name,\n                email\n            ) VALUES ($1, $2)\"\n        ).await?;\n        for entry in slice {\n            client.execute(&statement, &[\n                entry.name,\n                entry.email,\n            ]).await?;\n        }\n\n        Ok(())\n    }\n}\n";
    assert_eq!(rendered, expected);
}

#[test]
fn struct_builder_value_type() {
    let mut builder = StructBuilder::new("user_account".into());
    builder.add_column(Column::new("UserId".into(), Type::from_str("integer").unwrap()));
    builder.add_column(Column::new("name".into(), Type::from_str("text").unwrap()));

    // Case conversion is observable: the type name is camel-cased and
    // the column name snake-cased, so neither text passes through
    // unchanged.
    let expected = "pub struct UserAccount {\n    pub user_id: i32,\n    pub name: String,\n}\n        ";
    assert_eq!(builder.build_type(), expected);
}

#[test]
fn struct_builder_new_type_skips_primary_keys() {
    let mut builder = StructBuilder::new("accounts".into());
    let mut pk = Column::new("user_id".into(), Type::from_str("integer").unwrap());
    pk.primary_key = true;
    builder.add_column(pk);
    builder.add_column(Column::new("username".into(), Type::from_str("text").unwrap()));
    let mut nullable = Column::new("email".into(), Type::from_str("text").unwrap());
    nullable.null = true;
    builder.add_column(nullable);

    let expected = "pub struct AccountsNew<'a> {\n    pub username: &'a str,\n    pub email: Option<&'a str>,\n}\n        ";
    assert_eq!(builder.build_new_type().unwrap(), expected);
}

#[test]
fn struct_builder_insert_statement() {
    let mut builder = StructBuilder::new("accounts".into());
    let mut pk = Column::new("user_id".into(), Type::from_str("integer").unwrap());
    pk.primary_key = true;
    builder.add_column(pk);
    builder.add_column(Column::new("username".into(), Type::from_str("text").unwrap()));
    builder.add_column(Column::new("email".into(), Type::from_str("text").unwrap()));

    let rendered = builder.build_type_methods();
    let expected = "impl Accounts {\n        pub fn insert_slice(client: &mut postgres::Client, slice: &[AccountsNew<'_>]) -> Result<(), postgres::Error> {\n            let statement = client.prepare(\"INSERT INTO accounts(username, email) VALUES($1, $2);\")?;\n            for entry in slice {\n                client.execute(&statement, &[&entry.username, &entry.email])?;\n            }\n            Ok(())\n        }\n}\n        ";
    assert_eq!(rendered, expected);
}
