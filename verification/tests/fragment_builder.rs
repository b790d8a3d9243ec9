use diesel_mssql::fragment::{render, BuildError, Dialect, Fragment};
use diesel_mssql::row::{Cell, MssqlRow, RawValue};

fn int_column(name: &str) -> Fragment {
    Fragment::column(String::from(name), String::from("INT"), true)
}

fn varchar_column(name: &str) -> Fragment {
    Fragment::column(String::from(name), String::from("VARCHAR(50)"), false)
}

#[test]
fn column_renders_with_bracket_quoting() {
    let q = render(&int_column("id"), Dialect::Generic).unwrap();
    assert_eq!(q.sql, "[id] INT");
    assert!(q.not_cacheable);
}

#[test]
fn column_renders_the_same_under_the_mssql_dialect() {
    let q = render(&int_column("id"), Dialect::Mssql).unwrap();
    assert_eq!(q.sql, "[id] INT");
}

#[test]
fn primary_key_composes_generically() {
    let frag = int_column("id").primary_key();
    let q = render(&frag, Dialect::Generic).unwrap();
    assert_eq!(q.sql, "[id] INT PRIMARY KEY");
}

#[test]
fn not_null_composes_generically() {
    let frag = varchar_column("name").not_null();
    let q = render(&frag, Dialect::Generic).unwrap();
    assert_eq!(q.sql, "[name] VARCHAR(50) NOT NULL");
}

#[test]
fn default_value_composes_generically() {
    let frag = varchar_column("name").default_value(String::from("'unknown'"));
    let q = render(&frag, Dialect::Generic).unwrap();
    assert_eq!(q.sql, "[name] VARCHAR(50) DEFAULT 'unknown'");
}

#[test]
fn not_null_then_default_chains_like_the_builder() {
    let frag = varchar_column("name")
        .not_null()
        .default_value(String::from("'x'"));
    let q = render(&frag, Dialect::Mssql).unwrap();
    assert_eq!(q.sql, "[name] VARCHAR(50) NOT NULL DEFAULT 'x'");
}

#[test]
fn auto_increment_uses_the_specialized_identity_phrase() {
    let frag = int_column("id").primary_key().auto_increment().unwrap();
    let q = render(&frag, Dialect::Mssql).unwrap();
    assert_eq!(q.sql, "[id] INT IDENTITY(1,1) PRIMARY KEY");
    assert_ne!(q.sql, "([id] INT PRIMARY KEY) PRIMARY KEY");
}

#[test]
fn auto_increment_rejects_a_non_integer_column() {
    let r = varchar_column("name").primary_key().auto_increment();
    assert_eq!(r.err(), Some(BuildError::ShapeMismatch));
}

#[test]
fn auto_increment_rejects_a_bare_column() {
    let r = int_column("id").auto_increment();
    assert_eq!(r.err(), Some(BuildError::ShapeMismatch));
}

#[test]
fn auto_increment_rejects_a_wrapped_primary_key() {
    let r = int_column("id").primary_key().not_null().auto_increment();
    assert_eq!(r.err(), Some(BuildError::ShapeMismatch));
}

#[test]
fn table_begins_with_the_existence_guard_under_every_dialect() {
    for dialect in [Dialect::Generic, Dialect::Mssql] {
        let frag = Fragment::table(String::from("users"), vec![int_column("id")]);
        let q = render(&frag, dialect).unwrap();
        assert!(q.sql.starts_with("IF OBJECT_ID('"));
        assert!(q.not_cacheable);
    }
}

#[test]
fn table_renders_guard_quoted_name_and_columns() {
    let frag = Fragment::table(
        String::from("users"),
        vec![int_column("id"), varchar_column("name")],
    );
    let q = render(&frag, Dialect::Generic).unwrap();
    assert_eq!(
        q.sql,
        "IF OBJECT_ID('[users]') IS NULL CREATE TABLE [users] ([id] INT, [name] VARCHAR(50))"
    );
}

#[test]
fn empty_column_list_renders_empty_parentheses() {
    let frag = Fragment::table(String::from("bare"), vec![]);
    let q = render(&frag, Dialect::Generic).unwrap();
    assert_eq!(
        q.sql,
        "IF OBJECT_ID('[bare]') IS NULL CREATE TABLE [bare] ()"
    );
}

#[test]
fn identifier_with_closing_bracket_is_rejected() {
    let frag = Fragment::column(String::from("bad]name"), String::from("INT"), true);
    assert_eq!(
        render(&frag, Dialect::Generic).err(),
        Some(BuildError::IdentifierRejected)
    );
    let table = Fragment::table(String::from("bad]table"), vec![int_column("id")]);
    assert_eq!(
        render(&table, Dialect::Mssql).err(),
        Some(BuildError::IdentifierRejected)
    );
}

#[test]
fn rejected_identifier_in_a_column_aborts_the_table_render() {
    let table = Fragment::table(
        String::from("users"),
        vec![Fragment::column(
            String::from("bad]col"),
            String::from("INT"),
            true,
        )],
    );
    assert_eq!(
        render(&table, Dialect::Generic).err(),
        Some(BuildError::IdentifierRejected)
    );
}

#[test]
fn no_fragment_has_a_static_query_id() {
    assert!(!int_column("id").has_static_query_id());
    assert!(!Fragment::table(String::from("users"), vec![]).has_static_query_id());
}

#[test]
fn users_table_round_trip_through_schema_and_row() {
    let table = Fragment::table(
        String::from("users"),
        vec![
            int_column("id").primary_key().auto_increment().unwrap(),
            varchar_column("name").not_null(),
        ],
    );
    let q = render(&table, Dialect::Mssql).unwrap();
    assert_eq!(
        q.sql,
        "IF OBJECT_ID('[users]') IS NULL CREATE TABLE [users] \
         ([id] INT IDENTITY(1,1) PRIMARY KEY, [name] VARCHAR(50) NOT NULL)"
    );
    assert!(q.not_cacheable);

    let row = MssqlRow::new(vec![
        (
            Some(String::from("id")),
            Cell::Decoded(RawValue::I32(Some(1))),
        ),
        (
            Some(String::from("name")),
            Cell::Decoded(RawValue::Text(Some(String::from("Jane")))),
        ),
    ]);
    let id_part = row.partial_row(0..1);
    let name_part = row.partial_row(1..2);
    let loaded = (
        name_part.get_value::<String>(0).unwrap(),
        id_part.get_value::<i32>(0).unwrap(),
    );
    assert_eq!(loaded.0, String::from("Jane"));
    assert_eq!(loaded.1, 1);

    let row_with_null_id = MssqlRow::new(vec![
        (Some(String::from("id")), Cell::Decoded(RawValue::I32(None))),
        (
            Some(String::from("name")),
            Cell::Decoded(RawValue::Text(Some(String::from("Jane")))),
        ),
    ]);
    assert!(row_with_null_id.get(0).unwrap().value().is_none());
    assert_eq!(row_with_null_id.get_value::<Option<i32>>(0), Ok(None));
    assert_eq!(
        row_with_null_id.get_value::<String>(1),
        Ok(String::from("Jane"))
    );
}
