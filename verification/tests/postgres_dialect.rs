use barrel::generators::DatabaseGenerator;
use barrel::generators::TableGenerator;
use barrel::postgres::base_sql;
use barrel::postgres::render_decimal;
use barrel::postgres::Postgres;
use barrel::types::BaseType;
use barrel::types::Type;

#[test]
fn create_table_exact() {
    assert_eq!(Postgres::create_table("users"), "CREATE TABLE users");
}

#[test]
fn create_table_if_not_exists_has_guard_and_name() {
    let guarded = Postgres::create_table_if_not_exists("users");
    assert!(guarded.contains("users"));
    assert!(guarded.contains("IF NOT EXISTS"));
    assert_eq!(guarded, "CREATE TABLE IF NOT EXISTS users");
    assert_ne!(guarded, Postgres::create_table("users"));
}

#[test]
fn drop_table_exact() {
    assert_eq!(Postgres::drop_table("users"), "DROP TABLE users");
}

#[test]
fn drop_table_if_exists_has_guard_and_name() {
    let guarded = Postgres::drop_table_if_exists("users");
    assert_eq!(guarded, "DROP TABLE IF EXISTS users");
    assert_ne!(guarded, Postgres::drop_table("users"));
}

#[test]
fn rename_table_exact() {
    assert_eq!(Postgres::rename_table("old_users", "users"), "ALTER TABLE old_users RENAME TO users");
}

#[test]
fn rename_table_is_asymmetric() {
    assert_ne!(Postgres::rename_table("a", "b"), Postgres::rename_table("b", "a"));
}

#[test]
fn modify_table_exact() {
    assert_eq!(Postgres::modify_table("users"), "ALTER TABLE users");
}

#[test]
fn drop_column_exact() {
    assert_eq!(Postgres::drop_column("age"), "DROP COLUMN age");
}

#[test]
fn rename_column_exact() {
    assert_eq!(Postgres::rename_column("age", "years"), "RENAME COLUMN age TO years");
}

#[test]
fn increments_distinct_from_integer() {
    assert_eq!(Postgres::increments(), "SERIAL PRIMARY KEY");
    assert_ne!(Postgres::increments(), Postgres::integer("id"));
    assert_ne!(Postgres::increments(), Postgres::integer("SERIAL PRIMARY"));
}

#[test]
fn column_fragments_exact() {
    assert_eq!(Postgres::integer("age"), "age INTEGER");
    assert_eq!(Postgres::text("bio"), "bio TEXT");
    assert_eq!(Postgres::string("name"), "name VARCHAR(255)");
    assert_eq!(Postgres::timestamp("created_at"), "created_at TIMESTAMP");
}

#[test]
fn render_decimal_values() {
    assert_eq!(render_decimal(0), "0");
    assert_eq!(render_decimal(7), "7");
    assert_eq!(render_decimal(10), "10");
    assert_eq!(render_decimal(255), "255");
    assert_eq!(render_decimal(1000), "1000");
    assert_eq!(render_decimal(43210), "43210");
    assert_eq!(render_decimal(usize::MAX), usize::MAX.to_string());
}

#[test]
fn base_sql_each_kind() {
    assert_eq!(base_sql(&BaseType::Text, None), "TEXT");
    assert_eq!(base_sql(&BaseType::Varchar, None), "VARCHAR");
    assert_eq!(base_sql(&BaseType::Varchar, Some(255)), "VARCHAR(255)");
    assert_eq!(base_sql(&BaseType::Primary, None), "SERIAL PRIMARY KEY");
    assert_eq!(base_sql(&BaseType::Integer, None), "INTEGER");
    assert_eq!(base_sql(&BaseType::Float, None), "REAL");
    assert_eq!(base_sql(&BaseType::Double, None), "DOUBLE PRECISION");
    assert_eq!(base_sql(&BaseType::Boolean, None), "BOOLEAN");
    assert_eq!(base_sql(&BaseType::Binary, None), "BYTEA");
    assert_eq!(base_sql(&BaseType::Foreign("users"), None), "INTEGER REFERENCES users");
    assert_eq!(base_sql(&BaseType::Custom("MONEY"), None), "MONEY");
}

#[test]
fn base_sql_arrays_nest() {
    let strings = BaseType::Array(Box::new(BaseType::Varchar));
    assert_eq!(base_sql(&strings, Some(9)), "VARCHAR(9)[]");
    let grid = BaseType::Array(Box::new(BaseType::Array(Box::new(BaseType::Integer))));
    assert_eq!(base_sql(&grid, None), "INTEGER[][]");
}

#[test]
fn column_surfaces_size_and_constraints() {
    let t = Type::<String>::new(BaseType::Varchar).size(255).nullable(false).unique(true);
    let rendered = Postgres::column("name", &t);
    assert!(rendered.contains("255"));
    assert!(rendered.contains("NOT NULL"));
    assert!(rendered.contains("UNIQUE"));
    assert_eq!(rendered, "name VARCHAR(255) NOT NULL UNIQUE");
}

#[test]
fn column_nullable_drops_not_null() {
    let t = Type::<String>::new(BaseType::Text).nullable(true);
    assert_eq!(Postgres::column("bio", &t), "bio TEXT");
    assert!(!Postgres::column("bio", &t).contains("NOT NULL"));
}
