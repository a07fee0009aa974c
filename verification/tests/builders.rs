use query_builder::DeleteQuery;
use query_builder::InsertQuery;
use query_builder::OrderBy;
use query_builder::SelectQuery;
use query_builder::UpdateQuery;
use query_builder::Value;
use query_builder::WhereClause;

#[test]
fn select_limit_appended_once_and_cleared() {
    let mut q = SelectQuery::select(&["user", "name"]).from("users");
    q.whre.push(WhereClause::new(
        "name",
        Value::Varchar("ezio".to_string()),
        None,
    ));
    let without_limit = q.as_string();
    q.limit(42);
    assert!(q.has_limit());
    assert_eq!(q.get_limit(), Some(42));
    assert_eq!(q.as_string(), format!("{} LIMIT 42", without_limit));

    q.clear_limit();
    assert!(!q.has_limit());
    assert_eq!(q.get_limit(), None);
    assert_eq!(q.as_string(), without_limit);
}

#[test]
fn select_two_columns_and_where() {
    let mut q = SelectQuery::select(&["user", "name"]).from("users");
    q.whre.push(WhereClause::new(
        "name",
        Value::Varchar("ezio".to_string()),
        None,
    ));
    assert_eq!(
        q.as_string(),
        "SELECT user, name FROM users WHERE name = 'ezio'"
    );
}

#[test]
fn select_short_table_name_omits_from() {
    let q = SelectQuery::select(&["user"]).from("u");
    assert_eq!(q.as_string(), "SELECT user");

    let q = SelectQuery::select(&["user"]).from("");
    assert_eq!(q.as_string(), "SELECT user");

    let q = SelectQuery::select(&["user"]).from("us");
    assert_eq!(q.as_string(), "SELECT user FROM us");
}

#[test]
fn select_no_columns_renders_truncated() {
    let q = SelectQuery::select(&[]).from("users");
    assert_eq!(q.as_string(), " FROM users");
}

#[test]
fn select_limit_stands_before_order_by() {
    let mut q = SelectQuery::select(&["user"]).from("users");
    q.limit(2);
    q.order_by(OrderBy::Row("name".to_string()));
    assert_eq!(q.as_string(), "SELECT user FROM users LIMIT 2 ORDER BY name");
}

#[test]
fn delete_order_by_stands_before_limit() {
    let mut q = DeleteQuery::from("users");
    q.whre.push(WhereClause::new(
        "name",
        Value::Varchar("gregory".to_string()),
        None,
    ));
    q.order_by(OrderBy::Row("name".to_string()));
    q.limit(1);
    assert_eq!(
        q.as_string(),
        "DELETE FROM users WHERE name = 'gregory' ORDER BY name LIMIT 1"
    );
}

#[test]
fn delete_where_and_limit() {
    let mut q = DeleteQuery::from("users");
    q.whre.push(WhereClause::new(
        "name",
        Value::Varchar("gregory".to_string()),
        None,
    ));
    q.limit(1);
    assert_eq!(
        q.as_string(),
        "DELETE FROM users WHERE name = 'gregory' LIMIT 1"
    );
}

#[test]
fn delete_order_by_queried_and_cleared() {
    let mut q = DeleteQuery::from("states");
    assert!(!q.is_ordered());
    q.order_by(OrderBy::Row("population".to_string()));
    assert!(q.is_ordered());
    assert_eq!(q.as_string(), "DELETE FROM states ORDER BY population");
    q.clear_order_by();
    assert!(!q.is_ordered());
    assert_eq!(q.as_string(), "DELETE FROM states");
}

#[test]
fn delete_limit_queried_and_cleared() {
    let mut q = DeleteQuery::from("users");
    assert_eq!(q.get_limit(), None);
    q.limit(12);
    assert_eq!(q.get_limit(), Some(12));
    q.clear_limit();
    assert_eq!(q.get_limit(), None);
}

#[test]
fn insert_columns_in_lexicographic_order() {
    let mut q = InsertQuery::into("users");
    q.values
        .insert("name".to_string(), Value::Varchar("greg".to_string()));
    q.values.insert("age".to_string(), Value::Int(30));
    assert_eq!(
        q.as_string(),
        "INSERT INTO users(age, name) VALUES(30, 'greg')"
    );

    let mut p = InsertQuery::into("users");
    p.values.insert("age".to_string(), Value::Int(30));
    p.values
        .insert("name".to_string(), Value::Varchar("greg".to_string()));
    assert_eq!(p.as_string(), q.as_string());
}

#[test]
fn insert_same_column_overwrites() {
    let mut q = InsertQuery::into("users");
    q.values
        .insert("name".to_string(), Value::Varchar("greg".to_string()));
    q.values
        .insert("name".to_string(), Value::Varchar("george".to_string()));
    assert_eq!(q.as_string(), "INSERT INTO users(name) VALUES('george')");
}

#[test]
fn insert_without_values() {
    let q = InsertQuery::into("users");
    assert_eq!(q.as_string(), "INSERT INTO users() VALUES()");
}

#[test]
fn update_set_columns_in_lexicographic_order() {
    let mut q = UpdateQuery::update("users");
    q.set
        .insert("name".to_string(), Value::Varchar("jeff".to_string()));
    q.set.insert("age".to_string(), Value::Int(30));
    q.limit(1);
    assert_eq!(
        q.as_string(),
        "UPDATE users SET age = 30, name = 'jeff' LIMIT 1"
    );
}

#[test]
fn update_limit_queried() {
    let mut q = UpdateQuery::update("cities");
    assert!(!q.has_limit());
    assert_eq!(q.get_limit(), None);
    q.limit(1);
    assert!(q.has_limit());
    assert_eq!(q.get_limit(), Some(1));
    assert_eq!(q.as_string(), "UPDATE cities LIMIT 1");
}

#[test]
fn statement_rendering_is_repeatable() {
    let mut q = SelectQuery::select(&["user"]).from("users");
    q.limit(3);
    assert_eq!(q.as_string(), q.as_string());
    let first = q.as_string();
    let second = q.as_string();
    assert_eq!(first, second);
}
