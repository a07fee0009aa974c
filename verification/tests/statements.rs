use query_builder::Condition;
use query_builder::DeleteQuery;
use query_builder::InsertQuery;
use query_builder::OrderBy;
use query_builder::SelectQuery;
use query_builder::UpdateQuery;
use query_builder::Value;
use query_builder::WhereClause;

#[test]
fn select_simple() {
    let q = SelectQuery::select(&["user"]).from("users");

    assert_eq!(q.as_string(), "SELECT user FROM users")
}

#[test]
fn select_simple_where() {
    let mut q = SelectQuery::select(&["user, name"]).from("users");
    q.whre.push(WhereClause::new(
        "name",
        Value::Varchar("ezio".to_string()),
        None,
    ));

    assert_eq!(
        q.as_string(),
        "SELECT user, name FROM users WHERE name = 'ezio'"
    );
}

#[test]
fn select_simple_where_limt() {
    let mut q = SelectQuery::select(&["user"]).from("users");
    q.whre.push(WhereClause::new(
        "name",
        Value::Varchar("connor".to_string()),
        None,
    ));
    q.limit(42);

    assert_eq!(
        q.as_string(),
        "SELECT user FROM users WHERE name = 'connor' LIMIT 42"
    );
}

#[test]
fn select_simple_order_by() {
    let mut q = SelectQuery::select(&["user"]).from("users");

    q.order_by(OrderBy::Row("name".to_string()));

    assert_eq!(q.as_string(), "SELECT user FROM users ORDER BY name")
}

#[test]
fn insert_simple() {
    let mut q = InsertQuery::into("users");
    q.values
        .insert("name".to_string(), Value::Varchar("greg".to_string()));

    assert_eq!(q.as_string(), "INSERT INTO users(name) VALUES('greg')")
}

#[test]
fn delete_simple() {
    let mut q = DeleteQuery::from("users");
    q.whre.push(WhereClause::new(
        "name",
        Value::Varchar("george".to_string()),
        None,
    ));

    assert_eq!(q.as_string(), "DELETE FROM users WHERE name = 'george'")
}

#[test]
fn delete_simple_limit() {
    let mut q = DeleteQuery::from("countries");
    q.limit(1);

    assert_eq!(q.as_string(), "DELETE FROM countries LIMIT 1")
}

#[test]
fn update_simple() {
    let mut q = UpdateQuery::update("users");
    q.set
        .insert("name".to_string(), Value::Varchar("george".to_string()));

    assert_eq!(q.as_string(), "UPDATE users SET name = 'george'")
}

#[test]
fn update_simple_where() {
    let mut q = UpdateQuery::update("users");
    q.set
        .insert("name".to_string(), Value::Varchar("george".to_string()));
    q.whre.push(WhereClause::new(
        "name",
        Value::Varchar("steve".to_string()),
        None,
    ));

    assert_eq!(
        q.as_string(),
        "UPDATE users SET name = 'george' WHERE name = 'steve'"
    )
}

#[test]
fn update_simple_where_limit() {
    let mut q = UpdateQuery::update("users");
    q.set
        .insert("name".to_string(), Value::Varchar("george".to_string()));
    q.whre.push(WhereClause::new(
        "name",
        Value::Varchar("steve".to_string()),
        None,
    ));
    q.limit(1);

    assert_eq!(
        q.as_string(),
        "UPDATE users SET name = 'george' WHERE name = 'steve' LIMIT 1"
    );
}

#[test]
fn where_clause_forms() {
    let w = WhereClause::new(
        "user",
        Value::Varchar("gerald".to_string()),
        Some(Condition::Or),
    );
    assert_eq!(w.as_string(), "OR user = 'gerald'");

    let w = WhereClause::new("user", Value::Varchar("thomas".to_string()), None);
    assert_eq!(w.as_string(), "AND user = 'thomas'");
    assert_eq!(w.as_string_no_cond_with_prefix(), "WHERE user = 'thomas'");
    assert_eq!(w.as_string_no_cond(), "user = 'thomas'");
}

#[test]
fn where_clauses_mixed_combinators() {
    let mut q = DeleteQuery::from("people");
    q.whre.push(WhereClause::new(
        "name",
        Value::Varchar("justine".to_string()),
        None,
    ));
    q.whre
        .push(WhereClause::new("age", Value::Int(24), Some(Condition::And)));
    q.whre.push(WhereClause::new(
        "age",
        Value::Int(42),
        Some(Condition::Or),
    ));
    q.limit(1);

    assert_eq!(
        q.as_string(),
        "DELETE FROM people WHERE name = 'justine' AND age = 24 OR age = 42 LIMIT 1"
    );
}

#[test]
fn condition_text() {
    assert_eq!(Condition::And.as_string(), "AND");
    assert_eq!(Condition::Or.as_string(), "OR");
}

#[test]
fn order_by_variants_render_alike() {
    let row = OrderBy::Row("population".to_string());
    let expr = OrderBy::Expression("population".to_string());
    assert_eq!(row.as_string(), "ORDER BY population");
    assert_eq!(expr.as_string(), "ORDER BY population");
}
