use query_builder::DeleteQuery;
use query_builder::InsertQuery;
use query_builder::SelectQuery;
use query_builder::UpdateQuery;
use query_builder::Value;
use query_builder::WhereClause;

#[test]
fn test_select_simple() {
    let q = SelectQuery::select(&["user"]).from("users");

    assert_eq!(q.as_string(), "SELECT user FROM users")
}

#[test]
fn test_select_simple_where() {
    let mut q = SelectQuery::select(&["user, name"]).from("users");
    q.whre.push(WhereClause::new(
        "name",
        Value::Varchar("ezio".to_string()),
        None,
    ));

    assert_eq!(
        q.as_string(),
        "SELECT user, name FROM users WHERE name = 'ezio'"
    );
}

#[test]
fn test_select_simple_where_limt() {
    let mut q = SelectQuery::select(&["user"]).from("users");
    q.whre.push(WhereClause::new(
        "name",
        Value::Varchar("connor".to_string()),
        None,
    ));
    q.limit(42);

    assert_eq!(
        q.as_string(),
        "SELECT user FROM users WHERE name = 'connor' LIMIT 42"
    );
}

#[test]
fn test_insert_simple() {
    let mut q = InsertQuery::into("users");
    q.values
        .insert("name".to_string(), Value::Varchar("greg".to_string()));

    assert_eq!(q.as_string(), "INSERT INTO users(name) VALUES('greg')")
}

#[test]
fn test_delete_simple() {
    let mut q = DeleteQuery::from("users");
    q.whre.push(WhereClause::new(
        "name",
        Value::Varchar("george".to_string()),
        None,
    ));

    assert_eq!(q.as_string(), "DELETE FROM users WHERE name = 'george'")
}

#[test]
fn test_delete_simple_limit() {
    let mut q = DeleteQuery::from("countries");
    q.limit(1);

    assert_eq!(q.as_string(), "DELETE FROM countries LIMIT 1")
}

#[test]
fn test_update_simple() {
    let mut q = UpdateQuery::update("users");
    q.set
        .insert("name".to_string(), Value::Varchar("george".to_string()));

    assert_eq!(q.as_string(), "UPDATE users SET name = 'george'")
}

#[test]
fn test_update_simple_where() {
    let mut q = UpdateQuery::update("users");
    q.set
        .insert("name".to_string(), Value::Varchar("george".to_string()));
    q.whre.push(WhereClause::new(
        "name",
        Value::Varchar("steve".to_string()),
        None,
    ));

    assert_eq!(
        q.as_string(),
        "UPDATE users SET name = 'george' WHERE name = 'steve'"
    )
}

#[test]
fn test_update_simple_where_limit() {
    let mut q = UpdateQuery::update("users");
    q.set
        .insert("name".to_string(), Value::Varchar("george".to_string()));
    q.whre.push(WhereClause::new(
        "name",
        Value::Varchar("steve".to_string()),
        None,
    ));
    q.limit(1);

    assert_eq!(
        q.as_string(),
        "UPDATE users SET name = 'george' WHERE name = 'steve' LIMIT 1"
    );
}
