use lithium::insert::Insert;
use lithium::select::Select;

#[test]
fn insert_test_simple() {
    let insert = Insert::into("test_table");
    let expected = {
        "INSERT INTO test_table \
        DEFAULT VALUES".to_string()
    };
    assert_eq!(insert.to_sql(), expected);
}

#[test]
fn test_with_spec_return() {
    let insert = Insert::into("test_table").returning("foo").returning("bar");
    let expected = {
        "INSERT INTO test_table \
        DEFAULT VALUES \
        RETURNING foo, bar"
    };
    assert_eq!(insert.to_sql(), expected);
}

#[test]
fn test_with_values() {
    let insert = Insert::into("test_table")
        .columns("foo")
        .columns(&["bar"])
        .values(vec!["DEFAULT, fizz"])
        .values(vec!["foo", "bar"])
        .returning_all();

    let expected = {
        "INSERT INTO test_table (foo, bar) \
        VALUES (DEFAULT, fizz), (foo, bar) \
        RETURNING *"
    };

    assert_eq!(insert.to_sql(), expected);
}

#[test]
fn test_with_query() {
    let query = Select::from("test_table");
    let insert = Insert::into("test_table")
        .columns(&["foo", "bar"])
        .query(query)
        .returning(&["bar", "foo"]);

    let expected = {
        "INSERT INTO test_table (foo, bar) \
        SELECT * FROM test_table \
        RETURNING bar, foo"
    };
    
    assert_eq!(insert.to_sql(), expected);
}
