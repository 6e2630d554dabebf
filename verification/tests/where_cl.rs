use lithium::common::ToSQL;
use lithium::where_cl::{Operator, Where};

#[test]
fn test_operator() {
    let and = Operator::And;
    let or = Operator::Or;

    assert_eq!(and.to_sql(), "AND");
    assert_eq!(or.to_sql(), "OR");
}

#[test]
fn test_alone_where() {
    let foo = Where::new(Operator::And).filter("foo = bar").filter("fizz = bazz");
    assert_eq!(foo.to_sql(), "(foo = bar AND fizz = bazz)".to_string());
}

#[test]
fn test_nested_where_clauses() {
    let clause = Where::with_or()
        .filter(Where::with_and().filter("foo != bar").filter("fizz = bazz"))
        .filter(Where::with_and().filter("a = b").filter("c = d"));

    let test_sql_string = {
        "((foo != bar AND fizz = bazz) OR \
        (a = b AND c = d))".to_string()
    };
    assert_eq!(clause.to_sql(), test_sql_string);
}

#[test]
fn test_really_nested_where_clauses() {
    let foo = Where::with_and().filter("foo = bar").filter("fizz = 2");
    let bar = Where::with_and().filter("a = b").filter("c = d");

    let bazz1 = Where::with_or().filter(foo.clone()).filter(bar.clone());
    let bazz2 = Where::with_or().filter(bar.clone()).filter(foo.clone());
    let fizz = Where::with_and().filter(bazz1).filter(bazz2);

    let test_sql_string = {
        "(((foo = bar AND fizz = 2) OR \
        (a = b AND c = d)) AND \
        ((a = b AND c = d) OR \
        (foo = bar AND fizz = 2)))".to_string()
    };
    assert_eq!(fizz.to_sql(), test_sql_string);
}
