use lithium::common::ToSQL;
use lithium::query::Query;
use lithium::select::{
    DistinctType, ForType, LimitType, OffsetType, Select, SelectType, Union, UnionMode,
};

fn plain_query<'a>() -> Query<'a> {
    Query {
        select: SelectType::All,
        distinct: DistinctType::Empty,
        from: "test_table",
        joins: vec![],
        group_by: vec![],
        order_by: vec![],
        where_cl: vec![],
        having: vec![],
        limit: LimitType::Empty,
        offset: OffsetType::Empty,
        for_cl: ForType::Empty,
    }
}

#[test]
fn union_test_simple() {
    let query = Select::from("test_table");
    let union = Union::new(UnionMode::Simple, &query, &query);

    let expected = {
        "SELECT * FROM test_table \
        UNION \
        SELECT * FROM test_table".to_string()
    };
    assert_eq!(union.to_sql(), expected);

    let query = plain_query();
    let union = Union { left: &query, right: &query, mode: UnionMode::Simple };
    assert_eq!(union.to_sql(), expected);
}

#[test]
fn union_test_owned_queries() {
    let query = Select::from("test_table");
    let union = Union::new(UnionMode::Simple, query.clone(), query);

    let expected = {
        "SELECT * FROM test_table \
        UNION \
        SELECT * FROM test_table".to_string()
    };
    assert_eq!(union.to_sql(), expected);

    let query = plain_query();
    let union = Union { left: query.clone(), right: query, mode: UnionMode::Simple };
    assert_eq!(union.to_sql(), expected);
}

#[test]
fn union_test_union_all() {
    let query = Select::from("test_table");
    let union = Union::new(UnionMode::All, &query, &query);

    let expected = {
        "SELECT * FROM test_table \
        UNION ALL \
        SELECT * FROM test_table".to_string()
    };
    assert_eq!(union.to_sql(), expected);

    let query = plain_query();
    let union = Union { left: &query, right: &query, mode: UnionMode::All };
    assert_eq!(union.to_sql(), expected);
}

#[test]
fn union_test_nested() {
    let query = Select::from("test_table");
    let pre_union = Union::new(UnionMode::Simple, &query, &query);
    let union = Union::new(UnionMode::All, pre_union, &query);

    let expected = {
        "SELECT * FROM test_table \
        UNION \
        SELECT * FROM test_table \
        UNION ALL \
        SELECT * FROM test_table".to_string()
    };
    assert_eq!(union.to_sql(), expected);

    let query = plain_query();
    let pre_union = Union { left: &query, right: &query, mode: UnionMode::Simple };
    let union = Union { left: &pre_union, right: &query, mode: UnionMode::All };
    assert_eq!(union.to_sql(), expected);
}
