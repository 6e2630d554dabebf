use lithium::common::ToSQL;
use lithium::query::Query;
use lithium::select::{
    Direction, DistinctType, For, ForMode, ForType, Join, JoinType, LimitType, OffsetType,
    OrderBy, SelectType,
};
use lithium::where_cl::Condition;

#[test]
fn query_select_all() {
    let query = Query {
        select: SelectType::All,
        distinct: DistinctType::Empty,
        from: "test_table",
        joins: vec![],
        group_by: vec![],
        order_by: vec![],
        where_cl: vec![],
        having: vec![],
        limit: LimitType::Empty,
        offset: OffsetType::Empty,
        for_cl: ForType::Empty
    };

    let built = Query::new("test_table");

    assert!(query == built);
    assert_eq!(query.to_sql(), "SELECT * FROM test_table".to_string());
}

#[test]
fn query_select_foo_and_bar() {
    let query = Query {
        select: SelectType::Specific(vec!["foo", "bar"]),
        distinct: DistinctType::Empty,
        from: "test_table",
        joins: vec![],
        group_by: vec![],
        order_by: vec![],
        where_cl: vec![],
        having: vec![],
        limit: LimitType::Empty,
        offset: OffsetType::Empty,
        for_cl: ForType::Empty
    };

    let built = Query::new("test_table").select("foo").select("bar");

    assert!(query == built);
    assert_eq!(query.to_sql(), "SELECT foo, bar FROM test_table".to_string());
}

#[test]
fn query_select_foo_and_join_bar() {
    let join = Join {
        join_type: JoinType::Inner,
        target: "target_table",
        clause: "2 == 2"
    };

    let query = Query {
        select: SelectType::All,
        distinct: DistinctType::Empty,
        from: "test_table",
        joins: vec![join],
        group_by: vec![],
        order_by: vec![],
        where_cl: vec![],
        having: vec![],
        limit: LimitType::Empty,
        offset: OffsetType::Empty,
        for_cl: ForType::Empty
    };

    let built = Query::new("test_table").join("target_table", "2 == 2");

    let test_sql_string = {
        "SELECT * \
        FROM test_table \
        INNER JOIN target_table ON 2 == 2".to_string()
    };

    assert!(query == built);
    assert_eq!(query.to_sql(), test_sql_string);
}

#[test]
fn query_select_foo_and_join_bar_and_bazz() {
    let bar_join = Join {
        join_type: JoinType::Inner,
        target: "bar_table",
        clause: "1 == 1"
    };

    let bazz_join = Join {
        join_type: JoinType::Left,
        target: "bazz_table",
        clause: "2 == 2"
    };

    let query = Query {
        select: SelectType::All,
        distinct: DistinctType::Empty,
        from: "test_table",
        joins: vec![bar_join, bazz_join],
        group_by: vec![],
        order_by: vec![],
        where_cl: vec![],
        having: vec![],
        limit: LimitType::Empty,
        offset: OffsetType::Empty,
        for_cl: ForType::Empty
    };

    let built = Query::new("test_table")
        .join("bar_table", "1 == 1")
        .left_join("bazz_table", "2 == 2");

    let test_sql_string = {
        "SELECT * \
        FROM test_table \
        INNER JOIN bar_table ON 1 == 1 \
        LEFT JOIN bazz_table ON 2 == 2".to_string()
    };

    assert!(query == built);
    assert_eq!(query.to_sql(), test_sql_string);
}

#[test]
fn query_select_all_and_group_by_foo() {
    let query = Query {
        select: SelectType::All,
        distinct: DistinctType::Empty,
        from: "test_table",
        joins: vec![],
        group_by: vec!["foo"],
        order_by: vec![],
        where_cl: vec![],
        having: vec![],
        limit: LimitType::Empty,
        offset: OffsetType::Empty,
        for_cl: ForType::Empty
    };

    let built = Query::new("test_table").group_by("foo");

    let test_sql_string = {
        "SELECT * \
        FROM test_table \
        GROUP BY foo".to_string()
    };

    assert!(query == built);
    assert_eq!(query.to_sql(), test_sql_string);
}

#[test]
fn query_select_all_and_group_by_foo_and_bar() {
    let query = Query {
        select: SelectType::All,
        distinct: DistinctType::Empty,
        from: "test_table",
        joins: vec![],
        group_by: vec!["foo", "bar"],
        order_by: vec![],
        where_cl: vec![],
        having: vec![],
        limit: LimitType::Empty,
        offset: OffsetType::Empty,
        for_cl: ForType::Empty
    };

    let built = Query::new("test_table").group_by(&["foo", "bar"]);

    let test_sql_string = {
        "SELECT * \
        FROM test_table \
        GROUP BY foo, bar".to_string()
    };

    assert!(query == built);
    assert_eq!(query.to_sql(), test_sql_string);
}

#[test]
fn query_select_all_and_order_by() {
    let order_by_foo_asc = OrderBy {
        ordering: Direction::Ascending,
        order_by: "foo"
    };

    let query = Query {
        select: SelectType::All,
        distinct: DistinctType::Empty,
        from: "test_table",
        joins: vec![],
        group_by: vec![],
        order_by: vec![order_by_foo_asc],
        where_cl: vec![],
        having: vec![],
        limit: LimitType::Empty,
        offset: OffsetType::Empty,
        for_cl: ForType::Empty
    };

    let built = Query::new("test_table").order_by("foo", Direction::Ascending);

    let test_sql_string = {
        "SELECT * \
        FROM test_table \
        ORDER BY foo ASC".to_string()
    };

    assert!(query == built);
    assert_eq!(query.to_sql(), test_sql_string);
}

#[test]
fn query_select_all_and_multi_order_by() {
    let order_by_foo_asc = OrderBy {
        ordering: Direction::Ascending,
        order_by: "foo"
    };

    let order_by_bar_desc = OrderBy {
        ordering: Direction::Descending,
        order_by: "bar"
    };

    let query = Query {
        select: SelectType::All,
        distinct: DistinctType::Empty,
        from: "test_table",
        joins: vec![],
        group_by: vec![],
        order_by: vec![order_by_foo_asc, order_by_bar_desc],
        where_cl: vec![],
        having: vec![],
        limit: LimitType::Empty,
        offset: OffsetType::Empty,
        for_cl: ForType::Empty
    };

    let built = Query::new("test_table")
        .order_by("foo", Direction::Ascending)
        .order_by("bar", Direction::Descending);

    let test_sql_string = {
        "SELECT * \
        FROM test_table \
        ORDER BY foo ASC, bar DESC".to_string()
    };

    assert!(query == built);
    assert_eq!(query.to_sql(), test_sql_string);
}

#[test]
fn query_select_all_where_simple() {
    let query = Query {
        select: SelectType::All,
        distinct: DistinctType::Empty,
        from: "test_table",
        joins: vec![],
        group_by: vec![],
        order_by: vec![],
        where_cl: vec![Condition::Predicate("foo == bar")],
        having: vec![],
        limit: LimitType::Empty,
        offset: OffsetType::Empty,
        for_cl: ForType::Empty
    };

    let built = Query::new("test_table").where_cl("foo == bar");

    let test_sql_string = {
        "SELECT * \
        FROM test_table \
        WHERE foo == bar".to_string()
    };

    assert!(query == built);
    assert_eq!(query.to_sql(), test_sql_string);
}

#[test]
fn query_select_all_where_extended() {
    let query = Query {
        select: SelectType::All,
        distinct: DistinctType::Empty,
        from: "test_table",
        joins: vec![],
        group_by: vec![],
        order_by: vec![],
        where_cl: vec![Condition::Predicate("foo == bar"), Condition::Predicate("lala == blah")],
        having: vec![],
        limit: LimitType::Empty,
        offset: OffsetType::Empty,
        for_cl: ForType::Empty
    };

    let built = Query::new("test_table").where_cl("foo == bar").where_cl("lala == blah");

    let test_sql_string = {
        "SELECT * \
        FROM test_table \
        WHERE foo == bar AND lala == blah".to_string()
    };

    assert!(query == built);
    assert_eq!(query.to_sql(), test_sql_string);
}

#[test]
fn query_select_all_with_having() {
    let query = Query {
        select: SelectType::All,
        distinct: DistinctType::Empty,
        from: "test_table",
        joins: vec![],
        group_by: vec![],
        order_by: vec![],
        where_cl: vec![],
        having: vec![Condition::Predicate("foo == bar")],
        limit: LimitType::Empty,
        offset: OffsetType::Empty,
        for_cl: ForType::Empty
    };

    let built = Query::new("test_table").having("foo == bar");

    let test_sql_string = {
        "SELECT * \
        FROM test_table \
        HAVING foo == bar".to_string()
    };

    assert!(query == built);
    assert_eq!(query.to_sql(), test_sql_string);
}

#[test]
fn query_select_all_with_extended_having() {
    let query = Query {
        select: SelectType::All,
        distinct: DistinctType::Empty,
        from: "test_table",
        joins: vec![],
        group_by: vec![],
        order_by: vec![],
        where_cl: vec![],
        having: vec![Condition::Predicate("foo == bar"), Condition::Predicate("lala == blah")],
        limit: LimitType::Empty,
        offset: OffsetType::Empty,
        for_cl: ForType::Empty
    };

    let built = Query::new("test_table").having("foo == bar").having("lala == blah");

    let test_sql_string = {
        "SELECT * \
        FROM test_table \
        HAVING foo == bar AND lala == blah".to_string()
    };

    assert!(query == built);
    assert_eq!(query.to_sql(), test_sql_string);
}

#[test]
fn query_select_all_distinct_simple() {
    let query = Query {
        select: SelectType::All,
        distinct: DistinctType::Simple,
        from: "test_table",
        joins: vec![],
        group_by: vec![],
        order_by: vec![],
        where_cl: vec![],
        having: vec![],
        limit: LimitType::Empty,
        offset: OffsetType::Empty,
        for_cl: ForType::Empty
    };

    let built = Query::new("test_table").distinct();

    let test_sql_string = {
        "SELECT DISTINCT * \
        FROM test_table".to_string()
    };

    assert!(query == built);
    assert_eq!(query.to_sql(), test_sql_string);
}

#[test]
fn query_select_all_distinct_extended() {
    let query = Query {
        select: SelectType::All,
        distinct: DistinctType::Extended(vec!["foo", "bar"]),
        from: "test_table",
        joins: vec![],
        group_by: vec![],
        order_by: vec![],
        where_cl: vec![],
        having: vec![],
        limit: LimitType::Empty,
        offset: OffsetType::Empty,
        for_cl: ForType::Empty
    };

    let built = Query::new("test_table").distinct_on("foo").distinct_on("bar");

    let test_sql_string = {
        "SELECT DISTINCT ON (foo, bar) * \
        FROM test_table".to_string()
    };

    assert!(query == built);
    assert_eq!(query.to_sql(), test_sql_string);
}

#[test]
fn query_select_all_for_update() {
    let for_foo = For {
        mode: ForMode::Update,
        tables: vec![],
        nowait: false
    };

    let query = Query {
        select: SelectType::All,
        distinct: DistinctType::Empty,
        from: "test_table",
        joins: vec![],
        group_by: vec![],
        order_by: vec![],
        where_cl: vec![],
        having: vec![],
        limit: LimitType::Empty,
        offset: OffsetType::Empty,
        for_cl: ForType::Specified(for_foo)
    };

    let built = Query::new("test_table").for_cl(For::update());

    let test_sql_string = {
        "SELECT * \
        FROM test_table \
        FOR UPDATE".to_string()
    };

    assert!(query == built);
    assert_eq!(query.to_sql(), test_sql_string);
}

#[test]
fn query_select_all_for_update_clause() {
    let for_foo = For {
        mode: ForMode::Update,
        tables: vec!["foo", "bar"],
        nowait: false
    };

    let query = Query {
        select: SelectType::All,
        distinct: DistinctType::Empty,
        from: "test_table",
        joins: vec![],
        group_by: vec![],
        order_by: vec![],
        where_cl: vec![],
        having: vec![],
        limit: LimitType::Empty,
        offset: OffsetType::Empty,
        for_cl: ForType::Specified(for_foo)
    };

    let built = Query::new("test_table").for_cl(For::update().table("foo").table("bar"));

    let test_sql_string = {
        "SELECT * \
        FROM test_table \
        FOR UPDATE OF foo, bar".to_string()
    };

    assert!(query == built);
    assert_eq!(query.to_sql(), test_sql_string);
}

#[test]
fn query_test_complex() {
    let for_bazz = For {
        mode: ForMode::Update,
        tables: vec!["foo", "bar"],
        nowait: true
    };

    let order_by_bar_desc = OrderBy {
        ordering: Direction::Descending,
        order_by: "bar"
    };

    let order_by_foo_asc = OrderBy {
        ordering: Direction::Ascending,
        order_by: "foo"
    };

    let bar_join = Join {
        join_type: JoinType::Inner,
        target: "bar_table",
        clause: "1 == 1"
    };

    let bazz_join = Join {
        join_type: JoinType::Left,
        target: "bazz_table",
        clause: "2 == 2"
    };

    let query = Query {
        select: SelectType::Specific(vec!["foo", "bar"]),
        distinct: DistinctType::Extended(vec!["fizz", "bazz"]),
        from: "test_table",
        joins: vec![bar_join, bazz_join],
        group_by: vec!["foo", "bar"],
        order_by: vec![order_by_bar_desc, order_by_foo_asc],
        where_cl: vec![Condition::Predicate("foo == bar"), Condition::Predicate("lala == blah")],
        having: vec![Condition::Predicate("foo == bar"), Condition::Predicate("lala == blah")],
        limit: LimitType::Specified("10"),
        offset: OffsetType::Specified("5"),
        for_cl: ForType::Specified(for_bazz)
    };

    let built = Query::new("test_table")
        .select(&["foo", "bar"])
        .distinct_on(&["fizz", "bazz"])
        .join("bar_table", "1 == 1")
        .left_join("bazz_table", "2 == 2")
        .group_by(&["foo", "bar"])
        .where_cl("foo == bar").where_cl("lala == blah")
        .having("foo == bar").having("lala == blah")
        .order_by("bar", Direction::Descending)
        .order_by("foo", Direction::Ascending)
        .limit("10")
        .offset("5")
        .for_cl(For::update().table(&["foo", "bar"]).nowait());

    let test_sql_string = {
        "SELECT DISTINCT ON (fizz, bazz) foo, bar \
        FROM test_table \
        INNER JOIN bar_table ON 1 == 1 \
        LEFT JOIN bazz_table ON 2 == 2 \
        WHERE foo == bar AND lala == blah \
        GROUP BY foo, bar \
        HAVING foo == bar AND lala == blah \
        ORDER BY bar DESC, foo ASC \
        LIMIT 10 \
        OFFSET 5 \
        FOR UPDATE OF foo, bar NOWAIT".to_string()
    };

    assert!(query == built);
    assert_eq!(query.to_sql(), test_sql_string);
}
