use lithium::builder::Builder;
use lithium::common::{AsStr, Pusheable, Subquery, ToSQL};
use lithium::insert::{Insert, Values};
use lithium::query::Query;
use lithium::select::{
    Direction, DistinctType, For, ForMode, ForType, JoinType, LimitType, OffsetType, Select,
    SelectType, Union, UnionMode,
};
use lithium::text::{join_strings, join_strs};
use lithium::update::Update;
use lithium::where_cl::{conditions_to_sql, CloneToTrait, Condition, Operator, Where};

#[test]
fn empty_group_renders_bare_parentheses() {
    assert_eq!(Where::with_and().to_sql(), "()");
    assert_eq!(Where::with_or().to_sql(), "()");
    assert_eq!(Where::new(Operator::Or).filter(Where::with_and()).to_sql(), "(())");
}

#[test]
fn single_child_group_keeps_its_parentheses() {
    assert_eq!(Where::with_and().filter("a").to_sql(), "(a)");
    assert_eq!(Where::with_or().filter("a").to_sql(), "(a)");
    let inner = Where::with_or().filter("x = 1").filter("y = 2");
    assert_eq!(Where::with_and().filter(inner).to_sql(), "((x = 1 OR y = 2))");
}

#[test]
fn group_joins_children_with_its_operator() {
    let group = Where::with_and().filter("foo == bar").filter("lala == blah");
    assert_eq!(group.to_sql(), "(foo == bar AND lala == blah)");
    let group = Where::with_or().filter("a").filter("b").filter("c");
    assert_eq!(group.to_sql(), "(a OR b OR c)");
}

#[test]
fn adding_a_child_extends_the_text_before_the_closing_parenthesis() {
    let two = Where::with_or().filter("a").filter("b");
    let before = two.to_sql();
    let three = two.filter("c");
    let expected = format!("{} OR c)", &before[..before.len() - 1]);
    assert_eq!(three.to_sql(), expected);
}

#[test]
fn nested_groups_are_not_flattened() {
    let left = Where::with_and().filter("a").filter("b");
    let right = Where::with_and().filter("c").filter("d");
    let tree = Where::with_or().filter(left).filter(right);
    assert_eq!(tree.to_sql(), "((a AND b) OR (c AND d))");
}

#[test]
fn children_keep_the_order_of_the_calls() {
    let forward = Where::with_and().filter("a").filter("b");
    let backward = Where::with_and().filter("b").filter("a");
    assert_eq!(forward.to_sql(), "(a AND b)");
    assert_eq!(backward.to_sql(), "(b AND a)");
}

#[test]
fn predicate_is_taken_verbatim() {
    assert_eq!("a = 'x;' -- y".to_sql(), "a = 'x;' -- y");
    assert_eq!("".to_sql(), "");
    assert_eq!(Condition::Predicate("").to_sql(), "");
    assert_eq!(Where::with_and().filter("").filter("").to_sql(), "( AND )");
}

#[test]
fn conditions_convert_to_what_they_render() {
    let text = "a = b";
    assert!(text.clone_to_trait() == Condition::Predicate("a = b"));
    let group = Where::with_or().filter("a").filter("b");
    let condition = group.clone_to_trait();
    assert_eq!(condition.to_sql(), group.to_sql());
    assert_eq!(condition.clone_to_trait().to_sql(), "(a OR b)");
    assert!(condition.clone() == condition);
}

#[test]
fn condition_lists_are_joined_by_the_separator() {
    let list = vec![
        Condition::Predicate("a"),
        Condition::Group(Where::with_or().filter("b").filter("c")),
    ];
    assert_eq!(conditions_to_sql(&list, " AND "), "a AND (b OR c)");
    assert_eq!(conditions_to_sql(&Vec::new(), " AND "), "");
}

#[test]
fn joining_puts_the_separator_between_neighbours_only() {
    assert_eq!(join_strs(&vec![], ", "), "");
    assert_eq!(join_strs(&vec!["a"], ", "), "a");
    assert_eq!(join_strs(&vec!["a", "b", "c"], ", "), "a, b, c");
    assert_eq!(join_strs(&vec!["", ""], "-"), "-");
    assert_eq!(join_strings(&vec![], ", "), "");
    assert_eq!(join_strings(&vec!["a".to_string()], ", "), "a");
    assert_eq!(join_strings(&vec!["a".to_string(), "b".to_string()], " AND "), "a AND b");
}

#[test]
fn statement_on_a_table_selects_everything() {
    assert_eq!(Select::from("t").to_sql(), "SELECT * FROM t");
    assert_eq!(Query::new("t").to_sql(), "SELECT * FROM t");
    assert_eq!(Builder::from("t").build().to_sql(), "SELECT * FROM t");
}

#[test]
fn named_columns_are_separated_by_commas() {
    assert_eq!(Select::from("t").columns(&["foo", "bar"]).to_sql(), "SELECT foo, bar FROM t");
    assert_eq!(Query::new("t").select(&["foo", "bar"]).to_sql(), "SELECT foo, bar FROM t");
}

#[test]
fn list_clauses_append() {
    let query = Select::from("t")
        .columns("a")
        .columns(&["b", "c"])
        .distinct_on("d")
        .distinct_on(&["e"])
        .group_by(&["f"])
        .group_by("g")
        .order_by("h", Direction::Ascending)
        .order_by("i", Direction::Descending)
        .filter("j")
        .filter("k")
        .having("l")
        .having("m")
        .join("n", "1")
        .right_join("o", "2")
        .outer_join("p", "3");
    let expected = "SELECT DISTINCT ON (d, e) a, b, c FROM t \
        INNER JOIN n ON 1 RIGHT JOIN o ON 2 OUTER JOIN p ON 3 \
        WHERE j AND k GROUP BY f, g HAVING l AND m ORDER BY h ASC, i DESC";
    assert_eq!(query.to_sql(), expected);
}

#[test]
fn scalar_clauses_replace() {
    let query = Select::from("t")
        .limit("1")
        .limit("2")
        .offset("3")
        .offset("4")
        .for_(For::update())
        .for_(For::share().nowait())
        .distinct_on("a")
        .distinct();
    assert_eq!(query.to_sql(), "SELECT DISTINCT * FROM t LIMIT 2 OFFSET 4 FOR SHARE NOWAIT");

    let query = Query::new("t")
        .limit("1")
        .limit("2")
        .offset("3")
        .offset("4")
        .for_cl(For::update())
        .for_cl(For::share().nowait());
    assert_eq!(query.to_sql(), "SELECT * FROM t LIMIT 2 OFFSET 4 FOR SHARE NOWAIT");
}

#[test]
fn removed_clauses_leave_no_trace() {
    let query = Select::from("t")
        .columns("a")
        .select_all()
        .distinct()
        .remove_distinct()
        .limit("1")
        .remove_limit()
        .offset("2")
        .remove_offset()
        .for_(For::update())
        .remove_for();
    assert!(query == Select::from("t"));
    assert_eq!(query.to_sql(), "SELECT * FROM t");

    let query = Query::new("t")
        .select("a")
        .select_all()
        .distinct()
        .clear_distinct()
        .limit("1")
        .clear_limit()
        .offset("2")
        .clear_offset()
        .for_cl(For::update())
        .clear_for();
    assert!(query == Query::new("t"));
    assert_eq!(query.to_sql(), "SELECT * FROM t");
}

#[test]
fn distinct_on_after_distinct_starts_a_new_list() {
    let query = Select::from("t").distinct().distinct_on(&["a", "b"]);
    assert!(query.distinct == DistinctType::Extended(vec!["a", "b"]));
    assert_eq!(query.to_sql(), "SELECT DISTINCT ON (a, b) * FROM t");
}

#[test]
fn empty_array_adds_no_item() {
    let none: [&str; 0] = [];
    let mut list = vec!["a"];
    (&none).push_to(&mut list);
    assert_eq!(list, vec!["a"]);
    (&["b", "c", "d"]).push_to(&mut list);
    "e".push_to(&mut list);
    assert_eq!(list, vec!["a", "b", "c", "d", "e"]);
    let query = Select::from("t").group_by(&none);
    assert_eq!(query.to_sql(), "SELECT * FROM t");
    let query = Select::from("t").columns(&none);
    assert!(query.select_type == SelectType::Specific(vec![]));
    assert_eq!(query.to_sql(), "SELECT  FROM t");
}

fn full_statement<'a>() -> Select<'a> {
    let condition = Where::with_and().filter("foo = bar").filter("lala = blah");
    Select::from("test_table")
        .distinct_on(&["fizz", "bazz"])
        .columns(&["foo", "bar"])
        .join("bar_table", "1 = 1")
        .left_join("bazz_table", "2 = 2")
        .group_by(&["foo", "bar"])
        .filter(condition.clone())
        .having(condition)
        .order_by("bar", Direction::Descending)
        .order_by("foo", Direction::Ascending)
        .limit("10")
        .offset("5")
        .for_(For::update().table(&["foo", "bar"]).nowait())
}

const FULL_TEXT: &str = "SELECT DISTINCT ON (fizz, bazz) foo, bar FROM test_table \
    INNER JOIN bar_table ON 1 = 1 LEFT JOIN bazz_table ON 2 = 2 \
    WHERE (foo = bar AND lala = blah) GROUP BY foo, bar \
    HAVING (foo = bar AND lala = blah) ORDER BY bar DESC, foo ASC \
    LIMIT 10 OFFSET 5 FOR UPDATE OF foo, bar NOWAIT";

#[test]
fn every_clause_end_to_end() {
    assert_eq!(full_statement().to_sql(), FULL_TEXT);
}

#[test]
fn clause_order_does_not_follow_call_order() {
    let condition = Where::with_and().filter("foo = bar").filter("lala = blah");
    let scrambled = Select::from("test_table")
        .for_(For::update().table(&["foo", "bar"]).nowait())
        .offset("5")
        .limit("10")
        .order_by("bar", Direction::Descending)
        .having(condition.clone())
        .group_by(&["foo", "bar"])
        .filter(condition)
        .join("bar_table", "1 = 1")
        .columns(&["foo", "bar"])
        .order_by("foo", Direction::Ascending)
        .left_join("bazz_table", "2 = 2")
        .distinct_on(&["fizz", "bazz"]);
    assert!(scrambled == full_statement());
    assert_eq!(scrambled.to_sql(), FULL_TEXT);
}

#[test]
fn keywords_ascend_in_the_text() {
    let text = full_statement().to_sql();
    let keywords = [
        "SELECT", " FROM ", " INNER JOIN ", " LEFT JOIN ", " WHERE ", " GROUP BY ", " HAVING ",
        " ORDER BY ", " LIMIT ", " OFFSET ", " FOR ",
    ];
    let mut last = 0;
    for (index, keyword) in keywords.iter().enumerate() {
        let at = text.find(keyword).unwrap();
        assert!(index == 0 || at > last);
        assert_eq!(text.matches(keyword).count(), 1);
        last = at;
    }
    assert_eq!(text.find("SELECT"), Some(0));
}

#[test]
fn rendering_twice_gives_the_same_text() {
    let select = full_statement();
    assert_eq!(select.to_sql(), select.to_sql());
    let query = Query::new("t").where_cl("a").limit("1");
    assert_eq!(query.to_sql(), query.to_sql());
    let update = Update::new("t").set("a = 1").filter("b");
    assert_eq!(update.to_sql(), update.to_sql());
    let insert = Insert::into("t").values(vec!["1"]);
    assert_eq!(insert.to_sql(), insert.to_sql());
    let group = Where::with_or().filter("a").filter("b");
    assert_eq!(group.to_sql(), group.to_sql());
    assert_eq!(select.clone().to_sql(), select.to_sql());
    assert!(select.clone() == select);
}

#[test]
fn subquery_wraps_in_parentheses() {
    let subquery = Subquery::new("blah".to_string());
    assert_eq!(subquery.query, "(blah)".to_string());
    assert!(subquery.alias.is_none());
    assert_eq!((&subquery).as_str(), "(blah)");
}

#[test]
fn subquery_alias_is_appended() {
    let subquery = Subquery::new("blah".to_string()).with_alias("foo");
    assert_eq!(subquery.query, "(blah) AS foo".to_string());
    assert_eq!(subquery.alias, Some("foo"));
    let twice = subquery.clone().with_alias("bar");
    assert_eq!(twice.query, "(blah) AS foo AS bar");
    assert_eq!(twice.alias, Some("bar"));
}

#[test]
fn subquery_as_from_target() {
    let subquery = Select::from("foo").as_subquery().with_alias("x");
    assert_eq!(Select::from(&subquery).to_sql(), "SELECT * FROM (SELECT * FROM foo) AS x");
    assert_eq!(Select::from("foo").as_subquery().query, "(SELECT * FROM foo)");
}

#[test]
fn union_connects_two_statements() {
    let union = Union::new(UnionMode::All, Select::from("a"), Select::from("b"));
    assert_eq!(union.to_sql(), "SELECT * FROM a UNION ALL SELECT * FROM b");
    let union = Union::new(UnionMode::Simple, Select::from("a"), Query::new("b"));
    assert_eq!(union.to_sql(), "SELECT * FROM a UNION SELECT * FROM b");
}

#[test]
fn nested_unions_add_no_parentheses() {
    let a = Select::from("a");
    let b = Select::from("b");
    let c = Select::from("c");
    let expected = "SELECT * FROM a UNION SELECT * FROM b UNION ALL SELECT * FROM c";
    let left = Union::new(UnionMode::All, Union::new(UnionMode::Simple, &a, &b), &c);
    assert_eq!(left.to_sql(), expected);
    let right = Union::new(UnionMode::Simple, &a, Union::new(UnionMode::All, &b, &c));
    assert_eq!(right.to_sql(), expected);
    assert_eq!((&left).to_sql(), expected);
}

#[test]
fn builder_changes_in_place() {
    let mut builder = Builder::from("t");
    builder.select(&["a"]).select(&["b", "c"]).distinct().join("u", "t.a = u.a");
    assert_eq!(builder.build().to_sql(), "SELECT DISTINCT a, b, c FROM t INNER JOIN u ON t.a = u.a");
    builder.distinct_on(&["a"]).distinct_on(&["b"]);
    assert_eq!(
        builder.build().to_sql(),
        "SELECT DISTINCT ON (a, b) a, b, c FROM t INNER JOIN u ON t.a = u.a"
    );
    builder.clear_distinct().select_all();
    assert_eq!(builder.build().to_sql(), "SELECT * FROM t INNER JOIN u ON t.a = u.a");
    assert!(builder.build() == Query::new("t").join("u", "t.a = u.a"));
    assert!(builder.build() == builder.build());
}

#[test]
fn query_push_join_takes_every_kind() {
    let query = Query::new("t")
        .push_join(JoinType::Outer, "a", "1")
        .right_join("b", "2")
        .outer_join("c", "3")
        .left_join("d", "4")
        .join("e", "5");
    let expected = "SELECT * FROM t OUTER JOIN a ON 1 RIGHT JOIN b ON 2 OUTER JOIN c ON 3 \
        LEFT JOIN d ON 4 INNER JOIN e ON 5";
    assert_eq!(query.to_sql(), expected);
}

#[test]
fn query_takes_groups_in_where_and_having() {
    let group = Where::with_or().filter("a").filter("b");
    let query = Query::new("t").where_cl(group.clone()).where_cl("c").having(group);
    assert_eq!(query.to_sql(), "SELECT * FROM t WHERE (a OR b) AND c HAVING (a OR b)");
    let record = Query {
        select: SelectType::All,
        distinct: DistinctType::Empty,
        from: "t",
        joins: vec![],
        group_by: vec![],
        order_by: vec![],
        where_cl: vec![],
        having: vec![],
        limit: LimitType::Specified("7"),
        offset: OffsetType::Empty,
        for_cl: ForType::Empty,
    };
    assert!(record == Query::new("t").limit("7"));
    assert!(record.clone() == record);
}

#[test]
fn lock_clause_forms() {
    assert_eq!(For::new(ForMode::Share).to_sql(), "FOR SHARE");
    assert_eq!(For::share().nowait().to_sql(), "FOR SHARE NOWAIT");
    assert_eq!(For::update().table("a").to_sql(), "FOR UPDATE OF a");
    assert_eq!(For::update().table(&["a", "b"]).table("c").to_sql(), "FOR UPDATE OF a, b, c");
    let lock = For::update().table("a").nowait();
    assert!(lock.clone() == lock);
}

#[test]
fn insert_sources_replace_each_other() {
    assert_eq!(Values::Default.to_sql(), "DEFAULT VALUES");
    assert_eq!(Values::Specified(vec![vec!["1", "2"], vec![]]).to_sql(), "VALUES (1, 2), ()");
    assert_eq!(Values::Select(Select::from("t")).to_sql(), "SELECT * FROM t");
    assert_eq!(Values::Default.with_row(vec!["1"]).to_sql(), "VALUES (1)");

    let insert = Insert::into("t").values(vec!["1"]).query(Select::from("u"));
    assert_eq!(insert.to_sql(), "INSERT INTO t SELECT * FROM u");
    let insert = insert.values(vec!["2", "3"]).values(vec!["4", "5"]);
    assert_eq!(insert.to_sql(), "INSERT INTO t VALUES (2, 3), (4, 5)");
    assert!(insert.clone() == insert);
}

#[test]
fn insert_returning_forms() {
    let insert = Insert::into("foo").values(vec!["bar"]).returning_all();
    assert_eq!(insert.to_sql(), "INSERT INTO foo VALUES (bar) RETURNING *");
    let insert = insert.returning(&["a", "b"]);
    assert_eq!(insert.to_sql(), "INSERT INTO foo VALUES (bar) RETURNING a, b");
    let insert = insert.remove_returning();
    assert_eq!(insert.to_sql(), "INSERT INTO foo VALUES (bar)");
    let insert = Insert::into("foo").columns(&["bar", "bazz"]).columns("fizz");
    assert_eq!(insert.to_sql(), "INSERT INTO foo (bar, bazz, fizz) DEFAULT VALUES");
}

#[test]
fn update_clause_forms() {
    let update = Update::new("foo").set("a = 1").set(&["b = 2", "c = 3"]);
    assert_eq!(update.to_sql(), "UPDATE foo SET a = 1, b = 2, c = 3");
    let update = update.from("x").from("blah");
    assert_eq!(update.to_sql(), "UPDATE foo SET a = 1, b = 2, c = 3 FROM blah");
    let update = update.remove_from();
    assert_eq!(update.to_sql(), "UPDATE foo SET a = 1, b = 2, c = 3");
    assert_eq!(Update::new("foo").to_sql(), "UPDATE foo SET ");

    let where_cl = Where::with_or().filter("a > 2").filter("b < 3");
    let update = Update::new("foo").set("a = 2").filter(where_cl).filter("c > 4");
    assert_eq!(update.to_sql(), "UPDATE foo SET a = 2 WHERE (a > 2 OR b < 3) AND c > 4");
    let update = update.returning("a").returning(&["b", "c"]);
    assert_eq!(
        update.to_sql(),
        "UPDATE foo SET a = 2 WHERE (a > 2 OR b < 3) AND c > 4 RETURNING a, b, c"
    );
    let update = update.returning_all();
    assert!(update.to_sql().ends_with(" RETURNING *"));
    let update = update.empty_returning();
    assert_eq!(update.to_sql(), "UPDATE foo SET a = 2 WHERE (a > 2 OR b < 3) AND c > 4");
    assert!(update.clone() == update);
}
