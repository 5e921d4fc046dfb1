use sqlex::assignments::{Assignment, AssignmentKey, AssignmentValue};
use sqlex::create_database::CreateDatabase;
use sqlex::database_option::DatabaseOption;
use sqlex::drop_table::DropTable;
use sqlex::error::ParseError;
use sqlex::index::Index;
use sqlex::insert::Insert;
use sqlex::insert_priority::{InsertPriority, Priority};
use sqlex::insert_value::InsertValue;
use sqlex::insert_values::InsertValues;
use sqlex::set::SetStatement;
use sqlex::update::Update;
use sqlex::use_database::UseDatabase;
use sqlex::where_stmts::Where;

#[test]
fn create_database_keeps_the_order_of_its_options() {
    let parsed = CreateDatabase::parse(
        "CREATE DATABASE IF NOT EXISTS `vpay` DEFAULT CHARACTER SET utf8mb4 COLLATE utf8mb4_0900_ai_ci DEFAULT ENCRYPTION='N';",
    )
    .unwrap();
    assert_eq!(parsed.name, "vpay");
    assert!(parsed.if_not_exists);
    assert_eq!(
        parsed.options,
        vec![
            DatabaseOption::CharacterSet { default: true, value: String::from("utf8mb4") },
            DatabaseOption::Collate { default: false, value: String::from("utf8mb4_0900_ai_ci") },
            DatabaseOption::Encryption { default: true, value: String::from("N") },
        ]
    );
    assert_eq!(
        parsed.as_sql(),
        "CREATE DATABASE IF NOT EXISTS `vpay` DEFAULT CHARACTER SET utf8mb4 COLLATE utf8mb4_0900_ai_ci DEFAULT ENCRYPTION='N';"
    );
}

#[test]
fn insert_rows_keep_their_values() {
    let insert = Insert::parse(
        "INSERT HIGH_PRIORITY IGNORE INTO `my_table` (`col1`, `col2`) VALUES (NULL, DEFAULT), ('foo', 42);",
    )
    .unwrap();
    assert_eq!(insert.priority, Some(InsertPriority::High));
    assert!(insert.ignore);
    assert_eq!(insert.values.len(), 2);
    assert_eq!(insert.values[0], InsertValues(vec![InsertValue::Null, InsertValue::Default]));
    assert_eq!(
        insert.values[1],
        InsertValues(vec![
            InsertValue::Text { value: String::from("foo") },
            InsertValue::Number { value: String::from("42") },
        ])
    );
}

#[test]
fn priorities_have_their_keywords() {
    assert_eq!(InsertPriority::Low.to_string(), "LOW_PRIORITY");
    assert_eq!(InsertPriority::Delayed.as_sql(), "DELAYED");
    assert_eq!(Priority::High.to_string(), "HIGH_PRIORITY");
    let low = Insert::parse("insert low_priority into t values (a)").unwrap();
    assert_eq!(low.priority, Some(InsertPriority::Low));
    assert_eq!(low.values[0].0, vec![InsertValue::Identifier { value: String::from("a") }]);
    let delayed = Insert::parse("INSERT DELAYED INTO t VALUES (1)").unwrap();
    assert_eq!(delayed.to_string(), "INSERT DELAYED INTO `t` VALUES (1)");
}

#[test]
fn drop_table_and_use_render_with_and_without_semicolon() {
    let drop = DropTable { names: vec![String::from("a"), String::from("b")], temporary: true, if_exists: false };
    assert_eq!(drop.to_string(), "DROP TEMPORARY TABLE `a`, `b`");
    assert_eq!(DropTable::parse("drop temporary table a , b;"), Ok(drop));
    assert_eq!(DropTable::parse("DROP TABLE IF t"), Err(ParseError::Grammar { position: 14 }));
    let use_db = UseDatabase::parse("USE `shop`;").unwrap();
    assert_eq!(use_db.name, "shop");
    assert_eq!(use_db.to_string(), "USE `shop`");
    assert_eq!(use_db.as_sql(), "USE `shop`;");
    assert_eq!(UseDatabase::parse("USE `open"), Err(ParseError::Grammar { position: 9 }));
}

#[test]
fn index_accepts_both_keywords() {
    let index = Index::parse("UNIQUE INDEX by_name (first, last)").unwrap();
    assert_eq!(index, Index::new(String::from("by_name"), vec![String::from("first"), String::from("last")], true));
    assert_eq!(index.to_string(), "UNIQUE KEY `by_name` (`first`, `last`)");
    assert_eq!(index.as_sql(), "UNIQUE KEY `by_name` (`first`,`last`)");
    assert_eq!(Index::parse("UNIQUE (a)"), Err(ParseError::Grammar { position: 7 }));
}

#[test]
fn assignments_take_every_kind_of_value() {
    let list = Assignment::parse("`a` = 'x', b = 12, @c = TRUE, d = null, e = word, f = false").unwrap();
    let values: Vec<AssignmentValue> = list.kv_pairs.iter().map(|p| p.value.clone()).collect();
    assert_eq!(
        values,
        vec![
            AssignmentValue::String(String::from("x")),
            AssignmentValue::Number(12),
            AssignmentValue::Boolean(true),
            AssignmentValue::Null,
            AssignmentValue::String(String::from("word")),
            AssignmentValue::Boolean(false),
        ]
    );
    assert_eq!(list.kv_pairs[2].key, AssignmentKey::At(String::from("c")));
    assert_eq!(
        list.to_string(),
        "`a` = 'x', `b` = 12, `@c` = true, `d` = NULL, `e` = 'word', `f` = false"
    );
    assert_eq!(
        Assignment::parse("a = 99999999999999999999999999"),
        Err(ParseError::Conversion { position: 4 })
    );
    assert_eq!(Assignment::parse("a 1"), Err(ParseError::Grammar { position: 2 }));
}

#[test]
fn set_statement_renders_compactly() {
    let set = SetStatement::parse("set @a = 1 , name = 'John'").unwrap();
    assert_eq!(set.to_string(), "SET @a=1, name='John'");
    assert_eq!(set.as_sql(), "SET @a=1, name='John';");
}

#[test]
fn where_keeps_its_parts_as_written() {
    let clause = Where::parse("WHERE `id` >= 'a b'").unwrap();
    assert_eq!(clause.column, "`id`");
    assert_eq!(clause.operator, ">=");
    assert_eq!(clause.value, "'a b'");
    assert_eq!(clause.to_string(), "`id` >= 'a b'");
    assert_eq!(Where::parse("WHERE id LIKE 1"), Err(ParseError::Grammar { position: 9 }));
    assert_eq!(Where::parse("id = 1"), Err(ParseError::Grammar { position: 0 }));
}

#[test]
fn update_without_a_condition_has_no_where() {
    let update = Update::parse("UPDATE t SET a = 1, b = 2").unwrap();
    assert!(update.where_clauses.is_empty());
    assert_eq!(update.set_clauses.len(), 1);
    assert_eq!(update.to_string(), "UPDATE `t` SET `a` = 1, `b` = 2;");
    assert_eq!(update.as_sql(), update.to_string());
}
