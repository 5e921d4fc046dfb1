use sqlex::insert::Insert;
use sqlex::insert_priority::InsertPriority;
use sqlex::insert_value::InsertValue;
use sqlex::insert_values::InsertValues;

#[test]
fn can_parse_insert() {
    let insert = Insert::parse("INSERT HIGH_PRIORITY IGNORE INTO `my_table` (`col1`, `col2`) VALUES (NULL, DEFAULT), ('foo', 42);").expect("Invalid input");

    assert!(matches!(insert.priority, Some(InsertPriority::High)));
    assert!(insert.ignore);
    assert_eq!(insert.table_name.as_str(), "my_table");
    assert_eq!(
        insert.column_names,
        vec![String::from("col1"), String::from("col2")]
    );
    assert_eq!(insert.values.len(), 2);
}

#[test]
fn can_write_insert() {
    assert_eq!(
        Insert {
            priority: Some(InsertPriority::High),
            ignore: true,
            table_name: String::from("my_table"),
            column_names: vec![String::from("col1"), String::from("col2")],
            values: vec![InsertValues(vec![InsertValue::Null, InsertValue::Default]), InsertValues(vec![InsertValue::Text { value: String::from("foo") }, InsertValue::Number { value: String::from("42") }])]
        }
        .to_string()
        .as_str(),
        "INSERT HIGH_PRIORITY IGNORE INTO `my_table` (`col1`, `col2`) VALUES (NULL, DEFAULT), ('foo', 42)"
    );
}
