use std::ops::Not;
use sqlex::index::Index;

#[test]
fn mod_can_parse_single_non_unique_index() {
    let index = Index::parse("KEY `recipient_id` (`recipient_id`),").expect("Invalid input");

    assert_eq!(index.name.as_str(), "recipient_id");
    assert_eq!(index.columns, vec![String::from("recipient_id")]);
    assert!(index.unique.not());
}

#[test]
fn mod_can_parse_multiple_non_unique_index() {
    let index = Index::parse("KEY `recipient` (`recipient_id`, `recipient_name`),").expect("Invalid input");

    assert_eq!(index.name.as_str(), "recipient");
    assert_eq!(
        index.columns,
        vec![String::from("recipient_id"), String::from("recipient_name")]
    );
    assert!(index.unique.not());
}

#[test]
fn mod_can_parse_single_unique_index() {
    let index = Index::parse("UNIQUE KEY `recipient_id` (`recipient_id`),").expect("Invalid input");

    assert_eq!(index.name.as_str(), "recipient_id");
    assert_eq!(index.columns, vec![String::from("recipient_id")]);
    assert!(index.unique);
}

#[test]
fn mod_can_parse_multiple_unique_index() {
    let index = Index::parse("UNIQUE KEY `recipient` (`recipient_id`, `recipient_name`),").expect("Invalid input");

    assert_eq!(index.name.as_str(), "recipient");
    assert_eq!(
        index.columns,
        vec![String::from("recipient_id"), String::from("recipient_name")]
    );
    assert!(index.unique);
}

#[test]
fn mod_can_write_non_unique_index() {
    let index = Index {
        name: String::from("recipient"),
        columns: vec![String::from("recipient_id"), String::from("recipient_name")],
        unique: false,
    };

    assert_eq!(
        index.as_sql().trim(),
        "KEY `recipient` (`recipient_id`,`recipient_name`)",
    );
}

#[test]
fn mod_can_write_unique_index() {
    let index = Index {
        name: String::from("recipient"),
        columns: vec![String::from("recipient_id"), String::from("recipient_name")],
        unique: true,
    };

    assert_eq!(
        index.as_sql().trim(),
        "UNIQUE KEY `recipient` (`recipient_id`,`recipient_name`)",
    );
}
