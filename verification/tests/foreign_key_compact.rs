use sqlex::foreign_key::ForeignKey;

#[test]
fn mod_can_parse_single_foreign_key_without_name() {
    let foreign_key = ForeignKey::parse("FOREIGN KEY (`column_id`) REFERENCES `column` (`id`),").expect("Invalid input");

    assert!(foreign_key.name.is_none());
    assert_eq!(
        foreign_key.local_column_names,
        vec![String::from("column_id")]
    );
    assert_eq!(foreign_key.foreign_column_names, vec![String::from("id")]);
}

#[test]
fn mod_can_parse_multiple_foreign_key_without_name() {
    let foreign_key = ForeignKey::parse("FOREIGN KEY (`column_id`, `column_name`) REFERENCES `column` (`id`, `name`),").expect("Invalid input");

    assert!(foreign_key.name.is_none());
    assert_eq!(
        foreign_key.local_column_names,
        vec![String::from("column_id"), String::from("column_name")]
    );
    assert_eq!(
        foreign_key.foreign_column_names,
        vec![String::from("id"), String::from("name")]
    );
}

#[test]
fn mod_can_parse_single_foreign_key_with_name() {
    let foreign_key = ForeignKey::parse("CONSTRAINT `fk_column_id` FOREIGN KEY (`column_id`) REFERENCES `column` (`id`),").expect("Invalid input");

    assert_eq!(foreign_key.name.unwrap().as_str(), "fk_column_id");
    assert_eq!(
        foreign_key.local_column_names,
        vec![String::from("column_id")]
    );
    assert_eq!(foreign_key.foreign_column_names, vec![String::from("id")]);
}

#[test]
fn mod_can_parse_multiple_foreign_key_with_name() {
    let foreign_key = ForeignKey::parse("CONSTRAINT `fk_column` FOREIGN KEY (`column_id`, `column_name`) REFERENCES `column` (`id`, `name`),").expect("Invalid input");

    assert_eq!(foreign_key.name.unwrap().as_str(), "fk_column");
    assert_eq!(
        foreign_key.local_column_names,
        vec![String::from("column_id"), String::from("column_name")]
    );
    assert_eq!(
        foreign_key.foreign_column_names,
        vec![String::from("id"), String::from("name")]
    );
}

#[test]
fn mod_can_write_foreign_key_without_name() {
    let foreign_key = ForeignKey {
        name: None,
        local_column_names: vec![String::from("column_id"), String::from("column_name")],
        foreign_column_names: vec![String::from("id"), String::from("name")],
        foreign_table_name: String::from("column"),
        on_update: None,
    };

    assert_eq!(
        foreign_key.as_sql().trim(),
        "FOREIGN KEY (`column_id`,`column_name`) REFERENCES `column` (`id`,`name`)",
    );
}

#[test]
fn mod_can_write_foreign_key_with_name() {
    let foreign_key = ForeignKey {
        name: Some(String::from("fk_column")),
        local_column_names: vec![String::from("column_id"), String::from("column_name")],
        foreign_column_names: vec![String::from("id"), String::from("name")],
        foreign_table_name: String::from("column"),
        on_update: None,
    };

    assert_eq!(
        foreign_key.as_sql().trim(),
        "CONSTRAINT `fk_column` FOREIGN KEY (`column_id`,`column_name`) REFERENCES `column` (`id`,`name`)",
    );
}
