use sqlex::foreign_key::ForeignKey;

#[test]
fn foreign_key_can_parse_single_foreign_key_without_name() {
    let foreign_key = ForeignKey::parse("FOREIGN KEY (`column_id`) REFERENCES `column` (`id`),").expect("Invalid input");

    assert!(foreign_key.name.is_none());
    assert_eq!(
        foreign_key.local_column_names,
        vec![String::from("column_id")]
    );
    assert_eq!(foreign_key.foreign_column_names, vec![String::from("id")]);
}

#[test]
fn foreign_key_can_parse_multiple_foreign_key_without_name() {
    let foreign_key = ForeignKey::parse("FOREIGN KEY (`column_id`, `column_name`) REFERENCES `column` (`id`, `name`),").expect("Invalid input");

    assert!(foreign_key.name.is_none());
    assert_eq!(
        foreign_key.local_column_names,
        vec![String::from("column_id"), String::from("column_name")]
    );
    assert_eq!(
        foreign_key.foreign_column_names,
        vec![String::from("id"), String::from("name")]
    );
}

#[test]
fn foreign_key_can_parse_single_foreign_key_with_name() {
    let foreign_key = ForeignKey::parse("CONSTRAINT `fk_column_id` FOREIGN KEY (`column_id`) REFERENCES `column` (`id`),").expect("Invalid input");

    assert_eq!(foreign_key.name.unwrap().as_str(), "fk_column_id");
    assert_eq!(
        foreign_key.local_column_names,
        vec![String::from("column_id")]
    );
    assert_eq!(foreign_key.foreign_column_names, vec![String::from("id")]);
}

#[test]
fn foreign_key_can_parse_multiple_foreign_key_with_name() {
    let foreign_key = ForeignKey::parse("CONSTRAINT `fk_column` FOREIGN KEY (`column_id`, `column_name`) REFERENCES `column` (`id`, `name`),").expect("Invalid input");

    assert_eq!(foreign_key.name.unwrap().as_str(), "fk_column");
    assert_eq!(
        foreign_key.local_column_names,
        vec![String::from("column_id"), String::from("column_name")]
    );
    assert_eq!(
        foreign_key.foreign_column_names,
        vec![String::from("id"), String::from("name")]
    );
}

#[test]
fn can_parse_foreign_key_with_on_update() {
    let foreign_key = ForeignKey::parse("CONSTRAINT `fk_column` FOREIGN KEY (`column_id`) REFERENCES `column` (`id`) ON UPDATE CASCADE,").expect("Invalid input");

    assert_eq!(foreign_key.on_update.unwrap().as_str(), "CASCADE");
}

#[test]
fn foreign_key_can_write_foreign_key_without_name() {
    let foreign_key = ForeignKey {
        name: None,
        local_column_names: vec![String::from("column_id"), String::from("column_name")],
        foreign_column_names: vec![String::from("id"), String::from("name")],
        foreign_table_name: String::from("column"),
        on_update: None,
    };

    assert_eq!(
        foreign_key.to_string().as_str(),
        "FOREIGN KEY (`column_id`, `column_name`) REFERENCES `column` (`id`, `name`)",
    );
}

#[test]
fn foreign_key_can_write_foreign_key_with_name() {
    let foreign_key = ForeignKey {
        name: Some(String::from("fk_column")),
        local_column_names: vec![String::from("column_id"), String::from("column_name")],
        foreign_column_names: vec![String::from("id"), String::from("name")],
        foreign_table_name: String::from("column"),
        on_update: None,
    };

    assert_eq!(
        foreign_key.to_string().as_str(),
        "CONSTRAINT `fk_column` FOREIGN KEY (`column_id`, `column_name`) REFERENCES `column` (`id`, `name`)",
    );
}

#[test]
fn can_write_foreign_key_with_on_update() {
    assert_eq!(
        ForeignKey {
            name: Some(String::from("fk_column")),
            local_column_names: vec![String::from("column_id"), String::from("column_name")],
            foreign_column_names: vec![String::from("id"), String::from("name")],
            foreign_table_name: String::from("column"),
            on_update: Some(String::from("CASCADE")),
        }
        .to_string()
        .as_str(),
        "CONSTRAINT `fk_column` FOREIGN KEY (`column_id`, `column_name`) REFERENCES `column` (`id`, `name`) ON UPDATE CASCADE",
    );
}
