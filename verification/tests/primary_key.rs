use sqlex::primary_key::PrimaryKey;

#[test]
fn primary_key_can_parse_single_primary_key_without_name() {
    let primary_key = PrimaryKey::parse("PRIMARY KEY (`id`),").expect("Invalid input");

    assert!(primary_key.name.is_none());
    assert_eq!(primary_key.column_names, vec![String::from("id")]);
}

#[test]
fn primary_key_can_parse_multiple_primary_key_without_name() {
    let primary_key = PrimaryKey::parse("PRIMARY KEY (`id1`, `id2`, `id3`),").expect("Invalid input");

    assert!(primary_key.name.is_none());
    assert_eq!(
        primary_key.column_names,
        vec![
            String::from("id1"),
            String::from("id2"),
            String::from("id3"),
        ]
    );
}

#[test]
fn primary_key_can_parse_single_primary_key_with_name() {
    let primary_key = PrimaryKey::parse("CONSTRAINT `pk` PRIMARY KEY (`id`),").expect("Invalid input");

    assert_eq!(primary_key.name.unwrap().as_str(), "pk");
    assert_eq!(primary_key.column_names, vec![String::from("id")]);
}

#[test]
fn primary_key_can_parse_multiple_primary_key_with_name() {
    let primary_key = PrimaryKey::parse("CONSTRAINT `pk` PRIMARY KEY (`id1`, `id2`, `id3`),").expect("Invalid input");

    assert_eq!(primary_key.name.unwrap().as_str(), "pk");
    assert_eq!(
        primary_key.column_names,
        vec![
            String::from("id1"),
            String::from("id2"),
            String::from("id3"),
        ]
    )
}

#[test]
fn primary_key_can_write_primary_key_without_name() {
    let primary_key = PrimaryKey {
        name: None,
        column_names: vec![String::from("id1"), String::from("id2")],
    };

    assert_eq!(
        primary_key.to_string().as_str(),
        "PRIMARY KEY (`id1`, `id2`)",
    );
}

#[test]
fn primary_key_can_write_primary_key_with_name() {
    let primary_key = PrimaryKey {
        name: Some(String::from("pk")),
        column_names: vec![String::from("id1"), String::from("id2")],
    };

    assert_eq!(
        primary_key.to_string().as_str(),
        "CONSTRAINT `pk` PRIMARY KEY (`id1`, `id2`)",
    );
}
