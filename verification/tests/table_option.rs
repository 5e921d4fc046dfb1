use std::ops::Not;
use sqlex::table_option::TableOption;

#[test]
fn can_parse_table_options() {
    let table_options = TableOption::parse_all("ENGINE=InnoDB AUTO_INCREMENT=1155053 DEFAULT CHARSET=utf8mb4 COLLATE=utf8mb4_0900_ai_ci STATS_PERSISTENT=0 ROW_FORMAT=DYNAMIC COMMENT='help categories'").expect("Invalid input");

    match table_options.get(0).unwrap() {
        TableOption::Engine { value } => assert_eq!(value.as_str(), "InnoDB"),
        _ => panic!("Expected engine"),
    }

    match table_options.get(1).unwrap() {
        TableOption::AutoIncrement { value } => assert_eq!(*value, 1155053),
        _ => panic!("Expected auto increment"),
    }

    match table_options.get(2).unwrap() {
        TableOption::CharacterSet { default, value } => {
            assert!(default);
            assert_eq!(value.as_str(), "utf8mb4");
        }
        _ => panic!("Expected character set"),
    }

    match table_options.get(3).unwrap() {
        TableOption::Collate { default, value } => {
            assert!(default.not());
            assert_eq!(value.as_str(), "utf8mb4_0900_ai_ci");
        }
        _ => panic!("Expected collate"),
    }

    match table_options.get(4).unwrap() {
        TableOption::StatsPersistent { value } => assert_eq!(value.as_str(), "0"),
        _ => panic!("Expected stats persistent"),
    }

    match table_options.get(5).unwrap() {
        TableOption::RowFormat { value } => assert_eq!(value.as_str(), "DYNAMIC"),
        _ => panic!("Expected row format"),
    }

    match table_options.get(6).unwrap() {
        TableOption::Comment { value } => assert_eq!(value.as_str(), "help categories"),
        _ => panic!("Expected comment"),
    }

    assert_eq!(table_options.len(), 7);
}

#[test]
fn can_write_table_options() {
    assert_eq!(
        vec![
            TableOption::Engine { value: String::from("InnoDB") },
            TableOption::AutoIncrement { value: 1155053 },
            TableOption::CharacterSet { default: true, value: String::from("utf8mb4") },
            TableOption::Collate { default: false, value: String::from("utf8mb4_0900_ai_ci") },
            TableOption::StatsPersistent { value: String::from("0") },
            TableOption::RowFormat { value: String::from("DYNAMIC") },
            TableOption::Comment { value: String::from("help categories") },
        ]
        .into_iter()
        .map(|opt| opt.to_string())
        .collect::<Vec<String>>()
        .join(" ")
        .as_str(),
    "ENGINE=InnoDB AUTO_INCREMENT=1155053 DEFAULT CHARSET=utf8mb4 COLLATE=utf8mb4_0900_ai_ci STATS_PERSISTENT=0 ROW_FORMAT=DYNAMIC COMMENT='help categories'")
}
