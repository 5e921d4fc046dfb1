use std::ops::Not;
use sqlex::database_option::DatabaseOption;

#[test]
fn mod_can_parse_database_options() {
    let database_options = DatabaseOption::parse_all("DEFAULT CHARACTER SET utf8mb4 COLLATE utf8mb4_general_ci DEFAULT ENCRYPTION='N'").expect("Invalid input");

    match &database_options[0] {
        DatabaseOption::CharacterSet { default, value } => {
            assert!(default);
            assert_eq!(value.as_str(), "utf8mb4");
        }
        _ => panic!("Expected character set"),
    };

    match &database_options[1] {
        DatabaseOption::Collate { default, value } => {
            assert!(default.not());
            assert_eq!(value.as_str(), "utf8mb4_general_ci");
        }
        _ => panic!("Expected collate"),
    }

    match &database_options[2] {
        DatabaseOption::Encryption { default, value } => {
            assert!(default);
            assert_eq!(value.as_str(), "N");
        }
        _ => panic!("Expected encryption"),
    }

    assert_eq!(database_options.len(), 3);
}

#[test]
fn mod_can_write_database_options() {
    assert_eq!(
        vec![
            DatabaseOption::CharacterSet {
                default: true,
                value: String::from("utf8mb4")
            },
            DatabaseOption::Collate {
                default: false,
                value: String::from("utf8mb4_general_ci")
            },
            DatabaseOption::Encryption {
                default: true,
                value: String::from("N")
            }
        ]
        .into_iter()
        .map(|opt| opt.as_sql().trim().to_string())
        .collect::<Vec<String>>()
        .join(" ")
        .as_str(),
        "DEFAULT CHARACTER SET utf8mb4 COLLATE utf8mb4_general_ci DEFAULT ENCRYPTION='N'"
    );
}
