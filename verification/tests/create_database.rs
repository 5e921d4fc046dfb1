use sqlex::create_database::CreateDatabase;
use sqlex::database_option::DatabaseOption;

#[test]
fn create_database_can_parse_create_database() {
    let create_database = CreateDatabase::parse("CREATE DATABASE IF NOT EXISTS `vpay` DEFAULT CHARACTER SET utf8mb4 COLLATE utf8mb4_0900_ai_ci DEFAULT ENCRYPTION='N';").expect("Invalid input");

    assert_eq!(create_database.name.as_str(), "vpay");
    assert!(create_database.if_not_exists);
    assert_eq!(create_database.options.len(), 3);
}

#[test]
fn can_write_create_database() {
    assert_eq!(
        CreateDatabase {
            name: String::from("my_db"),
            if_not_exists: true,
            options: vec![
                DatabaseOption::CharacterSet { default: true, value: String::from("utf8mb4") },
                DatabaseOption::Collate { default: false, value: String::from("utf8mb4_0900_ai_ci") },
                DatabaseOption::Encryption { default: true, value: String::from("N") },
            ]
        }
        .to_string()
        .as_str(),
        "CREATE DATABASE IF NOT EXISTS `my_db` DEFAULT CHARACTER SET utf8mb4 COLLATE utf8mb4_0900_ai_ci DEFAULT ENCRYPTION='N'"
    );
}
