use sqlex::create_database::CreateDatabase;

#[test]
fn mod_can_parse_create_database() {
    let create_database = CreateDatabase::parse("CREATE DATABASE IF NOT EXISTS `vpay` DEFAULT CHARACTER SET utf8mb4 COLLATE utf8mb4_0900_ai_ci DEFAULT ENCRYPTION='N';").expect("Invalid input");

    assert_eq!(create_database.name.as_str(), "vpay");
    assert!(create_database.if_not_exists);
    assert_eq!(create_database.options.len(), 3);
}
