use sqlex::parser::parse_mysqldump;
use sqlex::parser::MyParser;

fn get_test_database_and_table() -> MyParser {
    let input = r#"
        CREATE DATABASE `test_db`;
        USE `test_db`;
        CREATE TABLE `users` (
            `id` INT NOT NULL AUTO_INCREMENT,
            `name` VARCHAR(255) NOT NULL,
            `email` VARCHAR(255) NOT NULL,
            `password` VARCHAR(255) NOT NULL,
            PRIMARY KEY (`id`)
        );
        "#;
    let mut my_parser = MyParser::new();
    my_parser = my_parser.parse(input).unwrap();
    my_parser
}

#[test]
fn test_create_database() {
    let input = "CREATE DATABASE `test_db`;";
    let result = parse_mysqldump(input).unwrap();
    assert_eq!(result.len(), 1, "Expected 1 database, got {}", result.len());
    if !result.is_empty() {
        assert_eq!(result[0].name, "test_db", "Database name mismatch");
        assert!(result[0].tables.is_empty(), "Expected no tables");
        assert!(
            result[0].set_variables.is_empty(),
            "Expected no set variables"
        );
    }
}

#[test]
fn test_create_table() {
    let input = r#"
    --
    -- Table structure for table `config`
    --
    CREATE DATABASE `test_db`;
    USE `test_db`;
    CREATE TABLE IF NOT EXISTS `config` (
      `name` varchar(255) NOT NULL,
      `value` text NOT NULL,
      PRIMARY KEY  (`name`)
    ) ENGINE=InnoDB DEFAULT CHARSET=utf8;
    "#;
    let result = parse_mysqldump(input).unwrap();
    assert_eq!(result.len(), 1, "Expected 1 database, got {}", result.len());
    if !result.is_empty() {
        assert_eq!(result[0].name, "test_db", "Database name mismatch");
    }
    let db = result[0].clone();
    assert_eq!(
        db.tables.len(),
        1,
        "Expected 1 table, got {}",
        db.tables.len()
    );
    if let Some(ref table) = db.get_table("config") {
        assert_eq!(
            table.columns.len(),
            2,
            "Expected 2 columns, got {}",
            table.columns.len()
        );
    }
}

#[test]
fn test_create_table_with_primary_key() {
    let sql = r#"
    --
    -- Table structure for table `dns_record_types`
    --
    CREATE DATABASE `test_db`;
    USE `test_db`;

    CREATE TABLE IF NOT EXISTS `dns_record_types` (
      `id` int(10) unsigned NOT NULL auto_increment,
      `type` varchar(6) NOT NULL,
      `user_selectable` tinyint(1) NOT NULL default '0',
      PRIMARY KEY  (`id`)
    ) ENGINE=InnoDB  DEFAULT CHARSET=utf8 AUTO_INCREMENT=8 ;
    "#;
    let result = parse_mysqldump(sql).unwrap();
    assert_eq!(result.len(), 1, "Expected 1 database, got {}", result.len());
    if !result.is_empty() {
        assert_eq!(result[0].name, "test_db", "Database name mismatch");
    }
    let db = result[0].clone();
    assert_eq!(
        db.tables.len(),
        1,
        "Expected 1 table, got {}",
        db.tables.len()
    );
    if let Some(ref table) = db.get_table("dns_record_types") {
        assert_eq!(
            table.columns.len(),
            3,
            "Expected 3 columns, got {}",
            table.columns.len()
        );
    }
}

#[test]
fn test_insert_into_table() {
    let input = r#"
    CREATE DATABASE `test_db`;
    USE `test_db`;
    CREATE TABLE `users` (
        `id` INT NOT NULL AUTO_INCREMENT,
        `name` VARCHAR(255) NOT NULL,
        `email` VARCHAR(255) NOT NULL,
        PRIMARY KEY (`id`)
    );
    INSERT INTO `users` (`name`, `email`) VALUES ('John Doe', 'john.doe@example.com');
    "#;
    let result = parse_mysqldump(input).unwrap();
    assert_eq!(result.len(), 1);
    let db = &result[0];
    assert_eq!(db.name, "test_db");
    assert_eq!(db.tables.len(), 1);
    let table = db.get_table("users").unwrap();
    assert_eq!(table.columns.len(), 3);
    assert_eq!(table.inserts.len(), 1);
}

#[test]
fn test_update_record_in_table() {
    let my_parser = get_test_database_and_table();
    let input = "UPDATE `users` SET `name` = 'Jane Doe' WHERE `id` = 1;";
    let parsed = my_parser.parse(input).unwrap();
    let databases = parsed.get_databases();
    assert_eq!(databases.len(), 1);
    let db = &databases[0];
    assert_eq!(db.name, "test_db");
    assert_eq!(db.tables.len(), 1);
    let table = db.get_table("users").unwrap();
    assert_eq!(table.updates.len(), 1);
}

#[test]
fn test_multiple_statements() {
    let input = r#"
    CREATE DATABASE `test_db`;
    USE `test_db`;
    CREATE TABLE `users` (
        `id` INT NOT NULL AUTO_INCREMENT,
        `name` VARCHAR(255) NOT NULL,
        PRIMARY KEY (`id`)
    );
    INSERT INTO `users` (`name`) VALUES ('John Doe');
    UPDATE `users` SET `name` = 'Jane Doe' WHERE `id` = 1;
    DELETE FROM `users` WHERE `id` = 1;
    SET @last_id = 1;
    "#;
    let result = parse_mysqldump(input).unwrap();
    assert_eq!(result.len(), 1);
    let db = &result[0];
    assert_eq!(db.name, "test_db");
    println!("db: {:?}", db);
    assert_eq!(db.tables.len(), 1);
    let table = db.get_table("users").unwrap();
    assert_eq!(table.columns.len(), 2);
    assert_eq!(table.inserts.len(), 1);
    assert_eq!(table.updates.len(), 1);
    assert_eq!(table.deletes.len(), 1);
    assert_eq!(db.set_variables.len(), 1);
}
