use sqlex::column::Column;
use sqlex::create_table::CreateTable;
use sqlex::data_type::DataType;
use sqlex::default_value::DefaultValue;
use sqlex::foreign_key::ForeignKey;
use sqlex::index::Index;
use sqlex::primary_key::PrimaryKey;
use sqlex::table_option::TableOption;

#[test]
fn mod_can_parse_create_table() {
    let create_table = CreateTable::parse("CREATE TABLE `application` (
                `Id` int NOT NULL AUTO_INCREMENT,
                `ProductId` int NOT NULL DEFAULT '0',
                `Name` varchar(36) NOT NULL,
                `SecurityToken` varchar(200) DEFAULT NULL,
                `RoutingKey` varchar(50) DEFAULT NULL,
                `AdminPrivilege` tinyint(1) DEFAULT '0',
                `CreatedAt` datetime NOT NULL,
                PRIMARY KEY (`Id`),
                KEY `fk_application_product` (`ProductId`),
                CONSTRAINT `fk_application_product` FOREIGN KEY (`ProductId`) REFERENCES `product` (`Id`)
            ) ENGINE=InnoDB AUTO_INCREMENT=101 DEFAULT CHARSET=utf8mb4 COLLATE=utf8mb4_0900_ai_ci;").expect("Invalid input");

    assert_eq!(create_table.name.as_str(), "application");
    assert_eq!(create_table.columns.len(), 7);
    assert!(create_table.primary_key.is_some());
    assert_eq!(create_table.foreign_keys.len(), 1);
    assert_eq!(create_table.indexes.len(), 1);
    assert_eq!(create_table.options.len(), 4);
}

#[test]
fn mod_can_write_create_table() {
    assert_eq!(
        CreateTable {
            if_not_exists: false,
            name: String::from("application"),
            columns: vec![
                Column {
                    name: String::from("Id"),
                    data_type: DataType::Int {
                        m: None,
                        unsigned: false,
                        zerofill: false
                    },
                    nullable: false,
                    default: None,
                    on_update: None,
                    auto_increment: true,
                    comment: None,
                },
                Column {
                    name: String::from("ProductId"),
                    data_type: DataType::Int {
                        m: None,
                        unsigned: false,
                        zerofill: false
                    },
                    nullable: false,
                    default: Some(DefaultValue::Text { value: String::from("0") }),
                    on_update: None,
                    auto_increment: false,
                    comment: None,
                },
                Column {
                    name: String::from("Name"),
                    data_type: DataType::Varchar {
                        m: Some(36),
                        charset_name: None,
                        collation_name: None
                    },
                    nullable: false,
                    default: None,
                    on_update: None,
                    auto_increment: false,
                    comment: None,
                },
                Column {
                    name: String::from("SecurityToken"),
                    data_type: DataType::Varchar {
                        m: Some(200),
                        charset_name: None,
                        collation_name: None
                    },
                    nullable: true,
                    default: Some(DefaultValue::Null),
                    on_update: None,
                    auto_increment: false,
                    comment: None,
                },
                Column {
                    name: String::from("RoutingKey"),
                    data_type: DataType::Varchar {
                        m: Some(50),
                        charset_name: None,
                        collation_name: None
                    },
                    nullable: true,
                    default: Some(DefaultValue::Null),
                    on_update: None,
                    auto_increment: false,
                    comment: None,
                },
                Column {
                    name: String::from("AdminPrivilege"),
                    data_type: DataType::TinyInt {
                        m: Some(1),
                        unsigned: false,
                        zerofill: false
                    },
                    nullable: true,
                    default: Some(DefaultValue::Text { value: String::from("0") }),
                    on_update: None,
                    auto_increment: false,
                    comment: None,
                },
                Column {
                    name: String::from("CreatedAt"),
                    data_type: DataType::DateTime { fsp: None },
                    nullable: false,
                    default: None,
                    on_update: None,
                    auto_increment: false,
                    comment: None,
                },
            ],
            primary_key: Some(PrimaryKey {
                name: None,
                column_names: vec![String::from("Id")]
            }),
            foreign_keys: vec![ForeignKey {
                name: Some(String::from("fk_application_product")),
                local_column_names: vec![String::from("ProductId")],
                foreign_column_names: vec![String::from("Id")],
                foreign_table_name: String::from("product"),
                on_update: None,
            },],
            indexes: vec![Index {
                name: String::from("fk_application_product"),
                columns: vec![String::from("ProductId")],
                unique: false
            },],
            options: vec![
                TableOption::Engine {
                    value: String::from("InnoDB")
                },
                TableOption::CharacterSet {
                    default: true,
                    value: String::from("utf8mb4")
                },
                TableOption::Collate {
                    default: false,
                    value: String::from("utf8mb4_0900_ai_ci")
                },
            ],
        }
        .as_sql()
        .trim(),
        "CREATE TABLE `application` (\n  `Id` INT NOT NULL AUTO_INCREMENT,\n  `ProductId` INT NOT NULL DEFAULT '0',\n  `Name` VARCHAR (36) NOT NULL,\n  `SecurityToken` VARCHAR (200) DEFAULT NULL,\n  `RoutingKey` VARCHAR (50) DEFAULT NULL,\n  `AdminPrivilege` TINYINT (1) DEFAULT '0',\n  `CreatedAt` DATETIME NOT NULL,\n  PRIMARY KEY (`Id`),\n  CONSTRAINT `fk_application_product` FOREIGN KEY (`ProductId`) REFERENCES `product` (`Id`),\n  KEY `fk_application_product` (`ProductId`)\n) ENGINE=InnoDB DEFAULT CHARSET=utf8mb4 COLLATE=utf8mb4_0900_ai_ci;"
    );
}
