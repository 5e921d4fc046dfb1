use sqlex::column::Column;
use sqlex::create_table::CreateTable;
use sqlex::data_type::DataType;
use sqlex::default_value::DefaultValue;
use sqlex::foreign_key::ForeignKey;
use sqlex::index::Index;
use sqlex::on_update_value::OnUpdateValue;
use sqlex::primary_key::PrimaryKey;
use sqlex::table_option::TableOption;

fn name(text: &str) -> Option<String> {
    Some(String::from(text))
}

fn samples() -> Vec<DataType> {
    vec![
        DataType::TinyInt { m: Some(4), unsigned: true, zerofill: true },
        DataType::SmallInt { m: None, unsigned: true, zerofill: false },
        DataType::MediumInt { m: Some(9), unsigned: false, zerofill: true },
        DataType::Int { m: Some(11), unsigned: false, zerofill: false },
        DataType::BigInt { m: Some(20), unsigned: true, zerofill: false },
        DataType::Decimal { m: Some(8), d: Some(2), unsigned: false, zerofill: false },
        DataType::Float { m: Some(4), d: None, unsigned: true, zerofill: true },
        DataType::Double { m: None, d: None, unsigned: false, zerofill: true },
        DataType::Bit { m: Some(1) },
        DataType::Date,
        DataType::DateTime { fsp: Some(6) },
        DataType::Timestamp { fsp: None },
        DataType::Time { fsp: Some(3) },
        DataType::Year { m: Some(4) },
        DataType::Char { m: Some(2), charset_name: name("latin1"), collation_name: None },
        DataType::Varchar {
            m: Some(255),
            charset_name: name("utf8mb4"),
            collation_name: name("utf8mb4_0900_ai_ci"),
        },
        DataType::Binary { m: None },
        DataType::Varbinary { m: 16 },
        DataType::Blob { m: Some(1024) },
        DataType::TinyBlob,
        DataType::MediumBlob,
        DataType::LongBlob,
        DataType::Text { m: None, charset_name: None, collation_name: name("utf8mb4_bin") },
        DataType::TinyText { charset_name: None, collation_name: None },
        DataType::MediumText { charset_name: name("utf8"), collation_name: None },
        DataType::LongText { charset_name: name("utf8"), collation_name: name("utf8_bin") },
        DataType::Enum {
            values: vec![String::from("a"), String::from("b c")],
            charset_name: None,
            collation_name: None,
        },
        DataType::SetType {
            values: vec![String::from("x")],
            charset_name: name("ascii"),
            collation_name: name("ascii_bin"),
        },
        DataType::Json,
    ]
}

#[test]
fn every_data_type_survives_a_round_trip() {
    for sample in samples() {
        let text = sample.to_string();
        let parsed = DataType::parse(&text).expect("the text of a data type parses");
        assert_eq!(parsed, sample, "text was {text}");
        assert_eq!(parsed.to_string(), text);
    }
}

#[test]
fn data_type_text_is_stable_after_one_round_trip() {
    let first = DataType::parse("tinyint(4)   unsigned zerofill").unwrap().to_string();
    assert_eq!(first, "TINYINT (4) UNSIGNED ZEROFILL");
    let second = DataType::parse(&first).unwrap().to_string();
    assert_eq!(second, first);
}

#[test]
fn default_instances_render_their_keyword_alone() {
    assert_eq!(DataType::Date.to_string(), "DATE");
    assert_eq!(DataType::Json.as_sql(), "JSON");
    assert_eq!(DataType::Varbinary { m: 0 }.to_string(), "VARBINARY (0)");
    assert_eq!(
        DataType::Enum { values: vec![], charset_name: None, collation_name: None }.to_string(),
        "ENUM ()"
    );
}

#[test]
fn a_scale_without_a_size_is_not_written() {
    let odd = DataType::Decimal { m: None, d: Some(2), unsigned: true, zerofill: false };
    assert_eq!(odd.to_string(), "DECIMAL UNSIGNED");
}

#[test]
fn numbers_are_written_in_decimal() {
    assert_eq!(DataType::Int { m: Some(0), unsigned: false, zerofill: false }.to_string(), "INT (0)");
    assert_eq!(
        DataType::Int { m: Some(4294967295), unsigned: false, zerofill: false }.to_string(),
        "INT (4294967295)"
    );
    assert_eq!(TableOption::AutoIncrement { value: 1007 }.to_string(), "AUTO_INCREMENT=1007");
}

#[test]
fn column_survives_a_round_trip() {
    let column = Column {
        name: String::from("created_at"),
        data_type: DataType::Timestamp { fsp: Some(6) },
        nullable: false,
        default: Some(DefaultValue::CurrentTimestamp { value: Some(6) }),
        on_update: Some(OnUpdateValue::CurrentTimestamp { value: Some(6) }),
        auto_increment: false,
        comment: Some(String::from("when the row was made")),
    };
    let text = column.to_string();
    assert_eq!(
        text,
        "`created_at` TIMESTAMP (6) NOT NULL DEFAULT CURRENT_TIMESTAMP (6) ON UPDATE CURRENT_TIMESTAMP (6) COMMENT 'when the row was made'"
    );
    assert_eq!(Column::parse(&text).unwrap(), column);
}

#[test]
fn columns_are_written_in_order_before_the_keys() {
    let mut table = CreateTable::new(String::from("t"), false);
    table.indexes.push(Index::new(String::from("by_b"), vec![String::from("b")], false));
    table.primary_key = Some(PrimaryKey::new(None, vec![String::from("a")]));
    table.foreign_keys.push(ForeignKey::new(
        None,
        vec![String::from("b")],
        vec![String::from("id")],
        String::from("other"),
    ));
    table.columns.push(Column::new(
        String::from("a"),
        DataType::Int { m: None, unsigned: false, zerofill: false },
    ));
    table.columns.push(Column::new(String::from("b"), DataType::Date));
    let text = table.to_string();
    assert_eq!(
        text,
        "CREATE TABLE `t` (\n  `a` INT,\n  `b` DATE,\n  PRIMARY KEY (`a`),\n  FOREIGN KEY (`b`) REFERENCES `other` (`id`),\n  KEY `by_b` (`b`)\n)"
    );
    let a = text.find("`a` INT").unwrap();
    let b = text.find("`b` DATE").unwrap();
    let key = text.find("PRIMARY KEY").unwrap();
    assert!(a < b && b < key);
    assert_eq!(text.matches("`a` INT").count(), 1);
    assert_eq!(CreateTable::parse(&text).unwrap(), table);
}

#[test]
fn a_table_without_definitions_still_renders() {
    let table = CreateTable::new(String::from("empty"), true);
    assert_eq!(table.to_string(), "CREATE TABLE IF NOT EXISTS `empty` (\n  \n)");
    assert_eq!(table.as_sql(), "CREATE TABLE IF NOT EXISTS `empty` (\n  \n);");
}

#[test]
fn a_zerofilled_identifier_column_is_read_in_full() {
    let column = Column::parse("`id` int(11) unsigned zerofill NOT NULL DEFAULT '00000000000',").unwrap();
    assert_eq!(column.name, "id");
    assert_eq!(column.data_type, DataType::Int { m: Some(11), unsigned: true, zerofill: true });
    assert!(!column.nullable);
    assert_eq!(column.default, Some(DefaultValue::Text { value: String::from("00000000000") }));
    assert_eq!(column.on_update, None);
    assert!(!column.auto_increment);
    assert_eq!(column.comment, None);
}

#[test]
fn escaped_quotes_survive_a_round_trip() {
    let sample = DataType::Enum {
        values: vec![String::from("it\\'s"), String::from("a\\\\"), String::from("")],
        charset_name: None,
        collation_name: None,
    };
    let text = sample.to_string();
    assert_eq!(text, "ENUM ('it\\'s', 'a\\\\', '')");
    assert_eq!(DataType::parse(&text), Ok(sample));
}

#[test]
fn what_the_text_cannot_express_does_not_come_back() {
    let bare_quote = DataType::Enum {
        values: vec![String::from("it's")],
        charset_name: None,
        collation_name: None,
    };
    assert!(DataType::parse(&bare_quote.to_string()).is_err());
    let two_words = DataType::Char {
        m: None,
        charset_name: Some(String::from("utf8 mb4")),
        collation_name: None,
    };
    assert_ne!(DataType::parse(&two_words.to_string()), Ok(two_words));
    let no_values = DataType::SetType { values: vec![], charset_name: None, collation_name: None };
    assert!(DataType::parse(&no_values.to_string()).is_err());
}
