use sqlex::column::Column;
use sqlex::create_table::CreateTable;
use sqlex::data_type::DataType;
use sqlex::database_option::DatabaseOption;
use sqlex::default_value::DefaultValue;
use sqlex::error::ParseError;
use sqlex::foreign_key::ForeignKey;
use sqlex::insert::Insert;
use sqlex::on_update_value::OnUpdateValue;
use sqlex::statement::{parse_statements, Statement};
use sqlex::table_option::TableOption;

#[test]
fn no_keyword_is_a_grammar_error() {
    assert_eq!(DataType::parse(""), Err(ParseError::Grammar { position: 0 }));
    assert_eq!(DataType::parse("   (4)"), Err(ParseError::Grammar { position: 3 }));
}

#[test]
fn an_unknown_type_keyword_is_refused_as_unsupported() {
    assert_eq!(DataType::parse("GEOMETRY"), Err(ParseError::Unsupported { position: 0 }));
    assert_eq!(DataType::parse("  point,"), Err(ParseError::Unsupported { position: 2 }));
    assert_eq!(DataType::parse("DATES"), Err(ParseError::Unsupported { position: 0 }));
}

#[test]
fn a_number_beyond_32_bits_is_a_conversion_error() {
    assert_eq!(
        DataType::parse("INT (4294967295)"),
        Ok(DataType::Int { m: Some(4294967295), unsigned: false, zerofill: false })
    );
    assert_eq!(DataType::parse("INT (4294967296)"), Err(ParseError::Conversion { position: 5 }));
    assert_eq!(
        DataType::parse("INT (99999999999999999999999999999999999)"),
        Err(ParseError::Conversion { position: 5 })
    );
}

#[test]
fn a_missing_parenthesis_is_a_grammar_error() {
    assert_eq!(DataType::parse("INT (4"), Err(ParseError::Grammar { position: 6 }));
    assert_eq!(DataType::parse("INT (x)"), Err(ParseError::Grammar { position: 5 }));
    assert_eq!(DataType::parse("INT (4, 2)"), Err(ParseError::Grammar { position: 6 }));
    assert_eq!(DataType::parse("VARBINARY,"), Err(ParseError::Grammar { position: 9 }));
    assert_eq!(DataType::parse("ENUM"), Err(ParseError::Grammar { position: 4 }));
    assert_eq!(DataType::parse("ENUM ('a'"), Err(ParseError::Grammar { position: 9 }));
    assert_eq!(DataType::parse("ENUM ('a"), Err(ParseError::Grammar { position: 8 }));
}

#[test]
fn position_is_read_from_every_variant() {
    assert_eq!(ParseError::Grammar { position: 1 }.position(), 1);
    assert_eq!(ParseError::Conversion { position: 2 }.position(), 2);
    assert_eq!(ParseError::Unsupported { position: 3 }.position(), 3);
}

#[test]
fn primary_key_on_a_column_is_unsupported() {
    assert_eq!(
        Column::parse("`id` int PRIMARY KEY"),
        Err(ParseError::Unsupported { position: 9 })
    );
}

#[test]
fn an_unknown_on_update_value_is_a_conversion_error() {
    assert_eq!(OnUpdateValue::parse("RESTRICT"), Err(ParseError::Conversion { position: 0 }));
    assert_eq!(
        Column::parse("`a` int ON UPDATE nothing"),
        Err(ParseError::Conversion { position: 18 })
    );
    assert_eq!(OnUpdateValue::parse(" cascade"), Ok(OnUpdateValue::Cascade));
    assert_eq!(
        OnUpdateValue::parse("CURRENT_TIMESTAMP(3)"),
        Ok(OnUpdateValue::CurrentTimestamp { value: Some(3) })
    );
    assert_eq!(OnUpdateValue::Cascade.to_string(), "CASCADE");
    assert_eq!(
        OnUpdateValue::CurrentTimestamp { value: Some(3) }.as_sql(),
        "CURRENT_TIMESTAMP (3)"
    );
}

#[test]
fn default_values_of_each_kind() {
    assert_eq!(DefaultValue::parse("null"), Ok(DefaultValue::Null));
    assert_eq!(
        DefaultValue::parse("CURRENT_TIMESTAMP"),
        Ok(DefaultValue::CurrentTimestamp { value: None })
    );
    assert_eq!(
        DefaultValue::parse("-12.50,"),
        Ok(DefaultValue::Number { value: String::from("-12.50") })
    );
    assert_eq!(
        DefaultValue::parse("'it\\'s'"),
        Ok(DefaultValue::Text { value: String::from("it\\'s") })
    );
    assert_eq!(DefaultValue::Text { value: String::from("it\\'s") }.to_string(), "'it\\'s'");
    assert_eq!(DefaultValue::parse("'open"), Err(ParseError::Grammar { position: 5 }));
    assert_eq!(DefaultValue::parse("?"), Err(ParseError::Grammar { position: 0 }));
    assert_eq!(DefaultValue::parse("-"), Err(ParseError::Grammar { position: 0 }));
}

#[test]
fn default_without_an_option_is_a_grammar_error() {
    assert_eq!(DatabaseOption::parse("DEFAULT"), Err(ParseError::Grammar { position: 7 }));
    assert_eq!(DatabaseOption::parse("  nothing"), Err(ParseError::Grammar { position: 2 }));
    assert_eq!(TableOption::parse("DEFAULT ENGINE=x"), Err(ParseError::Grammar { position: 8 }));
    assert_eq!(DatabaseOption::parse_all("nothing"), Ok(vec![]));
    assert_eq!(
        TableOption::parse("auto_increment = 7"),
        Ok(TableOption::AutoIncrement { value: 7 })
    );
    assert_eq!(
        TableOption::parse("CHARACTER SET latin1"),
        Ok(TableOption::CharacterSet { default: false, value: String::from("latin1") })
    );
    assert_eq!(
        DatabaseOption::parse("charset=latin1"),
        Ok(DatabaseOption::CharacterSet { default: false, value: String::from("latin1") })
    );
}

#[test]
fn a_foreign_key_accepts_on_update_only() {
    assert_eq!(
        ForeignKey::parse("FOREIGN KEY (`a`) REFERENCES `t` (`b`) ON DELETE CASCADE"),
        Err(ParseError::Grammar { position: 42 })
    );
    assert_eq!(
        ForeignKey::parse("FOREIGN KEY (`a`) REFERENCES `t`"),
        Err(ParseError::Grammar { position: 32 })
    );
}

#[test]
fn a_table_needs_its_closing_parenthesis() {
    assert_eq!(
        CreateTable::parse("CREATE TABLE t (a int, b date"),
        Err(ParseError::Grammar { position: 29 })
    );
    assert_eq!(
        CreateTable::parse("CREATE TABLE t (a int b date)"),
        Err(ParseError::Grammar { position: 22 })
    );
    assert_eq!(CreateTable::parse("CREATE TABLE t"), Err(ParseError::Grammar { position: 14 }));
    assert_eq!(
        CreateTable::parse("CREATE TABLE IF EXISTS t (a int)"),
        Err(ParseError::Grammar { position: 16 })
    );
    assert_eq!(
        CreateTable::parse("CREATE TABLE t (a geometry)"),
        Err(ParseError::Unsupported { position: 18 })
    );
}

#[test]
fn insert_needs_into_and_values() {
    assert_eq!(Insert::parse("INSERT `t` VALUES (1)"), Err(ParseError::Grammar { position: 7 }));
    assert_eq!(Insert::parse("INSERT INTO `t` (1)"), Err(ParseError::Grammar { position: 19 }));
    assert_eq!(
        Insert::parse("INSERT INTO `t` VALUES 1"),
        Err(ParseError::Grammar { position: 23 })
    );
    assert_eq!(
        Insert::parse("INSERT INTO `t` VALUES (1,)"),
        Err(ParseError::Grammar { position: 26 })
    );
}

#[test]
fn statements_are_told_by_their_first_words() {
    assert!(matches!(Statement::parse("use db"), Ok(Statement::UseDatabase(_))));
    assert!(matches!(Statement::parse("DROP TABLE t"), Ok(Statement::DropTable(_))));
    assert!(matches!(Statement::parse("SET a = 1"), Ok(Statement::SetVariables(_))));
    assert!(matches!(Statement::parse("DELETE FROM t"), Ok(Statement::Delete(_))));
    assert_eq!(
        Statement::parse("CREATE VIEW v AS SELECT 1"),
        Err(ParseError::Unsupported { position: 7 })
    );
    assert_eq!(Statement::parse("SELECT 1"), Err(ParseError::Grammar { position: 0 }));
    assert_eq!(Statement::parse(""), Err(ParseError::Grammar { position: 0 }));
}

#[test]
fn a_dump_stops_at_the_first_statement_it_cannot_read() {
    assert_eq!(
        parse_statements("USE a; SELECT 1; USE b;"),
        Err(ParseError::Grammar { position: 7 })
    );
    assert_eq!(parse_statements("USE a USE b"), Err(ParseError::Grammar { position: 6 }));
    assert_eq!(parse_statements("").map(|s| s.len()), Ok(0));
    assert_eq!(parse_statements(" ;; -- only a comment").map(|s| s.len()), Ok(0));
    assert_eq!(parse_statements("USE a").map(|s| s.len()), Ok(1));
    assert_eq!(parse_statements("/* open comment").map(|s| s.len()), Ok(0));
}
