use sqlex::data_type::DataType;

#[test]
fn can_parse_tinyint_default() {
    assert!(matches!(
        DataType::parse("TINYINT,").expect("Invalid input"),
        DataType::TinyInt {
            m: None,
            unsigned: false,
            zerofill: false,
        }
    ));
}

#[test]
fn can_parse_tinyint() {
    assert!(matches!(
        DataType::parse("TINYINT (4),").expect("Invalid input"),
        DataType::TinyInt {
            m: Some(4),
            unsigned: false,
            zerofill: false,
        }
    ));
}

#[test]
fn can_parse_tinyint_unsigned() {
    assert!(matches!(
        DataType::parse("TINYINT (4) UNSIGNED,").expect("Invalid input"),
        DataType::TinyInt {
            m: Some(4),
            unsigned: true,
            zerofill: false,
        }
    ));
}

#[test]
fn can_parse_tinyint_unsigned_zerofill() {
    assert!(matches!(
        DataType::parse("TINYINT (4) UNSIGNED ZEROFILL,").expect("Invalid input"),
        DataType::TinyInt {
            m: Some(4),
            unsigned: true,
            zerofill: true,
        }
    ));
}

#[test]
fn can_write_tinyint_default() {
    assert_eq!(
        DataType::TinyInt {
            m: None,
            unsigned: false,
            zerofill: false
        }
        .to_string()
        .as_str(),
        "TINYINT"
    );
}

#[test]
fn can_write_tinyint() {
    assert_eq!(
        DataType::TinyInt {
            m: Some(4),
            unsigned: false,
            zerofill: false
        }
        .to_string()
        .as_str(),
        "TINYINT (4)"
    );
}

#[test]
fn can_write_tinyint_unsigned() {
    assert_eq!(
        DataType::TinyInt {
            m: Some(4),
            unsigned: true,
            zerofill: false
        }
        .to_string()
        .as_str(),
        "TINYINT (4) UNSIGNED"
    );
}

#[test]
fn can_write_tinyint_unsigned_zerofill() {
    assert_eq!(
        DataType::TinyInt {
            m: Some(4),
            unsigned: true,
            zerofill: true
        }
        .to_string()
        .as_str(),
        "TINYINT (4) UNSIGNED ZEROFILL"
    );
}

#[test]
fn can_parse_smallint_default() {
    assert!(matches!(
        DataType::parse("SMALLINT,").expect("Invalid input"),
        DataType::SmallInt {
            m: None,
            unsigned: false,
            zerofill: false,
        }
    ));
}

#[test]
fn can_parse_smallint() {
    assert!(matches!(
        DataType::parse("SMALLINT (4),").expect("Invalid input"),
        DataType::SmallInt {
            m: Some(4),
            unsigned: false,
            zerofill: false,
        }
    ));
}

#[test]
fn can_parse_smallint_unsigned() {
    assert!(matches!(
        DataType::parse("SMALLINT (4) UNSIGNED,").expect("Invalid input"),
        DataType::SmallInt {
            m: Some(4),
            unsigned: true,
            zerofill: false,
        }
    ));
}

#[test]
fn can_parse_smallint_unsigned_zerofill() {
    assert!(matches!(
        DataType::parse("SMALLINT (4) UNSIGNED ZEROFILL,").expect("Invalid input"),
        DataType::SmallInt {
            m: Some(4),
            unsigned: true,
            zerofill: true,
        }
    ));
}

#[test]
fn can_write_smallint_default() {
    assert_eq!(
        DataType::SmallInt {
            m: None,
            unsigned: false,
            zerofill: false
        }
        .to_string()
        .as_str(),
        "SMALLINT"
    );
}

#[test]
fn can_write_smallint() {
    assert_eq!(
        DataType::SmallInt {
            m: Some(4),
            unsigned: false,
            zerofill: false
        }
        .to_string()
        .as_str(),
        "SMALLINT (4)"
    );
}

#[test]
fn can_write_smallint_unsigned() {
    assert_eq!(
        DataType::SmallInt {
            m: Some(4),
            unsigned: true,
            zerofill: false
        }
        .to_string()
        .as_str(),
        "SMALLINT (4) UNSIGNED"
    );
}

#[test]
fn can_write_smallint_unsigned_zerofill() {
    assert_eq!(
        DataType::SmallInt {
            m: Some(4),
            unsigned: true,
            zerofill: true
        }
        .to_string()
        .as_str(),
        "SMALLINT (4) UNSIGNED ZEROFILL"
    );
}

#[test]
fn can_parse_mediumint_default() {
    assert!(matches!(
        DataType::parse("MEDIUMINT,").expect("Invalid input"),
        DataType::MediumInt {
            m: None,
            unsigned: false,
            zerofill: false,
        }
    ));
}

#[test]
fn can_parse_mediumint() {
    assert!(matches!(
        DataType::parse("MEDIUMINT (4),").expect("Invalid input"),
        DataType::MediumInt {
            m: Some(4),
            unsigned: false,
            zerofill: false,
        }
    ));
}

#[test]
fn can_parse_mediumint_unsigned() {
    assert!(matches!(
        DataType::parse("MEDIUMINT (4) UNSIGNED,").expect("Invalid input"),
        DataType::MediumInt {
            m: Some(4),
            unsigned: true,
            zerofill: false,
        }
    ));
}

#[test]
fn can_parse_mediumint_unsigned_zerofill() {
    assert!(matches!(
        DataType::parse("MEDIUMINT (4) UNSIGNED ZEROFILL,").expect("Invalid input"),
        DataType::MediumInt {
            m: Some(4),
            unsigned: true,
            zerofill: true,
        }
    ));
}

#[test]
fn can_write_mediumint_default() {
    assert_eq!(
        DataType::MediumInt {
            m: None,
            unsigned: false,
            zerofill: false
        }
        .to_string()
        .as_str(),
        "MEDIUMINT"
    );
}

#[test]
fn can_write_mediumint() {
    assert_eq!(
        DataType::MediumInt {
            m: Some(4),
            unsigned: false,
            zerofill: false
        }
        .to_string()
        .as_str(),
        "MEDIUMINT (4)"
    );
}

#[test]
fn can_write_mediumint_unsigned() {
    assert_eq!(
        DataType::MediumInt {
            m: Some(4),
            unsigned: true,
            zerofill: false
        }
        .to_string()
        .as_str(),
        "MEDIUMINT (4) UNSIGNED"
    );
}

#[test]
fn can_write_mediumint_unsigned_zerofill() {
    assert_eq!(
        DataType::MediumInt {
            m: Some(4),
            unsigned: true,
            zerofill: true
        }
        .to_string()
        .as_str(),
        "MEDIUMINT (4) UNSIGNED ZEROFILL"
    );
}

#[test]
fn can_parse_int_default() {
    assert!(matches!(
        DataType::parse("INT,").expect("Invalid input"),
        DataType::Int {
            m: None,
            unsigned: false,
            zerofill: false,
        }
    ));
}

#[test]
fn can_parse_int() {
    assert!(matches!(
        DataType::parse("INT (4),").expect("Invalid input"),
        DataType::Int {
            m: Some(4),
            unsigned: false,
            zerofill: false,
        }
    ));
}

#[test]
fn can_parse_int_unsigned() {
    assert!(matches!(
        DataType::parse("INT (4) UNSIGNED,").expect("Invalid input"),
        DataType::Int {
            m: Some(4),
            unsigned: true,
            zerofill: false,
        }
    ));
}

#[test]
fn can_parse_int_unsigned_zerofill() {
    assert!(matches!(
        DataType::parse("INT (4) UNSIGNED ZEROFILL,").expect("Invalid input"),
        DataType::Int {
            m: Some(4),
            unsigned: true,
            zerofill: true,
        }
    ));
}

#[test]
fn can_write_int_default() {
    assert_eq!(
        DataType::Int {
            m: None,
            unsigned: false,
            zerofill: false
        }
        .to_string()
        .as_str(),
        "INT"
    );
}

#[test]
fn can_write_int() {
    assert_eq!(
        DataType::Int {
            m: Some(4),
            unsigned: false,
            zerofill: false
        }
        .to_string()
        .as_str(),
        "INT (4)"
    );
}

#[test]
fn can_write_int_unsigned() {
    assert_eq!(
        DataType::Int {
            m: Some(4),
            unsigned: true,
            zerofill: false
        }
        .to_string()
        .as_str(),
        "INT (4) UNSIGNED"
    );
}

#[test]
fn can_write_int_unsigned_zerofill() {
    assert_eq!(
        DataType::Int {
            m: Some(4),
            unsigned: true,
            zerofill: true
        }
        .to_string()
        .as_str(),
        "INT (4) UNSIGNED ZEROFILL"
    );
}

#[test]
fn can_parse_bigint_default() {
    assert!(matches!(
        DataType::parse("BIGINT,").expect("Invalid input"),
        DataType::BigInt {
            m: None,
            unsigned: false,
            zerofill: false,
        }
    ));
}

#[test]
fn can_parse_bigint() {
    assert!(matches!(
        DataType::parse("BIGINT (4),").expect("Invalid input"),
        DataType::BigInt {
            m: Some(4),
            unsigned: false,
            zerofill: false,
        }
    ));
}

#[test]
fn can_parse_bigint_unsigned() {
    assert!(matches!(
        DataType::parse("BIGINT (4) UNSIGNED,").expect("Invalid input"),
        DataType::BigInt {
            m: Some(4),
            unsigned: true,
            zerofill: false,
        }
    ));
}

#[test]
fn can_parse_bigint_unsigned_zerofill() {
    assert!(matches!(
        DataType::parse("BIGINT (4) UNSIGNED ZEROFILL,").expect("Invalid input"),
        DataType::BigInt {
            m: Some(4),
            unsigned: true,
            zerofill: true,
        }
    ));
}

#[test]
fn can_write_bigint_default() {
    assert_eq!(
        DataType::BigInt {
            m: None,
            unsigned: false,
            zerofill: false
        }
        .to_string()
        .as_str(),
        "BIGINT"
    );
}

#[test]
fn can_write_bigint() {
    assert_eq!(
        DataType::BigInt {
            m: Some(4),
            unsigned: false,
            zerofill: false
        }
        .to_string()
        .as_str(),
        "BIGINT (4)"
    );
}

#[test]
fn can_write_bigint_unsigned() {
    assert_eq!(
        DataType::BigInt {
            m: Some(4),
            unsigned: true,
            zerofill: false
        }
        .to_string()
        .as_str(),
        "BIGINT (4) UNSIGNED"
    );
}

#[test]
fn can_write_bigint_unsigned_zerofill() {
    assert_eq!(
        DataType::BigInt {
            m: Some(4),
            unsigned: true,
            zerofill: true
        }
        .to_string()
        .as_str(),
        "BIGINT (4) UNSIGNED ZEROFILL"
    );
}

#[test]
fn can_parse_decimal_default() {
    assert!(matches!(
        DataType::parse("DECIMAL,").expect("Invalid input"),
        DataType::Decimal {
            m: None,
            d: None,
            unsigned: false,
            zerofill: false
        }
    ));
}

#[test]
fn can_parse_decimal_with_m() {
    assert!(matches!(
        DataType::parse("DECIMAL (4),").expect("Invalid input"),
        DataType::Decimal {
            m: Some(4),
            d: None,
            unsigned: false,
            zerofill: false
        }
    ));
}

#[test]
fn can_parse_decimal_with_md() {
    assert!(matches!(
        DataType::parse("DECIMAL (4, 6),").expect("Invalid input"),
        DataType::Decimal {
            m: Some(4),
            d: Some(6),
            unsigned: false,
            zerofill: false
        }
    ));
}

#[test]
fn can_parse_decimal_with_md_unsigned() {
    assert!(matches!(
        DataType::parse("DECIMAL (4, 6) UNSIGNED,").expect("Invalid input"),
        DataType::Decimal {
            m: Some(4),
            d: Some(6),
            unsigned: true,
            zerofill: false
        }
    ));
}

#[test]
fn can_parse_decimal_with_md_unsigned_zerofill() {
    assert!(matches!(
        DataType::parse("DECIMAL (4, 6) UNSIGNED ZEROFILL,").expect("Invalid input"),
        DataType::Decimal {
            m: Some(4),
            d: Some(6),
            unsigned: true,
            zerofill: true
        }
    ));
}

#[test]
fn can_write_decimal_default() {
    assert_eq!(
        DataType::Decimal {
            m: None,
            d: None,
            unsigned: false,
            zerofill: false
        }
        .to_string()
        .as_str(),
        "DECIMAL"
    );
}

#[test]
fn can_write_decimal_with_m() {
    assert_eq!(
        DataType::Decimal {
            m: Some(4),
            d: None,
            unsigned: false,
            zerofill: false
        }
        .to_string()
        .as_str(),
        "DECIMAL (4)"
    );
}

#[test]
fn can_write_decimal_with_md() {
    assert_eq!(
        DataType::Decimal {
            m: Some(4),
            d: Some(6),
            unsigned: false,
            zerofill: false
        }
        .to_string()
        .as_str(),
        "DECIMAL (4, 6)"
    );
}

#[test]
fn can_write_decimal_with_md_unsigned() {
    assert_eq!(
        DataType::Decimal {
            m: Some(4),
            d: Some(6),
            unsigned: true,
            zerofill: false
        }
        .to_string()
        .as_str(),
        "DECIMAL (4, 6) UNSIGNED"
    );
}

#[test]
fn can_write_decimal_with_md_unsigned_zerofill() {
    assert_eq!(
        DataType::Decimal {
            m: Some(4),
            d: Some(6),
            unsigned: true,
            zerofill: true
        }
        .to_string()
        .as_str(),
        "DECIMAL (4, 6) UNSIGNED ZEROFILL"
    );
}

#[test]
fn can_parse_float_default() {
    assert!(matches!(
        DataType::parse("FLOAT,").expect("Invalid input"),
        DataType::Float {
            m: None,
            d: None,
            unsigned: false,
            zerofill: false
        }
    ));
}

#[test]
fn can_parse_float_with_m() {
    assert!(matches!(
        DataType::parse("FLOAT (4),").expect("Invalid input"),
        DataType::Float {
            m: Some(4),
            d: None,
            unsigned: false,
            zerofill: false
        }
    ));
}

#[test]
fn can_parse_float_with_md() {
    assert!(matches!(
        DataType::parse("FLOAT (4, 6),").expect("Invalid input"),
        DataType::Float {
            m: Some(4),
            d: Some(6),
            unsigned: false,
            zerofill: false
        }
    ));
}

#[test]
fn can_parse_float_with_md_unsigned() {
    assert!(matches!(
        DataType::parse("FLOAT (4, 6) UNSIGNED,").expect("Invalid input"),
        DataType::Float {
            m: Some(4),
            d: Some(6),
            unsigned: true,
            zerofill: false
        }
    ));
}

#[test]
fn can_parse_float_with_md_unsigned_zerofill() {
    assert!(matches!(
        DataType::parse("FLOAT (4, 6) UNSIGNED ZEROFILL,").expect("Invalid input"),
        DataType::Float {
            m: Some(4),
            d: Some(6),
            unsigned: true,
            zerofill: true
        }
    ));
}

#[test]
fn can_write_float_default() {
    assert_eq!(
        DataType::Float {
            m: None,
            d: None,
            unsigned: false,
            zerofill: false
        }
        .to_string()
        .as_str(),
        "FLOAT"
    );
}

#[test]
fn can_write_float_with_m() {
    assert_eq!(
        DataType::Float {
            m: Some(4),
            d: None,
            unsigned: false,
            zerofill: false
        }
        .to_string()
        .as_str(),
        "FLOAT (4)"
    );
}

#[test]
fn can_write_float_with_md() {
    assert_eq!(
        DataType::Float {
            m: Some(4),
            d: Some(6),
            unsigned: false,
            zerofill: false
        }
        .to_string()
        .as_str(),
        "FLOAT (4, 6)"
    );
}

#[test]
fn can_write_float_with_md_unsigned() {
    assert_eq!(
        DataType::Float {
            m: Some(4),
            d: Some(6),
            unsigned: true,
            zerofill: false
        }
        .to_string()
        .as_str(),
        "FLOAT (4, 6) UNSIGNED"
    );
}

#[test]
fn can_write_float_with_md_unsigned_zerofill() {
    assert_eq!(
        DataType::Float {
            m: Some(4),
            d: Some(6),
            unsigned: true,
            zerofill: true
        }
        .to_string()
        .as_str(),
        "FLOAT (4, 6) UNSIGNED ZEROFILL"
    );
}

#[test]
fn can_parse_double_default() {
    assert!(matches!(
        DataType::parse("DOUBLE,").expect("Invalid input"),
        DataType::Double {
            m: None,
            d: None,
            unsigned: false,
            zerofill: false
        }
    ));
}

#[test]
fn can_parse_double_with_m() {
    assert!(matches!(
        DataType::parse("DOUBLE (4),").expect("Invalid input"),
        DataType::Double {
            m: Some(4),
            d: None,
            unsigned: false,
            zerofill: false
        }
    ));
}

#[test]
fn can_parse_double_with_md() {
    assert!(matches!(
        DataType::parse("DOUBLE (4, 6),").expect("Invalid input"),
        DataType::Double {
            m: Some(4),
            d: Some(6),
            unsigned: false,
            zerofill: false
        }
    ));
}

#[test]
fn can_parse_double_with_md_unsigned() {
    assert!(matches!(
        DataType::parse("DOUBLE (4, 6) UNSIGNED,").expect("Invalid input"),
        DataType::Double {
            m: Some(4),
            d: Some(6),
            unsigned: true,
            zerofill: false
        }
    ));
}

#[test]
fn can_parse_double_with_md_unsigned_zerofill() {
    assert!(matches!(
        DataType::parse("DOUBLE (4, 6) UNSIGNED ZEROFILL,").expect("Invalid input"),
        DataType::Double {
            m: Some(4),
            d: Some(6),
            unsigned: true,
            zerofill: true
        }
    ));
}

#[test]
fn can_write_double_default() {
    assert_eq!(
        DataType::Double {
            m: None,
            d: None,
            unsigned: false,
            zerofill: false
        }
        .to_string()
        .as_str(),
        "DOUBLE"
    );
}

#[test]
fn can_write_double_with_m() {
    assert_eq!(
        DataType::Double {
            m: Some(4),
            d: None,
            unsigned: false,
            zerofill: false
        }
        .to_string()
        .as_str(),
        "DOUBLE (4)"
    );
}

#[test]
fn can_write_double_with_md() {
    assert_eq!(
        DataType::Double {
            m: Some(4),
            d: Some(6),
            unsigned: false,
            zerofill: false
        }
        .to_string()
        .as_str(),
        "DOUBLE (4, 6)"
    );
}

#[test]
fn can_write_double_with_md_unsigned() {
    assert_eq!(
        DataType::Double {
            m: Some(4),
            d: Some(6),
            unsigned: true,
            zerofill: false
        }
        .to_string()
        .as_str(),
        "DOUBLE (4, 6) UNSIGNED"
    );
}

#[test]
fn can_write_double_with_md_unsigned_zerofill() {
    assert_eq!(
        DataType::Double {
            m: Some(4),
            d: Some(6),
            unsigned: true,
            zerofill: true
        }
        .to_string()
        .as_str(),
        "DOUBLE (4, 6) UNSIGNED ZEROFILL"
    );
}

#[test]
fn can_parse_bit_default() {
    assert!(matches!(
        DataType::parse("BIT,").expect("Invalid input"),
        DataType::Bit { m: None },
    ))
}

#[test]
fn can_parse_bit() {
    assert!(matches!(
        DataType::parse("BIT (4),").expect("Invalid input"),
        DataType::Bit { m: Some(4) },
    ))
}

#[test]
fn can_write_bit_default() {
    assert_eq!(DataType::Bit { m: None }.to_string().as_str(), "BIT");
}

#[test]
fn can_write_bit() {
    assert_eq!(DataType::Bit { m: Some(4) }.to_string().as_str(), "BIT (4)");
}

#[test]
fn can_parse_date() {
    assert!(matches!(
        DataType::parse("DATE,").expect("Invalid input"),
        DataType::Date,
    ));
}

#[test]
fn can_write_date() {
    assert_eq!(DataType::Date.to_string().as_str(), "DATE");
}

#[test]
fn can_parse_datetime_default() {
    assert!(matches!(
        DataType::parse("DATETIME,").expect("Invalid input"),
        DataType::DateTime { fsp: None },
    ))
}

#[test]
fn can_parse_datetime() {
    assert!(matches!(
        DataType::parse("DATETIME (4),").expect("Invalid input"),
        DataType::DateTime { fsp: Some(4) },
    ))
}

#[test]
fn can_write_datetime_default() {
    assert_eq!(
        DataType::DateTime { fsp: None }.to_string().as_str(),
        "DATETIME"
    );
}

#[test]
fn can_write_datetime() {
    assert_eq!(
        DataType::DateTime { fsp: Some(4) }.to_string().as_str(),
        "DATETIME (4)"
    );
}

#[test]
fn can_parse_timestamp_default() {
    assert!(matches!(
        DataType::parse("TIMESTAMP,").expect("Invalid input"),
        DataType::Timestamp { fsp: None },
    ))
}

#[test]
fn can_parse_timestamp() {
    assert!(matches!(
        DataType::parse("TIMESTAMP (4),").expect("Invalid input"),
        DataType::Timestamp { fsp: Some(4) },
    ))
}

#[test]
fn can_write_timestamp_default() {
    assert_eq!(
        DataType::Timestamp { fsp: None }.to_string().as_str(),
        "TIMESTAMP"
    );
}

#[test]
fn can_write_timestamp() {
    assert_eq!(
        DataType::Timestamp { fsp: Some(4) }.to_string().as_str(),
        "TIMESTAMP (4)"
    );
}

#[test]
fn can_parse_time_default() {
    assert!(matches!(
        DataType::parse("TIME,").expect("Invalid input"),
        DataType::Time { fsp: None },
    ))
}

#[test]
fn can_parse_time() {
    assert!(matches!(
        DataType::parse("TIME (4),").expect("Invalid input"),
        DataType::Time { fsp: Some(4) },
    ))
}

#[test]
fn can_write_time_default() {
    assert_eq!(DataType::Time { fsp: None }.to_string().as_str(), "TIME");
}

#[test]
fn can_write_time() {
    assert_eq!(
        DataType::Time { fsp: Some(4) }.to_string().as_str(),
        "TIME (4)"
    );
}

#[test]
fn can_parse_year_default() {
    assert!(matches!(
        DataType::parse("YEAR,").expect("Invalid input"),
        DataType::Year { m: None },
    ))
}

#[test]
fn can_parse_year() {
    assert!(matches!(
        DataType::parse("YEAR (4),").expect("Invalid input"),
        DataType::Year { m: Some(4) },
    ))
}

#[test]
fn can_write_year_default() {
    assert_eq!(DataType::Year { m: None }.to_string().as_str(), "YEAR");
}

#[test]
fn can_write_year() {
    assert_eq!(
        DataType::Year { m: Some(4) }.to_string().as_str(),
        "YEAR (4)"
    );
}

#[test]
fn can_parse_char_default() {
    assert!(matches!(
        DataType::parse("CHAR,").expect("Invalid input"),
        DataType::Char {
            m: None,
            charset_name: None,
            collation_name: None
        },
    ));
}

#[test]
fn can_parse_char() {
    assert!(matches!(
        DataType::parse("CHAR (4),").expect("Invalid input"),
        DataType::Char {
            m: Some(4),
            charset_name: None,
            collation_name: None
        },
    ));
}

#[test]
fn can_parse_char_with_charset() {
    let data_type = DataType::parse("CHAR (4) CHARACTER SET utf8mb4,").expect("Invalid input");
    let (m, charset_name, collation_name) = match data_type {
        DataType::Char {
            m,
            charset_name,
            collation_name,
        } => (m, charset_name, collation_name),
        other => panic!("Expected DataType::Char, not {other:?}"),
    };

    assert!(matches!(m, Some(4)));
    assert_eq!(charset_name.unwrap().as_str(), "utf8mb4");
    assert!(matches!(collation_name, None));
}

#[test]
fn can_parse_char_with_charset_and_collate() {
    let data_type = DataType::parse("CHAR (4) CHARACTER SET utf8mb4 COLLATE utf8mb4_general_ci,").expect("Invalid input");
    let (m, charset_name, collation_name) = match data_type {
        DataType::Char {
            m,
            charset_name,
            collation_name,
        } => (m, charset_name, collation_name),
        other => panic!("Expected DataType::Char, not {other:?}"),
    };

    assert!(matches!(m, Some(4)));
    assert_eq!(charset_name.unwrap().as_str(), "utf8mb4");
    assert_eq!(collation_name.unwrap().as_str(), "utf8mb4_general_ci");
}

#[test]
fn can_write_char_default() {
    assert_eq!(
        DataType::Char {
            m: None,
            charset_name: None,
            collation_name: None
        }
        .to_string()
        .as_str(),
        "CHAR"
    );
}

#[test]
fn can_write_char() {
    assert_eq!(
        DataType::Char {
            m: Some(4),
            charset_name: None,
            collation_name: None
        }
        .to_string()
        .as_str(),
        "CHAR (4)"
    );
}

#[test]
fn can_write_char_with_charset() {
    assert_eq!(
        DataType::Char {
            m: Some(4),
            charset_name: Some(String::from("utf8mb4")),
            collation_name: None
        }
        .to_string()
        .as_str(),
        "CHAR (4) CHARACTER SET utf8mb4"
    );
}

#[test]
fn can_write_char_with_charset_and_collate() {
    assert_eq!(
        DataType::Char {
            m: Some(4),
            charset_name: Some(String::from("utf8mb4")),
            collation_name: Some(String::from("utf8mb4_general_ci"))
        }
        .to_string()
        .as_str(),
        "CHAR (4) CHARACTER SET utf8mb4 COLLATE utf8mb4_general_ci"
    );
}

#[test]
fn can_parse_varchar_default() {
    assert!(matches!(
        DataType::parse("VARCHAR,").expect("Invalid input"),
        DataType::Varchar {
            m: None,
            charset_name: None,
            collation_name: None
        },
    ));
}

#[test]
fn can_parse_varchar() {
    assert!(matches!(
        DataType::parse("VARCHAR (4),").expect("Invalid input"),
        DataType::Varchar {
            m: Some(4),
            charset_name: None,
            collation_name: None
        },
    ));
}

#[test]
fn can_parse_varchar_with_charset() {
    let data_type = DataType::parse("VARCHAR (4) CHARACTER SET utf8mb4,").expect("Invalid input");
    let (m, charset_name, collation_name) = match data_type {
        DataType::Varchar {
            m,
            charset_name,
            collation_name,
        } => (m, charset_name, collation_name),
        other => panic!("Expected DataType::Varchar, not {other:?}"),
    };

    assert!(matches!(m, Some(4)));
    assert_eq!(charset_name.unwrap().as_str(), "utf8mb4");
    assert!(matches!(collation_name, None));
}

#[test]
fn can_parse_varchar_with_charset_and_collate() {
    let data_type = DataType::parse("VARCHAR (4) CHARACTER SET utf8mb4 COLLATE utf8mb4_general_ci,").expect("Invalid input");
    let (m, charset_name, collation_name) = match data_type {
        DataType::Varchar {
            m,
            charset_name,
            collation_name,
        } => (m, charset_name, collation_name),
        other => panic!("Expected DataType::Varchar, not {other:?}"),
    };

    assert!(matches!(m, Some(4)));
    assert_eq!(charset_name.unwrap().as_str(), "utf8mb4");
    assert_eq!(collation_name.unwrap().as_str(), "utf8mb4_general_ci");
}

#[test]
fn can_write_varchar_default() {
    assert_eq!(
        DataType::Varchar {
            m: None,
            charset_name: None,
            collation_name: None
        }
        .to_string()
        .as_str(),
        "VARCHAR"
    );
}

#[test]
fn can_write_varchar() {
    assert_eq!(
        DataType::Varchar {
            m: Some(4),
            charset_name: None,
            collation_name: None
        }
        .to_string()
        .as_str(),
        "VARCHAR (4)"
    );
}

#[test]
fn can_write_varchar_with_charset() {
    assert_eq!(
        DataType::Varchar {
            m: Some(4),
            charset_name: Some(String::from("utf8mb4")),
            collation_name: None
        }
        .to_string()
        .as_str(),
        "VARCHAR (4) CHARACTER SET utf8mb4"
    );
}

#[test]
fn can_write_varchar_with_charset_and_collate() {
    assert_eq!(
        DataType::Varchar {
            m: Some(4),
            charset_name: Some(String::from("utf8mb4")),
            collation_name: Some(String::from("utf8mb4_general_ci"))
        }
        .to_string()
        .as_str(),
        "VARCHAR (4) CHARACTER SET utf8mb4 COLLATE utf8mb4_general_ci"
    );
}

#[test]
fn can_parse_binary_default() {
    assert!(matches!(
        DataType::parse("BINARY,").expect("Invalid input"),
        DataType::Binary { m: None }
    ));
}

#[test]
fn can_parse_binary() {
    assert!(matches!(
        DataType::parse("BINARY (4),").expect("Invalid input"),
        DataType::Binary { m: Some(4) }
    ));
}

#[test]
fn can_write_binary_default() {
    assert_eq!(DataType::Binary { m: None }.to_string().as_str(), "BINARY");
}

#[test]
fn can_write_binary() {
    assert_eq!(
        DataType::Binary { m: Some(4) }.to_string().as_str(),
        "BINARY (4)"
    );
}

#[test]
fn can_parse_varbinary() {
    assert!(matches!(
        DataType::parse("VARBINARY (4),").expect("Invalid input"),
        DataType::Varbinary { m: 4 }
    ));
}

#[test]
fn can_write_varbinary() {
    assert_eq!(
        DataType::Varbinary { m: 4 }.to_string().as_str(),
        "VARBINARY (4)"
    );
}

#[test]
fn can_parse_blob_default() {
    assert!(matches!(
        DataType::parse("BLOB,").expect("Invalid input"),
        DataType::Blob { m: None }
    ));
}

#[test]
fn can_parse_blob() {
    assert!(matches!(
        DataType::parse("BLOB (4),").expect("Invalid input"),
        DataType::Blob { m: Some(4) }
    ));
}

#[test]
fn can_write_blob_default() {
    assert_eq!(DataType::Blob { m: None }.to_string().as_str(), "BLOB");
}

#[test]
fn can_write_blob() {
    assert_eq!(
        DataType::Blob { m: Some(4) }.to_string().as_str(),
        "BLOB (4)"
    );
}

#[test]
fn can_parse_tinyblob() {
    assert!(matches!(
        DataType::parse("TINYBLOB,").expect("Invalid input"),
        DataType::TinyBlob,
    ));
}

#[test]
fn can_write_tinyblob() {
    assert_eq!(DataType::TinyBlob.to_string().as_str(), "TINYBLOB");
}

#[test]
fn can_parse_mediumblob() {
    assert!(matches!(
        DataType::parse("MEDIUMBLOB,").expect("Invalid input"),
        DataType::MediumBlob,
    ));
}

#[test]
fn can_write_mediumblob() {
    assert_eq!(DataType::MediumBlob.to_string().as_str(), "MEDIUMBLOB");
}

#[test]
fn can_parse_longblob() {
    assert!(matches!(
        DataType::parse("LONGBLOB,").expect("Invalid input"),
        DataType::LongBlob,
    ));
}

#[test]
fn can_write_longblob() {
    assert_eq!(DataType::LongBlob.to_string().as_str(), "LONGBLOB");
}

#[test]
fn can_parse_text_default() {
    assert!(matches!(
        DataType::parse("TEXT,").expect("Invalid input"),
        DataType::Text {
            m: None,
            charset_name: None,
            collation_name: None
        }
    ));
}

#[test]
fn can_parse_text() {
    assert!(matches!(
        DataType::parse("TEXT (4),").expect("Invalid input"),
        DataType::Text {
            m: Some(4),
            charset_name: None,
            collation_name: None
        }
    ));
}

#[test]
fn can_parse_text_with_charset() {
    let data_type = DataType::parse("TEXT (4) CHARACTER SET utf8mb4,").expect("Invalid input");
    let (m, charset_name, collation_name) = match data_type {
        DataType::Text {
            m,
            charset_name,
            collation_name,
        } => (m, charset_name, collation_name),
        other => panic!("Expected DataType::Text, not {other:?}"),
    };

    assert!(matches!(m, Some(4)));
    assert_eq!(charset_name.unwrap().as_str(), "utf8mb4");
    assert!(matches!(collation_name, None));
}

#[test]
fn can_parse_text_with_charset_and_collate() {
    let data_type = DataType::parse("TEXT (4) CHARACTER SET utf8mb4 COLLATE utf8mb4_general_ci,").expect("Invalid input");
    let (m, charset_name, collation_name) = match data_type {
        DataType::Text {
            m,
            charset_name,
            collation_name,
        } => (m, charset_name, collation_name),
        other => panic!("Expected DataType::Text, not {other:?}"),
    };

    assert!(matches!(m, Some(4)));
    assert_eq!(charset_name.unwrap().as_str(), "utf8mb4");
    assert_eq!(collation_name.unwrap().as_str(), "utf8mb4_general_ci");
}

#[test]
fn can_write_text_default() {
    assert_eq!(
        DataType::Text {
            m: None,
            charset_name: None,
            collation_name: None
        }
        .to_string()
        .as_str(),
        "TEXT"
    );
}

#[test]
fn can_write_text() {
    assert_eq!(
        DataType::Text {
            m: Some(4),
            charset_name: None,
            collation_name: None
        }
        .to_string()
        .as_str(),
        "TEXT (4)"
    );
}

#[test]
fn can_write_text_with_charset() {
    assert_eq!(
        DataType::Text {
            m: Some(4),
            charset_name: Some(String::from("utf8mb4")),
            collation_name: None
        }
        .to_string()
        .as_str(),
        "TEXT (4) CHARACTER SET utf8mb4"
    );
}

#[test]
fn can_write_text_with_charset_and_collate() {
    assert_eq!(
        DataType::Text {
            m: Some(4),
            charset_name: Some(String::from("utf8mb4")),
            collation_name: Some(String::from("utf8mb4_general_ci"))
        }
        .to_string()
        .as_str(),
        "TEXT (4) CHARACTER SET utf8mb4 COLLATE utf8mb4_general_ci"
    );
}

#[test]
fn can_parse_tinytext() {
    let data_type = DataType::parse("TINYTEXT,").expect("Invalid input");
    let (charset_name, collation_name) = match data_type {
        DataType::TinyText {
            charset_name,
            collation_name,
        } => (charset_name, collation_name),
        other => panic!("Expected DataType::TinyText, not {other:?}"),
    };

    assert!(charset_name.is_none());
    assert!(collation_name.is_none());
}

#[test]
fn can_parse_tinytext_with_charset() {
    let data_type = DataType::parse("TINYTEXT CHARACTER SET utf8mb4,").expect("Invalid input");
    let (charset_name, collation_name) = match data_type {
        DataType::TinyText {
            charset_name,
            collation_name,
        } => (charset_name, collation_name),
        other => panic!("Expected DataType::TinyText, not {other:?}"),
    };

    assert_eq!(charset_name.unwrap().as_str(), "utf8mb4");
    assert!(collation_name.is_none());
}

#[test]
fn can_parse_tinytext_with_charset_and_collate() {
    let data_type = DataType::parse("TINYTEXT CHARACTER SET utf8mb4 COLLATE utf8mb4_general_ci,").expect("Invalid input");
    let (charset_name, collation_name) = match data_type {
        DataType::TinyText {
            charset_name,
            collation_name,
        } => (charset_name, collation_name),
        other => panic!("Expected DataType::TinyText, not {other:?}"),
    };

    assert_eq!(charset_name.unwrap().as_str(), "utf8mb4");
    assert_eq!(collation_name.unwrap().as_str(), "utf8mb4_general_ci");
}

#[test]
fn can_write_tinytext() {
    assert_eq!(
        DataType::TinyText {
            charset_name: None,
            collation_name: None
        }
        .to_string()
        .as_str(),
        "TINYTEXT"
    );
}

#[test]
fn can_write_tinytext_with_charset() {
    assert_eq!(
        DataType::TinyText {
            charset_name: Some(String::from("utf8mb4")),
            collation_name: None
        }
        .to_string()
        .as_str(),
        "TINYTEXT CHARACTER SET utf8mb4"
    );
}

#[test]
fn can_write_tinytext_with_charset_and_collate() {
    assert_eq!(
        DataType::TinyText {
            charset_name: Some(String::from("utf8mb4")),
            collation_name: Some(String::from("utf8mb4_general_ci"))
        }
        .to_string()
        .as_str(),
        "TINYTEXT CHARACTER SET utf8mb4 COLLATE utf8mb4_general_ci"
    );
}

#[test]
fn can_parse_mediumtext() {
    let data_type = DataType::parse("MEDIUMTEXT,").expect("Invalid input");
    let (charset_name, collation_name) = match data_type {
        DataType::MediumText {
            charset_name,
            collation_name,
        } => (charset_name, collation_name),
        other => panic!("Expected DataType::MediumText, not {other:?}"),
    };

    assert!(charset_name.is_none());
    assert!(collation_name.is_none());
}

#[test]
fn can_parse_mediumtext_with_charset() {
    let data_type = DataType::parse("MEDIUMTEXT CHARACTER SET utf8mb4,").expect("Invalid input");
    let (charset_name, collation_name) = match data_type {
        DataType::MediumText {
            charset_name,
            collation_name,
        } => (charset_name, collation_name),
        other => panic!("Expected DataType::MediumText, not {other:?}"),
    };

    assert_eq!(charset_name.unwrap().as_str(), "utf8mb4");
    assert!(collation_name.is_none());
}

#[test]
fn can_parse_mediumtext_with_charset_and_collate() {
    let data_type = DataType::parse("MEDIUMTEXT CHARACTER SET utf8mb4 COLLATE utf8mb4_general_ci,").expect("Invalid input");
    let (charset_name, collation_name) = match data_type {
        DataType::MediumText {
            charset_name,
            collation_name,
        } => (charset_name, collation_name),
        other => panic!("Expected DataType::MediumText, not {other:?}"),
    };

    assert_eq!(charset_name.unwrap().as_str(), "utf8mb4");
    assert_eq!(collation_name.unwrap().as_str(), "utf8mb4_general_ci");
}

#[test]
fn can_write_mediumtext() {
    assert_eq!(
        DataType::MediumText {
            charset_name: None,
            collation_name: None
        }
        .to_string()
        .as_str(),
        "MEDIUMTEXT"
    );
}

#[test]
fn can_write_mediumtext_with_charset() {
    assert_eq!(
        DataType::MediumText {
            charset_name: Some(String::from("utf8mb4")),
            collation_name: None
        }
        .to_string()
        .as_str(),
        "MEDIUMTEXT CHARACTER SET utf8mb4"
    );
}

#[test]
fn can_write_mediumtext_with_charset_and_collate() {
    assert_eq!(
        DataType::MediumText {
            charset_name: Some(String::from("utf8mb4")),
            collation_name: Some(String::from("utf8mb4_general_ci"))
        }
        .to_string()
        .as_str(),
        "MEDIUMTEXT CHARACTER SET utf8mb4 COLLATE utf8mb4_general_ci"
    );
}

#[test]
fn can_parse_longtext() {
    let data_type = DataType::parse("LONGTEXT,").expect("Invalid input");
    let (charset_name, collation_name) = match data_type {
        DataType::LongText {
            charset_name,
            collation_name,
        } => (charset_name, collation_name),
        other => panic!("Expected DataType::LongText, not {other:?}"),
    };

    assert!(charset_name.is_none());
    assert!(collation_name.is_none());
}

#[test]
fn can_parse_longtext_with_charset() {
    let data_type = DataType::parse("LONGTEXT CHARACTER SET utf8mb4,").expect("Invalid input");
    let (charset_name, collation_name) = match data_type {
        DataType::LongText {
            charset_name,
            collation_name,
        } => (charset_name, collation_name),
        other => panic!("Expected DataType::LongText, not {other:?}"),
    };

    assert_eq!(charset_name.unwrap().as_str(), "utf8mb4");
    assert!(collation_name.is_none());
}

#[test]
fn can_parse_longtext_with_charset_and_collate() {
    let data_type = DataType::parse("LONGTEXT CHARACTER SET utf8mb4 COLLATE utf8mb4_general_ci,").expect("Invalid input");
    let (charset_name, collation_name) = match data_type {
        DataType::LongText {
            charset_name,
            collation_name,
        } => (charset_name, collation_name),
        other => panic!("Expected DataType::LongText, not {other:?}"),
    };

    assert_eq!(charset_name.unwrap().as_str(), "utf8mb4");
    assert_eq!(collation_name.unwrap().as_str(), "utf8mb4_general_ci");
}

#[test]
fn can_write_longtext() {
    assert_eq!(
        DataType::LongText {
            charset_name: None,
            collation_name: None
        }
        .to_string()
        .as_str(),
        "LONGTEXT"
    );
}

#[test]
fn can_write_longtext_with_charset() {
    assert_eq!(
        DataType::LongText {
            charset_name: Some(String::from("utf8mb4")),
            collation_name: None
        }
        .to_string()
        .as_str(),
        "LONGTEXT CHARACTER SET utf8mb4"
    );
}

#[test]
fn can_write_longtext_with_charset_and_collate() {
    assert_eq!(
        DataType::LongText {
            charset_name: Some(String::from("utf8mb4")),
            collation_name: Some(String::from("utf8mb4_general_ci"))
        }
        .to_string()
        .as_str(),
        "LONGTEXT CHARACTER SET utf8mb4 COLLATE utf8mb4_general_ci"
    );
}

#[test]
fn can_parse_enum() {
    let data_type = DataType::parse("ENUM ('value_one', 'value_two'),").expect("Invalid input");
    let (values, charset_name, collation_name) = match data_type {
        DataType::Enum {
            values,
            charset_name,
            collation_name,
        } => (values, charset_name, collation_name),
        other => panic!("Expected DataType::Enum, not {other:?}"),
    };

    assert_eq!(
        values,
        vec![String::from("value_one"), String::from("value_two")]
    );
    assert!(charset_name.is_none());
    assert!(collation_name.is_none());
}

#[test]
fn can_parse_enum_with_charset() {
    let data_type = DataType::parse("ENUM ('value_one', 'value_two') CHARACTER SET utf8mb4,").expect("Invalid input");
    let (values, charset_name, collation_name) = match data_type {
        DataType::Enum {
            values,
            charset_name,
            collation_name,
        } => (values, charset_name, collation_name),
        other => panic!("Expected DataType::Enum, not {other:?}"),
    };

    assert_eq!(
        values,
        vec![String::from("value_one"), String::from("value_two")]
    );
    assert_eq!(charset_name.unwrap().as_str(), "utf8mb4");
    assert!(collation_name.is_none());
}

#[test]
fn can_parse_enum_with_charset_and_collate() {
    let data_type = DataType::parse("ENUM ('value_one', 'value_two') CHARACTER SET utf8mb4 COLLATE utf8mb4_general_ci,").expect("Invalid input");
    let (values, charset_name, collation_name) = match data_type {
        DataType::Enum {
            values,
            charset_name,
            collation_name,
        } => (values, charset_name, collation_name),
        other => panic!("Expected DataType::Enum, not {other:?}"),
    };

    assert_eq!(
        values,
        vec![String::from("value_one"), String::from("value_two")]
    );
    assert_eq!(charset_name.unwrap().as_str(), "utf8mb4");
    assert_eq!(collation_name.unwrap().as_str(), "utf8mb4_general_ci");
}

#[test]
fn can_write_enum() {
    assert_eq!(
        DataType::Enum {
            values: vec![String::from("value_one"), String::from("value_two")],
            charset_name: None,
            collation_name: None
        }
        .to_string()
        .as_str(),
        "ENUM ('value_one', 'value_two')"
    );
}

#[test]
fn can_write_enum_with_charset() {
    assert_eq!(
        DataType::Enum {
            values: vec![String::from("value_one"), String::from("value_two")],
            charset_name: Some(String::from("utf8mb4")),
            collation_name: None
        }
        .to_string()
        .as_str(),
        "ENUM ('value_one', 'value_two') CHARACTER SET utf8mb4"
    );
}

#[test]
fn can_write_enum_with_charset_and_collate() {
    assert_eq!(
        DataType::Enum {
            values: vec![String::from("value_one"), String::from("value_two")],
            charset_name: Some(String::from("utf8mb4")),
            collation_name: Some(String::from("utf8mb4_general_ci"))
        }
        .to_string()
        .as_str(),
        "ENUM ('value_one', 'value_two') CHARACTER SET utf8mb4 COLLATE utf8mb4_general_ci"
    );
}

#[test]
fn can_parse_set() {
    let data_type = DataType::parse("SET ('value_one', 'value_two'),").expect("Invalid input");
    let (values, charset_name, collation_name) = match data_type {
        DataType::SetType {
            values,
            charset_name,
            collation_name,
        } => (values, charset_name, collation_name),
        other => panic!("Expected DataType::SetType, not {other:?}"),
    };

    assert_eq!(
        values,
        vec![String::from("value_one"), String::from("value_two")]
    );
    assert!(charset_name.is_none());
    assert!(collation_name.is_none());
}

#[test]
fn can_parse_set_with_charset() {
    let data_type = DataType::parse("SET ('value_one', 'value_two') CHARACTER SET utf8mb4,").expect("Invalid input");
    let (values, charset_name, collation_name) = match data_type {
        DataType::SetType {
            values,
            charset_name,
            collation_name,
        } => (values, charset_name, collation_name),
        other => panic!("Expected DataType::SetType, not {other:?}"),
    };

    assert_eq!(
        values,
        vec![String::from("value_one"), String::from("value_two")]
    );
    assert_eq!(charset_name.unwrap().as_str(), "utf8mb4");
    assert!(collation_name.is_none());
}

#[test]
fn can_parse_set_with_charset_and_collate() {
    let data_type = DataType::parse("SET ('value_one', 'value_two') CHARACTER SET utf8mb4 COLLATE utf8mb4_general_ci,").expect("Invalid input");
    let (values, charset_name, collation_name) = match data_type {
        DataType::SetType {
            values,
            charset_name,
            collation_name,
        } => (values, charset_name, collation_name),
        other => panic!("Expected DataType::SetType, not {other:?}"),
    };

    assert_eq!(
        values,
        vec![String::from("value_one"), String::from("value_two")]
    );
    assert_eq!(charset_name.unwrap().as_str(), "utf8mb4");
    assert_eq!(collation_name.unwrap().as_str(), "utf8mb4_general_ci");
}

#[test]
fn can_write_set() {
    assert_eq!(
        DataType::SetType {
            values: vec![String::from("value_one"), String::from("value_two")],
            charset_name: None,
            collation_name: None
        }
        .to_string()
        .as_str(),
        "SET ('value_one', 'value_two')"
    );
}

#[test]
fn can_write_set_with_charset() {
    assert_eq!(
        DataType::SetType {
            values: vec![String::from("value_one"), String::from("value_two")],
            charset_name: Some(String::from("utf8mb4")),
            collation_name: None
        }
        .to_string()
        .as_str(),
        "SET ('value_one', 'value_two') CHARACTER SET utf8mb4"
    );
}

#[test]
fn can_write_set_with_charset_and_collate() {
    assert_eq!(
        DataType::SetType {
            values: vec![String::from("value_one"), String::from("value_two")],
            charset_name: Some(String::from("utf8mb4")),
            collation_name: Some(String::from("utf8mb4_general_ci"))
        }
        .to_string()
        .as_str(),
        "SET ('value_one', 'value_two') CHARACTER SET utf8mb4 COLLATE utf8mb4_general_ci"
    );
}

#[test]
fn can_parse_json() {
    assert!(matches!(
        DataType::parse("JSON,").expect("Invalid input"),
        DataType::Json,
    ));
}

#[test]
fn can_write_json() {
    assert_eq!(DataType::Json.to_string().as_str(), "JSON");
}
