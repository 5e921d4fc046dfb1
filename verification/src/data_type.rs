use vstd::prelude::*;
use vstd::string::*;
use crate::error::ParseError;
use crate::lex::{
    CharClass,
    ItemKind,
    accept_keyword,
    after_word,
    agrees,
    at_char,
    at_keyword,
    expect_char,
    expect_keyword,
    finish,
    is_char,
    is_keyword,
    parse_item_list,
    parse_u32,
    parse_word,
    parsed,
    run_end,
    scan_run,
    sees_keyword,
    skip_ws,
    spec_expect_char,
    spec_expect_keyword,
    spec_parse_item_list,
    spec_parse_u32,
    spec_parse_word,
};
use crate::text::{chars_of, dec_digits, join_quoted, push_join_quoted, push_number};

verus! {

/// A column's data type, one variant for each type keyword of the dialect.
#[allow(inconsistent_fields)]
#[derive(Debug, Clone, PartialEq, Eq)]
pub enum DataType {
    TinyInt { m: Option<u32>, unsigned: bool, zerofill: bool },
    SmallInt { m: Option<u32>, unsigned: bool, zerofill: bool },
    MediumInt { m: Option<u32>, unsigned: bool, zerofill: bool },
    Int { m: Option<u32>, unsigned: bool, zerofill: bool },
    BigInt { m: Option<u32>, unsigned: bool, zerofill: bool },
    Decimal { m: Option<u32>, d: Option<u32>, unsigned: bool, zerofill: bool },
    Float { m: Option<u32>, d: Option<u32>, unsigned: bool, zerofill: bool },
    Double { m: Option<u32>, d: Option<u32>, unsigned: bool, zerofill: bool },
    Bit { m: Option<u32> },
    Date,
    DateTime { fsp: Option<u32> },
    Timestamp { fsp: Option<u32> },
    Time { fsp: Option<u32> },
    Year { m: Option<u32> },
    Char { m: Option<u32>, charset_name: Option<String>, collation_name: Option<String> },
    Varchar { m: Option<u32>, charset_name: Option<String>, collation_name: Option<String> },
    Binary { m: Option<u32> },
    Varbinary { m: u32 },
    Blob { m: Option<u32> },
    TinyBlob,
    MediumBlob,
    LongBlob,
    Text { m: Option<u32>, charset_name: Option<String>, collation_name: Option<String> },
    TinyText { charset_name: Option<String>, collation_name: Option<String> },
    MediumText { charset_name: Option<String>, collation_name: Option<String> },
    LongText { charset_name: Option<String>, collation_name: Option<String> },
    Enum { values: Vec<String>, charset_name: Option<String>, collation_name: Option<String> },
    SetType { values: Vec<String>, charset_name: Option<String>, collation_name: Option<String> },
    Json,
}

/// The type keyword alone, without the parameters that follow it.
#[derive(Debug, Clone, Copy, PartialEq, Eq, Structural)]
pub enum TypeKind {
    TinyInt,
    SmallInt,
    MediumInt,
    Int,
    BigInt,
    Decimal,
    Float,
    Double,
    Bit,
    Date,
    DateTime,
    Timestamp,
    Time,
    Year,
    Char,
    Varchar,
    Binary,
    Varbinary,
    Blob,
    TinyBlob,
    MediumBlob,
    LongBlob,
    Text,
    TinyText,
    MediumText,
    LongText,
    Enum,
    SetType,
    Json,
}

/// Whether a size between parentheses may, must or cannot follow a keyword.
#[derive(Debug, Clone, Copy, PartialEq, Eq, Structural)]
pub enum SizeMode {
    Absent,
    Optional,
    Required,
}

/// A data type as a record: the keyword, and each parameter that some
/// keyword takes. A parameter that the keyword does not take is `None`,
/// `false` or empty.
pub struct DataTypeView {
    pub kind: TypeKind,
    pub values: Seq<Seq<char>>,
    pub size: Option<u32>,
    pub scale: Option<u32>,
    pub unsigned: bool,
    pub zerofill: bool,
    pub charset: Option<Seq<char>>,
    pub collation: Option<Seq<char>>,
}

impl DeepView for DataType {
    type V = DataTypeView;

    open spec fn deep_view(&self) -> DataTypeView {
        match *self {
            DataType::TinyInt { m, unsigned, zerofill } => DataTypeView { kind: TypeKind::TinyInt, values: Seq::empty(), size: m, scale: None, unsigned: unsigned, zerofill: zerofill, charset: None, collation: None },
            DataType::SmallInt { m, unsigned, zerofill } => DataTypeView { kind: TypeKind::SmallInt, values: Seq::empty(), size: m, scale: None, unsigned: unsigned, zerofill: zerofill, charset: None, collation: None },
            DataType::MediumInt { m, unsigned, zerofill } => DataTypeView { kind: TypeKind::MediumInt, values: Seq::empty(), size: m, scale: None, unsigned: unsigned, zerofill: zerofill, charset: None, collation: None },
            DataType::Int { m, unsigned, zerofill } => DataTypeView { kind: TypeKind::Int, values: Seq::empty(), size: m, scale: None, unsigned: unsigned, zerofill: zerofill, charset: None, collation: None },
            DataType::BigInt { m, unsigned, zerofill } => DataTypeView { kind: TypeKind::BigInt, values: Seq::empty(), size: m, scale: None, unsigned: unsigned, zerofill: zerofill, charset: None, collation: None },
            DataType::Decimal { m, d, unsigned, zerofill } => DataTypeView { kind: TypeKind::Decimal, values: Seq::empty(), size: m, scale: d, unsigned: unsigned, zerofill: zerofill, charset: None, collation: None },
            DataType::Float { m, d, unsigned, zerofill } => DataTypeView { kind: TypeKind::Float, values: Seq::empty(), size: m, scale: d, unsigned: unsigned, zerofill: zerofill, charset: None, collation: None },
            DataType::Double { m, d, unsigned, zerofill } => DataTypeView { kind: TypeKind::Double, values: Seq::empty(), size: m, scale: d, unsigned: unsigned, zerofill: zerofill, charset: None, collation: None },
            DataType::Bit { m } => DataTypeView { kind: TypeKind::Bit, values: Seq::empty(), size: m, scale: None, unsigned: false, zerofill: false, charset: None, collation: None },
            DataType::Date => DataTypeView { kind: TypeKind::Date, values: Seq::empty(), size: None, scale: None, unsigned: false, zerofill: false, charset: None, collation: None },
            DataType::DateTime { fsp } => DataTypeView { kind: TypeKind::DateTime, values: Seq::empty(), size: fsp, scale: None, unsigned: false, zerofill: false, charset: None, collation: None },
            DataType::Timestamp { fsp } => DataTypeView { kind: TypeKind::Timestamp, values: Seq::empty(), size: fsp, scale: None, unsigned: false, zerofill: false, charset: None, collation: None },
            DataType::Time { fsp } => DataTypeView { kind: TypeKind::Time, values: Seq::empty(), size: fsp, scale: None, unsigned: false, zerofill: false, charset: None, collation: None },
            DataType::Year { m } => DataTypeView { kind: TypeKind::Year, values: Seq::empty(), size: m, scale: None, unsigned: false, zerofill: false, charset: None, collation: None },
            DataType::Char { m, charset_name, collation_name } => DataTypeView { kind: TypeKind::Char, values: Seq::empty(), size: m, scale: None, unsigned: false, zerofill: false, charset: charset_name.deep_view(), collation: collation_name.deep_view() },
            DataType::Varchar { m, charset_name, collation_name } => DataTypeView { kind: TypeKind::Varchar, values: Seq::empty(), size: m, scale: None, unsigned: false, zerofill: false, charset: charset_name.deep_view(), collation: collation_name.deep_view() },
            DataType::Binary { m } => DataTypeView { kind: TypeKind::Binary, values: Seq::empty(), size: m, scale: None, unsigned: false, zerofill: false, charset: None, collation: None },
            DataType::Varbinary { m } => DataTypeView { kind: TypeKind::Varbinary, values: Seq::empty(), size: Some(m), scale: None, unsigned: false, zerofill: false, charset: None, collation: None },
            DataType::Blob { m } => DataTypeView { kind: TypeKind::Blob, values: Seq::empty(), size: m, scale: None, unsigned: false, zerofill: false, charset: None, collation: None },
            DataType::TinyBlob => DataTypeView { kind: TypeKind::TinyBlob, values: Seq::empty(), size: None, scale: None, unsigned: false, zerofill: false, charset: None, collation: None },
            DataType::MediumBlob => DataTypeView { kind: TypeKind::MediumBlob, values: Seq::empty(), size: None, scale: None, unsigned: false, zerofill: false, charset: None, collation: None },
            DataType::LongBlob => DataTypeView { kind: TypeKind::LongBlob, values: Seq::empty(), size: None, scale: None, unsigned: false, zerofill: false, charset: None, collation: None },
            DataType::Text { m, charset_name, collation_name } => DataTypeView { kind: TypeKind::Text, values: Seq::empty(), size: m, scale: None, unsigned: false, zerofill: false, charset: charset_name.deep_view(), collation: collation_name.deep_view() },
            DataType::TinyText { charset_name, collation_name } => DataTypeView { kind: TypeKind::TinyText, values: Seq::empty(), size: None, scale: None, unsigned: false, zerofill: false, charset: charset_name.deep_view(), collation: collation_name.deep_view() },
            DataType::MediumText { charset_name, collation_name } => DataTypeView { kind: TypeKind::MediumText, values: Seq::empty(), size: None, scale: None, unsigned: false, zerofill: false, charset: charset_name.deep_view(), collation: collation_name.deep_view() },
            DataType::LongText { charset_name, collation_name } => DataTypeView { kind: TypeKind::LongText, values: Seq::empty(), size: None, scale: None, unsigned: false, zerofill: false, charset: charset_name.deep_view(), collation: collation_name.deep_view() },
            DataType::Enum { values, charset_name, collation_name } => DataTypeView { kind: TypeKind::Enum, values: values.deep_view(), size: None, scale: None, unsigned: false, zerofill: false, charset: charset_name.deep_view(), collation: collation_name.deep_view() },
            DataType::SetType { values, charset_name, collation_name } => DataTypeView { kind: TypeKind::SetType, values: values.deep_view(), size: None, scale: None, unsigned: false, zerofill: false, charset: charset_name.deep_view(), collation: collation_name.deep_view() },
            DataType::Json => DataTypeView { kind: TypeKind::Json, values: Seq::empty(), size: None, scale: None, unsigned: false, zerofill: false, charset: None, collation: None },
        }
    }
}

/// Whether a list of values follows the keyword.
pub open spec fn has_values(k: TypeKind) -> bool {
    k == TypeKind::Enum || k == TypeKind::SetType
}

/// Whether a size may, must or cannot follow the keyword.
pub open spec fn size_mode(k: TypeKind) -> SizeMode {
    match k {
        TypeKind::Varbinary => SizeMode::Required,
        TypeKind::Date
        | TypeKind::TinyBlob
        | TypeKind::MediumBlob
        | TypeKind::LongBlob
        | TypeKind::TinyText
        | TypeKind::MediumText
        | TypeKind::LongText
        | TypeKind::Enum
        | TypeKind::SetType
        | TypeKind::Json => SizeMode::Absent,
        _ => SizeMode::Optional,
    }
}

/// Whether a scale may follow the size.
pub open spec fn has_scale(k: TypeKind) -> bool {
    k == TypeKind::Decimal || k == TypeKind::Float || k == TypeKind::Double
}

/// Whether `UNSIGNED` and `ZEROFILL` may follow.
pub open spec fn has_sign(k: TypeKind) -> bool {
    k == TypeKind::TinyInt || k == TypeKind::SmallInt || k == TypeKind::MediumInt || k
        == TypeKind::Int || k == TypeKind::BigInt || has_scale(k)
}

/// Whether a character set and a collation may follow.
pub open spec fn has_charset(k: TypeKind) -> bool {
    k == TypeKind::Char || k == TypeKind::Varchar || k == TypeKind::Text || k
        == TypeKind::TinyText || k == TypeKind::MediumText || k == TypeKind::LongText
        || has_values(k)
}

impl TypeKind {
    /// Whether a list of values follows the keyword.
    pub fn takes_values(self) -> (b: bool)
        ensures
            b == has_values(self),
    {
        matches!(self, TypeKind::Enum | TypeKind::SetType)
    }

    /// Whether a size may, must or cannot follow the keyword.
    pub fn takes_size(self) -> (m: SizeMode)
        ensures
            m == size_mode(self),
    {
        match self {
            TypeKind::Varbinary => SizeMode::Required,
            TypeKind::Date
            | TypeKind::TinyBlob
            | TypeKind::MediumBlob
            | TypeKind::LongBlob
            | TypeKind::TinyText
            | TypeKind::MediumText
            | TypeKind::LongText
            | TypeKind::Enum
            | TypeKind::SetType
            | TypeKind::Json => SizeMode::Absent,
            _ => SizeMode::Optional,
        }
    }

    /// Whether a scale may follow the size.
    pub fn takes_scale(self) -> (b: bool)
        ensures
            b == has_scale(self),
    {
        matches!(self, TypeKind::Decimal | TypeKind::Float | TypeKind::Double)
    }

    /// Whether `UNSIGNED` and `ZEROFILL` may follow.
    pub fn takes_sign(self) -> (b: bool)
        ensures
            b == has_sign(self),
    {
        matches!(
            self,
            TypeKind::TinyInt | TypeKind::SmallInt | TypeKind::MediumInt | TypeKind::Int
                | TypeKind::BigInt | TypeKind::Decimal | TypeKind::Float | TypeKind::Double
        )
    }

    /// Whether a character set and a collation may follow.
    pub fn takes_charset(self) -> (b: bool)
        ensures
            b == has_charset(self),
    {
        matches!(
            self,
            TypeKind::Char | TypeKind::Varchar | TypeKind::Text | TypeKind::TinyText
                | TypeKind::MediumText | TypeKind::LongText | TypeKind::Enum | TypeKind::SetType
        )
    }

    /// The keyword in upper case, as it is written out.
    pub open spec fn spec_name(self) -> Seq<char> {
        match self {
            TypeKind::TinyInt => "TINYINT"@,
            TypeKind::SmallInt => "SMALLINT"@,
            TypeKind::MediumInt => "MEDIUMINT"@,
            TypeKind::Int => "INT"@,
            TypeKind::BigInt => "BIGINT"@,
            TypeKind::Decimal => "DECIMAL"@,
            TypeKind::Float => "FLOAT"@,
            TypeKind::Double => "DOUBLE"@,
            TypeKind::Bit => "BIT"@,
            TypeKind::Date => "DATE"@,
            TypeKind::DateTime => "DATETIME"@,
            TypeKind::Timestamp => "TIMESTAMP"@,
            TypeKind::Time => "TIME"@,
            TypeKind::Year => "YEAR"@,
            TypeKind::Char => "CHAR"@,
            TypeKind::Varchar => "VARCHAR"@,
            TypeKind::Binary => "BINARY"@,
            TypeKind::Varbinary => "VARBINARY"@,
            TypeKind::Blob => "BLOB"@,
            TypeKind::TinyBlob => "TINYBLOB"@,
            TypeKind::MediumBlob => "MEDIUMBLOB"@,
            TypeKind::LongBlob => "LONGBLOB"@,
            TypeKind::Text => "TEXT"@,
            TypeKind::TinyText => "TINYTEXT"@,
            TypeKind::MediumText => "MEDIUMTEXT"@,
            TypeKind::LongText => "LONGTEXT"@,
            TypeKind::Enum => "ENUM"@,
            TypeKind::SetType => "SET"@,
            TypeKind::Json => "JSON"@,
        }
    }

    /// The keyword in upper case, as it is written out.
    pub fn name(self) -> (n: &'static str)
        ensures
            n@ == self.spec_name(),
    {
        match self {
            TypeKind::TinyInt => "TINYINT",
            TypeKind::SmallInt => "SMALLINT",
            TypeKind::MediumInt => "MEDIUMINT",
            TypeKind::Int => "INT",
            TypeKind::BigInt => "BIGINT",
            TypeKind::Decimal => "DECIMAL",
            TypeKind::Float => "FLOAT",
            TypeKind::Double => "DOUBLE",
            TypeKind::Bit => "BIT",
            TypeKind::Date => "DATE",
            TypeKind::DateTime => "DATETIME",
            TypeKind::Timestamp => "TIMESTAMP",
            TypeKind::Time => "TIME",
            TypeKind::Year => "YEAR",
            TypeKind::Char => "CHAR",
            TypeKind::Varchar => "VARCHAR",
            TypeKind::Binary => "BINARY",
            TypeKind::Varbinary => "VARBINARY",
            TypeKind::Blob => "BLOB",
            TypeKind::TinyBlob => "TINYBLOB",
            TypeKind::MediumBlob => "MEDIUMBLOB",
            TypeKind::LongBlob => "LONGBLOB",
            TypeKind::Text => "TEXT",
            TypeKind::TinyText => "TINYTEXT",
            TypeKind::MediumText => "MEDIUMTEXT",
            TypeKind::LongText => "LONGTEXT",
            TypeKind::Enum => "ENUM",
            TypeKind::SetType => "SET",
            TypeKind::Json => "JSON",
        }
    }
}

/// The type that the word at `pos` names, if it names one. `INTEGER` stands
/// for `INT`, and `NUMERIC` for `DECIMAL`.
pub open spec fn keyword_kind(s: Seq<char>, pos: int) -> Option<TypeKind> {
    if at_keyword(s, pos, "TINYINT"@) {
        Some(TypeKind::TinyInt)
    } else if at_keyword(s, pos, "SMALLINT"@) {
        Some(TypeKind::SmallInt)
    } else if at_keyword(s, pos, "MEDIUMINT"@) {
        Some(TypeKind::MediumInt)
    } else if at_keyword(s, pos, "INT"@) {
        Some(TypeKind::Int)
    } else if at_keyword(s, pos, "INTEGER"@) {
        Some(TypeKind::Int)
    } else if at_keyword(s, pos, "BIGINT"@) {
        Some(TypeKind::BigInt)
    } else if at_keyword(s, pos, "DECIMAL"@) {
        Some(TypeKind::Decimal)
    } else if at_keyword(s, pos, "NUMERIC"@) {
        Some(TypeKind::Decimal)
    } else if at_keyword(s, pos, "FLOAT"@) {
        Some(TypeKind::Float)
    } else if at_keyword(s, pos, "DOUBLE"@) {
        Some(TypeKind::Double)
    } else if at_keyword(s, pos, "BIT"@) {
        Some(TypeKind::Bit)
    } else if at_keyword(s, pos, "DATE"@) {
        Some(TypeKind::Date)
    } else if at_keyword(s, pos, "DATETIME"@) {
        Some(TypeKind::DateTime)
    } else if at_keyword(s, pos, "TIMESTAMP"@) {
        Some(TypeKind::Timestamp)
    } else if at_keyword(s, pos, "TIME"@) {
        Some(TypeKind::Time)
    } else if at_keyword(s, pos, "YEAR"@) {
        Some(TypeKind::Year)
    } else if at_keyword(s, pos, "CHAR"@) {
        Some(TypeKind::Char)
    } else if at_keyword(s, pos, "VARCHAR"@) {
        Some(TypeKind::Varchar)
    } else if at_keyword(s, pos, "BINARY"@) {
        Some(TypeKind::Binary)
    } else if at_keyword(s, pos, "VARBINARY"@) {
        Some(TypeKind::Varbinary)
    } else if at_keyword(s, pos, "BLOB"@) {
        Some(TypeKind::Blob)
    } else if at_keyword(s, pos, "TINYBLOB"@) {
        Some(TypeKind::TinyBlob)
    } else if at_keyword(s, pos, "MEDIUMBLOB"@) {
        Some(TypeKind::MediumBlob)
    } else if at_keyword(s, pos, "LONGBLOB"@) {
        Some(TypeKind::LongBlob)
    } else if at_keyword(s, pos, "TEXT"@) {
        Some(TypeKind::Text)
    } else if at_keyword(s, pos, "TINYTEXT"@) {
        Some(TypeKind::TinyText)
    } else if at_keyword(s, pos, "MEDIUMTEXT"@) {
        Some(TypeKind::MediumText)
    } else if at_keyword(s, pos, "LONGTEXT"@) {
        Some(TypeKind::LongText)
    } else if at_keyword(s, pos, "ENUM"@) {
        Some(TypeKind::Enum)
    } else if at_keyword(s, pos, "SET"@) {
        Some(TypeKind::SetType)
    } else if at_keyword(s, pos, "JSON"@) {
        Some(TypeKind::Json)
    } else {
        None
    }
}

/// The type that the word at `pos` names, if it names one.
pub fn find_kind(s: &Vec<char>, pos: usize) -> (k: Option<TypeKind>)
    requires
        pos <= s@.len(),
    ensures
        k == keyword_kind(s@, pos as int),
{
    if is_keyword(s, pos, "TINYINT") {
        Some(TypeKind::TinyInt)
    } else if is_keyword(s, pos, "SMALLINT") {
        Some(TypeKind::SmallInt)
    } else if is_keyword(s, pos, "MEDIUMINT") {
        Some(TypeKind::MediumInt)
    } else if is_keyword(s, pos, "INT") {
        Some(TypeKind::Int)
    } else if is_keyword(s, pos, "INTEGER") {
        Some(TypeKind::Int)
    } else if is_keyword(s, pos, "BIGINT") {
        Some(TypeKind::BigInt)
    } else if is_keyword(s, pos, "DECIMAL") {
        Some(TypeKind::Decimal)
    } else if is_keyword(s, pos, "NUMERIC") {
        Some(TypeKind::Decimal)
    } else if is_keyword(s, pos, "FLOAT") {
        Some(TypeKind::Float)
    } else if is_keyword(s, pos, "DOUBLE") {
        Some(TypeKind::Double)
    } else if is_keyword(s, pos, "BIT") {
        Some(TypeKind::Bit)
    } else if is_keyword(s, pos, "DATE") {
        Some(TypeKind::Date)
    } else if is_keyword(s, pos, "DATETIME") {
        Some(TypeKind::DateTime)
    } else if is_keyword(s, pos, "TIMESTAMP") {
        Some(TypeKind::Timestamp)
    } else if is_keyword(s, pos, "TIME") {
        Some(TypeKind::Time)
    } else if is_keyword(s, pos, "YEAR") {
        Some(TypeKind::Year)
    } else if is_keyword(s, pos, "CHAR") {
        Some(TypeKind::Char)
    } else if is_keyword(s, pos, "VARCHAR") {
        Some(TypeKind::Varchar)
    } else if is_keyword(s, pos, "BINARY") {
        Some(TypeKind::Binary)
    } else if is_keyword(s, pos, "VARBINARY") {
        Some(TypeKind::Varbinary)
    } else if is_keyword(s, pos, "BLOB") {
        Some(TypeKind::Blob)
    } else if is_keyword(s, pos, "TINYBLOB") {
        Some(TypeKind::TinyBlob)
    } else if is_keyword(s, pos, "MEDIUMBLOB") {
        Some(TypeKind::MediumBlob)
    } else if is_keyword(s, pos, "LONGBLOB") {
        Some(TypeKind::LongBlob)
    } else if is_keyword(s, pos, "TEXT") {
        Some(TypeKind::Text)
    } else if is_keyword(s, pos, "TINYTEXT") {
        Some(TypeKind::TinyText)
    } else if is_keyword(s, pos, "MEDIUMTEXT") {
        Some(TypeKind::MediumText)
    } else if is_keyword(s, pos, "LONGTEXT") {
        Some(TypeKind::LongText)
    } else if is_keyword(s, pos, "ENUM") {
        Some(TypeKind::Enum)
    } else if is_keyword(s, pos, "SET") {
        Some(TypeKind::SetType)
    } else if is_keyword(s, pos, "JSON") {
        Some(TypeKind::Json)
    } else {
        None
    }
}


/// ` CHARACTER SET name`, or nothing.
pub open spec fn render_charset(c: Option<Seq<char>>) -> Seq<char> {
    match c {
        Some(n) => " CHARACTER SET "@ + n,
        None => Seq::empty(),
    }
}

/// ` COLLATE name`, or nothing.
pub open spec fn render_collation(c: Option<Seq<char>>) -> Seq<char> {
    match c {
        Some(n) => " COLLATE "@ + n,
        None => Seq::empty(),
    }
}

/// ` (m)`, ` (m, d)`, or nothing where there is no size.
pub open spec fn render_size(size: Option<u32>, scale: Option<u32>) -> Seq<char> {
    match size {
        None => Seq::empty(),
        Some(m) => match scale {
            None => " ("@ + dec_digits(m as nat) + ")"@,
            Some(d) => " ("@ + dec_digits(m as nat) + ", "@ + dec_digits(d as nat) + ")"@,
        },
    }
}

/// ` ('a', 'b')` for a keyword that takes values, else nothing.
pub open spec fn render_values(k: TypeKind, values: Seq<Seq<char>>) -> Seq<char> {
    if has_values(k) {
        " ("@ + join_quoted(values, '\'', ", "@) + ")"@
    } else {
        Seq::empty()
    }
}

/// `text` where `on` holds, else nothing.
pub open spec fn render_flag(on: bool, text: Seq<char>) -> Seq<char> {
    if on {
        text
    } else {
        Seq::empty()
    }
}

/// The SQL text of a data type: the keyword, then each parameter that is
/// present, in the order values, size, `UNSIGNED`, `ZEROFILL`, character
/// set, collation.
pub open spec fn render_data_type(v: DataTypeView) -> Seq<char> {
    v.kind.spec_name() + render_values(v.kind, v.values) + render_size(v.size, v.scale)
        + render_flag(v.unsigned, " UNSIGNED"@) + render_flag(v.zerofill, " ZEROFILL"@)
        + render_charset(v.charset) + render_collation(v.collation)
}

/// The values that `values` stands for: none where it is `None`.
pub open spec fn values_view(values: Option<&Vec<String>>) -> Seq<Seq<char>> {
    match values {
        Some(v) => v.deep_view(),
        None => Seq::empty(),
    }
}

/// Appends the size and the scale, if there is a size.
pub fn write_size(out: &mut String, size: Option<u32>, scale: Option<u32>)
    ensures
        final(out)@ == old(out)@ + render_size(size, scale),
{
    match size {
        None => {
            assert(out@ =~= old(out)@ + render_size(size, scale));
        },
        Some(m) => {
            out.append(" (");
            push_number(out, m as u64);
            match scale {
                None => {},
                Some(d) => {
                    out.append(", ");
                    push_number(out, d as u64);
                },
            }
            out.append(")");
            assert(out@ =~= old(out)@ + render_size(size, scale));
        },
    }
}

/// Appends `lead` and the name, if there is a name.
pub fn write_named(out: &mut String, lead: &str, name: &Option<String>)
    ensures
        final(out)@ == old(out)@ + (match name.deep_view() {
            Some(n) => lead@ + n,
            None => Seq::empty(),
        }),
{
    match name {
        Some(n) => {
            out.append(lead);
            out.append(n.as_str());
            assert(out@ =~= old(out)@ + (lead@ + n@));
        },
        None => {
            assert(out@ =~= old(out)@ + Seq::<char>::empty());
        },
    }
}

/// Appends `text` where `on` holds.
pub fn write_flag(out: &mut String, on: bool, text: &str)
    ensures
        final(out)@ == old(out)@ + render_flag(on, text@),
{
    if on {
        out.append(text);
    } else {
        assert(out@ =~= old(out)@ + render_flag(on, text@));
    }
}

fn write_type(
    out: &mut String,
    kind: TypeKind,
    values: Option<&Vec<String>>,
    size: Option<u32>,
    scale: Option<u32>,
    unsigned: bool,
    zerofill: bool,
    charset: &Option<String>,
    collation: &Option<String>,
)
    requires
        has_values(kind) == values is Some,
    ensures
        final(out)@ == old(out)@ + render_data_type(
            DataTypeView {
                kind,
                values: values_view(values),
                size,
                scale,
                unsigned,
                zerofill,
                charset: charset.deep_view(),
                collation: collation.deep_view(),
            },
        ),
{
    let ghost base = old(out)@;
    let ghost v = DataTypeView {
        kind,
        values: values_view(values),
        size,
        scale,
        unsigned,
        zerofill,
        charset: charset.deep_view(),
        collation: collation.deep_view(),
    };
    out.append(kind.name());
    let ghost r1 = kind.spec_name();
    assert(out@ == base + r1);
    let ghost before = out@;
    match values {
        Some(list) => {
            out.append(" (");
            push_join_quoted(out, list, '\'', ", ");
            out.append(")");
            assert(out@ =~= before + render_values(kind, v.values));
        },
        None => {
            assert(out@ =~= before + render_values(kind, v.values));
        },
    }
    let ghost r2 = r1 + render_values(kind, v.values);
    assert(out@ =~= base + r2);
    write_size(out, size, scale);
    let ghost r3 = r2 + render_size(size, scale);
    assert(out@ =~= base + r3);
    write_flag(out, unsigned, " UNSIGNED");
    let ghost r4 = r3 + render_flag(unsigned, " UNSIGNED"@);
    assert(out@ =~= base + r4);
    write_flag(out, zerofill, " ZEROFILL");
    let ghost r5 = r4 + render_flag(zerofill, " ZEROFILL"@);
    assert(out@ =~= base + r5);
    write_named(out, " CHARACTER SET ", charset);
    let ghost r6 = r5 + render_charset(v.charset);
    assert(out@ =~= base + r6);
    write_named(out, " COLLATE ", collation);
    let ghost r7 = r6 + render_collation(v.collation);
    assert(out@ =~= base + r7);
    assert(r7 == render_data_type(v));
}

/// An optional `CHARACTER SET name`.
pub open spec fn spec_parse_opt_charset(s: Seq<char>, pos: int) -> Result<
    (Option<Seq<char>>, int),
    ParseError,
> {
    if !sees_keyword(s, pos, "CHARACTER"@) {
        Ok((None, pos))
    } else {
        match spec_expect_keyword(s, after_word(s, pos), "SET"@) {
            Err(e) => Err(e),
            Ok(p) => match spec_parse_word(s, skip_ws(s, p)) {
                Err(e) => Err(e),
                Ok((n, end)) => Ok((Some(n), end)),
            },
        }
    }
}

/// Reads at `pos` what `spec_parse_opt_charset` describes.
pub fn parse_opt_charset(s: &Vec<char>, pos: usize) -> (r: Result<
    (Option<String>, usize),
    ParseError,
>)
    requires
        pos <= s@.len(),
    ensures
        agrees(r, spec_parse_opt_charset(s@, pos as int), pos, s@.len()),
{
    match accept_keyword(s, pos, "CHARACTER") {
        None => Ok((None, pos)),
        Some(after) => match expect_keyword(s, after, "SET") {
            Err(e) => Err(e),
            Ok(p) => {
                let q: usize = scan_run(s, p, CharClass::Space);
                match parse_word(s, q) {
                    Err(e) => Err(e),
                    Ok((n, end)) => Ok((Some(n), end)),
                }
            },
        },
    }
}

/// An optional `COLLATE name`.
pub open spec fn spec_parse_opt_collation(s: Seq<char>, pos: int) -> Result<
    (Option<Seq<char>>, int),
    ParseError,
> {
    if !sees_keyword(s, pos, "COLLATE"@) {
        Ok((None, pos))
    } else {
        match spec_parse_word(s, skip_ws(s, after_word(s, pos))) {
            Err(e) => Err(e),
            Ok((n, end)) => Ok((Some(n), end)),
        }
    }
}

/// Reads at `pos` what `spec_parse_opt_collation` describes.
pub fn parse_opt_collation(s: &Vec<char>, pos: usize) -> (r: Result<
    (Option<String>, usize),
    ParseError,
>)
    requires
        pos <= s@.len(),
    ensures
        agrees(r, spec_parse_opt_collation(s@, pos as int), pos, s@.len()),
{
    match accept_keyword(s, pos, "COLLATE") {
        None => Ok((None, pos)),
        Some(after) => {
            let q: usize = scan_run(s, after, CharClass::Space);
            match parse_word(s, q) {
                Err(e) => Err(e),
                Ok((n, end)) => Ok((Some(n), end)),
            }
        },
    }
}

/// An optional size between parentheses, with a scale after a comma where
/// `scale` allows one: `(m)` or `(m, d)`.
pub open spec fn spec_parse_sizes(s: Seq<char>, pos: int, scale: bool) -> Result<
    ((Option<u32>, Option<u32>), int),
    ParseError,
> {
    let p: int = skip_ws(s, pos);
    if !at_char(s, p, '(') {
        Ok(((None, None), pos))
    } else {
        match spec_parse_u32(s, skip_ws(s, p + 1)) {
            Err(e) => Err(e),
            Ok((m, q)) => {
                let c: int = skip_ws(s, q);
                if scale && at_char(s, c, ',') {
                    match spec_parse_u32(s, skip_ws(s, c + 1)) {
                        Err(e) => Err(e),
                        Ok((d, r)) => match spec_expect_char(s, r, ')') {
                            Err(e) => Err(e),
                            Ok(end) => Ok(((Some(m), Some(d)), end)),
                        },
                    }
                } else {
                    match spec_expect_char(s, q, ')') {
                        Err(e) => Err(e),
                        Ok(end) => Ok(((Some(m), None), end)),
                    }
                }
            },
        }
    }
}

/// Reads at `pos` what `spec_parse_sizes` describes.
pub fn parse_sizes(s: &Vec<char>, pos: usize, scale: bool) -> (r: Result<
    ((Option<u32>, Option<u32>), usize),
    ParseError,
>)
    requires
        pos <= s@.len(),
    ensures
        agrees(r, spec_parse_sizes(s@, pos as int, scale), pos, s@.len()),
{
    let p: usize = scan_run(s, pos, CharClass::Space);
    if !is_char(s, p, '(') {
        return Ok(((None, None), pos));
    }
    let start: usize = scan_run(s, p + 1, CharClass::Space);
    match parse_u32(s, start) {
        Err(e) => Err(e),
        Ok((m, q)) => {
            let c: usize = scan_run(s, q, CharClass::Space);
            if scale && is_char(s, c, ',') {
                let second: usize = scan_run(s, c + 1, CharClass::Space);
                match parse_u32(s, second) {
                    Err(e) => Err(e),
                    Ok((d, r)) => match expect_char(s, r, ')') {
                        Err(e) => Err(e),
                        Ok(end) => Ok(((Some(m), Some(d)), end)),
                    },
                }
            } else {
                match expect_char(s, q, ')') {
                    Err(e) => Err(e),
                    Ok(end) => Ok(((Some(m), None), end)),
                }
            }
        },
    }
}

/// The parameters that may follow the keyword `k`, from `pos` on, in the
/// order values, size, `UNSIGNED`, `ZEROFILL`, character set, collation.
/// Only those that `k` takes are looked for. A size that `k` requires and
/// that is missing is a grammar error.
pub open spec fn spec_parse_type_params(s: Seq<char>, pos: int, k: TypeKind) -> Result<
    (DataTypeView, int),
    ParseError,
> {
    match (if has_values(k) {
        spec_parse_item_list(s, pos, ItemKind::Text)
    } else {
        Ok((Seq::empty(), pos))
    }) {
        Err(e) => Err(e),
        Ok((values, pos1)) => match (if size_mode(k) == SizeMode::Absent {
            Ok(((None, None), pos1))
        } else {
            spec_parse_sizes(s, pos1, has_scale(k))
        }) {
            Err(e) => Err(e),
            Ok(((size, scale), pos2)) => if size_mode(k) == SizeMode::Required && size is None {
                Err(ParseError::Grammar { position: skip_ws(s, pos1) as usize })
            } else {
                let unsigned: bool = has_sign(k) && sees_keyword(s, pos2, "UNSIGNED"@);
                let pos3: int = if unsigned {
                    after_word(s, pos2)
                } else {
                    pos2
                };
                let zerofill: bool = has_sign(k) && sees_keyword(s, pos3, "ZEROFILL"@);
                let pos4: int = if zerofill {
                    after_word(s, pos3)
                } else {
                    pos3
                };
                match (if has_charset(k) {
                    spec_parse_opt_charset(s, pos4)
                } else {
                    Ok((None, pos4))
                }) {
                    Err(e) => Err(e),
                    Ok((charset, pos5)) => match (if has_charset(k) {
                        spec_parse_opt_collation(s, pos5)
                    } else {
                        Ok((None, pos5))
                    }) {
                        Err(e) => Err(e),
                        Ok((collation, pos6)) => Ok(
                            (
                                DataTypeView {
                                    kind: k,
                                    values,
                                    size,
                                    scale,
                                    unsigned,
                                    zerofill,
                                    charset,
                                    collation,
                                },
                                pos6,
                            ),
                        ),
                    },
                }
            },
        },
    }
}

/// A data type at `pos`: white space, a type keyword, and the parameters
/// that the keyword takes. Where no word stands the error is a grammar
/// error; a word that names no type is refused as unsupported.
pub open spec fn spec_parse_data_type(s: Seq<char>, pos: int) -> Result<
    (DataTypeView, int),
    ParseError,
> {
    let p: int = skip_ws(s, pos);
    if run_end(s, p, CharClass::Word) == p {
        Err(ParseError::Grammar { position: p as usize })
    } else {
        match keyword_kind(s, p) {
            None => Err(ParseError::Unsupported { position: p as usize }),
            Some(k) => spec_parse_type_params(s, run_end(s, p, CharClass::Word), k),
        }
    }
}

/// Reads at `pos` what `spec_parse_type_params` describes.
pub fn parse_type_params(s: &Vec<char>, pos: usize, k: TypeKind) -> (r: Result<
    (DataType, usize),
    ParseError,
>)
    requires
        pos <= s@.len(),
    ensures
        agrees(r, spec_parse_type_params(s@, pos as int, k), pos, s@.len()),
{
    let (values, pos1) = if k.takes_values() {
        match parse_item_list(s, pos, ItemKind::Text) {
            Err(e) => { return Err(e); },
            Ok(found) => found,
        }
    } else {
        (Vec::new(), pos)
    };
    let ((size, scale), pos2) = if matches!(k.takes_size(), SizeMode::Absent) {
        ((None, None), pos1)
    } else {
        match parse_sizes(s, pos1, k.takes_scale()) {
            Err(e) => { return Err(e); },
            Ok(found) => found,
        }
    };
    if matches!(k.takes_size(), SizeMode::Required) && size.is_none() {
        return Err(ParseError::Grammar { position: scan_run(s, pos1, CharClass::Space) });
    }
    let mut unsigned: bool = false;
    let mut pos3: usize = pos2;
    if k.takes_sign() {
        if let Some(after) = accept_keyword(s, pos2, "UNSIGNED") {
            unsigned = true;
            pos3 = after;
        }
    }
    let mut zerofill: bool = false;
    let mut pos4: usize = pos3;
    if k.takes_sign() {
        if let Some(after) = accept_keyword(s, pos3, "ZEROFILL") {
            zerofill = true;
            pos4 = after;
        }
    }
    let (charset, pos5) = if k.takes_charset() {
        match parse_opt_charset(s, pos4) {
            Err(e) => { return Err(e); },
            Ok(found) => found,
        }
    } else {
        (None, pos4)
    };
    let (collation, pos6) = if k.takes_charset() {
        match parse_opt_collation(s, pos5) {
            Err(e) => { return Err(e); },
            Ok(found) => found,
        }
    } else {
        (None, pos5)
    };
    assert(!has_values(k) ==> values.deep_view() =~= Seq::<Seq<char>>::empty());
    Ok((build(k, values, size, scale, unsigned, zerofill, charset, collation), pos6))
}

/// Reads at `pos` what `spec_parse_data_type` describes.
pub fn parse_data_type(s: &Vec<char>, pos: usize) -> (r: Result<(DataType, usize), ParseError>)
    requires
        pos <= s@.len(),
    ensures
        agrees(r, spec_parse_data_type(s@, pos as int), pos, s@.len()),
{
    let p: usize = scan_run(s, pos, CharClass::Space);
    let end: usize = scan_run(s, p, CharClass::Word);
    if end == p {
        return Err(ParseError::Grammar { position: p });
    }
    match find_kind(s, p) {
        None => Err(ParseError::Unsupported { position: p }),
        Some(k) => parse_type_params(s, end, k),
    }
}

/// The data type with keyword `kind` and the given parameters. Those that
/// the keyword does not take are left out.
pub fn build(
    kind: TypeKind,
    values: Vec<String>,
    size: Option<u32>,
    scale: Option<u32>,
    unsigned: bool,
    zerofill: bool,
    charset: Option<String>,
    collation: Option<String>,
) -> (t: DataType)
    requires
        size_mode(kind) == SizeMode::Required ==> size is Some,
    ensures
        t.deep_view() == (DataTypeView {
            kind,
            values: if has_values(kind) {
                values.deep_view()
            } else {
                Seq::empty()
            },
            size: if size_mode(kind) == SizeMode::Absent {
                None
            } else {
                size
            },
            scale: if has_scale(kind) {
                scale
            } else {
                None
            },
            unsigned: has_sign(kind) && unsigned,
            zerofill: has_sign(kind) && zerofill,
            charset: if has_charset(kind) {
                charset.deep_view()
            } else {
                None
            },
            collation: if has_charset(kind) {
                collation.deep_view()
            } else {
                None
            },
        }),
{
    match kind {
        TypeKind::TinyInt => DataType::TinyInt { m: size, unsigned, zerofill },
        TypeKind::SmallInt => DataType::SmallInt { m: size, unsigned, zerofill },
        TypeKind::MediumInt => DataType::MediumInt { m: size, unsigned, zerofill },
        TypeKind::Int => DataType::Int { m: size, unsigned, zerofill },
        TypeKind::BigInt => DataType::BigInt { m: size, unsigned, zerofill },
        TypeKind::Decimal => DataType::Decimal { m: size, d: scale, unsigned, zerofill },
        TypeKind::Float => DataType::Float { m: size, d: scale, unsigned, zerofill },
        TypeKind::Double => DataType::Double { m: size, d: scale, unsigned, zerofill },
        TypeKind::Bit => DataType::Bit { m: size },
        TypeKind::Date => DataType::Date,
        TypeKind::DateTime => DataType::DateTime { fsp: size },
        TypeKind::Timestamp => DataType::Timestamp { fsp: size },
        TypeKind::Time => DataType::Time { fsp: size },
        TypeKind::Year => DataType::Year { m: size },
        TypeKind::Char => DataType::Char { m: size, charset_name: charset, collation_name: collation },
        TypeKind::Varchar => DataType::Varchar { m: size, charset_name: charset, collation_name: collation },
        TypeKind::Binary => DataType::Binary { m: size },
        TypeKind::Varbinary => DataType::Varbinary { m: size.unwrap() },
        TypeKind::Blob => DataType::Blob { m: size },
        TypeKind::TinyBlob => DataType::TinyBlob,
        TypeKind::MediumBlob => DataType::MediumBlob,
        TypeKind::LongBlob => DataType::LongBlob,
        TypeKind::Text => DataType::Text { m: size, charset_name: charset, collation_name: collation },
        TypeKind::TinyText => DataType::TinyText { charset_name: charset, collation_name: collation },
        TypeKind::MediumText => DataType::MediumText { charset_name: charset, collation_name: collation },
        TypeKind::LongText => DataType::LongText { charset_name: charset, collation_name: collation },
        TypeKind::Enum => DataType::Enum { values, charset_name: charset, collation_name: collation },
        TypeKind::SetType => DataType::SetType { values, charset_name: charset, collation_name: collation },
        TypeKind::Json => DataType::Json,
    }
}


impl DataType {
    /// The data type that `input` starts with. What follows it is not
    /// looked at.
    pub fn parse(input: &str) -> (r: Result<DataType, ParseError>)
        ensures
            parsed(r, spec_parse_data_type(input@, 0)),
    {
        let s = chars_of(input);
        finish(parse_data_type(&s, 0))
    }

    /// Appends the SQL text of this data type.
    pub fn write(&self, out: &mut String)
        ensures
            final(out)@ == old(out)@ + render_data_type(self.deep_view()),
    {
        match self {
            DataType::TinyInt { m, unsigned, zerofill } => write_type(
                out, TypeKind::TinyInt, None, *m, None, *unsigned, *zerofill, &None, &None),
            DataType::SmallInt { m, unsigned, zerofill } => write_type(
                out, TypeKind::SmallInt, None, *m, None, *unsigned, *zerofill, &None, &None),
            DataType::MediumInt { m, unsigned, zerofill } => write_type(
                out, TypeKind::MediumInt, None, *m, None, *unsigned, *zerofill, &None, &None),
            DataType::Int { m, unsigned, zerofill } => write_type(
                out, TypeKind::Int, None, *m, None, *unsigned, *zerofill, &None, &None),
            DataType::BigInt { m, unsigned, zerofill } => write_type(
                out, TypeKind::BigInt, None, *m, None, *unsigned, *zerofill, &None, &None),
            DataType::Decimal { m, d, unsigned, zerofill } => write_type(
                out, TypeKind::Decimal, None, *m, *d, *unsigned, *zerofill, &None, &None),
            DataType::Float { m, d, unsigned, zerofill } => write_type(
                out, TypeKind::Float, None, *m, *d, *unsigned, *zerofill, &None, &None),
            DataType::Double { m, d, unsigned, zerofill } => write_type(
                out, TypeKind::Double, None, *m, *d, *unsigned, *zerofill, &None, &None),
            DataType::Bit { m } => write_type(
                out, TypeKind::Bit, None, *m, None, false, false, &None, &None),
            DataType::Date => write_type(
                out, TypeKind::Date, None, None, None, false, false, &None, &None),
            DataType::DateTime { fsp } => write_type(
                out, TypeKind::DateTime, None, *fsp, None, false, false, &None, &None),
            DataType::Timestamp { fsp } => write_type(
                out, TypeKind::Timestamp, None, *fsp, None, false, false, &None, &None),
            DataType::Time { fsp } => write_type(
                out, TypeKind::Time, None, *fsp, None, false, false, &None, &None),
            DataType::Year { m } => write_type(
                out, TypeKind::Year, None, *m, None, false, false, &None, &None),
            DataType::Char { m, charset_name, collation_name } => write_type(
                out, TypeKind::Char, None, *m, None, false, false, charset_name, collation_name),
            DataType::Varchar { m, charset_name, collation_name } => write_type(
                out, TypeKind::Varchar, None, *m, None, false, false, charset_name, collation_name),
            DataType::Binary { m } => write_type(
                out, TypeKind::Binary, None, *m, None, false, false, &None, &None),
            DataType::Varbinary { m } => write_type(
                out, TypeKind::Varbinary, None, Some(*m), None, false, false, &None, &None),
            DataType::Blob { m } => write_type(
                out, TypeKind::Blob, None, *m, None, false, false, &None, &None),
            DataType::TinyBlob => write_type(
                out, TypeKind::TinyBlob, None, None, None, false, false, &None, &None),
            DataType::MediumBlob => write_type(
                out, TypeKind::MediumBlob, None, None, None, false, false, &None, &None),
            DataType::LongBlob => write_type(
                out, TypeKind::LongBlob, None, None, None, false, false, &None, &None),
            DataType::Text { m, charset_name, collation_name } => write_type(
                out, TypeKind::Text, None, *m, None, false, false, charset_name, collation_name),
            DataType::TinyText { charset_name, collation_name } => write_type(
                out, TypeKind::TinyText, None, None, None, false, false, charset_name, collation_name),
            DataType::MediumText { charset_name, collation_name } => write_type(
                out, TypeKind::MediumText, None, None, None, false, false, charset_name, collation_name),
            DataType::LongText { charset_name, collation_name } => write_type(
                out, TypeKind::LongText, None, None, None, false, false, charset_name, collation_name),
            DataType::Enum { values, charset_name, collation_name } => write_type(
                out, TypeKind::Enum, Some(values), None, None, false, false, charset_name, collation_name),
            DataType::SetType { values, charset_name, collation_name } => write_type(
                out, TypeKind::SetType, Some(values), None, None, false, false, charset_name, collation_name),
            DataType::Json => write_type(
                out, TypeKind::Json, None, None, None, false, false, &None, &None),
        }
    }

    /// The SQL text of this data type.
    pub fn to_string(&self) -> (r: String)
        ensures
            r@ == render_data_type(self.deep_view()),
    {
        let mut out = String::new();
        self.write(&mut out);
        assert(out@ =~= render_data_type(self.deep_view()));
        out
    }

    /// The SQL text of this data type.
    pub fn as_sql(&self) -> (r: String)
        ensures
            r@ == render_data_type(self.deep_view()),
    {
        self.to_string()
    }
}

} // verus!
