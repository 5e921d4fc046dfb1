use vstd::prelude::*;

verus! {

/// The family of a column's type, as the extraction of column names
/// reports it.
#[derive(Debug, Clone, Copy, PartialEq, Eq, Structural)]
pub enum ColumnType {
    String,
    Int,
    BigInt,
    Boolean,
    Float,
    Double,
    Decimal,
    Char,
    Timestamp,
    Date,
    DateTime,
    Time,
}

/// A column by name and type family.
#[derive(Debug, Clone, PartialEq, Eq)]
pub struct Column {
    pub name: String,
    pub type_: ColumnType,
}

/// A named constraint of a table.
#[derive(Debug, Clone, PartialEq, Eq)]
pub struct Constraint {
    pub name: String,
}

/// A table by name, with its columns in their order.
#[derive(Debug, Clone, PartialEq, Eq)]
pub struct Table {
    pub name: String,
    pub columns: Vec<Column>,
    pub constraints: Option<Vec<Constraint>>,
}

/// A database by name, with its tables in their order.
#[derive(Debug, Clone, PartialEq, Eq)]
pub struct Database {
    pub db_name: String,
    pub tables: Vec<Table>,
}

/// The columns and values of an `INSERT` or `REPLACE` statement, as text.
#[derive(Debug, Clone, PartialEq, Eq)]
pub struct TableInsertReplace {
    pub columns: Vec<String>,
    pub values: Vec<String>,
}

/// A column with its name as a sequence of characters.
pub struct SimpleColumnView {
    pub name: Seq<char>,
    pub type_: ColumnType,
}

/// A table with its name and the names of its columns as sequences of
/// characters.
pub struct SimpleTableView {
    pub name: Seq<char>,
    pub columns: Seq<SimpleColumnView>,
}

/// A database with every name as a sequence of characters.
pub struct SimpleDatabaseView {
    pub db_name: Seq<char>,
    pub tables: Seq<SimpleTableView>,
}

impl DeepView for Column {
    type V = SimpleColumnView;

    open spec fn deep_view(&self) -> SimpleColumnView {
        SimpleColumnView { name: self.name@, type_: self.type_ }
    }
}

impl DeepView for Table {
    type V = SimpleTableView;

    open spec fn deep_view(&self) -> SimpleTableView {
        SimpleTableView { name: self.name@, columns: self.columns.deep_view() }
    }
}

impl DeepView for Database {
    type V = SimpleDatabaseView;

    open spec fn deep_view(&self) -> SimpleDatabaseView {
        SimpleDatabaseView { db_name: self.db_name@, tables: self.tables.deep_view() }
    }
}

} // verus!
