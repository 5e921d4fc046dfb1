use sqlex::cmd::{find_pass_columns, has_text, ColumnMatch};
use sqlex::types::{Column, ColumnType, Constraint, Database, Table, TableInsertReplace};

fn column(name: &str) -> Column {
    Column { name: String::from(name), type_: ColumnType::String }
}

fn table(name: &str, columns: &[&str]) -> Table {
    Table {
        name: String::from(name),
        columns: columns.iter().map(|c| column(c)).collect(),
        constraints: None,
    }
}

fn hit(db: &str, table: &str, column: &str) -> ColumnMatch {
    ColumnMatch {
        db_name: String::from(db),
        table_name: String::from(table),
        column_name: String::from(column),
    }
}

#[test]
fn the_first_matching_column_of_each_table_is_found() {
    let databases = vec![
        Database {
            db_name: String::from("shop"),
            tables: vec![
                table("users", &["id", "Password", "password_hint"]),
                table("orders", &["id", "total"]),
                table("admins", &["PASSPHRASE"]),
            ],
        },
        Database { db_name: String::from("empty"), tables: vec![] },
        Database { db_name: String::from("logs"), tables: vec![table("access", &["bypass"])] },
    ];
    assert_eq!(
        find_pass_columns(&databases, "PASS"),
        vec![
            hit("shop", "users", "Password"),
            hit("shop", "admins", "PASSPHRASE"),
            hit("logs", "access", "bypass"),
        ]
    );
    assert_eq!(find_pass_columns(&databases, "total"), vec![hit("shop", "orders", "total")]);
    assert!(find_pass_columns(&databases, "nothing").is_empty());
    assert!(find_pass_columns(&vec![], "pass").is_empty());
}

#[test]
fn an_empty_query_finds_the_first_column_of_each_table() {
    let databases = vec![Database {
        db_name: String::from("d"),
        tables: vec![table("t", &["a", "b"]), table("no_columns", &[])],
    }];
    assert_eq!(find_pass_columns(&databases, ""), vec![hit("d", "t", "a")]);
}

#[test]
fn text_is_found_wherever_it_stands() {
    let chars = |s: &str| s.chars().collect::<Vec<char>>();
    assert!(has_text(&chars("password"), &chars("pass")));
    assert!(has_text(&chars("bypass"), &chars("pass")));
    assert!(has_text(&chars("compass_rose"), &chars("pass")));
    assert!(has_text(&chars("pass"), &chars("pass")));
    assert!(has_text(&chars("pass"), &chars("")));
    assert!(has_text(&chars(""), &chars("")));
    assert!(!has_text(&chars("pas"), &chars("pass")));
    assert!(!has_text(&chars("p a s s"), &chars("pass")));
    assert!(!has_text(&chars(""), &chars("p")));
}

#[test]
fn plain_types_hold_what_they_are_given() {
    let with_constraint = Table {
        name: String::from("t"),
        columns: vec![Column { name: String::from("n"), type_: ColumnType::BigInt }],
        constraints: Some(vec![Constraint { name: String::from("pk") }]),
    };
    assert_eq!(with_constraint.constraints.as_ref().unwrap()[0].name, "pk");
    assert_eq!(with_constraint.columns[0].type_, ColumnType::BigInt);
    let insert = TableInsertReplace { columns: vec![String::from("a")], values: vec![String::from("1")] };
    assert_eq!(insert.columns.len(), insert.values.len());
}
