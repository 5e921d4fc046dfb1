use sqlex::sqlparse::{find_use, split_databases, DatabaseSql};

fn chunk(name: &str, sql: &str) -> DatabaseSql {
    DatabaseSql { db_name: String::from(name), sql: String::from(sql) }
}

fn target(line: &str) -> Option<String> {
    find_use(&line.chars().collect())
}

#[test]
fn a_use_statement_names_its_database() {
    assert_eq!(target("USE `shop`;"), Some(String::from("shop")));
    assert_eq!(target("  -- USE `a b`; and more"), Some(String::from("a b")));
    assert_eq!(target("USE `one`, USE `two`;"), Some(String::from("two")));
    assert_eq!(target("USE `first`; USE `second`;"), Some(String::from("first")));
}

#[test]
fn other_lines_name_none() {
    assert_eq!(target(""), None);
    assert_eq!(target("USE shop;"), None);
    assert_eq!(target("use `shop`;"), None);
    assert_eq!(target("USE ``;"), None);
    assert_eq!(target("USE `shop`"), None);
    assert_eq!(target("USE `shop` ;"), None);
    assert_eq!(target("USE `"), None);
}

#[test]
fn a_dump_is_split_at_its_use_statements() {
    let dump = "USE `a`;\nCREATE TABLE t (x int);\r\nINSERT INTO t VALUES (1);\nUSE `b`;\nUSE `c`;\nlast";
    assert_eq!(
        split_databases(dump),
        vec![
            chunk("a", "CREATE TABLE t (x int);\nINSERT INTO t VALUES (1);\n"),
            chunk("b", ""),
            chunk("c", "last\n"),
        ]
    );
}

#[test]
fn lines_before_the_first_use_go_to_the_first_database() {
    assert_eq!(
        split_databases("-- head\n\nUSE `a`;\nbody\n"),
        vec![chunk("a", "-- head\n\nbody\n")]
    );
}

#[test]
fn a_dump_without_use_has_no_database() {
    assert!(split_databases("").is_empty());
    assert!(split_databases("CREATE TABLE t (x int);\n").is_empty());
    assert_eq!(split_databases("USE `only`;"), vec![chunk("only", "")]);
    assert_eq!(split_databases("\n\nUSE `only`;\n\n"), vec![chunk("only", "\n\n\n")]);
}
