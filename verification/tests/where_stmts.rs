use sqlex::where_stmts::Where;

#[test]
fn test_with_valid_where_stmt() {
    let sql = "WHERE id = 1";
    let where_stmt = Where::parse(sql).unwrap();
    assert_eq!(where_stmt.column, "id");
    assert_eq!(where_stmt.operator, "=");
    assert_eq!(where_stmt.value, "1");
}

#[test]
fn test_with_valid_where_stmt_with_boolean() {
    let sql = "WHERE id = true";
    let where_stmt = Where::parse(sql).unwrap();
    assert_eq!(where_stmt.column, "id");
    assert_eq!(where_stmt.operator, "=");
    assert_eq!(where_stmt.value, "true");
}

#[test]
fn test_with_greater_than() {
    let sql = "WHERE id > 1";
    let where_stmt = Where::parse(sql).unwrap();
    assert_eq!(where_stmt.column, "id");
    assert_eq!(where_stmt.operator, ">");
    assert_eq!(where_stmt.value, "1");
}
