use sqlex::drop_table::DropTable;

#[test]
fn drop_table_can_parse_drop_table() {
    let drop_table = DropTable::parse("DROP TEMPORARY TABLE IF EXISTS `one`, `two`, `three`;").expect("Invalid input");

    assert_eq!(
        drop_table.names,
        vec![
            String::from("one"),
            String::from("two"),
            String::from("three")
        ]
    );
    assert!(drop_table.temporary);
    assert!(drop_table.if_exists);
}

#[test]
fn drop_table_can_write_drop_table() {
    assert_eq!(
        DropTable {
            names: vec![String::from("one")],
            temporary: false,
            if_exists: true,
        }
        .to_string()
        .as_str(),
        "DROP TABLE IF EXISTS `one`",
    );
}
