use sqlex::update::Update;

#[test]
fn mod_test_can_parse_update() {
    let sql = "UPDATE `users` SET `name` = 'John' WHERE `id` = 1;";
    let update = Update::parse(sql).unwrap();
    println!("update: {:?}", update);
    assert_eq!(update.table_name, "users");
}
