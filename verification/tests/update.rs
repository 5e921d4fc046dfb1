use sqlex::update::Update;

#[test]
fn update_test_can_parse_update() {
    let sql = "UPDATE `users` SET `name` = 'John' WHERE `id` = 1;";
    let update = Update::parse(sql).unwrap();

    assert_eq!(update.to_string(), sql);
}
