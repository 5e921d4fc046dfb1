use sqlex::set::SetKey;
use sqlex::set::SetStatement;
use sqlex::set::SetValue;

#[test]
fn mod_test_parses_set_into_single_kv_pair() {
    let sql = "SET @a = 1";
    let parsed = SetStatement::parse(sql);
    assert!(parsed.is_ok());
    let set = parsed.unwrap();
    let kvs = set.kv_pairs;
    assert_eq!(kvs.len(), 1);
    assert_eq!(kvs[0].key, SetKey::At("a".to_string()));
    assert_eq!(kvs[0].key.to_string(), "@a");
    assert_eq!(kvs[0].value.to_string(), "1");
}

#[test]
fn mod_test_parses_set_into_k_v_pairs() {
    let sql = "SET @a = 1, @b = 2, name = 'John'";
    let parsed = SetStatement::parse(sql);
    assert!(parsed.is_ok());
    let set = parsed.unwrap();
    let kvs = set.kv_pairs;
    assert_eq!(kvs.len(), 3);
    assert_eq!(kvs[0].key, SetKey::At("a".to_string()));
    assert_eq!(kvs[0].value.to_string(), "1");
    assert_eq!(kvs[1].key, SetKey::At("b".to_string()));
    assert_eq!(kvs[1].value.to_string(), "2");
    assert_eq!(kvs[2].key, SetKey::Identifier("name".to_string()));
    assert_eq!(kvs[2].value, SetValue::String("John".to_string()));
}

#[test]
fn mod_test_errors_with_invalid_set_stmt() {
    let sql = "SET @a > 1";
    let parsed = SetStatement::parse(sql);
    assert!(parsed.is_err());
}
