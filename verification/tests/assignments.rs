use sqlex::assignments::Assignment;
use sqlex::assignments::AssignmentKey;
use sqlex::assignments::AssignmentValue;

#[test]
fn test_parses_assignment_into_single_kv_pair() {
    let sql = "a = 1";
    let parsed = Assignment::parse(sql);
    assert!(parsed.is_ok());
    let set = parsed.unwrap();
    let kvs = set.kv_pairs;
    assert_eq!(kvs.len(), 1);
    assert_eq!(kvs[0].key, AssignmentKey::Identifier("a".to_string()));
    assert_eq!(kvs[0].value, AssignmentValue::Number(1));
}
