use sqlex::settings::{MaskingConfig, MaskingRegex};

fn sample_config() -> MaskingConfig {
    MaskingConfig {
        columns: vec![String::from("account"), String::from("Password")],
        patterns: vec![MaskingRegex {
            name: Some(String::from("email")),
            regex: String::from("^[a-zA-Z0-9_.+-]+@[a-zA-Z0-9-]+\\.[a-zA-Z0-9-.]+$"),
        }],
    }
}

#[test]
fn test_filtering_columns() {
    let cfg = sample_config();
    assert_eq!(cfg.filter_column("email"), false);
    assert_eq!(cfg.filter_column("account"), true);
    assert_eq!(cfg.filter_column("password"), true);
    assert_eq!(cfg.filter_column("age"), false);
}

#[test]
fn listed_names_are_found_whatever_their_case() {
    let cfg = sample_config();
    assert!(cfg.is_listed("ACCOUNT"));
    assert!(cfg.is_listed("password"));
    assert!(cfg.is_listed("PassWord"));
    assert!(!cfg.is_listed("accounts"));
    assert!(!cfg.is_listed(""));
}

#[test]
fn a_pattern_that_matches_selects_the_column() {
    let cfg = sample_config();
    assert_eq!(cfg.filter_column("john.doe@example.com"), true);
    assert_eq!(cfg.try_filter_column("john.doe@example.com"), Some(true));
    assert_eq!(cfg.try_filter_column("john.doe"), Some(false));
    assert_eq!(cfg.first_invalid_pattern("anything"), None);
}

#[test]
fn a_refused_pattern_is_reported_unless_the_column_is_listed() {
    let mut cfg = sample_config();
    cfg.patterns.push(MaskingRegex { name: None, regex: String::from("foo(bar") });
    assert_eq!(cfg.first_invalid_pattern("age"), Some(1));
    assert_eq!(cfg.try_filter_column("age"), None);
    assert_eq!(cfg.try_filter_column("account"), Some(true));
    assert_eq!(cfg.filter_column("Account"), true);
}

#[test]
fn an_empty_configuration_selects_nothing() {
    let cfg = MaskingConfig { columns: vec![], patterns: vec![] };
    assert_eq!(cfg.filter_column("anything"), false);
    assert_eq!(cfg.try_filter_column(""), Some(false));
}
