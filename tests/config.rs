use sovd2uds_adapter::config::Config;
use sovd2uds_adapter::models::DataQuery;
use sovd2uds_adapter::query::trim;

#[test]
fn default_configuration() {
    let c = Config::default();
    assert_eq!(c.server.host, "127.0.0.1");
    assert_eq!(c.server.port, 8081);
    assert_eq!(c.uds.interface, "can0");
    assert_eq!(c.uds.default_address, 0x7E0);
    assert_eq!(c.uds.timeout, 5000);
    assert_eq!(c.uds.max_retries, 3);
    assert!(!c.security.require_security_access);
    assert_eq!(c.security.security_level, 1);
    assert_eq!(c.performance.max_concurrent_requests, 10);
}

#[test]
fn component_addresses() {
    let c = Config::default();
    assert_eq!(c.get_component_address("engine"), Some(0x7E0));
    assert_eq!(c.get_component_address("transmission"), Some(0x7E1));
    assert_eq!(c.get_component_address("abs"), Some(0x7E2));
    assert_eq!(c.get_component_address("airbag"), Some(0x7E3));
    assert_eq!(c.get_component_address("enigne"), Some(0x7E0));
}

#[test]
fn category_filter_is_split_and_trimmed() {
    let q = DataQuery { categories: Some(" identData , other,,x ".to_string()) };
    assert_eq!(q.category_list().unwrap(), vec!["identData", "other", "", "x"]);
    let q = DataQuery { categories: Some(String::new()) };
    assert_eq!(q.category_list().unwrap(), vec![""]);
    let q = DataQuery { categories: None };
    assert!(q.category_list().is_none());
}

#[test]
fn trim_removes_unicode_white_space() {
    assert_eq!(trim("\u{3000}\t a b \n\u{00A0}"), "a b");
    assert_eq!(trim("   "), "");
    assert_eq!(trim(""), "");
}
