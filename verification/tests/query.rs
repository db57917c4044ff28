use tabnews::internal::query::decimal;
use tabnews::internal::query::query_pairs;
use tabnews::models::content::ContentParams;

fn pair(name: &str, value: &str) -> (String, String) {
    (name.to_owned(), value.to_owned())
}

#[test]
fn decimal_writes_single_digits() {
    assert_eq!(decimal(0), "0");
    assert_eq!(decimal(7), "7");
    assert_eq!(decimal(9), "9");
}

#[test]
fn decimal_writes_longer_numbers() {
    assert_eq!(decimal(10), "10");
    assert_eq!(decimal(101), "101");
    assert_eq!(decimal(1234567890), "1234567890");
    assert_eq!(decimal(u64::MAX), "18446744073709551615");
}

#[test]
fn query_of_all_controls() {
    let params = ContentParams { page: Some(1), per_page: Some(10), strategy: Some("old".to_owned()) };
    assert_eq!(
        query_pairs(&params),
        vec![pair("page", "1"), pair("per_page", "10"), pair("strategy", "old")]
    );
}

#[test]
fn query_of_no_controls_is_empty() {
    assert!(query_pairs(&ContentParams::default()).is_empty());
}

#[test]
fn query_omits_what_is_unset() {
    let only_size = ContentParams { page: None, per_page: Some(30), strategy: None };
    assert_eq!(query_pairs(&only_size), vec![pair("per_page", "30")]);
    let page_and_order = ContentParams { page: Some(2), per_page: None, strategy: Some("new".to_owned()) };
    assert_eq!(query_pairs(&page_and_order), vec![pair("page", "2"), pair("strategy", "new")]);
}

#[test]
fn query_keeps_an_empty_strategy_that_is_set() {
    let params = ContentParams { page: None, per_page: None, strategy: Some(String::new()) };
    assert_eq!(query_pairs(&params), vec![pair("strategy", "")]);
}
