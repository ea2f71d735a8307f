use vixen::config::{parse_chat_id, Config};

fn config_with_chats(chats: Vec<&str>) -> Config {
    Config {
        environment: None,
        log_level: "info".to_string(),
        address: "0.0.0.0:8080".to_string(),
        database: "sqlite://data/vixen.db?mode=rwc".to_string(),
        telegram: "123:ABC".to_string(),
        secret: "s3cr3t".to_string(),
        chats: chats.into_iter().map(str::to_string).collect(),
    }
}

#[test]
fn plain_decimal_identifiers_parse() {
    assert_eq!(parse_chat_id("123"), Some(123));
    assert_eq!(parse_chat_id("-5"), Some(-5));
    assert_eq!(parse_chat_id("+7"), Some(7));
    assert_eq!(parse_chat_id("0"), Some(0));
    assert_eq!(parse_chat_id("007"), Some(7));
}

#[test]
fn malformed_identifiers_do_not_parse() {
    assert_eq!(parse_chat_id(""), None);
    assert_eq!(parse_chat_id("abc"), None);
    assert_eq!(parse_chat_id("12x"), None);
    assert_eq!(parse_chat_id("-"), None);
    assert_eq!(parse_chat_id("+"), None);
    assert_eq!(parse_chat_id(" 12"), None);
    assert_eq!(parse_chat_id("12 "), None);
    assert_eq!(parse_chat_id("1_2"), None);
}

#[test]
fn identifiers_at_the_edges_of_the_range_parse() {
    assert_eq!(parse_chat_id("9223372036854775807"), Some(i64::MAX));
    assert_eq!(parse_chat_id("-9223372036854775808"), Some(i64::MIN));
}

#[test]
fn identifiers_beyond_the_range_do_not_parse() {
    assert_eq!(parse_chat_id("9223372036854775808"), None);
    assert_eq!(parse_chat_id("-9223372036854775809"), None);
    assert_eq!(parse_chat_id("99999999999999999999999"), None);
}

#[test]
fn chat_filter_keeps_valid_identifiers_and_drops_the_rest() {
    let config = config_with_chats(vec!["123", "abc", "0", "-5", ""]);
    let filter = config.chat_filter();
    assert_eq!(filter.allow, vec![123, -5]);
}

#[test]
fn chat_filter_of_no_entries_is_unrestricted() {
    let config = config_with_chats(vec![]);
    assert!(config.chat_filter().allow.is_empty());
}
