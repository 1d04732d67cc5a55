use graphboard::config::{Config, Schema};
use graphboard::repositories::{find_jobs, FindJobsParams};
use graphboard::text::{decimal_text, text_eq};

#[test]
fn settings_have_defaults() {
    let config = Config::from_env(None, None, None);
    assert_eq!(config.port, "80");
    assert_eq!(config.host, "0.0.0.0");
    assert_eq!(config.graphile_worker_schema.as_str(), "\"graphile_worker\"");
    assert_eq!(config.graphile_worker_schema, Schema::new("graphile_worker"));
    assert_eq!(config.server_addr(), "0.0.0.0:80");
}

#[test]
fn settings_are_taken_as_given() {
    let config = Config::from_env(
        Some("8080".to_string()),
        Some("127.0.0.1".to_string()),
        Some("jobs".to_string()),
    );
    assert_eq!(config.port, "8080");
    assert_eq!(config.host, "127.0.0.1");
    assert_eq!(config.graphile_worker_schema.as_str(), "\"jobs\"");
    assert_eq!(config.server_addr(), "127.0.0.1:8080");
}

#[test]
fn schema_is_quoted() {
    let quoted = |name: &str| Schema::new(name).as_str().to_string();
    assert_eq!(quoted("foo"), "\"foo\"");
    assert_eq!(quoted(""), "\"\"");
    assert_eq!(quoted("f\\oo"), "\"f\\oo\"");
    assert_eq!(quoted("f'oo"), "\"f'oo\"");
    assert_eq!(quoted("Mixed Case"), "\"Mixed Case\"");
}

#[test]
fn quotes_in_the_schema_are_doubled() {
    let quoted = |name: &str| Schema::new(name).as_str().to_string();
    assert_eq!(quoted("f\"oo"), "\"f\"\"oo\"");
    assert_eq!(quoted("\""), "\"\"\"\"");
    assert_eq!(quoted("\"\""), "\"\"\"\"\"\"");
    assert_eq!(quoted("a\"; drop table jobs; --"), "\"a\"\"; drop table jobs; --\"");
}

#[test]
fn schema_of_the_settings_is_quoted() {
    let config = Config::from_env(None, None, Some("f\"oo".to_string()));
    assert_eq!(config.graphile_worker_schema.as_str(), "\"f\"\"oo\"");
    assert_eq!(config.graphile_worker_schema.clone(), config.graphile_worker_schema);
}

#[test]
fn quoted_schema_reaches_the_statement() {
    let config = Config::from_env(None, None, Some("my\"schema".to_string()));
    let query = find_jobs(
        &config.graphile_worker_schema,
        FindJobsParams { order: None, pagination: None, filters: None },
    );
    assert!(query.statement.contains("select j.* from \"my\"\"schema\".jobs j where"));
}

#[test]
fn numbers_are_written_in_decimal() {
    assert_eq!(decimal_text(0), "0");
    assert_eq!(decimal_text(7), "7");
    assert_eq!(decimal_text(9), "9");
    assert_eq!(decimal_text(10), "10");
    assert_eq!(decimal_text(100), "100");
    assert_eq!(decimal_text(1234567890), "1234567890");
    assert_eq!(decimal_text(u64::MAX), "18446744073709551615");
    for n in 0..2000u64 {
        assert_eq!(decimal_text(n), n.to_string());
    }
}

#[test]
fn texts_are_compared_by_their_characters() {
    assert!(text_eq("", ""));
    assert!(text_eq("runAt", "runAt"));
    assert!(!text_eq("runAt", "runat"));
    assert!(!text_eq("runAt", "runAt "));
}
