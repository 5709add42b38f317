use vale_gateway::commands::{get_effective_namespace, log_request, parse_duration_to_seconds};
use vale_gateway::text::join;
use vale_gateway::text_rules::{read_i32, read_i64, starts_with, trimmed, utf8_len_is};

#[test]
fn trimming_removes_unicode_whitespace_at_both_ends() {
    assert_eq!(trimmed("  a b \t\n"), "a b");
    assert_eq!(trimmed("\u{3000}x\u{2009}"), "x");
    assert_eq!(trimmed("   "), "");
}

#[test]
fn prefixes_and_byte_lengths() {
    assert!(starts_with("clusterip-x", "clusterip"));
    assert!(!starts_with("cluster", "clusterip"));
    assert!(utf8_len_is("abc", 3));
    assert!(!utf8_len_is("ab", 3));
    assert!(utf8_len_is("aé", 3));
}

#[test]
fn integers_read_in_decimal() {
    assert_eq!(read_i32("42"), Some(42));
    assert_eq!(read_i32("-2147483648"), Some(i32::MIN));
    assert_eq!(read_i32("2147483648"), None);
    assert_eq!(read_i32("+7"), Some(7));
    assert_eq!(read_i32("-"), None);
    assert_eq!(read_i32("1a"), None);
    assert_eq!(read_i64("9223372036854775807"), Some(i64::MAX));
    assert_eq!(read_i64("9223372036854775808"), None);
}

#[test]
fn durations_read_with_units() {
    assert_eq!(parse_duration_to_seconds("30"), 30);
    assert_eq!(parse_duration_to_seconds("5s"), 5);
    assert_eq!(parse_duration_to_seconds("2m"), 120);
    assert_eq!(parse_duration_to_seconds("3h"), 10800);
    assert_eq!(parse_duration_to_seconds("-2m"), -120);
    assert_eq!(parse_duration_to_seconds("m"), 0);
    assert_eq!(parse_duration_to_seconds("2d"), 0);
    assert_eq!(parse_duration_to_seconds("2x m"), 0);
    assert_eq!(parse_duration_to_seconds(""), 0);
    assert_eq!(parse_duration_to_seconds("9223372036854775807h"), 0);
    let request = log_request(Some("proxy"), true, Some(100), Some("15"));
    assert_eq!(request.container.as_deref(), Some("proxy"));
    assert!(request.follow);
    assert_eq!(request.tail_lines, Some(100));
    assert_eq!(request.since_seconds, Some(15));
    assert_eq!(log_request(None, false, None, Some("2h")).since_seconds, Some(7200));
    assert_eq!(log_request(None, false, None, None).since_seconds, None);
}

#[test]
fn namespace_defaults() {
    assert_eq!(get_effective_namespace(Some("infra"), None), "infra");
    assert_eq!(get_effective_namespace(None, Some("/tmp/kubeconfig")), "default");
}

#[test]
fn joining_strings() {
    assert_eq!(join(&vec!["a".to_string(), "b".to_string()], ","), "a,b");
    assert_eq!(join(&vec![], ","), "");
}
