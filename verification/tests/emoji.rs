use vale_gateway::emoji::{format_lowered_value, EmojiFormatter};

#[test]
fn booleans_and_statuses_get_their_emoji() {
    assert_eq!(EmojiFormatter::format_value("True"), "✅");
    assert_eq!(EmojiFormatter::format_value("false"), "❌");
    assert_eq!(EmojiFormatter::format_value("  Running "), "🟢 Running");
    assert_eq!(EmojiFormatter::format_value("Not Ready"), "❌ Not Ready");
    assert_eq!(EmojiFormatter::format_value("programmed"), "🔧 Programmed");
    assert_eq!(EmojiFormatter::format_value("NOT ATTACHED"), "🔓 Not Attached");
}

#[test]
fn service_types_are_prefixed_and_lowercased() {
    assert_eq!(EmojiFormatter::format_value("ClusterIP"), "🔒 clusterip");
    assert_eq!(EmojiFormatter::format_value("NodePort"), "🌐 nodeport");
    assert_eq!(EmojiFormatter::format_value("LoadBalancer"), "⚖️ loadbalancer");
    assert_eq!(EmojiFormatter::format_value("ExternalName"), "🔗 externalname");
}

#[test]
fn ready_counts_depend_on_the_ratio() {
    assert_eq!(EmojiFormatter::format_value("2/2"), "✅ 2/2");
    assert_eq!(EmojiFormatter::format_value("0/3"), "❌ 0/3");
    assert_eq!(EmojiFormatter::format_value("1/3"), "🟡 1/3");
    assert_eq!(EmojiFormatter::format_value("0/0"), "❌ 0/0");
    assert_eq!(EmojiFormatter::format_value("1/2/3"), "1/2/3");
    assert_eq!(EmojiFormatter::format_value("/"), "/");
}

#[test]
fn status_codes_by_class() {
    assert_eq!(EmojiFormatter::format_value("200"), "✅ 200");
    assert_eq!(EmojiFormatter::format_value("301"), "🔄 301");
    assert_eq!(EmojiFormatter::format_value("404"), "⚠️ 404");
    assert_eq!(EmojiFormatter::format_value("503"), "❌ 503");
}

#[test]
fn numbers_by_sign() {
    assert_eq!(EmojiFormatter::format_value("0"), "✅ 0");
    assert_eq!(EmojiFormatter::format_value("7"), "⚠️ 7");
    assert_eq!(EmojiFormatter::format_value("-2"), "✅ -2");
    assert_eq!(EmojiFormatter::format_value("+12"), "⚠️ +12");
    assert_eq!(EmojiFormatter::format_value("1234"), "⚠️ 1234");
}

#[test]
fn other_values_are_returned_as_given() {
    assert_eq!(EmojiFormatter::format_value("Some Value "), "Some Value ");
    assert_eq!(EmojiFormatter::format_value("99999999999"), "99999999999");
    assert_eq!(EmojiFormatter::format_value(""), "");
}

#[test]
fn lowered_form_is_matched_as_given() {
    assert_eq!(format_lowered_value(&"ready".to_string(), "READY"), "✅ Ready");
    assert_eq!(format_lowered_value(&"Ready".to_string(), "orig"), "orig");
}

#[test]
fn texts_are_classed_by_numeric_characters() {
    assert_eq!(EmojiFormatter::format_value("Hello "), "Hello ");
    assert_eq!(EmojiFormatter::format_value("2ab"), "2ab");
    assert_eq!(EmojiFormatter::format_value("2\u{b2}"), "✅ 2\u{b2}");
}
