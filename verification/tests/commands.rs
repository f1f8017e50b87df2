use inkbot::commands::{reply_to_message, str_equal};

#[test]
fn ping_gets_pong() {
    assert_eq!(reply_to_message("!ping"), Some("Pong!".to_string()));
}

#[test]
fn other_messages_get_no_reply() {
    assert_eq!(reply_to_message(""), None);
    assert_eq!(reply_to_message("ping"), None);
    assert_eq!(reply_to_message("!PING"), None);
    assert_eq!(reply_to_message("!ping "), None);
    assert_eq!(reply_to_message(" !ping"), None);
    assert_eq!(reply_to_message("!pin"), None);
    assert_eq!(reply_to_message("!pong"), None);
    assert_eq!(reply_to_message("!play"), None);
    assert_eq!(reply_to_message("❤"), None);
}

#[test]
fn str_equal_compares_characters() {
    assert!(str_equal("", ""));
    assert!(str_equal("abc", "abc"));
    assert!(str_equal("😊 grin", "😊 grin"));
    assert!(!str_equal("abc", "abd"));
    assert!(!str_equal("abc", "ab"));
    assert!(!str_equal("", "a"));
    assert!(!str_equal("é", "e"));
}
