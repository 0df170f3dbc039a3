use discord_spice::format::render_chat_message;
use discord_spice::minecraft::ChannelTable;
use discord_spice::text::{str_eq, str_is_blank, token_is_rejected};

#[test]
fn formatter_round_trip() {
    let r = render_chat_message("[{name}] {message}", "u-1", "Alice", "hi");
    assert_eq!(r.unwrap(), "[Alice] hi");
}

#[test]
fn formatter_substitutes_every_variable() {
    let r = render_chat_message("{uuid}/{name}/{message}", "u-1", "Alice", "hi");
    assert_eq!(r.unwrap(), "u-1/Alice/hi");
}

#[test]
fn formatter_unmapped_name_is_an_error() {
    let r = render_chat_message("{unknown}", "u-1", "Alice", "hi");
    assert!(r.is_err());
}

#[test]
fn formatter_malformed_template_is_an_error() {
    let r = render_chat_message("{message", "u-1", "Alice", "hi");
    assert!(r.is_err());
}

#[test]
fn formatter_keeps_plain_text() {
    let r = render_chat_message("no placeholders", "u-1", "Alice", "hi");
    assert_eq!(r.unwrap(), "no placeholders");
}

#[test]
fn token_rejection_cases() {
    assert!(token_is_rejected(""));
    assert!(token_is_rejected("   "));
    assert!(token_is_rejected(" \t\r\n"));
    assert!(token_is_rejected("BOT_TOKEN"));
    assert!(!token_is_rejected("abc123"));
    assert!(!token_is_rejected(" bot "));
}

#[test]
fn blank_detection() {
    assert!(str_is_blank(""));
    assert!(str_is_blank(" \u{00A0}\u{2003} "));
    assert!(!str_is_blank(" x "));
}

#[test]
fn string_equality_by_characters() {
    assert!(str_eq("global", "global"));
    assert!(!str_eq("global", "globa"));
    assert!(!str_eq("global", "glObal"));
    assert!(str_eq("", ""));
}

#[test]
fn channel_table_lookup() {
    let mut table = ChannelTable::new();
    assert_eq!(table.get("global"), None);
    table.add_channel("global".to_owned(), 42);
    table.add_channel("staff".to_owned(), 7);
    assert_eq!(table.get("global"), Some(42));
    assert_eq!(table.get("staff"), Some(7));
    assert_eq!(table.get("other"), None);
    assert_eq!(table.len(), 2);
}
