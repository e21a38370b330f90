use print_bot::config::{parse_i32, parse_u16, parse_u64, Config};
use print_bot::timestamp::Timestamp;
use print_bot::worker_config;

#[test]
fn parse_u64_reads_decimal_strings() {
    assert_eq!(parse_u64("0"), Some(0));
    assert_eq!(parse_u64("42"), Some(42));
    assert_eq!(parse_u64("0042"), Some(42));
    assert_eq!(parse_u64("18446744073709551615"), Some(u64::MAX));
}

#[test]
fn parse_u64_rejects_what_is_not_a_number() {
    assert_eq!(parse_u64(""), None);
    assert_eq!(parse_u64("12a"), None);
    assert_eq!(parse_u64("-5"), None);
    assert_eq!(parse_u64(" 7"), None);
    assert_eq!(parse_u64("18446744073709551616"), None);
}

#[test]
fn parse_u16_enforces_the_port_range() {
    assert_eq!(parse_u16("8080"), Some(8080));
    assert_eq!(parse_u16("65535"), Some(65535));
    assert_eq!(parse_u16("65536"), None);
    assert_eq!(parse_u16("x"), None);
}

#[test]
fn parse_i32_enforces_the_count_range() {
    assert_eq!(parse_i32("3"), Some(3));
    assert_eq!(parse_i32("2147483647"), Some(i32::MAX));
    assert_eq!(parse_i32("2147483648"), None);
    assert_eq!(parse_i32("three"), None);
}

#[test]
fn elapsed_counts_forward_only() {
    let last = Timestamp { secs: 100 };
    assert_eq!(last.elapsed_at(Timestamp { secs: 160 }), 60);
    assert_eq!(last.elapsed_at(Timestamp { secs: 100 }), 0);
    assert_eq!(last.elapsed_at(Timestamp { secs: 40 }), 0);
}

#[test]
fn configs_hold_their_values() {
    let c = Config {
        API_URL: "https://api.example".to_string(),
        ID_INSTANCE: "id1".to_string(),
        API_TOKEN_INSTANCE: "token".to_string(),
        ADMIN_CHAT_ID: "admin@c.us".to_string(),
        WORKER_PORT: parse_u16("3000").unwrap(),
        WORKER_URL: "http://worker:3000/".to_string(),
        SHOP_ADDRESS: "Main st. 1".to_string(),
        SHOP_PHONE: "79160000000".to_string(),
        NO_FILES_TIMEOUT: parse_u64("60").unwrap(),
        REPEAT_COUNT: parse_i32("3").unwrap(),
        REPEAT_TIMEOUT: parse_u64("30").unwrap(),
        HOOK_PORT: parse_u16("8080").unwrap(),
        PAPER_PROMPT: "which paper?".to_string(),
        SECRET_TOKEN: "hook-token".to_string(),
        SIZE_PROMPT: "which size?".to_string(),
        FILES_DONE_PROMPT: "please send your files".to_string(),
    };
    assert_eq!(c.NO_FILES_TIMEOUT, 60);
    assert_eq!(c.REPEAT_COUNT, 3);
    assert_eq!(c.REPEAT_TIMEOUT, 30);
    assert_eq!(c.HOOK_PORT, 8080);

    let w = worker_config::Config {
        WORKER_PORT: 3000,
        WORK_DIR: "/orders".to_string(),
        START_COUNTER: 1,
        SMTP_SERVER: "smtp.example".to_string(),
        SMTP_PORT: 465,
        SENDER_EMAIL: "shop@example".to_string(),
        SENDER_PASS: "mail-pass".to_string(),
        RECEIVER_EMAIL: "orders@example".to_string(),
    };
    assert_eq!(w.WORKER_PORT, 3000);
    assert_eq!(w.START_COUNTER, 1);
}
