use service_vendor::cache::{balance_cache_seconds, extension_cache_key, get_redis_client, AppRedis};
use service_vendor::decimal::{format_u128, parse_i64, parse_u128};
use service_vendor::telegram::{balance_endpoint, balance_message, imsi_number, location_endpoint, location_message};
use service_vendor::text::{strip_quotes, text_contains, text_eq};

#[test]
fn parse_u128_matches_std() {
    for s in ["0", "42", "+7", "007", "", "+", "-1", "1.5", " 1", "abc", "340282366920938463463374607431768211455",
        "340282366920938463463374607431768211456", "99999999999999999999999999999999999999999"]
    {
        assert_eq!(parse_u128(s), s.parse::<u128>().ok(), "{}", s);
    }
}

#[test]
fn parse_i64_matches_std() {
    for s in ["0", "60", "-60", "+60", "-", "+", "", "--1", "9223372036854775807", "9223372036854775808",
        "-9223372036854775808", "-9223372036854775809", "6O"]
    {
        assert_eq!(parse_i64(s), s.parse::<i64>().ok(), "{}", s);
    }
}

#[test]
fn format_u128_matches_display() {
    for n in [0u128, 9, 10, 209715200, u128::MAX] {
        assert_eq!(format_u128(n), n.to_string());
        assert_eq!(parse_u128(&format_u128(n)), Some(n));
    }
}

#[test]
fn imsi_read_without_quotes() {
    assert_eq!(imsi_number("\"250011234567890\""), Some(250011234567890));
    assert_eq!(imsi_number("250011234567890"), Some(250011234567890));
    assert_eq!(imsi_number("some_imsi"), None);
    let m = balance_message("\"123\"", "209715200", "fix", "bytes");
    assert_eq!((m.imsi, m.balance_less.as_str(), m.balance_lable.as_str(), m.balance_type.as_str()), (123, "209715200", "fix", "bytes"));
    let l = location_message("77", "Portugal");
    assert_eq!((l.imsi, l.location.as_str()), (77, "Portugal"));
    assert!(imsi_number("").is_none());
}

#[test]
fn endpoints() {
    assert_eq!(balance_endpoint("http://host:3000"), "http://host:3000/nc/balance");
    assert_eq!(location_endpoint("http://host:3000"), "http://host:3000/nc/location");
}

#[test]
fn text_helpers() {
    assert!(text_contains("9.0", '.'));
    assert!(!text_contains("90", '.'));
    assert!(text_eq("ALLOW", "ALLOW"));
    assert!(!text_eq("ALLOW", "ALLOWED"));
    assert_eq!(strip_quotes("\"a\"b\""), vec!['a', 'b']);
}

#[test]
fn cache_settings() {
    assert_eq!(extension_cache_key("8944"), "extension-8944");
    assert_eq!(balance_cache_seconds(None), Some(60));
    assert_eq!(balance_cache_seconds(Some("120")), Some(120));
    assert_eq!(balance_cache_seconds(Some("two")), None);
}

#[test]
fn redis_handle() {
    assert!(AppRedis::new("not a url").is_none());
    assert!(AppRedis::new("").is_none());
    let app = AppRedis::new("redis://127.0.0.1:6379/").unwrap();
    let _registered: &redis::Client = get_redis_client(Some(&app));
    let copy = app.clone();
    assert_eq!(format!("{:?}", copy.get_client()), format!("{:?}", app.get_client()));
    let _client: &redis::Client = app.get_client();
}
