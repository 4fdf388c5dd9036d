use nvg::config::{Config, Profile};
use nvg::text::{fmt_i64, fmt_u32, fmt_u64, pad, parse_i64, parse_u32, truncate};

#[test]
fn decimal_rendering() {
    assert_eq!(fmt_u64(0), "0");
    assert_eq!(fmt_u64(1234567890), "1234567890");
    assert_eq!(fmt_u64(u64::MAX), "18446744073709551615");
    assert_eq!(fmt_i64(-42), "-42");
    assert_eq!(fmt_i64(i64::MIN), "-9223372036854775808");
    assert_eq!(fmt_i64(i64::MAX), "9223372036854775807");
    assert_eq!(fmt_u32(7), "7");
}

#[test]
fn decimal_parsing_i64() {
    assert_eq!(parse_i64("42"), Some(42));
    assert_eq!(parse_i64("+42"), Some(42));
    assert_eq!(parse_i64("-42"), Some(-42));
    assert_eq!(parse_i64("-0"), Some(0));
    assert_eq!(parse_i64("007"), Some(7));
    assert_eq!(parse_i64("9223372036854775807"), Some(i64::MAX));
    assert_eq!(parse_i64("-9223372036854775808"), Some(i64::MIN));
    assert_eq!(parse_i64("9223372036854775808"), None);
    assert_eq!(parse_i64("-9223372036854775809"), None);
    assert_eq!(parse_i64(""), None);
    assert_eq!(parse_i64("-"), None);
    assert_eq!(parse_i64("+"), None);
    assert_eq!(parse_i64("12a"), None);
    assert_eq!(parse_i64(" 1"), None);
    assert_eq!(parse_i64("１"), None);
    for s in ["0", "+1", "-17", "99999999999999999999", "x", "--1", "+-1"] {
        assert_eq!(parse_i64(s), s.parse::<i64>().ok(), "input {s:?}");
    }
}

#[test]
fn decimal_parsing_u32() {
    assert_eq!(parse_u32("4294967295"), Some(u32::MAX));
    assert_eq!(parse_u32("4294967296"), None);
    assert_eq!(parse_u32("+3"), Some(3));
    assert_eq!(parse_u32("-3"), None);
    assert_eq!(parse_u32("-0"), None);
    assert_eq!(parse_u32(""), None);
    for s in ["0", "+1", "-1", "1.5", "+", "00012"] {
        assert_eq!(parse_u32(s), s.parse::<u32>().ok(), "input {s:?}");
    }
}

#[test]
fn listed_ids_parse_back() {
    for id in [0i64, 1, -1, 42, i64::MAX, i64::MIN, 1_000_000_007] {
        assert_eq!(parse_i64(&fmt_i64(id)), Some(id));
    }
}

#[test]
fn truncation() {
    assert_eq!(truncate("hello", 5), "hello");
    assert_eq!(truncate("hello", 6), "hello");
    assert_eq!(truncate("hello", 4), "hel…");
    assert_eq!(truncate("hello", 1), "…");
    assert_eq!(truncate("hello", 0), "…");
    assert_eq!(truncate("", 0), "");
    assert_eq!(truncate("héllo wörld", 6), "héllo…");
    assert_eq!(truncate("héllo wörld", 6).chars().count(), 6);
}

#[test]
fn padding() {
    assert_eq!(pad("ID", 6), format!("{:<6}", "ID"));
    assert_eq!(pad("toolong", 3), "toolong");
    assert_eq!(pad("é", 3), format!("{:<3}", "é"));
    assert_eq!(pad("", 2), "  ");
}

fn profile(url: Option<&str>, token: Option<&str>) -> Profile {
    Profile { api_url: url.map(String::from), token: token.map(String::from) }
}

#[test]
fn resolve_defaults_when_empty() {
    let cfg = Config::new();
    let r = cfg.resolve(None);
    assert_eq!(r.name, "default");
    assert_eq!(r.api_url, "https://app.navegante.app");
    assert_eq!(r.token, None);
}

#[test]
fn resolve_uses_default_profile_and_override() {
    let cfg = Config {
        default_profile: Some("staging".to_string()),
        profiles: vec![
            ("staging".to_string(), profile(Some("https://staging.example"), Some("nvg_s"))),
            ("prod".to_string(), profile(None, Some("nvg_p"))),
        ],
    };
    let r = cfg.resolve(None);
    assert_eq!(r.name, "staging");
    assert_eq!(r.api_url, "https://staging.example");
    assert_eq!(r.token.as_deref(), Some("nvg_s"));
    let r = cfg.resolve(Some("prod"));
    assert_eq!(r.name, "prod");
    assert_eq!(r.api_url, "https://app.navegante.app");
    assert_eq!(r.token.as_deref(), Some("nvg_p"));
    let r = cfg.resolve(Some("missing"));
    assert_eq!(r.name, "missing");
    assert_eq!(r.api_url, "https://app.navegante.app");
    assert_eq!(r.token, None);
}

#[test]
fn login_then_resolve() {
    let mut cfg = Config::new();
    cfg.set_profile("work", "https://api.example", Some("nvg_1".to_string()));
    assert_eq!(cfg.default_profile.as_deref(), Some("work"));
    let r = cfg.resolve(Some("work"));
    assert_eq!((r.api_url.as_str(), r.token.as_deref()), ("https://api.example", Some("nvg_1")));
    let r = cfg.resolve(None);
    assert_eq!(r.name, "work");

    cfg.set_profile("other", "https://other.example", None);
    assert_eq!(cfg.default_profile.as_deref(), Some("work"));
    assert_eq!(cfg.resolve(Some("work")).token.as_deref(), Some("nvg_1"));
    assert_eq!(cfg.resolve(Some("other")).api_url, "https://other.example");

    cfg.set_profile("work", "https://api2.example", Some("nvg_2".to_string()));
    assert_eq!(cfg.profiles.len(), 2);
    let r = cfg.resolve(Some("work"));
    assert_eq!((r.api_url.as_str(), r.token.as_deref()), ("https://api2.example", Some("nvg_2")));
}

#[test]
fn logout_clears_only_the_token() {
    let mut cfg = Config::new();
    cfg.set_profile("default", "https://api.example", Some("nvg_1".to_string()));
    cfg.set_profile("b", "https://b.example", Some("nvg_b".to_string()));
    cfg.clear_token("default");
    let r = cfg.resolve(None);
    assert_eq!(r.token, None);
    assert_eq!(r.api_url, "https://api.example");
    assert_eq!(cfg.resolve(Some("b")).token.as_deref(), Some("nvg_b"));
    cfg.clear_token("nobody");
    assert_eq!(cfg.profiles.len(), 2);
}
