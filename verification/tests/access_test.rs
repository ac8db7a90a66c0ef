//! Settings, administrators, errors, times and routes.

use password_manager_server::config::{decode_hex_env, Config, ConfigError, Environment};
use password_manager_server::error::{validate_length, AppError, AppResult};
use password_manager_server::net::{parse_ipv4, subnet_holds, Peer};
use password_manager_server::outside::{MAX_SECS, MIN_SECS};
use password_manager_server::routes::passwords::{clamp_window, days_remaining_at, is_expired_at};
use password_manager_server::routes::passwords::{days_remaining, is_expired};
use password_manager_server::routes::router::{
    build_router, health, tier_limit, Cors, Endpoint, Limit, Method, Tier,
};
use password_manager_server::routes::{check_admin, check_admin_ip, check_admin_key};
use password_manager_server::text::{
    decimal, lines, parse_unsigned, signed_decimal, split_once, strip_prefix,
};
use password_manager_server::time::Timestamp;

fn config(subnet: &str) -> Config {
    Config {
        database_encrypt_secret: [0xaa; 32],
        software_secret: [0xbb; 32],
        database_url: "db".to_string(),
        bind_addr: "0.0.0.0:1".to_string(),
        db_pool_size: 5,
        cors_origin: None,
        admin_allowed_subnet: subnet.to_string(),
    }
}

fn text_of<T>(r: AppResult<T>) -> String {
    match r {
        Ok(_) => "ok".to_string(),
        Err(e) => e.text(),
    }
}

fn address(a: u8, b: u8, c: u8, d: u8) -> Peer {
    Peer::V4(u32::from_be_bytes([a, b, c, d]))
}

// ─── Settings ───────────────────────────────────────────────────────────────

fn environment() -> Environment {
    Environment {
        database_encrypt_secret: Some("0f".repeat(32)),
        software_secret: Some("F0".repeat(32)),
        database_url: Some("/data/db".to_string()),
        bind_addr: Some("0.0.0.0:53971".to_string()),
        db_pool_size: Some("5".to_string()),
        cors_origin: None,
        admin_allowed_subnet: Some("10.0.0.0/24".to_string()),
    }
}

fn fault(env: Environment) -> String {
    match Config::from_env(env) {
        Ok(_) => "ok".to_string(),
        Err(e) => e.text(),
    }
}

#[test]
fn settings_are_read() {
    let mut env = environment();
    env.cors_origin = Some("https://example.com".to_string());
    let config = Config::from_env(env).unwrap();
    assert_eq!(config.database_encrypt_secret, [0x0f; 32]);
    assert_eq!(config.software_secret, [0xf0; 32]);
    assert_eq!(config.database_url, "/data/db");
    assert_eq!(config.bind_addr, "0.0.0.0:53971");
    assert_eq!(config.db_pool_size, 5);
    assert_eq!(config.cors_origin.as_deref(), Some("https://example.com"));
    assert_eq!(config.admin_allowed_subnet, "10.0.0.0/24");
}

#[test]
fn every_missing_setting_is_named() {
    let mut env = environment();
    env.admin_allowed_subnet = None;
    assert_eq!(fault(env), "ADMIN_ALLOWED_SUBNET must be set");
    let mut env = environment();
    env.db_pool_size = None;
    env.admin_allowed_subnet = None;
    assert_eq!(fault(env), "DB_POOL_SIZE must be set");
    let mut env = environment();
    env.bind_addr = None;
    env.db_pool_size = None;
    assert_eq!(fault(env), "BIND_ADDR must be set");
    let mut env = environment();
    env.database_url = None;
    env.bind_addr = None;
    assert_eq!(fault(env), "DATABASE_URL must be set");
    let mut env = environment();
    env.software_secret = None;
    env.database_url = None;
    assert_eq!(fault(env), "SOFTWARESECRET must be set");
    let mut env = environment();
    env.database_encrypt_secret = None;
    env.software_secret = None;
    assert_eq!(fault(env), "DATABASEENCRYPTSECRET must be set");
}

#[test]
fn broken_settings_are_named() {
    let mut env = environment();
    env.database_encrypt_secret = Some("xyz".to_string());
    assert_eq!(fault(env), "DATABASEENCRYPTSECRET must be valid hex");
    let mut env = environment();
    env.software_secret = Some("00".repeat(31));
    assert_eq!(fault(env), "SOFTWARESECRET must be exactly 32 bytes (64 hex chars)");
    for broken in ["", "five", "-1", "4294967296", "+", " 5"] {
        let mut env = environment();
        env.db_pool_size = Some(broken.to_string());
        assert_eq!(fault(env), "DB_POOL_SIZE must be a valid integer");
    }
    let mut env = environment();
    env.db_pool_size = Some("+0010".to_string());
    assert_eq!(Config::from_env(env).unwrap().db_pool_size, 10);
    assert!(matches!(decode_hex_env("X", &None), Err(ConfigError::Unset(_))));
}

// ─── Administrators ─────────────────────────────────────────────────────────

#[test]
fn admin_key_is_the_secret_in_hexadecimal() {
    let config = config("127.0.0.0/8");
    let key = "bb".repeat(32);
    assert_eq!(text_of(check_admin_key(Some(&key), &config)), "ok");
    assert_eq!(
        text_of(check_admin_key(Some(&key.to_uppercase()), &config)),
        "unauthorized"
    );
    assert_eq!(text_of(check_admin_key(Some(""), &config)), "unauthorized");
    assert_eq!(text_of(check_admin_key(None, &config)), "unauthorized");
}

#[test]
fn admin_address_is_of_the_subnet() {
    let check = |peer: Peer, subnet: &str| text_of(check_admin_ip(peer, &config(subnet)));
    let refused = "unauthorized";
    assert_eq!(check(address(10, 0, 0, 10), "10.0.0.0/24"), "ok");
    assert_eq!(check(address(10, 0, 1, 10), "10.0.0.0/24"), refused);
    assert_eq!(check(address(10, 0, 1, 10), "10.0.0.99/16"), "ok");
    assert_eq!(check(address(203, 0, 113, 9), "0.0.0.0/0"), "ok");
    assert_eq!(check(address(192, 168, 1, 5), "192.168.1.5"), "ok");
    assert_eq!(check(address(192, 168, 1, 4), "192.168.1.5"), refused);
    assert_eq!(check(address(192, 168, 1, 4), "192.168.1.5/31"), "ok");
    assert_eq!(check(address(192, 168, 1, 6), "192.168.1.5/31"), refused);
    assert_eq!(check(address(128, 0, 0, 1), "129.1.1.1/+1"), "ok");
    assert_eq!(check(Peer::V6, "0.0.0.0/0"), refused);
}

#[test]
fn broken_subnets_are_reported() {
    let check = |subnet: &str| text_of(check_admin_ip(Peer::V6, &config(subnet)));
    for broken in ["", "10.0.0", "10.0.0.256/8", "10.0.0.01/8", "10.0.0.0.0/8", "a.b.c.d", "/8"] {
        assert_eq!(check(broken), "internal error: invalid ADMIN_ALLOWED_SUBNET");
    }
    for broken in ["10.0.0.0/", "10.0.0.0/x", "10.0.0.0/256", "10.0.0.0/8/8", "10.0.0.0/-1"] {
        assert_eq!(check(broken), "internal error: invalid ADMIN_ALLOWED_SUBNET prefix");
    }
    assert_eq!(
        check("10.0.0.0/33"),
        "internal error: ADMIN_ALLOWED_SUBNET prefix must be 0-32"
    );
}

#[test]
fn both_admin_gates_must_open() {
    let config = config("127.0.0.0/8");
    let key = "bb".repeat(32);
    let inside = address(127, 0, 0, 1);
    let outside = address(8, 8, 8, 8);
    assert_eq!(text_of(check_admin(Some(&key), inside, &config)), "ok");
    assert_eq!(text_of(check_admin(Some(&key), outside, &config)), "unauthorized");
    assert_eq!(text_of(check_admin(Some("00"), inside, &config)), "unauthorized");
}

#[test]
fn addresses_are_read_strictly() {
    assert_eq!(parse_ipv4("1.2.3.4"), Some(0x01020304));
    assert_eq!(parse_ipv4("255.255.255.255"), Some(u32::MAX));
    assert_eq!(parse_ipv4("0.0.0.0"), Some(0));
    for text in ["1.2.3", "1.2.3.4.", ".1.2.3", "1..2.3", "1.2.3.4 ", "001.2.3.4", "1.2.3.999"] {
        assert_eq!(parse_ipv4(text), None);
    }
    assert!(subnet_holds(0x0a0000ff, 0x0a000000, 24));
    assert!(!subnet_holds(0x0a000100, 0x0a000000, 24));
    assert!(subnet_holds(u32::MAX, 0, 0));
    assert!(!subnet_holds(1, 0, 32));
}

// ─── Errors ─────────────────────────────────────────────────────────────────

#[test]
fn errors_have_a_status_and_a_text() {
    let m = || "m".to_string();
    let cases = [
        (AppError::IdentityNotFound, 404, "identity not found"),
        (AppError::NotFound(m()), 404, "not found: m"),
        (AppError::Unauthorized(m()), 401, "unauthorized: m"),
        (AppError::Unauthorized("unauthorized".to_string()), 401, "unauthorized"),
        (AppError::Unauthorized(String::new()), 401, "unauthorized: "),
        (AppError::Conflict(m()), 409, "conflict: m"),
        (AppError::PreconditionFailed(m()), 412, "precondition failed: m"),
        (AppError::Database(m()), 500, "database error: m"),
        (AppError::Pool(m()), 500, "connection pool error: m"),
        (AppError::Crypto(m()), 500, "crypto error: m"),
        (AppError::Internal(m()), 500, "internal error: m"),
        (AppError::Validation(m()), 400, "validation error: m"),
    ];
    for (error, status, text) in cases {
        let response = error.into_response();
        assert_eq!(response.status, status);
        assert_eq!(response.body, text);
    }
}

#[test]
fn lengths_are_counted_in_characters() {
    assert_eq!(text_of(validate_length("field", "äöü", 3)), "ok");
    assert_eq!(
        text_of(validate_length("field", "äöüß", 3)),
        "validation error: field exceeds 3 characters"
    );
    assert_eq!(text_of(validate_length("field", "", 0)), "ok");
}

// ─── Times ──────────────────────────────────────────────────────────────────

#[test]
fn moments_are_written_out() {
    let epoch = Timestamp::new(0, 0).unwrap();
    assert_eq!(epoch.text(), "1970-01-01 00:00:00");
    assert_eq!(epoch.utc_text(), "1970-01-01 00:00:00 UTC");
    let later = Timestamp::new(1_782_000_000, 500_000_000).unwrap();
    assert_eq!(later.text(), "2026-06-21 00:00:00.500");
    assert_eq!(later.utc_text(), "2026-06-21 00:00:00 UTC");
    assert_eq!(later.secs(), 1_782_000_000);
    assert_eq!(later.nanos(), 500_000_000);
    assert!(epoch.before(&later));
    assert!(!later.before(&later));
}

#[test]
fn only_datable_moments_exist() {
    assert!(Timestamp::new(MIN_SECS, 0).is_some());
    assert!(Timestamp::new(MAX_SECS, 999_999_999).is_some());
    assert!(Timestamp::new(MIN_SECS - 1, 0).is_none());
    assert!(Timestamp::new(MAX_SECS + 1, 0).is_none());
    assert!(Timestamp::new(0, 1_000_000_000).is_none());
    assert_eq!(Timestamp::new(MIN_SECS, 0).unwrap().text(), "-262143-01-01 00:00:00");
    assert_eq!(
        Timestamp::new(MAX_SECS, 999_999_999).unwrap().utc_text(),
        "+262142-12-31 23:59:59 UTC"
    );
    let now = Timestamp::now();
    assert!(Timestamp::new(1_600_000_000, 0).unwrap().before(&now));
}

#[test]
fn windows_run_out_by_whole_days() {
    let day = 86_400;
    let start = Timestamp::new(1_000_000, 0).unwrap();
    let at = |secs: i64| Timestamp::new(1_000_000 + secs, 0).unwrap();
    assert_eq!(days_remaining_at(start, 30, at(0)), 30);
    assert_eq!(days_remaining_at(start, 30, at(day - 1)), 30);
    assert_eq!(days_remaining_at(start, 30, at(day)), 29);
    assert_eq!(days_remaining_at(start, 30, at(30 * day - 1)), 1);
    assert_eq!(days_remaining_at(start, 30, at(30 * day)), 0);
    assert_eq!(days_remaining_at(start, 30, at(4000 * day)), 0);
    assert_eq!(days_remaining_at(start, 30, at(-1)), 30);
    assert!(!is_expired_at(start, 30, at(30 * day - 1)));
    assert!(is_expired_at(start, 30, at(30 * day)));
    assert_eq!(days_remaining(Timestamp::now(), 7), 7);
    assert!(is_expired(Timestamp::new(0, 0).unwrap(), 365));
    assert!(!is_expired(Timestamp::now(), 1));
}

#[test]
fn windows_are_clamped() {
    assert_eq!(clamp_window(None), 30);
    assert_eq!(clamp_window(Some(0)), 1);
    assert_eq!(clamp_window(Some(-5)), 1);
    assert_eq!(clamp_window(Some(1)), 1);
    assert_eq!(clamp_window(Some(365)), 365);
    assert_eq!(clamp_window(Some(366)), 365);
}

// ─── Routes ─────────────────────────────────────────────────────────────────

#[test]
fn routes_have_their_tiers() {
    let plan = build_router(&config("127.0.0.0/8"));
    assert_eq!(plan.routes.len(), 22);
    for route in &plan.routes {
        let expected = match route.path.as_str() {
            "/health" => Tier::Unlimited,
            "/greet" | "/sign-up" | "/sign-in" => Tier::Strict,
            path if path.starts_with("/admin/") => Tier::Admin,
            _ => Tier::Moderate,
        };
        assert_eq!(route.tier, expected, "{}", route.path);
    }
    let update = plan.routes.iter().find(|r| r.endpoint == Endpoint::UpdatePassword).unwrap();
    assert_eq!(update.method, Method::Put);
    assert_eq!(update.path, "/pwd/update/{uuid}");
    assert!(matches!(plan.cors, Cors::Unset));
    assert_eq!(health(), 200);
}

#[test]
fn tiers_have_their_rates() {
    assert_eq!(tier_limit(Tier::Strict), Some(Limit { period_millis: 500, burst: 5 }));
    assert_eq!(tier_limit(Tier::Admin), Some(Limit { period_millis: 200, burst: 10 }));
    assert_eq!(tier_limit(Tier::Moderate), Some(Limit { period_millis: 100, burst: 20 }));
    assert_eq!(tier_limit(Tier::Unlimited), None);
}

#[test]
fn browser_origins_are_checked() {
    let mut config = config("127.0.0.0/8");
    config.cors_origin = Some("https://example.com".to_string());
    match build_router(&config).cors {
        Cors::Allowed { origin, methods, headers } => {
            assert_eq!(origin, "https://example.com");
            assert_eq!(methods, vec![Method::Get, Method::Post, Method::Put, Method::Delete]);
            assert_eq!(
                headers,
                vec!["content-type", "authorization", "device-token", "admin-key"]
            );
        }
        other => panic!("the origin is allowed, not {other:?}"),
    }
    config.cors_origin = Some("https://example.com\n".to_string());
    assert!(matches!(build_router(&config).cors, Cors::Invalid(_)));
}

// ─── Texts ──────────────────────────────────────────────────────────────────

#[test]
fn texts_are_taken_apart() {
    assert_eq!(decimal(0), "0");
    assert_eq!(decimal(u64::MAX), "18446744073709551615");
    assert_eq!(signed_decimal(i64::MIN), "-9223372036854775808");
    assert_eq!(signed_decimal(42), "42");
    assert_eq!(parse_unsigned("255", 255), Some(255));
    assert_eq!(parse_unsigned("256", 255), None);
    assert_eq!(parse_unsigned("99999999999999999999999", u32::MAX), None);
    for text in ["", "a", "a\n", "\n", "a\nb", "a\r\nb\r\n", "a\rb", "\n\n", "a\r", "\r\n\r"] {
        let expected: Vec<String> = text.lines().map(|l| l.to_string()).collect();
        assert_eq!(lines(text), expected, "{text:?}");
    }
    assert_eq!(split_once("a/b/c", '/'), Some(("a".to_string(), "b/c".to_string())));
    assert_eq!(split_once("abc", '/'), None);
    assert_eq!(strip_prefix("KEY=value", "KEY="), Some("value".to_string()));
    assert_eq!(strip_prefix("KEY", "KEY="), None);
    assert_eq!(strip_prefix("key=value", "KEY="), None);
}
