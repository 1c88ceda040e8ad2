use flight_tracker::decimal::dec_string;
use flight_tracker::schema::{cache_migrations, MigrationKind};
use flight_tracker::utils::greet;

#[test]
fn decimal_exact() {
    assert_eq!(dec_string(0), "0");
    assert_eq!(dec_string(7), "7");
    assert_eq!(dec_string(10), "10");
    assert_eq!(dec_string(1234567890123), "1234567890123");
    assert_eq!(dec_string(u64::MAX), "18446744073709551615");
}

#[test]
fn greet_exact() {
    assert_eq!(greet("World"), "Hello, World! You've been greeted from Rust!");
}

#[test]
fn migrations_versioned_and_idempotent() {
    let ms = cache_migrations();
    assert_eq!(ms.len(), 2);
    assert_eq!(ms[0].version, 1);
    assert_eq!(ms[1].version, 2);
    assert!(ms[0].version < ms[1].version);
    assert_eq!(ms[0].description, "create saved_flights table");
    assert_eq!(ms[1].description, "create local_alerts cache table");
    assert!(ms[0].sql.contains("CREATE TABLE IF NOT EXISTS saved_flights"));
    assert!(ms[1].sql.contains("CREATE TABLE IF NOT EXISTS local_alerts"));
    assert!(ms[0].sql.contains("is_favorite"));
    assert!(ms[1].sql.contains("is_read"));
    assert_eq!(ms[0].kind, MigrationKind::Up);
    assert_eq!(ms[1].kind, MigrationKind::Up);
    assert!(ms[0].sql.contains("CREATE INDEX IF NOT EXISTS idx_favorite"));
    assert!(ms[1].sql.contains("CREATE INDEX IF NOT EXISTS idx_local_alerts_read"));
}
