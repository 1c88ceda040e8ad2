//! Local offline-cache schema.
//!
//! The embedded store owns the tables; this module only declares their
//! shape, as idempotent migration scripts applied once per version at
//! startup, with strictly increasing version numbers and no rollback.

use vstd::prelude::*;

verus! {

/// The direction a migration runs in. Only forward scripts exist here:
/// nothing is ever rolled back.
#[derive(Debug, Clone, Copy, PartialEq, Eq, Structural)]
pub enum MigrationKind {
    Up,
    Down,
}

/// One schema migration: an idempotent script, applied once when the
/// store's version is below `version`.
pub struct SchemaMigration {
    pub version: u32,
    pub description: String,
    pub sql: String,
    pub kind: MigrationKind,
}

/// The idempotent script that shapes the saved-flights table and its
/// indexes.
pub open spec fn saved_flights_sql() -> Seq<char> {
    "CREATE TABLE IF NOT EXISTS saved_flights (\n    id INTEGER PRIMARY KEY AUTOINCREMENT,\n    origin TEXT NOT NULL,\n    destination TEXT NOT NULL,\n    travel_date TEXT NOT NULL,\n    price REAL NOT NULL,\n    currency TEXT NOT NULL DEFAULT 'USD',\n    airline TEXT,\n    airline_code TEXT,\n    duration TEXT,\n    stops INTEGER DEFAULT 0,\n    segments TEXT,\n    is_favorite INTEGER DEFAULT 0,\n    searched_at TEXT DEFAULT CURRENT_TIMESTAMP\n);\nCREATE INDEX IF NOT EXISTS idx_favorite ON saved_flights(is_favorite);\nCREATE INDEX IF NOT EXISTS idx_searched_at ON saved_flights(searched_at);"@
}

/// The idempotent script that shapes the alert-cache table and its index.
pub open spec fn local_alerts_sql() -> Seq<char> {
    "CREATE TABLE IF NOT EXISTS local_alerts (\n    id TEXT PRIMARY KEY,\n    watcher_id TEXT NOT NULL,\n    route TEXT NOT NULL,\n    old_price REAL NOT NULL,\n    new_price REAL NOT NULL,\n    is_read INTEGER DEFAULT 0,\n    triggered_at TEXT NOT NULL,\n    synced_at TEXT DEFAULT CURRENT_TIMESTAMP\n);\nCREATE INDEX IF NOT EXISTS idx_local_alerts_read ON local_alerts(is_read);"@
}

/// The migrations that shape the local cache: the saved-flights table,
/// then the alert-cache table, under strictly increasing versions, each
/// a forward script holding exactly its table's idempotent DDL.
pub fn cache_migrations() -> (ms: Vec<SchemaMigration>)
    ensures
        ms@.len() == 2,
        ms@[0].version == 1,
        ms@[1].version == 2,
        forall|i: int, j: int| 0 <= i < j < ms@.len() ==> ms@[i].version < ms@[j].version,
        ms@[0].description@ == "create saved_flights table"@,
        ms@[1].description@ == "create local_alerts cache table"@,
        ms@[0].sql@ == saved_flights_sql(),
        ms@[1].sql@ == local_alerts_sql(),
        ms@[0].kind is Up,
        ms@[1].kind is Up,
{
    let m1 = SchemaMigration {
        version: 1,
        description: String::from_str("create saved_flights table"),
        sql: String::from_str(
            "CREATE TABLE IF NOT EXISTS saved_flights (\n    id INTEGER PRIMARY KEY AUTOINCREMENT,\n    origin TEXT NOT NULL,\n    destination TEXT NOT NULL,\n    travel_date TEXT NOT NULL,\n    price REAL NOT NULL,\n    currency TEXT NOT NULL DEFAULT 'USD',\n    airline TEXT,\n    airline_code TEXT,\n    duration TEXT,\n    stops INTEGER DEFAULT 0,\n    segments TEXT,\n    is_favorite INTEGER DEFAULT 0,\n    searched_at TEXT DEFAULT CURRENT_TIMESTAMP\n);\nCREATE INDEX IF NOT EXISTS idx_favorite ON saved_flights(is_favorite);\nCREATE INDEX IF NOT EXISTS idx_searched_at ON saved_flights(searched_at);",
        ),
        kind: MigrationKind::Up,
    };
    let m2 = SchemaMigration {
        version: 2,
        description: String::from_str("create local_alerts cache table"),
        sql: String::from_str(
            "CREATE TABLE IF NOT EXISTS local_alerts (\n    id TEXT PRIMARY KEY,\n    watcher_id TEXT NOT NULL,\n    route TEXT NOT NULL,\n    old_price REAL NOT NULL,\n    new_price REAL NOT NULL,\n    is_read INTEGER DEFAULT 0,\n    triggered_at TEXT NOT NULL,\n    synced_at TEXT DEFAULT CURRENT_TIMESTAMP\n);\nCREATE INDEX IF NOT EXISTS idx_local_alerts_read ON local_alerts(is_read);",
        ),
        kind: MigrationKind::Up,
    };
    let mut ms: Vec<SchemaMigration> = Vec::new();
    ms.push(m1);
    ms.push(m2);
    ms
}

} // verus!
