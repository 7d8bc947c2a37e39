use vstd::prelude::*;

use crate::db::{Database, DbError};

verus! {

/// The statements that bring a fresh store up to the current schema.
fn initial_schema_sql() -> &'static str {
    "
    CREATE TABLE IF NOT EXISTS settings (
        key TEXT PRIMARY KEY,
        value TEXT NOT NULL,
        updated_at INTEGER NOT NULL DEFAULT (strftime('%s', 'now'))
    );

    CREATE TABLE IF NOT EXISTS categories (
        id INTEGER PRIMARY KEY AUTOINCREMENT,
        name TEXT NOT NULL UNIQUE,
        color TEXT NOT NULL DEFAULT '#6B7280',
        icon TEXT,
        is_productive INTEGER NOT NULL DEFAULT 1,
        created_at INTEGER NOT NULL DEFAULT (strftime('%s', 'now')),
        updated_at INTEGER NOT NULL DEFAULT (strftime('%s', 'now'))
    );

    CREATE TABLE IF NOT EXISTS projects (
        id INTEGER PRIMARY KEY AUTOINCREMENT,
        name TEXT NOT NULL,
        description TEXT,
        category_id INTEGER REFERENCES categories(id) ON DELETE SET NULL,
        color TEXT NOT NULL DEFAULT '#3B82F6',
        is_active INTEGER NOT NULL DEFAULT 1,
        created_at INTEGER NOT NULL DEFAULT (strftime('%s', 'now')),
        updated_at INTEGER NOT NULL DEFAULT (strftime('%s', 'now'))
    );

    CREATE TABLE IF NOT EXISTS applications (
        id INTEGER PRIMARY KEY AUTOINCREMENT,
        name TEXT NOT NULL,
        executable_path TEXT,
        identifier TEXT UNIQUE,
        category_id INTEGER REFERENCES categories(id) ON DELETE SET NULL,
        project_id INTEGER REFERENCES projects(id) ON DELETE SET NULL,
        created_at INTEGER NOT NULL DEFAULT (strftime('%s', 'now')),
        updated_at INTEGER NOT NULL DEFAULT (strftime('%s', 'now'))
    );

    CREATE TABLE IF NOT EXISTS categorization_rules (
        id INTEGER PRIMARY KEY AUTOINCREMENT,
        name TEXT NOT NULL,
        rule_type TEXT NOT NULL CHECK (rule_type IN ('app_name', 'window_title', 'url')),
        pattern TEXT NOT NULL,
        category_id INTEGER REFERENCES categories(id) ON DELETE CASCADE,
        project_id INTEGER REFERENCES projects(id) ON DELETE SET NULL,
        priority INTEGER NOT NULL DEFAULT 0,
        is_active INTEGER NOT NULL DEFAULT 1,
        created_at INTEGER NOT NULL DEFAULT (strftime('%s', 'now'))
    );

    CREATE TABLE IF NOT EXISTS activity_records (
        id INTEGER PRIMARY KEY AUTOINCREMENT,
        application_id INTEGER REFERENCES applications(id) ON DELETE SET NULL,
        window_title TEXT NOT NULL,
        url TEXT,
        start_time INTEGER NOT NULL,
        end_time INTEGER NOT NULL,
        duration_seconds INTEGER GENERATED ALWAYS AS (end_time - start_time) STORED,
        category_id INTEGER REFERENCES categories(id) ON DELETE SET NULL,
        project_id INTEGER REFERENCES projects(id) ON DELETE SET NULL,
        is_idle INTEGER NOT NULL DEFAULT 0,
        created_at INTEGER NOT NULL DEFAULT (strftime('%s', 'now'))
    );

    CREATE TABLE IF NOT EXISTS idle_periods (
        id INTEGER PRIMARY KEY AUTOINCREMENT,
        start_time INTEGER NOT NULL,
        end_time INTEGER,
        duration_seconds INTEGER,
        disposition TEXT CHECK (disposition IN ('discarded', 'break', 'meeting', 'other')),
        notes TEXT,
        created_at INTEGER NOT NULL DEFAULT (strftime('%s', 'now'))
    );

    CREATE TABLE IF NOT EXISTS daily_summaries (
        id INTEGER PRIMARY KEY AUTOINCREMENT,
        date TEXT NOT NULL UNIQUE,
        total_active_seconds INTEGER NOT NULL DEFAULT 0,
        total_idle_seconds INTEGER NOT NULL DEFAULT 0,
        productive_seconds INTEGER NOT NULL DEFAULT 0,
        category_breakdown TEXT,
        app_breakdown TEXT,
        created_at INTEGER NOT NULL DEFAULT (strftime('%s', 'now')),
        updated_at INTEGER NOT NULL DEFAULT (strftime('%s', 'now'))
    );

    CREATE INDEX IF NOT EXISTS idx_activity_start_time ON activity_records(start_time);
    CREATE INDEX IF NOT EXISTS idx_activity_end_time ON activity_records(end_time);
    CREATE INDEX IF NOT EXISTS idx_activity_application ON activity_records(application_id);
    CREATE INDEX IF NOT EXISTS idx_activity_category ON activity_records(category_id);
    CREATE INDEX IF NOT EXISTS idx_activity_project ON activity_records(project_id);
    CREATE INDEX IF NOT EXISTS idx_idle_start ON idle_periods(start_time);
    CREATE INDEX IF NOT EXISTS idx_rules_priority ON categorization_rules(priority DESC);
    CREATE INDEX IF NOT EXISTS idx_daily_date ON daily_summaries(date);
    CREATE INDEX IF NOT EXISTS idx_apps_identifier ON applications(identifier);

    INSERT OR IGNORE INTO categories (name, color, is_productive) VALUES
        ('Work', '#22C55E', 1),
        ('Development', '#3B82F6', 1),
        ('Communication', '#8B5CF6', 1),
        ('Entertainment', '#F59E0B', 0),
        ('Social Media', '#EF4444', 0),
        ('Utilities', '#6B7280', 1),
        ('Uncategorized', '#9CA3AF', 1);

    INSERT OR IGNORE INTO settings (key, value) VALUES
        ('idle_threshold_seconds', '300'),
        ('tracking_enabled', 'true'),
        ('polling_interval_ms', '1000'),
        ('theme', 'system');
    "
}

/// Bring the store's schema up to date: apply each migration that the
/// bookkeeping table does not name yet, then record it there. A failed
/// bookkeeping read counts as not applied, as the schema only ever uses
/// guarded statements.
pub fn run_all(db: &Database) -> (r: Result<(), DbError>) {
    match db.run_batch(
        "CREATE TABLE IF NOT EXISTS _migrations (
            id INTEGER PRIMARY KEY,
            name TEXT NOT NULL UNIQUE,
            applied_at INTEGER NOT NULL DEFAULT (strftime('%s', 'now'))
        );",
    ) {
        Ok(_) => {},
        Err(e) => {
            return Err(e);
        },
    }
    let applied = match db.migration_applied("001_initial_schema") {
        Ok(b) => b,
        Err(_) => false,
    };
    if !applied {
        match db.run_batch(initial_schema_sql()) {
            Ok(_) => {},
            Err(e) => {
                return Err(e);
            },
        }
        match db.record_migration("001_initial_schema") {
            Ok(_) => {},
            Err(e) => {
                return Err(e);
            },
        }
    }
    Ok(())
}

} // verus!
