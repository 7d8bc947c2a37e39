use vstd::prelude::*;

verus! {

/// An error from the persistence gateway, carrying the store's own message.
#[derive(Debug, Clone)]
pub struct DbError {
    pub message: String,
}

/// Shared handle to the store: one sqlite connection behind one lock, so
/// that the recorder and the report queries serialize their access. Opaque
/// to the verifier; every operation on it is a trusted wrapper below.
#[verifier::external_body]
pub struct Database {
    conn: std::sync::Arc<parking_lot::Mutex<rusqlite::Connection>>,
}

impl Clone for Database {
    /// Relies on std::sync::Arc::clone: the copy shares the same connection
    /// and the same lock.
    #[verifier::external_body]
    fn clone(&self) -> (r: Database) {
        Database { conn: std::sync::Arc::clone(&self.conn) }
    }
}

impl Database {
    /// Relies on rusqlite::Connection::open: opens (or creates) the store at `path`.
    #[verifier::external_body]
    fn open_path(path: &str) -> (r: Result<Database, DbError>) {
        match rusqlite::Connection::open(path) {
            Ok(conn) => Ok(Database { conn: std::sync::Arc::new(parking_lot::Mutex::new(conn)) }),
            Err(e) => Err(DbError { message: e.to_string() }),
        }
    }

    /// Relies on rusqlite::Connection::open_in_memory.
    #[verifier::external_body]
    fn open_memory() -> (r: Result<Database, DbError>) {
        match rusqlite::Connection::open_in_memory() {
            Ok(conn) => Ok(Database { conn: std::sync::Arc::new(parking_lot::Mutex::new(conn)) }),
            Err(e) => Err(DbError { message: e.to_string() }),
        }
    }

    /// Relies on rusqlite::Connection::execute_batch to turn referential checks on.
    #[verifier::external_body]
    fn enable_foreign_keys(&self) -> (r: Result<(), DbError>) {
        match self.conn.lock().execute_batch("PRAGMA foreign_keys = ON;") {
            Ok(_) => Ok(()),
            Err(e) => Err(DbError { message: e.to_string() }),
        }
    }

    /// Open the store at `path`, turn referential checks on and bring the
    /// schema up to date.
    pub fn new(path: &str) -> (r: Result<Database, DbError>) {
        let db = match Database::open_path(path) {
            Ok(db) => db,
            Err(e) => {
                return Err(e);
            },
        };
        match db.enable_foreign_keys() {
            Ok(_) => {},
            Err(e) => {
                return Err(e);
            },
        }
        match crate::migrations::run_all(&db) {
            Ok(_) => Ok(db),
            Err(e) => Err(e),
        }
    }

    /// As `new`, but against a store that lives only as long as the process.
    pub fn new_in_memory() -> (r: Result<Database, DbError>) {
        let db = match Database::open_memory() {
            Ok(db) => db,
            Err(e) => {
                return Err(e);
            },
        };
        match db.enable_foreign_keys() {
            Ok(_) => {},
            Err(e) => {
                return Err(e);
            },
        }
        match crate::migrations::run_all(&db) {
            Ok(_) => Ok(db),
            Err(e) => Err(e),
        }
    }

    /// Relies on rusqlite::Connection::execute_batch: runs the statements of `sql`.
    #[verifier::external_body]
    pub(crate) fn run_batch(&self, sql: &str) -> (r: Result<(), DbError>) {
        match self.conn.lock().execute_batch(sql) {
            Ok(_) => Ok(()),
            Err(e) => Err(DbError { message: e.to_string() }),
        }
    }

    /// Relies on rusqlite::Connection::query_row: whether the bookkeeping
    /// table names this migration as applied.
    #[verifier::external_body]
    pub(crate) fn migration_applied(&self, name: &str) -> (r: Result<bool, DbError>) {
        match self.conn.lock().query_row(
            "SELECT EXISTS(SELECT 1 FROM _migrations WHERE name = ?)",
            (name,),
            |row| row.get(0),
        ) {
            Ok(b) => Ok(b),
            Err(e) => Err(DbError { message: e.to_string() }),
        }
    }

    /// Relies on rusqlite::Connection::execute: writes the migration's name
    /// into the bookkeeping table.
    #[verifier::external_body]
    pub(crate) fn record_migration(&self, name: &str) -> (r: Result<(), DbError>) {
        match self.conn.lock().execute("INSERT INTO _migrations (name) VALUES (?)", (name,)) {
            Ok(_) => Ok(()),
            Err(e) => Err(DbError { message: e.to_string() }),
        }
    }

    /// Relies on rusqlite::Connection::query_row: the id of the application
    /// whose identifier or name matches, if the store holds one.
    #[verifier::external_body]
    pub(crate) fn find_application(&self, identifier: &str, name: &str) -> (r: Option<i64>) {
        self.conn.lock().query_row(
            "SELECT id FROM applications WHERE identifier = ? OR name = ?",
            (identifier, name),
            |row| row.get(0),
        ).ok()
    }

    /// Relies on rusqlite::Connection::execute and last_insert_rowid: inserts
    /// an application row and returns the id the store assigned it.
    #[verifier::external_body]
    pub(crate) fn insert_application(
        &self,
        name: &str,
        executable_path: Option<&str>,
        identifier: &str,
    ) -> (r: Result<i64, DbError>) {
        let conn = self.conn.lock();
        match conn.execute(
            "INSERT INTO applications (name, executable_path, identifier) VALUES (?, ?, ?)",
            (name, executable_path, identifier),
        ) {
            Ok(_) => Ok(conn.last_insert_rowid()),
            Err(e) => Err(DbError { message: e.to_string() }),
        }
    }

    /// Relies on rusqlite::Connection::query_row: the category currently
    /// assigned to the application, if any.
    #[verifier::external_body]
    pub(crate) fn application_category(&self, application_id: i64) -> (r: Option<i64>) {
        self.conn.lock().query_row(
            "SELECT category_id FROM applications WHERE id = ?",
            (application_id,),
            |row| row.get(0),
        ).ok().flatten()
    }

    /// Relies on rusqlite::Connection::execute: inserts one finished activity
    /// record, never an idle one. The store derives the duration from the two
    /// endpoints, so a record is only ever written with a positive duration.
    #[verifier::external_body]
    pub(crate) fn insert_activity_record(
        &self,
        application_id: Option<i64>,
        window_title: &str,
        start_time: i64,
        end_time: i64,
        category_id: Option<i64>,
    ) -> (r: Result<(), DbError>)
        requires
            start_time < end_time,
    {
        match self.conn.lock().execute(
            "INSERT INTO activity_records (application_id, window_title, start_time, end_time, category_id, is_idle)
             VALUES (?, ?, ?, ?, ?, 0)",
            (application_id, window_title, start_time, end_time, category_id),
        ) {
            Ok(_) => Ok(()),
            Err(e) => Err(DbError { message: e.to_string() }),
        }
    }

    /// Relies on rusqlite::Connection::query_row: the stored value of one
    /// settings key, if the store holds one.
    #[verifier::external_body]
    pub(crate) fn get_setting(&self, key: &str) -> (r: Option<String>) {
        self.conn.lock().query_row(
            "SELECT value FROM settings WHERE key = ?",
            (key,),
            |row| row.get(0),
        ).ok()
    }

    /// Relies on rusqlite::Connection::query_row: the summed duration of the
    /// activity records of one local date; 0 when the query fails.
    #[verifier::external_body]
    pub(crate) fn today_total(&self, date: &str) -> (r: i64) {
        self.conn.lock().query_row(
            "SELECT COALESCE(SUM(duration_seconds), 0) FROM activity_records
             WHERE date(start_time, 'unixepoch', 'localtime') = ?",
            (date,),
            |row| row.get(0),
        ).unwrap_or(0)
    }
}

} // verus!
