use timetracker::db::Database;
use timetracker::models::WindowEvent;
use timetracker::recorder::ActivityRecorder;
use timetracker::settings::get_idle_threshold;

fn test_db() -> (Database, rusqlite::Connection, tempfile::TempDir) {
    let dir = tempfile::TempDir::new().expect("Failed to create temp dir");
    let path = dir.path().join("timetracker.db");
    let path_str = path.to_str().expect("path is valid unicode");
    let db = Database::new(path_str).expect("Failed to create database");
    let probe = rusqlite::Connection::open(path_str).expect("Failed to open probe connection");
    (db, probe, dir)
}

#[test]
fn test_database_creation() {
    let (_db, probe, _dir) = test_db();

    let table_count: i64 = probe
        .query_row(
            "SELECT COUNT(*) FROM sqlite_master WHERE type='table'",
            [],
            |row| row.get(0),
        )
        .expect("Failed to query tables");

    assert!(table_count >= 7, "Expected at least 7 tables, got {}", table_count);
}

#[test]
fn test_default_categories_created() {
    let (_db, probe, _dir) = test_db();

    let category_count: i64 = probe
        .query_row("SELECT COUNT(*) FROM categories", [], |row| row.get(0))
        .expect("Failed to count categories");

    assert!(category_count > 0, "Expected default categories to be created");
}

#[test]
fn test_insert_and_retrieve_category() {
    let (_db, probe, _dir) = test_db();

    probe
        .execute(
            "INSERT INTO categories (name, color, is_productive) VALUES (?1, ?2, ?3)",
            ["Test Category", "#FF0000", "1"],
        )
        .expect("Failed to insert category");

    let name: String = probe
        .query_row(
            "SELECT name FROM categories WHERE name = ?1",
            ["Test Category"],
            |row| row.get(0),
        )
        .expect("Failed to retrieve category");

    assert_eq!(name, "Test Category");
}

#[test]
fn test_insert_activity_record() {
    let (_db, probe, _dir) = test_db();

    probe
        .execute("INSERT INTO applications (name) VALUES (?1)", ["Test App"])
        .expect("Failed to insert application");

    let app_id: i64 = probe.last_insert_rowid();

    probe
        .execute(
            "INSERT INTO activity_records (application_id, window_title, start_time, end_time, is_idle)
             VALUES (?1, ?2, ?3, ?4, ?5)",
            (app_id, "Test Window", 1000, 2000, false),
        )
        .expect("Failed to insert activity record");

    let (count, duration): (i64, i64) = probe
        .query_row(
            "SELECT COUNT(*), duration_seconds FROM activity_records",
            [],
            |row| Ok((row.get(0)?, row.get(1)?)),
        )
        .expect("Failed to query records");

    assert_eq!(count, 1);
    assert_eq!(duration, 1000);
}

#[test]
fn test_database_clone() {
    let (db, probe, _dir) = test_db();
    let db_clone = db.clone();

    probe
        .execute("INSERT INTO applications (name) VALUES (?1)", ["Clone Test App"])
        .expect("Failed to insert");

    let name: String = probe
        .query_row(
            "SELECT name FROM applications WHERE name = ?1",
            ["Clone Test App"],
            |row| row.get(0),
        )
        .expect("Failed to retrieve");

    assert_eq!(name, "Clone Test App");

    // The clone shares the same store: it reads the same settings rows.
    assert_eq!(get_idle_threshold(&db_clone), 300);
}

#[test]
fn test_daily_summary_table() {
    let (_db, probe, _dir) = test_db();

    probe
        .execute(
            "INSERT INTO daily_summaries (date, total_active_seconds, total_idle_seconds, productive_seconds)
             VALUES (?1, ?2, ?3, ?4)",
            ("2024-01-15", 7200, 300, 6000),
        )
        .expect("Failed to insert daily summary");

    let (total_active, productive): (i64, i64) = probe
        .query_row(
            "SELECT total_active_seconds, productive_seconds FROM daily_summaries WHERE date = ?1",
            ["2024-01-15"],
            |row| Ok((row.get(0)?, row.get(1)?)),
        )
        .expect("Failed to retrieve summary");

    assert_eq!(total_active, 7200);
    assert_eq!(productive, 6000);
}

#[test]
fn idle_threshold_reads_stored_setting() {
    let (db, probe, _dir) = test_db();

    // A fresh store holds the default.
    assert_eq!(get_idle_threshold(&db), 300);

    probe
        .execute(
            "INSERT OR REPLACE INTO settings (key, value) VALUES ('idle_threshold_seconds', '120')",
            [],
        )
        .expect("Failed to update setting");
    assert_eq!(get_idle_threshold(&db), 120);

    probe
        .execute(
            "INSERT OR REPLACE INTO settings (key, value) VALUES ('idle_threshold_seconds', 'junk')",
            [],
        )
        .expect("Failed to update setting");
    assert_eq!(get_idle_threshold(&db), 300);
}

fn wait_beyond_one_second() {
    let start = std::time::Instant::now();
    while start.elapsed() < std::time::Duration::from_millis(1200) {}
}

fn window(app: &str, title: &str, path: Option<&str>) -> WindowEvent {
    WindowEvent {
        app_name: app.to_string(),
        window_title: title.to_string(),
        executable_path: path.map(|p| p.to_string()),
        process_id: Some(1),
        timestamp: 0,
    }
}

#[test]
fn same_executable_path_resolves_to_one_application() {
    let (db, probe, _dir) = test_db();
    let mut recorder = ActivityRecorder::new(db);

    recorder.record_window_change(&window("Editor", "Doc1", Some("/usr/bin/editor")));
    wait_beyond_one_second();
    recorder.record_window_change(&window("Editor", "Doc2", Some("/usr/bin/editor")));
    wait_beyond_one_second();
    recorder.flush_current();

    let app_rows: i64 = probe
        .query_row("SELECT COUNT(*) FROM applications", [], |row| row.get(0))
        .expect("Failed to count applications");
    assert_eq!(app_rows, 1, "both samples must resolve to one application row");

    let distinct_ids: i64 = probe
        .query_row(
            "SELECT COUNT(DISTINCT application_id) FROM activity_records",
            [],
            |row| row.get(0),
        )
        .expect("Failed to count distinct ids");
    assert_eq!(distinct_ids, 1, "both records must carry the same application id");

    let records: i64 = probe
        .query_row("SELECT COUNT(*) FROM activity_records", [], |row| row.get(0))
        .expect("Failed to count records");
    assert_eq!(records, 2);
}

#[test]
fn repeated_identical_samples_persist_nothing() {
    let (db, probe, _dir) = test_db();
    let mut recorder = ActivityRecorder::new(db);

    recorder.record_window_change(&window("AppA", "X", None));
    recorder.record_window_change(&window("AppA", "X", None));

    let records: i64 = probe
        .query_row("SELECT COUNT(*) FROM activity_records", [], |row| row.get(0))
        .expect("Failed to count records");
    assert_eq!(records, 0, "identical samples must open nothing new and persist nothing");
}

#[test]
fn sub_second_segment_never_reaches_the_store() {
    let (db, probe, _dir) = test_db();
    let mut recorder = ActivityRecorder::new(db);

    recorder.record_window_change(&window("AppB", "Y", None));
    recorder.flush_current();

    let records: i64 = probe
        .query_row("SELECT COUNT(*) FROM activity_records", [], |row| row.get(0))
        .expect("Failed to count records");
    assert_eq!(records, 0, "a segment shorter than one second must be discarded");
}

#[test]
fn persisted_records_have_positive_duration() {
    let (db, probe, _dir) = test_db();
    let mut recorder = ActivityRecorder::new(db);

    recorder.record_window_change(&window("AppC", "Z", None));
    wait_beyond_one_second();
    recorder.flush_current();

    let short_records: i64 = probe
        .query_row(
            "SELECT COUNT(*) FROM activity_records WHERE end_time - start_time < 1",
            [],
            |row| row.get(0),
        )
        .expect("Failed to count records");
    assert_eq!(short_records, 0);
}

#[test]
fn status_snapshot_reflects_the_shared_state() {
    let (db, _probe, _dir) = test_db();
    let state = timetracker::state::AppState::new(db);

    state.set_current_window(Some(window("Editor", "Doc1", None)));
    state.set_session_start(Some(1234));
    state.set_idle(false);

    let status = state.get_tracking_status();
    assert!(status.is_tracking);
    assert!(!status.is_idle);
    assert_eq!(status.current_app.as_deref(), Some("Editor"));
    assert_eq!(status.current_window.as_deref(), Some("Doc1"));
    assert_eq!(status.session_start_time, Some(1234));
    assert_eq!(status.today_total_seconds, 0);
}

#[test]
fn cycle_with_tracking_off_closes_the_open_segment() {
    let (db, probe, _dir) = test_db();
    let state = timetracker::state::AppState::new(db.clone());
    let mut recorder = ActivityRecorder::new(db);
    let detector = timetracker::detector::WindowDetector::new();

    recorder.record_window_change(&window("AppA", "X", None));
    timetracker::trackloop::stop_tracking(&state);

    let idle_changed =
        timetracker::trackloop::run_cycle(&state, &mut recorder, &detector, false, 300);
    assert!(idle_changed.is_none());

    // The segment was closed at once; being shorter than a second it was
    // discarded, so nothing may appear in the store.
    let records: i64 = probe
        .query_row("SELECT COUNT(*) FROM activity_records", [], |row| row.get(0))
        .expect("Failed to count records");
    assert_eq!(records, 0);
}
