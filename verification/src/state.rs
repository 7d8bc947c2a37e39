use vstd::prelude::*;

use core::sync::atomic::AtomicBool;
use core::sync::atomic::Ordering;

use crate::db::Database;
use crate::models::TrackingStatus;
use crate::models::WindowEvent;

verus! {

/// Holder of the current-window snapshot, readable and writable from any
/// thread. Opaque to the verifier; reads return whatever was stored last.
#[verifier::external_body]
struct WindowCell {
    inner: parking_lot::RwLock<Option<WindowEvent>>,
}

impl WindowCell {
    /// Relies on parking_lot::RwLock::new.
    #[verifier::external_body]
    fn new() -> (c: WindowCell) {
        WindowCell { inner: parking_lot::RwLock::new(None) }
    }

    /// Relies on parking_lot::RwLock::read: a copy of the stored snapshot.
    #[verifier::external_body]
    fn get(&self) -> (r: Option<WindowEvent>) {
        self.inner.read().clone()
    }

    /// Relies on parking_lot::RwLock::write: replaces the stored snapshot.
    #[verifier::external_body]
    fn set(&self, w: Option<WindowEvent>) {
        *self.inner.write() = w;
    }
}

/// Holder of the session-start timestamp, readable and writable from any
/// thread. Opaque to the verifier; reads return whatever was stored last.
#[verifier::external_body]
struct TimeCell {
    inner: parking_lot::RwLock<Option<i64>>,
}

impl TimeCell {
    /// Relies on parking_lot::RwLock::new.
    #[verifier::external_body]
    fn new() -> (c: TimeCell) {
        TimeCell { inner: parking_lot::RwLock::new(None) }
    }

    /// Relies on parking_lot::RwLock::read: the stored timestamp.
    #[verifier::external_body]
    fn get(&self) -> (r: Option<i64>) {
        *self.inner.read()
    }

    /// Relies on parking_lot::RwLock::write: replaces the stored timestamp.
    #[verifier::external_body]
    fn set(&self, t: Option<i64>) {
        *self.inner.write() = t;
    }
}

/// The shared tracking state: the five values that the sampling loop and the
/// foreground command handlers both read and write. Each field is guarded on
/// its own, so no access ever waits on another field; in return, no read can
/// promise anything about a value another thread may just have replaced.
pub struct AppState {
    pub db: Database,
    tracking_enabled: AtomicBool,
    idle: AtomicBool,
    current_window: WindowCell,
    session_start: TimeCell,
}

impl AppState {
    /// A fresh state: tracking on, not idle, no window seen, no session.
    pub fn new(db: Database) -> (s: AppState) {
        AppState {
            db,
            tracking_enabled: AtomicBool::new(true),
            idle: AtomicBool::new(false),
            current_window: WindowCell::new(),
            session_start: TimeCell::new(),
        }
    }

    pub fn is_tracking(&self) -> bool {
        self.tracking_enabled.load(Ordering::SeqCst)
    }

    pub fn set_tracking(&self, enabled: bool) {
        self.tracking_enabled.store(enabled, Ordering::SeqCst);
    }

    pub fn is_idle(&self) -> bool {
        self.idle.load(Ordering::SeqCst)
    }

    pub fn set_idle(&self, idle: bool) {
        self.idle.store(idle, Ordering::SeqCst);
    }

    pub fn get_current_window(&self) -> Option<WindowEvent> {
        self.current_window.get()
    }

    pub fn set_current_window(&self, window: Option<WindowEvent>) {
        self.current_window.set(window);
    }

    pub fn get_session_start(&self) -> Option<i64> {
        self.session_start.get()
    }

    pub fn set_session_start(&self, start: Option<i64>) {
        self.session_start.set(start);
    }

    /// One point-in-time status snapshot, composed from one read of each
    /// shared field plus the store's total for today.
    pub fn get_tracking_status(&self) -> (r: TrackingStatus) {
        let current = self.get_current_window();
        let is_tracking = self.is_tracking();
        let is_idle = self.is_idle();
        let today_total_seconds = self.get_today_total_seconds();
        let session_start_time = self.get_session_start();
        compose_status(is_tracking, is_idle, current, today_total_seconds, session_start_time)
    }

    /// The store's summed duration over today's records.
    fn get_today_total_seconds(&self) -> i64 {
        let today = crate::clock::today_local_date();
        self.db.today_total(today.as_str())
    }
}

/// Assemble a status snapshot from the five values read: each field of the
/// result carries over exactly, and the app name and window title are those
/// of the current window sample, if one was seen.
pub fn compose_status(
    is_tracking: bool,
    is_idle: bool,
    current: Option<WindowEvent>,
    today_total_seconds: i64,
    session_start_time: Option<i64>,
) -> (r: TrackingStatus)
    ensures
        r.is_tracking == is_tracking,
        r.is_idle == is_idle,
        r.today_total_seconds == today_total_seconds,
        r.session_start_time == session_start_time,
        match current {
            Some(w) => (r.current_app matches Some(a) && a@ == w@.app) && (r.current_window
                matches Some(t) && t@ == w@.title),
            None => r.current_app is None && r.current_window is None,
        },
{
    match current {
        Some(w) => TrackingStatus {
            is_tracking,
            is_idle,
            current_app: Some(w.app_name.clone()),
            current_window: Some(w.window_title.clone()),
            today_total_seconds,
            session_start_time,
        },
        None => TrackingStatus {
            is_tracking,
            is_idle,
            current_app: None,
            current_window: None,
            today_total_seconds,
            session_start_time,
        },
    }
}

} // verus!
