use vstd::prelude::*;

use crate::models::WindowEvent;

verus! {

/// The two black-box sensors: which window has focus, and how long the user
/// has been idle. Both are fallible; failure means no signal this cycle.
pub struct WindowDetector;

impl WindowDetector {
    pub fn new() -> (d: WindowDetector) {
        WindowDetector
    }

    /// Relies on x_win::get_active_window for the focused window's title,
    /// process name, path and id, and on chrono::Utc::now for the sample's
    /// timestamp. A sensor error yields no sample.
    #[verifier::external_body]
    pub fn get_active_window(&self) -> (r: Option<WindowEvent>) {
        match x_win::get_active_window() {
            Ok(window) => Some(WindowEvent {
                app_name: window.info.name.clone(),
                window_title: window.title.clone(),
                executable_path: Some(window.info.path.clone()),
                process_id: Some(window.info.process_id),
                timestamp: chrono::Utc::now().timestamp(),
            }),
            Err(_) => None,
        }
    }

    /// Relies on user_idle::UserIdle::get_time: seconds since the user's
    /// last input; 0 when the sensor fails.
    #[verifier::external_body]
    pub fn get_idle_time_seconds(&self) -> (t: u64) {
        match user_idle::UserIdle::get_time() {
            Ok(idle) => idle.as_seconds(),
            Err(_) => 0,
        }
    }
}

impl Default for WindowDetector {
    fn default() -> (d: Self) {
        WindowDetector::new()
    }
}

} // verus!
