use vstd::prelude::*;

verus! {

/// A category that groups applications for reporting.
#[derive(Debug, Clone)]
pub struct Category {
    pub id: i64,
    pub name: String,
    pub color: String,
    pub icon: Option<String>,
    pub is_productive: bool,
    pub created_at: i64,
    pub updated_at: i64,
}

/// A project for more granular tracking.
#[derive(Debug, Clone)]
pub struct Project {
    pub id: i64,
    pub name: String,
    pub description: Option<String>,
    pub category_id: Option<i64>,
    pub color: String,
    pub is_active: bool,
    pub created_at: i64,
    pub updated_at: i64,
}

/// A known application, deduplicated by its identifier.
#[derive(Debug, Clone)]
pub struct Application {
    pub id: i64,
    pub name: String,
    pub executable_path: Option<String>,
    pub identifier: Option<String>,
    pub category_id: Option<i64>,
    pub project_id: Option<i64>,
    pub created_at: i64,
    pub updated_at: i64,
}

/// One persisted activity segment: a contiguous interval during which a
/// single (application, window title) pair held focus.
#[derive(Debug, Clone)]
pub struct ActivityRecord {
    pub id: i64,
    pub application_id: Option<i64>,
    pub window_title: String,
    pub url: Option<String>,
    pub start_time: i64,
    pub end_time: i64,
    pub duration_seconds: i64,
    pub category_id: Option<i64>,
    pub project_id: Option<i64>,
    pub is_idle: bool,
}

/// A period during which the user gave no input.
#[derive(Debug, Clone)]
pub struct IdlePeriod {
    pub id: i64,
    pub start_time: i64,
    pub end_time: Option<i64>,
    pub duration_seconds: Option<i64>,
    pub disposition: Option<String>,
    pub notes: Option<String>,
}

/// Pre-aggregated totals for one calendar day.
#[derive(Debug, Clone)]
pub struct DailySummary {
    pub id: i64,
    pub date: String,
    pub total_active_seconds: i64,
    pub total_idle_seconds: i64,
    pub productive_seconds: i64,
    pub category_breakdown: Option<String>,
    pub app_breakdown: Option<String>,
}

/// A rule that assigns a category or project from a pattern.
#[derive(Debug, Clone)]
pub struct CategorizationRule {
    pub id: i64,
    pub name: String,
    pub rule_type: String,
    pub pattern: String,
    pub category_id: Option<i64>,
    pub project_id: Option<i64>,
    pub priority: i32,
    pub is_active: bool,
}

/// One sample from the active-window sensor.
#[derive(Debug, Clone)]
pub struct WindowEvent {
    pub app_name: String,
    pub window_title: String,
    pub executable_path: Option<String>,
    pub process_id: Option<u32>,
    pub timestamp: i64,
}

/// Mathematical image of a `WindowEvent`.
pub ghost struct WindowEventModel {
    pub app: Seq<char>,
    pub title: Seq<char>,
    pub path: Option<Seq<char>>,
    pub pid: Option<u32>,
    pub t: int,
}

impl View for WindowEvent {
    type V = WindowEventModel;

    open spec fn view(&self) -> WindowEventModel {
        WindowEventModel {
            app: self.app_name@,
            title: self.window_title@,
            path: match self.executable_path {
                Some(p) => Some(p@),
                None => None,
            },
            pid: self.process_id,
            t: self.timestamp as int,
        }
    }
}

/// A point-in-time snapshot of the shared tracking state.
#[derive(Debug, Clone)]
pub struct TrackingStatus {
    pub is_tracking: bool,
    pub is_idle: bool,
    pub current_app: Option<String>,
    pub current_window: Option<String>,
    pub today_total_seconds: i64,
    pub session_start_time: Option<i64>,
}

/// Aggregated usage of one application over a date range.
#[derive(Debug, Clone)]
pub struct AppUsageStats {
    pub app_name: String,
    pub app_id: i64,
    pub total_seconds: i64,
    pub category_name: Option<String>,
    pub category_color: Option<String>,
}

/// Aggregated usage of one category over a date range.
#[derive(Debug, Clone)]
pub struct CategoryStats {
    pub category_id: i64,
    pub category_name: String,
    pub color: String,
    pub total_seconds: i64,
    pub is_productive: bool,
}

/// The settings this core reads, with their stored defaults.
#[derive(Debug, Clone)]
pub struct AppSettings {
    pub idle_threshold_seconds: i64,
    pub tracking_enabled: bool,
    pub polling_interval_ms: i64,
    pub theme: String,
}

impl Default for AppSettings {
    /// The values used when the settings store holds no entry.
    fn default() -> (r: Self)
        ensures
            r.idle_threshold_seconds == 300,
            r.tracking_enabled == true,
            r.polling_interval_ms == 1000,
            r.theme@ == "system"@,
    {
        AppSettings {
            idle_threshold_seconds: 300,
            tracking_enabled: true,
            polling_interval_ms: 1000,
            theme: "system".to_owned(),
        }
    }
}

} // verus!
