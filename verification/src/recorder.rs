use vstd::prelude::*;

use crate::db::Database;
use crate::engine::FinishedSegment;
use crate::engine::SegModel;
use crate::engine::SegmentEngine;
use crate::engine::pair_matches;
use crate::models::WindowEvent;
use crate::models::WindowEventModel;

verus! {

/// The identity under which a sample's application is stored: its executable
/// path when the sensor reported one, else its name.
pub open spec fn identifier_model(w: WindowEventModel) -> Seq<char> {
    match w.path {
        Some(p) => p,
        None => w.app,
    }
}

/// The identity string of one sample.
pub fn identifier_of(window: &WindowEvent) -> (r: &String)
    ensures
        r@ == identifier_model(window@),
{
    match &window.executable_path {
        Some(p) => p,
        None => &window.app_name,
    }
}

/// Law: two samples with the same executable path resolve to the same
/// identity, whatever their window titles; the store keys applications by
/// that identity, one row per identity.
pub proof fn lemma_same_path_same_identifier(a: WindowEventModel, b: WindowEventModel)
    requires
        a.path is Some,
        a.path == b.path,
    ensures
        identifier_model(a) == identifier_model(b),
{
}

/// The activity recorder: owns the one open segment (inside its engine) and
/// persists each segment the engine closes. Driven by a single sampling
/// loop; it must never run twice against the same store.
pub struct ActivityRecorder {
    db: Database,
    engine: SegmentEngine,
}

impl View for ActivityRecorder {
    type V = Option<SegModel>;

    closed spec fn view(&self) -> Option<SegModel> {
        self.engine@
    }
}

impl ActivityRecorder {
    /// A fresh recorder with no open segment.
    pub fn new(db: Database) -> (r: ActivityRecorder)
        ensures
            r@ is None,
    {
        ActivityRecorder { db, engine: SegmentEngine::new() }
    }

    /// Handle one window sample, timed by the wall clock.
    ///
    /// A sample matching the open segment's (app name, window title) pair
    /// changes nothing. Any other sample closes the open segment, persists
    /// it unless it is shorter than the minimum duration, resolves the
    /// sample's application identity, and opens a new segment for it; the
    /// new segment starts at the very time the old one ended.
    pub fn record_window_change(&mut self, window: &WindowEvent)
        ensures
            pair_matches(old(self)@, window@.app, window@.title) ==> final(self)@ == old(self)@,
            !pair_matches(old(self)@, window@.app, window@.title) ==> (final(self)@ matches Some(c)
                && c.app == window@.app && c.title == window@.title && c.path == window@.path),
    {
        if self.engine.would_change(&window.app_name, &window.window_title) {
            let now = crate::clock::now_seconds();
            if let Some(finished) = self.engine.on_flush(now) {
                self.save_activity(&finished);
            }
            let app_id = self.get_or_create_application(window);
            let _ = self.engine.on_sample(window, app_id, now);
        }
    }

    /// Close and persist the open segment, if any, timed by the wall clock.
    /// With no open segment this is a no-op; either way none is left open.
    pub fn flush_current(&mut self)
        ensures
            final(self)@ is None,
    {
        let now = crate::clock::now_seconds();
        if let Some(finished) = self.engine.on_flush(now) {
            self.save_activity(&finished);
        }
    }

    /// Persist one finished segment: look up the application's category at
    /// this moment and insert the record. A failed insert drops the segment;
    /// that is accepted data loss, never an abort.
    fn save_activity(&self, finished: &FinishedSegment)
        requires
            finished.start_time < finished.end_time,
    {
        let category_id = match finished.application_id {
            Some(app_id) => self.db.application_category(app_id),
            None => None,
        };
        let _ = self.db.insert_activity_record(
            finished.application_id,
            finished.window_title.as_str(),
            finished.start_time,
            finished.end_time,
            category_id,
        );
    }

    /// Resolve a sample to a stored application id: reuse the row whose
    /// identifier or name matches, else insert a new row. A failed insert
    /// resolves to no identity; the segment is still recorded without one.
    fn get_or_create_application(&self, window: &WindowEvent) -> Option<i64> {
        let identifier = identifier_of(window);
        match self.db.find_application(identifier.as_str(), window.app_name.as_str()) {
            Some(id) => Some(id),
            None => {
                let path: Option<&str> = match &window.executable_path {
                    Some(p) => Some(p.as_str()),
                    None => None,
                };
                match self.db.insert_application(
                    window.app_name.as_str(),
                    path,
                    identifier.as_str(),
                ) {
                    Ok(id) => Some(id),
                    Err(_) => None,
                }
            },
        }
    }
}

} // verus!
