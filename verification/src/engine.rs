use vstd::prelude::*;

use crate::models::WindowEvent;

verus! {

/// Seconds below which a finished segment is discarded instead of persisted.
pub open spec fn min_segment_seconds() -> int {
    1
}

/// The one open segment: a focus interval that has started and not yet ended.
pub struct OpenSegment {
    pub app_name: String,
    pub window_title: String,
    pub executable_path: Option<String>,
    pub start_time: i64,
    pub application_id: Option<i64>,
}

/// A segment that has been closed and is due for persistence.
pub struct FinishedSegment {
    pub app_name: String,
    pub window_title: String,
    pub executable_path: Option<String>,
    pub application_id: Option<i64>,
    pub start_time: i64,
    pub end_time: i64,
}

/// Mathematical image of an open segment.
pub ghost struct SegModel {
    pub app: Seq<char>,
    pub title: Seq<char>,
    pub path: Option<Seq<char>>,
    pub app_id: Option<i64>,
    pub start: int,
}

/// Mathematical image of a finished segment.
pub ghost struct RecModel {
    pub app: Seq<char>,
    pub title: Seq<char>,
    pub path: Option<Seq<char>>,
    pub app_id: Option<i64>,
    pub start: int,
    pub end: int,
}

impl View for OpenSegment {
    type V = SegModel;

    open spec fn view(&self) -> SegModel {
        SegModel {
            app: self.app_name@,
            title: self.window_title@,
            path: match self.executable_path {
                Some(p) => Some(p@),
                None => None,
            },
            app_id: self.application_id,
            start: self.start_time as int,
        }
    }
}

impl View for FinishedSegment {
    type V = RecModel;

    open spec fn view(&self) -> RecModel {
        RecModel {
            app: self.app_name@,
            title: self.window_title@,
            path: match self.executable_path {
                Some(p) => Some(p@),
                None => None,
            },
            app_id: self.application_id,
            start: self.start_time as int,
            end: self.end_time as int,
        }
    }
}

/// Mathematical image of one sensor sample handed to the engine, together
/// with the identity resolved for it and the time it was handled.
pub ghost struct SampleModel {
    pub app: Seq<char>,
    pub title: Seq<char>,
    pub path: Option<Seq<char>>,
    pub app_id: Option<i64>,
    pub t: int,
}

pub open spec fn emit_view(e: Option<FinishedSegment>) -> Option<RecModel> {
    match e {
        Some(f) => Some(f@),
        None => None,
    }
}

/// Does the sample's (app name, window title) pair match the open segment's?
/// With no open segment nothing matches.
pub open spec fn pair_matches(cur: Option<SegModel>, app: Seq<char>, title: Seq<char>) -> bool {
    match cur {
        Some(c) => c.app == app && c.title == title,
        None => false,
    }
}

/// The record a segment closes into at time `end`.
pub open spec fn finalize_rec(c: SegModel, end: int) -> RecModel {
    RecModel { app: c.app, title: c.title, path: c.path, app_id: c.app_id, start: c.start, end: end }
}

/// What closing the open segment (if any) at time `now` persists: the
/// finished record, unless the segment is shorter than the minimum.
pub open spec fn close_emits(cur: Option<SegModel>, now: int) -> Option<RecModel> {
    match cur {
        Some(c) => if now - c.start >= min_segment_seconds() {
            Some(finalize_rec(c, now))
        } else {
            None
        },
        None => None,
    }
}

/// The segment a sample opens at its handling time.
pub open spec fn opened_seg(s: SampleModel) -> SegModel {
    SegModel { app: s.app, title: s.title, path: s.path, app_id: s.app_id, start: s.t }
}

/// The open segment after a sample is handled: unchanged on a matching pair,
/// else a fresh segment opened at the sample's time.
pub open spec fn step_sample_state(cur: Option<SegModel>, s: SampleModel) -> Option<SegModel> {
    if pair_matches(cur, s.app, s.title) {
        cur
    } else {
        Some(opened_seg(s))
    }
}

/// What handling a sample persists: nothing on a matching pair, else
/// whatever closing the previous segment at the sample's time emits.
pub open spec fn step_sample_emit(cur: Option<SegModel>, s: SampleModel) -> Option<RecModel> {
    if pair_matches(cur, s.app, s.title) {
        None
    } else {
        close_emits(cur, s.t)
    }
}

pub open spec fn sample_model(w: crate::models::WindowEventModel, app_id: Option<i64>, now: int) -> SampleModel {
    SampleModel { app: w.app, title: w.title, path: w.path, app_id: app_id, t: now }
}

/// The segment state machine: either no open segment, or exactly one.
/// Transitions close, discard and open segments; they never persist
/// anything themselves but hand the finished segment back to the caller.
pub struct SegmentEngine {
    current: Option<OpenSegment>,
}

impl View for SegmentEngine {
    type V = Option<SegModel>;

    closed spec fn view(&self) -> Option<SegModel> {
        match self.current {
            Some(c) => Some(c@),
            None => None,
        }
    }
}

impl SegmentEngine {
    /// A fresh engine with no open segment.
    pub fn new() -> (e: SegmentEngine)
        ensures
            e@ is None,
    {
        SegmentEngine { current: None }
    }

    /// Would this sample close the open segment and start a new one?
    /// True when no segment is open or the (app, title) pair differs.
    pub fn would_change(&self, app_name: &String, window_title: &String) -> (b: bool)
        ensures
            b == !pair_matches(self@, app_name@, window_title@),
    {
        match &self.current {
            Some(c) => !(c.app_name.eq(app_name) && c.window_title.eq(window_title)),
            None => true,
        }
    }

    /// Close `seg` at `end_time`: the finished segment, or nothing when the
    /// duration is below the minimum.
    fn finalize(seg: OpenSegment, end_time: i64) -> (r: Option<FinishedSegment>)
        ensures
            emit_view(r) == close_emits(Some(seg@), end_time as int),
            r matches Some(f) ==> f.start_time < f.end_time,
    {
        if end_time > seg.start_time {
            Some(FinishedSegment {
                app_name: seg.app_name,
                window_title: seg.window_title,
                executable_path: seg.executable_path,
                application_id: seg.application_id,
                start_time: seg.start_time,
                end_time: end_time,
            })
        } else {
            None
        }
    }

    /// Handle one window sample at time `now` with identity `app_id`.
    ///
    /// A sample whose (app name, window title) pair matches the open segment
    /// is a no-op. Any other sample closes the open segment (the returned
    /// record, unless too short to keep) and opens a new one starting at
    /// `now`, so the new start equals the returned record's end.
    pub fn on_sample(&mut self, window: &WindowEvent, app_id: Option<i64>, now: i64) -> (emitted: Option<
        FinishedSegment,
    >)
        ensures
            final(self)@ == step_sample_state(old(self)@, sample_model(window@, app_id, now as int)),
            emit_view(emitted) == step_sample_emit(old(self)@, sample_model(window@, app_id, now as int)),
            pair_matches(old(self)@, window@.app, window@.title) ==> final(self)@ == old(self)@ && emitted is None,
            emitted matches Some(f) ==> f.start_time < f.end_time,
            emitted matches Some(f) ==> final(self)@ matches Some(c) && c.start == f.end_time,
    {
        if !self.would_change(&window.app_name, &window.window_title) {
            return None;
        }
        let prev = self.current.take();
        let emitted = match prev {
            Some(seg) => Self::finalize(seg, now),
            None => None,
        };
        self.current = Some(OpenSegment {
            app_name: window.app_name.clone(),
            window_title: window.window_title.clone(),
            executable_path: match &window.executable_path {
                Some(p) => Some(p.clone()),
                None => None,
            },
            start_time: now,
            application_id: app_id,
        });
        emitted
    }

    /// Close the open segment, if any, at time `now`, leaving none open.
    ///
    /// With no open segment this changes nothing and returns nothing; when a
    /// record is returned its end is exactly `now`.
    pub fn on_flush(&mut self, now: i64) -> (emitted: Option<FinishedSegment>)
        ensures
            final(self)@ is None,
            emit_view(emitted) == close_emits(old(self)@, now as int),
            old(self)@ is None ==> emitted is None && final(self)@ == old(self)@,
            emitted matches Some(f) ==> f.start_time < f.end_time,
            emitted matches Some(f) ==> f.end_time == now,
    {
        let prev = self.current.take();
        match prev {
            Some(seg) => Self::finalize(seg, now),
            None => None,
        }
    }
}

/// Every record lasts at least the minimum duration.
pub open spec fn durations_ok(recs: Seq<RecModel>) -> bool {
    forall|i: int|
        0 <= i < recs.len() ==> (#[trigger] recs[i]).start + min_segment_seconds() <= recs[i].end
}

/// Each record begins exactly where the one before it ended.
pub open spec fn chain_ok(recs: Seq<RecModel>) -> bool {
    forall|i: int| 1 <= i < recs.len() ==> (#[trigger] recs[i]).start == recs[i - 1].end
}

/// No two records overlap: an earlier one ends before a later one begins.
pub open spec fn no_overlap(recs: Seq<RecModel>) -> bool {
    forall|i: int, j: int|
        0 <= i < j < recs.len() ==> (#[trigger] recs[i]).end <= (#[trigger] recs[j]).start
}

pub open spec fn opt_to_seq(e: Option<RecModel>) -> Seq<RecModel> {
    match e {
        Some(r) => seq![r],
        None => Seq::empty(),
    }
}

/// Sample times grow strictly from each sample to the next.
pub open spec fn strictly_increasing(samples: Seq<SampleModel>) -> bool {
    forall|i: int| 1 <= i < samples.len() ==> (#[trigger] samples[i]).t > samples[i - 1].t
}

/// The open segment left after feeding `samples` to the engine in order.
pub open spec fn run_state(cur: Option<SegModel>, samples: Seq<SampleModel>) -> Option<SegModel>
    decreases samples.len(),
{
    if samples.len() == 0 {
        cur
    } else {
        run_state(step_sample_state(cur, samples[0]), samples.subrange(1, samples.len() as int))
    }
}

/// Every record emitted while feeding `samples` to the engine in order.
pub open spec fn run_emits(cur: Option<SegModel>, samples: Seq<SampleModel>) -> Seq<RecModel>
    decreases samples.len(),
{
    if samples.len() == 0 {
        Seq::empty()
    } else {
        opt_to_seq(step_sample_emit(cur, samples[0])) + run_emits(
            step_sample_state(cur, samples[0]),
            samples.subrange(1, samples.len() as int),
        )
    }
}

/// How a run of samples relates its emitted records to its start and end
/// states, provided the samples' times grow strictly and the starting open
/// segment (if any) began before the first sample.
proof fn lemma_run_wf(cur: Option<SegModel>, samples: Seq<SampleModel>)
    requires
        strictly_increasing(samples),
        match cur {
            Some(c) => samples.len() > 0 ==> c.start < samples[0].t,
            None => true,
        },
    ensures
        ({
            let recs = run_emits(cur, samples);
            let fin = run_state(cur, samples);
            &&& durations_ok(recs)
            &&& chain_ok(recs)
            &&& recs.len() > 0 ==> recs[0].start == (match cur {
                Some(c) => c.start,
                None => samples[0].t,
            })
            &&& (cur is Some || samples.len() > 0) ==> fin is Some
            &&& fin matches Some(f) ==> {
                &&& recs.len() > 0 ==> f.start == recs.last().end
                &&& samples.len() > 0 ==> f.start <= samples.last().t
                &&& cur matches Some(c) ==> f.start >= c.start && (recs.len() == 0 ==> f.start
                    == c.start)
                &&& cur is None && recs.len() == 0 && samples.len() > 0 ==> f.start == samples[0].t
            }
        }),
    decreases samples.len(),
{
    if samples.len() > 0 {
        let s0 = samples[0];
        let rest = samples.subrange(1, samples.len() as int);
        let state1 = step_sample_state(cur, s0);
        assert(strictly_increasing(rest)) by {
            assert forall|i: int| 1 <= i < rest.len() implies (#[trigger] rest[i]).t > rest[i - 1].t by {
                assert(rest[i] == samples[i + 1]);
                assert(rest[i - 1] == samples[i]);
            }
        }
        if rest.len() > 0 {
            assert(rest[0] == samples[1]);
        }
        lemma_run_wf(state1, rest);
        let recs = run_emits(cur, samples);
        let head = opt_to_seq(step_sample_emit(cur, s0));
        let rest_recs = run_emits(state1, rest);
        assert(recs == head + rest_recs);
        assert forall|i: int| 1 <= i < recs.len() implies (#[trigger] recs[i]).start == recs[i - 1].end by {
            if i >= head.len() + 1 {
                assert(recs[i] == rest_recs[i - head.len()]);
                assert(recs[i - 1] == rest_recs[i - 1 - head.len()]);
            } else if head.len() == 1 && i == 1 {
                assert(recs[0] == head[0]);
                assert(recs[1] == rest_recs[0]);
            }
        }
        assert forall|i: int|
            0 <= i < recs.len() implies (#[trigger] recs[i]).start + min_segment_seconds()
            <= recs[i].end by {
            if i < head.len() {
                assert(recs[i] == head[0]);
            } else {
                assert(recs[i] == rest_recs[i - head.len()]);
            }
        }
        if recs.len() > 0 {
            if head.len() > 0 {
                assert(recs[0] == head[0]);
            } else {
                assert(recs[0] == rest_recs[0]);
            }
        }
        let fin = run_state(cur, samples);
        assert(fin == run_state(state1, rest));
        assert(fin is Some);
        if rest_recs.len() > 0 {
            assert(recs.last() == rest_recs.last());
            assert(fin.unwrap().start == rest_recs.last().end);
        } else if head.len() > 0 {
            assert(recs.last() == head[0]);
            assert(state1 matches Some(c1) && c1.start == s0.t);
            assert(fin.unwrap().start == s0.t);
            assert(head[0].end == s0.t);
        } else {
            assert(recs.len() == 0);
            match state1 {
                Some(c1) => {
                    assert(fin.unwrap().start == c1.start);
                },
                None => {},
            }
        }
    }
}

/// Law: from a session's start (no open segment), feeding any samples whose
/// times grow strictly and closing with one final flush yields records that
/// each last at least the minimum duration, each begin exactly where the one
/// before ended, and never overlap.
pub proof fn lemma_session_contiguous(samples: Seq<SampleModel>, flush_time: int)
    requires
        strictly_increasing(samples),
    ensures
        ({
            let recs = run_emits(None, samples) + opt_to_seq(
                close_emits(run_state(None, samples), flush_time),
            );
            &&& durations_ok(recs)
            &&& chain_ok(recs)
            &&& no_overlap(recs)
        }),
{
    lemma_run_wf(None, samples);
    let run_recs = run_emits(None, samples);
    let fin = run_state(None, samples);
    let flushed = opt_to_seq(close_emits(fin, flush_time));
    let recs = run_recs + flushed;
    assert forall|i: int| 1 <= i < recs.len() implies (#[trigger] recs[i]).start == recs[i - 1].end by {
        if i < run_recs.len() {
            assert(recs[i] == run_recs[i]);
            assert(recs[i - 1] == run_recs[i - 1]);
        } else {
            assert(recs[i] == flushed[0]);
            assert(recs[i - 1] == run_recs[i - 1]);
            assert(run_recs.last() == run_recs[i - 1]);
        }
    }
    assert forall|i: int|
        0 <= i < recs.len() implies (#[trigger] recs[i]).start + min_segment_seconds()
        <= recs[i].end by {
        if i < run_recs.len() {
            assert(recs[i] == run_recs[i]);
        } else {
            assert(recs[i] == flushed[0]);
        }
    }
    lemma_chain_no_overlap(recs);
}

proof fn lemma_chain_le(recs: Seq<RecModel>, i: int, j: int)
    requires
        durations_ok(recs),
        chain_ok(recs),
        0 <= i < j < recs.len(),
    ensures
        recs[i].end <= recs[j].start,
    decreases j - i,
{
    if j > i + 1 {
        lemma_chain_le(recs, i, j - 1);
    }
}

/// Records that abut in order and all last a positive duration never overlap.
pub proof fn lemma_chain_no_overlap(recs: Seq<RecModel>)
    requires
        durations_ok(recs),
        chain_ok(recs),
    ensures
        no_overlap(recs),
{
    assert forall|i: int, j: int|
        0 <= i < j < recs.len() implies (#[trigger] recs[i]).end <= (#[trigger] recs[j]).start by {
        lemma_chain_le(recs, i, j);
    }
}

/// Law: a sample whose (app name, window title) pair equals the previous
/// sample's is a no-op: handled right after it, it emits no record and
/// leaves the open segment exactly as the previous sample left it.
pub proof fn lemma_identical_sample_noop(cur: Option<SegModel>, s1: SampleModel, s2: SampleModel)
    requires
        s1.app == s2.app,
        s1.title == s2.title,
    ensures
        step_sample_emit(step_sample_state(cur, s1), s2) is None,
        step_sample_state(step_sample_state(cur, s1), s2) == step_sample_state(cur, s1),
{
}

} // verus!
