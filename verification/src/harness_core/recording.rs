//! What one polling tick records: an app switch when the foreground window changed, a
//! browser moment when Chrome's title changed (at most one per trigger's quiet gap), and
//! the clipboard when its sequence number moved.
//!
//! The decisions live here, on a state of what was last seen; the caller reads the
//! foreground window and the clipboard, takes the screenshots, stores the events, and
//! tells the state what it saw and what it stored.

use vstd::prelude::*;

use crate::harness_core::browser_moment::{
    is_chrome_exe_name, is_learning_focus_tracked_exe, learning_moment_trigger, opt_str_view,
    should_record_learning_focus_moment,
};
use crate::text::{str_eq, string_from_chars, chars_of};

verus! {

/// What the recording state remembers, as plain values.
pub struct RecordingView {
    /// The last foreground executable and window title.
    pub last_fg: Option<(Seq<char>, Option<Seq<char>>)>,
    /// The last clipboard sequence number.
    pub last_clipboard_seq: Option<u32>,
    /// The last Chrome executable and full window title, while Chrome is in front.
    pub last_browser_title: Option<(Seq<char>, Seq<char>)>,
    /// When the last browser screenshot was taken, in milliseconds since the epoch.
    pub last_browser_shot_ms: Option<i64>,
}

/// Remembers the last foreground window, clipboard sequence number and Chrome title, so
/// that only changes are recorded.
pub struct RecordingState {
    last_fg: Option<(String, Option<String>)>,
    last_clipboard_seq: Option<u32>,
    last_browser_title: Option<(String, String)>,
    last_browser_shot_ms: Option<i64>,
}

/// The view of an optional string.
pub open spec fn opt_string_view(o: Option<String>) -> Option<Seq<char>> {
    match o {
        Some(s) => Some(s@),
        None => None,
    }
}

impl View for RecordingState {
    type V = RecordingView;

    closed spec fn view(&self) -> RecordingView {
        RecordingView {
            last_fg: match self.last_fg {
                Some((a, t)) => Some((a@, opt_string_view(t))),
                None => None,
            },
            last_clipboard_seq: self.last_clipboard_seq,
            last_browser_title: match self.last_browser_title {
                Some((a, t)) => Some((a@, t@)),
                None => None,
            },
            last_browser_shot_ms: self.last_browser_shot_ms,
        }
    }
}

/// The quiet gap, in milliseconds, that must pass after a browser screenshot before
/// another with the given trigger: 4 s for bilibili pages, 6 s for a new tab, 12 s for
/// another tab, 8 s otherwise.
pub open spec fn min_gap_ms(trigger: Seq<char>) -> int {
    if trigger == "bilibili_video"@ || trigger == "bilibili_open"@ {
        4000
    } else if trigger == "chrome_new_tab"@ {
        6000
    } else if trigger == "chrome_tab"@ {
        12000
    } else {
        8000
    }
}

/// Whether enough time passed since the last browser screenshot.
pub open spec fn quiet_enough(last_shot: Option<i64>, now_ms: i64, gap: int) -> bool {
    match last_shot {
        Some(p) => now_ms - p >= gap,
        None => true,
    }
}

/// The foreground step: whether an app switch is recorded, and the state after it.
pub open spec fn foreground_step(v: RecordingView, app: Seq<char>, title: Option<Seq<char>>) -> (RecordingView, bool) {
    (RecordingView { last_fg: Some((app, title)), ..v }, v.last_fg != Some((app, title)))
}

/// The previous Chrome title of the same executable.
pub open spec fn previous_title_of(v: RecordingView, app: Seq<char>) -> Option<Seq<char>> {
    match v.last_browser_title {
        Some((a, t)) => if a == app {
            Some(t)
        } else {
            None
        },
        None => None,
    }
}

/// The browser step: the trigger of a screenshot to take now, if any, and the state after
/// it. Outside Chrome the remembered title is dropped; with a blank title nothing changes;
/// otherwise the title is remembered, and a moment is taken when the heuristics ask for
/// one and the trigger's quiet gap has passed.
pub open spec fn browser_step(v: RecordingView, app: Seq<char>, title: Option<Seq<char>>, now_ms: i64) -> (RecordingView, Option<Seq<char>>) {
    if !is_chrome_exe_name(app) {
        (RecordingView { last_browser_title: None, ..v }, None)
    } else {
        let full = match title {
            Some(t) => t,
            None => Seq::empty(),
        };
        if full.len() == 0 {
            (v, None)
        } else {
            let shot = match learning_moment_trigger(full, previous_title_of(v, app), app) {
                Some(tr) => if quiet_enough(v.last_browser_shot_ms, now_ms, min_gap_ms(tr)) {
                    Some(tr)
                } else {
                    None
                },
                None => None,
            };
            (RecordingView { last_browser_title: Some((app, full)), ..v }, shot)
        }
    }
}

/// The clipboard step: whether the clipboard is read and recorded, and the state after
/// it. The first sequence number seen is only remembered.
pub open spec fn clipboard_step(v: RecordingView, seq: u32) -> (RecordingView, bool) {
    match v.last_clipboard_seq {
        None => (RecordingView { last_clipboard_seq: Some(seq), ..v }, false),
        Some(p) => if seq != p {
            (RecordingView { last_clipboard_seq: Some(seq), ..v }, true)
        } else {
            (v, false)
        },
    }
}

/// A copy of an optional string.
fn clone_opt(o: &Option<String>) -> (r: Option<String>)
    ensures
        r == *o,
{
    match o {
        Some(s) => Some(s.clone()),
        None => None,
    }
}

/// Whether two optional strings hold the same text.
fn opt_str_eq(a: &Option<String>, b: Option<&str>) -> (r: bool)
    ensures
        r == (opt_string_view(*a) == opt_str_view(b)),
{
    match (a, b) {
        (Some(x), Some(y)) => str_eq(x.as_str(), y),
        (None, None) => true,
        _ => false,
    }
}

/// The quiet gap of a trigger.
fn min_gap_for(trigger: &str) -> (r: i64)
    ensures
        r == min_gap_ms(trigger@),
{
    if str_eq(trigger, "bilibili_video") || str_eq(trigger, "bilibili_open") {
        4000
    } else if str_eq(trigger, "chrome_new_tab") {
        6000
    } else if str_eq(trigger, "chrome_tab") {
        12000
    } else {
        8000
    }
}

impl RecordingState {
    /// A state that has seen nothing yet.
    pub fn new() -> (r: Self)
        ensures
            r@.last_fg is None,
            r@.last_clipboard_seq is None,
            r@.last_browser_title is None,
            r@.last_browser_shot_ms is None,
    {
        RecordingState { last_fg: None, last_clipboard_seq: None, last_browser_title: None, last_browser_shot_ms: None }
    }

    /// Sees the foreground window; true when it differs from the last one seen, and an
    /// app switch is to be recorded.
    pub fn foreground_changed(&mut self, app: &str, title: Option<&str>) -> (r: bool)
        ensures
            (final(self)@, r) == foreground_step(old(self)@, app@, opt_str_view(title)),
    {
        let same = match &self.last_fg {
            Some((a, t)) => str_eq(a.as_str(), app) && opt_str_eq(t, title),
            None => false,
        };
        let t = match title {
            Some(s) => Some(String::from_str(s)),
            None => None,
        };
        self.last_fg = Some((String::from_str(app), t));
        !same
    }

    /// Sees the foreground window for the browser heuristics; gives the trigger of a
    /// browser moment to capture now, if any.
    pub fn browser_moment_due(&mut self, app: &str, title: Option<&str>, now_ms: i64) -> (r: Option<&'static str>)
        ensures
            (final(self)@, opt_str_view(r)) == browser_step(old(self)@, app@, opt_str_view(title), now_ms),
    {
        if !is_learning_focus_tracked_exe(app) {
            self.last_browser_title = None;
            return None;
        }
        let full: &str = match title {
            Some(t) => t,
            None => "",
        };
        proof {
            reveal_strlit("");
        }
        if chars_of(full).len() == 0 {
            return None;
        }
        let prev: Option<&str> = match &self.last_browser_title {
            Some((a, t)) => if str_eq(a.as_str(), app) {
                Some(t.as_str())
            } else {
                None
            },
            None => None,
        };
        let trigger = should_record_learning_focus_moment(full, prev, app);
        let shot = match trigger {
            Some(tr) => {
                let gap = min_gap_for(tr);
                let ok = match self.last_browser_shot_ms {
                    Some(p) => (now_ms as i128) - (p as i128) >= gap as i128,
                    None => true,
                };
                if ok {
                    Some(tr)
                } else {
                    None
                }
            },
            None => None,
        };
        self.last_browser_title = Some((String::from_str(app), String::from_str(full)));
        shot
    }

    /// Notes that a browser moment's screenshot was stored at `now_ms`.
    pub fn browser_moment_recorded(&mut self, now_ms: i64)
        ensures
            final(self)@ == (RecordingView { last_browser_shot_ms: Some(now_ms), ..old(self)@ }),
    {
        self.last_browser_shot_ms = Some(now_ms);
    }

    /// Sees the clipboard's sequence number; true when it moved since the last one seen,
    /// and the clipboard is to be read and recorded.
    pub fn clipboard_changed(&mut self, seq: u32) -> (r: bool)
        ensures
            (final(self)@, r) == clipboard_step(old(self)@, seq),
    {
        match self.last_clipboard_seq {
            None => {
                self.last_clipboard_seq = Some(seq);
                false
            },
            Some(prev) => {
                if seq != prev {
                    self.last_clipboard_seq = Some(seq);
                    true
                } else {
                    false
                }
            },
        }
    }
}

/// Seeing the same foreground window twice records one app switch at most: the second
/// sight records nothing.
pub proof fn law_foreground_repeat_records_nothing(v: RecordingView, app: Seq<char>, title: Option<Seq<char>>)
    ensures
        !foreground_step(foreground_step(v, app, title).0, app, title).1,
{
}

/// The first clipboard sequence number seen records nothing, and neither does seeing the
/// same number again.
pub proof fn law_clipboard_records_only_changes(v: RecordingView, seq: u32)
    ensures
        v.last_clipboard_seq is None ==> !clipboard_step(v, seq).1,
        !clipboard_step(clipboard_step(v, seq).0, seq).1,
        clipboard_step(v, seq).1 <==> (v.last_clipboard_seq matches Some(p) && p != seq),
{
}

/// A browser moment is only taken when its trigger's quiet gap has passed since the last
/// screenshot, and only for Chrome with a non-blank title.
pub proof fn law_browser_moments_are_spaced(v: RecordingView, app: Seq<char>, title: Option<Seq<char>>, now_ms: i64)
    ensures
        browser_step(v, app, title, now_ms).1 matches Some(tr) ==> {
            &&& is_chrome_exe_name(app)
            &&& title matches Some(t) && t.len() > 0
            &&& quiet_enough(v.last_browser_shot_ms, now_ms, min_gap_ms(tr))
        },
{
}

} // verus!
