//! The desktop events recorded on the timeline.

use vstd::prelude::*;

use crate::time::{now, Timestamp};

verus! {

/// A desktop event as recorded.
#[derive(Debug, Clone, PartialEq, Eq)]
pub enum DesktopEvent {
    /// The foreground application changed; with a screenshot of its window when one was taken.
    AppSwitch {
        app: String,
        title: Option<String>,
        image_rel: Option<String>,
        width_px: Option<u32>,
        height_px: Option<u32>,
        at: Timestamp,
    },
    /// The clipboard changed; `text_preview` is cut for storage and `char_len` counts the
    /// whole text.
    Clipboard { text_preview: String, char_len: u32, truncated: bool, at: Timestamp },
    /// A learning snapshot taken on the user's request: a screenshot of the primary screen,
    /// its path relative to the data directory.
    LearningSnapshot {
        image_rel: String,
        app: String,
        title: Option<String>,
        width_px: u32,
        height_px: u32,
        at: Timestamp,
    },
    /// A browser moment worth a screenshot (a tab or page change, a bilibili page).
    BrowserMoment {
        trigger: String,
        browser_app: String,
        window_title: String,
        page_title: String,
        learning_content: String,
        summary: String,
        keywords: Vec<String>,
        image_rel: String,
        width_px: u32,
        height_px: u32,
        at: Timestamp,
    },
}

/// When an event happened.
pub open spec fn event_time(e: DesktopEvent) -> Timestamp {
    match e {
        DesktopEvent::AppSwitch { at, .. } => at,
        DesktopEvent::Clipboard { at, .. } => at,
        DesktopEvent::LearningSnapshot { at, .. } => at,
        DesktopEvent::BrowserMoment { at, .. } => at,
    }
}

impl DesktopEvent {
    /// When the event happened.
    pub fn recorded_at(&self) -> (r: Timestamp)
        ensures
            r == event_time(*self),
    {
        match self {
            DesktopEvent::AppSwitch { at, .. } => *at,
            DesktopEvent::Clipboard { at, .. } => *at,
            DesktopEvent::LearningSnapshot { at, .. } => *at,
            DesktopEvent::BrowserMoment { at, .. } => *at,
        }
    }

    /// A switch to `app`, happening now, without a screenshot.
    pub fn app_switch_now(app: String, title: Option<String>) -> (r: Self)
        ensures
            r matches DesktopEvent::AppSwitch { app: a, title: t, image_rel, width_px, height_px, at } && a == app
                && t == title && image_rel is None && width_px is None && height_px is None && at.wf(),
    {
        DesktopEvent::AppSwitch { app, title, image_rel: None, width_px: None, height_px: None, at: now() }
    }

    /// A switch to `app`, happening now, with a screenshot of its window.
    pub fn app_switch_with_window_shot(app: String, title: Option<String>, image_rel: String, width_px: u32, height_px: u32) -> (r: Self)
        ensures
            r matches DesktopEvent::AppSwitch { app: a, title: t, image_rel: i, width_px: w, height_px: h, at } && a
                == app && t == title && i == Some(image_rel) && w == Some(width_px) && h == Some(height_px)
                && at.wf(),
    {
        DesktopEvent::AppSwitch {
            app,
            title,
            image_rel: Some(image_rel),
            width_px: Some(width_px),
            height_px: Some(height_px),
            at: now(),
        }
    }

    /// A clipboard change happening now.
    pub fn clipboard_now(text_preview: String, char_len: u32, truncated: bool) -> (r: Self)
        ensures
            r matches DesktopEvent::Clipboard { text_preview: p, char_len: n, truncated: t, at } && p == text_preview
                && n == char_len && t == truncated && at.wf(),
    {
        DesktopEvent::Clipboard { text_preview, char_len, truncated, at: now() }
    }

    /// A learning snapshot taken now.
    pub fn learning_snapshot_now(image_rel: String, app: String, title: Option<String>, width_px: u32, height_px: u32) -> (r: Self)
        ensures
            r matches DesktopEvent::LearningSnapshot { image_rel: i, app: a, title: t, width_px: w, height_px: h, at }
                && i == image_rel && a == app && t == title && w == width_px && h == height_px && at.wf(),
    {
        DesktopEvent::LearningSnapshot { image_rel, app, title, width_px, height_px, at: now() }
    }

    /// A browser moment happening now.
    pub fn browser_moment_now(
        trigger: String,
        browser_app: String,
        window_title: String,
        page_title: String,
        learning_content: String,
        summary: String,
        keywords: Vec<String>,
        image_rel: String,
        width_px: u32,
        height_px: u32,
    ) -> (r: Self)
        ensures
            r matches DesktopEvent::BrowserMoment {
                trigger: tr,
                browser_app: b,
                window_title: wt,
                page_title: pt,
                learning_content: lc,
                summary: s,
                keywords: k,
                image_rel: i,
                width_px: w,
                height_px: h,
                at,
            } && tr == trigger && b == browser_app && wt == window_title && pt == page_title && lc
                == learning_content && s == summary && k == keywords && i == image_rel && w == width_px && h
                == height_px && at.wf(),
    {
        DesktopEvent::BrowserMoment {
            trigger,
            browser_app,
            window_title,
            page_title,
            learning_content,
            summary,
            keywords,
            image_rel,
            width_px,
            height_px,
            at: now(),
        }
    }
}

} // verus!
