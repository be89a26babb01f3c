//! The learning snapshot taken on the user's shortcut: a screenshot of the primary screen
//! recorded with the foreground window.

use vstd::prelude::*;

use crate::harness_core::error::HarnessError;
use crate::harness_core::event::DesktopEvent;

verus! {

/// The learning-snapshot event for the foreground window (`app`, `title`), given how the
/// screenshot of the primary screen went: its error, or the event with the screenshot's
/// relative path and size, happening now.
pub fn build_learning_snapshot_event(app: String, title: Option<String>, shot: Result<(String, u32, u32), HarnessError>) -> (r: Result<DesktopEvent, HarnessError>)
    ensures
        shot matches Err(e) ==> r == Err::<DesktopEvent, HarnessError>(e),
        shot matches Ok((rel, w, h)) ==> (r matches Ok(DesktopEvent::LearningSnapshot {
            image_rel,
            app: a,
            title: t,
            width_px,
            height_px,
            at,
        }) && image_rel == rel && a == app && t == title && width_px == w && height_px == h && at.wf()),
{
    match shot {
        Err(e) => Err(e),
        Ok((rel, w, h)) => Ok(DesktopEvent::learning_snapshot_now(rel, app, title, w, h)),
    }
}

} // verus!
