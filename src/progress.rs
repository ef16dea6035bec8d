use crate::event::AppEvent;
use vstd::prelude::*;

verus! {

/// How many progress values the simulated job reports before it finishes.
pub const PROGRESS_STEPS: u16 = 100;

/// What the progress source sends at step `step` of its run: the value
/// `step` while the job runs, then `None` once, then nothing.
pub open spec fn progress_schedule(step: int) -> Option<Option<u16>> {
    if 0 <= step < PROGRESS_STEPS {
        Some(Some(step as u16))
    } else if step == PROGRESS_STEPS {
        Some(None)
    } else {
        None
    }
}

/// The event that the progress source sends at step `step`, or `None` once
/// it has stopped.
pub fn progress_event(step: u16) -> (r: Option<AppEvent>)
    ensures
        match progress_schedule(step as int) {
            Some(v) => r == Some(AppEvent::CounterChanged(v)),
            None => r is None,
        },
{
    if step < PROGRESS_STEPS {
        Some(AppEvent::CounterChanged(Some(step)))
    } else if step == PROGRESS_STEPS {
        Some(AppEvent::CounterChanged(None))
    } else {
        None
    }
}

} // verus!
