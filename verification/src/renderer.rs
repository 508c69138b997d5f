//! The renderer's per-tick decisions.
//!
//! The renderer runs on a fixed tick. Each tick it drains the newest image
//! from the channel without blocking (see [`crate::channel::ImageChannel::drain_latest`]),
//! redraws the display surface, and then handles the tick's input events in
//! order: a recognised "refresh now" key forwards an early wake to the
//! interrupt signal, and a quit event ends the loop, leaving the rest of the
//! batch unprocessed. Drawing and the window itself belong to the display
//! collaborator outside; this module decides what the events mean.

use vstd::prelude::*;

use crate::interrupt::InterruptSignal;

verus! {

/// One input event, as the window collaborator reports it.
#[derive(Debug, Clone, Copy, PartialEq, Eq)]
pub enum InputEvent {
    /// The window was asked to close.
    Quit,
    /// The key bound to "refresh now" was pressed.
    ForceRefresh,
    /// Any other event; ignored.
    Other,
}

/// Some event in the batch asks to quit.
pub open spec fn spec_quit_requested(events: Seq<InputEvent>) -> bool {
    exists|i: int| 0 <= i < events.len() && (#[trigger] events[i]) is Quit
}

/// Some refresh request stands before any quit in the batch. Exactly those are
/// forwarded to the interrupt signal, since processing stops at the first
/// quit.
pub open spec fn spec_refresh_requested(events: Seq<InputEvent>) -> bool
    decreases events.len(),
{
    if events.len() == 0 {
        false
    } else if events[0] is Quit {
        false
    } else {
        events[0] is ForceRefresh || spec_refresh_requested(events.drop_first())
    }
}

/// Handle one tick's input events in order: forward each "refresh now" request
/// to the interrupt signal (where repeated requests collapse into one pending
/// wake) and stop at the first quit. Returns whether the renderer's loop ends.
pub fn process_events(signal: &mut InterruptSignal, events: &Vec<InputEvent>) -> (quit: bool)
    ensures
        quit == spec_quit_requested(events@),
        final(signal).is_pending() == (old(signal).is_pending() || spec_refresh_requested(
            events@,
        )),
{
    proof {
        assert(events@.skip(0) =~= events@);
    }
    let mut i: usize = 0;
    while i < events.len()
        invariant
            0 <= i <= events.len(),
            (signal.is_pending() || spec_refresh_requested(events@.skip(i as int))) == (old(
                signal,
            ).is_pending() || spec_refresh_requested(events@)),
            forall|j: int| 0 <= j < i ==> !((#[trigger] events@[j]) is Quit),
        decreases events.len() - i,
    {
        let event = events[i];
        proof {
            assert(events@.skip(i as int)[0] == events@[i as int]);
            assert(events@.skip(i as int).drop_first() =~= events@.skip(i as int + 1));
        }
        match event {
            InputEvent::Quit => {
                proof {
                    assert(events@[i as int] is Quit);
                    assert(spec_quit_requested(events@));
                    assert(!spec_refresh_requested(events@.skip(i as int)));
                }
                return true;
            }
            InputEvent::ForceRefresh => {
                signal.signal();
            }
            InputEvent::Other => {}
        }
        i += 1;
    }
    proof {
        assert(events@.skip(events@.len() as int).len() == 0);
        assert(!spec_quit_requested(events@));
    }
    false
}

} // verus!
