//! Laws that relate the controller's operations, stated over its abstract state.
use vstd::prelude::*;

use crate::button::ButtonId;
use crate::controller::ControllerState;

verus! {

/// A fresh controller reads every button as released, now and as of the last update.
pub proof fn lemma_fresh_reads_released(b: ButtonId)
    ensures
        !ControllerState::fresh().current_pressed(b),
        !ControllerState::fresh().last_pressed(b),
{
}

/// A press is visible at once in the current state, and leaves the last
/// state of the button as it was until the next update.
pub proof fn lemma_press_visible(s: ControllerState, b: ButtonId)
    ensures
        s.pressed(b).current_pressed(b),
        s.pressed(b).last_pressed(b) == s.last_pressed(b),
{
}

/// A press followed by an update is visible in the last state.
pub proof fn lemma_update_propagates_press(s: ControllerState, b: ButtonId)
    ensures
        s.pressed(b).advanced().last_pressed(b),
        s.pressed(b).advanced().current_pressed(b),
{
}

/// After a press, an update and a release, the button reads as released now
/// and as pressed as of the last update.
pub proof fn lemma_release_after_press(s: ControllerState, b: ButtonId)
    ensures
        !s.pressed(b).advanced().released(b).current_pressed(b),
        s.pressed(b).advanced().released(b).last_pressed(b),
{
}

/// After a press, an update and a release, the button was just released and
/// was not just pressed.
pub proof fn lemma_release_edge(s: ControllerState, b: ButtonId)
    ensures
        s.pressed(b).advanced().released(b).transition(b, true, false),
        !s.pressed(b).advanced().released(b).transition(b, false, true),
{
}

/// A second update with no notification in between changes nothing.
pub proof fn lemma_update_idempotent(s: ControllerState)
    ensures
        s.advanced().advanced() == s.advanced(),
{
    assert(s.advanced().advanced().last =~= s.advanced().last);
}

/// A press or a release of `a` leaves the recorded state of every other
/// button `b` as it was.
pub proof fn lemma_buttons_independent(s: ControllerState, a: ButtonId, b: ButtonId)
    requires
        a != b,
    ensures
        s.pressed(a).current.contains_key(b) == s.current.contains_key(b),
        s.pressed(a).current[b] == s.current[b],
        s.released(a).current.contains_key(b) == s.current.contains_key(b),
        s.released(a).current[b] == s.current[b],
        s.pressed(a).last == s.last,
        s.released(a).last == s.last,
        s.pressed(a).current_pressed(b) == s.current_pressed(b),
        s.released(a).current_pressed(b) == s.current_pressed(b),
        s.pressed(a).last_pressed(b) == s.last_pressed(b),
        s.released(a).last_pressed(b) == s.last_pressed(b),
{
}

/// The snapshot never gets ahead of the current state: a fresh state has it,
/// and every operation keeps it.
pub proof fn lemma_wf_preserved(s: ControllerState, b: ButtonId)
    ensures
        ControllerState::fresh().wf(),
        s.wf() ==> s.pressed(b).wf(),
        s.wf() ==> s.released(b).wf(),
        s.wf() ==> s.advanced().wf(),
{
}

/// In a well-formed state an update makes the snapshot equal to the current state.
pub proof fn lemma_update_snapshots_current(s: ControllerState)
    requires
        s.wf(),
    ensures
        s.advanced().last == s.current,
{
    assert(s.advanced().last =~= s.current);
}

} // verus!
