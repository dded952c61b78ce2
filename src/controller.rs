//! The button controller: two generations of button state and the queries on them.
use std::collections::HashMap;
use vstd::prelude::*;

use crate::button::{lemma_key_injective, ButtonId};

verus! {

broadcast use vstd::std_specs::hash::group_hash_axioms;

/// The abstract state of a controller: the recorded state of each button that
/// has been notified, now (`current`) and as of the last update (`last`).
/// `true` means pressed; a button without an entry reads as released.
pub struct ControllerState {
    pub current: Map<ButtonId, bool>,
    pub last: Map<ButtonId, bool>,
}

impl ControllerState {
    /// The state of a controller that has seen nothing.
    pub open spec fn fresh() -> ControllerState {
        ControllerState { current: Map::empty(), last: Map::empty() }
    }

    /// The state after a press of `b` was notified.
    pub open spec fn pressed(self, b: ButtonId) -> ControllerState {
        ControllerState { current: self.current.insert(b, true), last: self.last }
    }

    /// The state after a release of `b` was notified.
    pub open spec fn released(self, b: ButtonId) -> ControllerState {
        ControllerState { current: self.current.insert(b, false), last: self.last }
    }

    /// The state after an update: every current entry is copied into `last`.
    pub open spec fn advanced(self) -> ControllerState {
        ControllerState { current: self.current, last: self.last.union_prefer_right(self.current) }
    }

    /// Whether `b` reads as pressed now.
    pub open spec fn current_pressed(self, b: ButtonId) -> bool {
        self.current.contains_key(b) && self.current[b]
    }

    /// Whether `b` read as pressed as of the last update.
    pub open spec fn last_pressed(self, b: ButtonId) -> bool {
        self.last.contains_key(b) && self.last[b]
    }

    /// Whether `b` went from `last_state` at the last update to `current_state` now.
    pub open spec fn transition(self, b: ButtonId, last_state: bool, current_state: bool) -> bool {
        self.last_pressed(b) == last_state && self.current_pressed(b) == current_state
    }

    /// The snapshot is never ahead of the current state: every button that has
    /// an entry in `last` has one in `current`.
    pub open spec fn wf(self) -> bool {
        self.last.dom().subset_of(self.current.dom())
    }
}

/// The button state as stored under integer keys, read back per button.
pub open spec fn by_button(m: Map<u64, bool>) -> Map<ButtonId, bool> {
    Map::new(|b: ButtonId| m.contains_key(b.spec_key()), |b: ButtonId| m[b.spec_key()])
}

/// Tracks button presses and releases, from any source of press events, in a
/// form suited to update loops.
#[derive(Clone)]
pub struct ButtonController {
    current_buttons: HashMap<u64, bool>,
    last_buttons: HashMap<u64, bool>,
}

impl View for ButtonController {
    type V = ControllerState;

    closed spec fn view(&self) -> ControllerState {
        ControllerState {
            current: by_button(self.current_buttons@),
            last: by_button(self.last_buttons@),
        }
    }
}

/// Writing `v` under the key of `b` reads back as writing `v` for `b`.
proof fn lemma_insert_by_button(m: Map<u64, bool>, b: ButtonId, v: bool)
    ensures
        by_button(m.insert(b.spec_key(), v)) == by_button(m).insert(b, v),
{
    assert forall|x: ButtonId| #![auto] x.spec_key() == b.spec_key() <==> x == b by {
        lemma_key_injective(x, b);
    }
    assert(by_button(m.insert(b.spec_key(), v)) =~= by_button(m).insert(b, v));
}

impl ButtonController {
    /// The stored snapshot is never ahead of the stored current state.
    pub closed spec fn wf(&self) -> bool {
        self.last_buttons@.dom().subset_of(self.current_buttons@.dom())
    }

    /// A well-formed controller has a well-formed abstract state.
    pub proof fn lemma_wf_view(&self)
        requires
            self.wf(),
        ensures
            self@.wf(),
    {
    }

    /// Creates a controller with no recorded button state.
    pub fn new() -> (r: ButtonController)
        ensures
            r@ == ControllerState::fresh(),
            r.wf(),
    {
        let r = ButtonController { current_buttons: HashMap::new(), last_buttons: HashMap::new() };
        assert(r@.current =~= Map::empty());
        assert(r@.last =~= Map::empty());
        r
    }

    /// Copies every current entry into the snapshot of the last update.
    /// Call it once per cycle of the update loop.
    pub fn update(&mut self)
        ensures
            final(self)@ == old(self)@.advanced(),
            old(self).wf() ==> final(self).wf(),
    {
        let ghost cur = self.current_buttons@;
        let ghost start = self.last_buttons@;
        let ghost mut seen: Set<u64> = Set::empty();
        for entry in it: self.current_buttons.iter()
            invariant
                cur == self.current_buttons@,
                forall|i: int| #![trigger it.seq()[i]]
                    0 <= i < it.seq().len() ==> cur.contains_key(*it.seq()[i].0)
                        && cur[*it.seq()[i].0] == *it.seq()[i].1,
                forall|k: u64| #[trigger] cur.contains_key(k) ==> it.seq().contains((&k, &cur[k])),
                forall|i: int| #![trigger it.seq()[i]]
                    0 <= i < it.index() ==> seen.contains(*it.seq()[i].0),
                seen.subset_of(cur.dom()),
                self.last_buttons@ == start.union_prefer_right(cur.restrict(seen)),
                it.index() == it.seq().len() ==> cur.dom().subset_of(seen),
        {
            let (button, state) = entry;
            self.last_buttons.insert(*button, *state);
            proof {
                seen = seen.insert(*button);
                assert(self.last_buttons@ =~= start.union_prefer_right(cur.restrict(seen)));
                assert forall|k: u64|
                    it.index() + 1 == it.seq().len() && cur.contains_key(k) implies seen.contains(
                    k,
                ) by {
                    let i = choose|i: int| 0 <= i < it.seq().len() && it.seq()[i] == (&k, &cur[k]);
                    assert(*it.seq()[i].0 == k);
                }
            }
        }
        proof {
            assert(cur.restrict(seen) =~= cur);
            assert(by_button(self.last_buttons@) =~= by_button(start).union_prefer_right(
                by_button(cur),
            ));
        }
    }

    /// Records that `button` is pressed.
    pub fn register_press(&mut self, button: &ButtonId)
        ensures
            final(self)@ == old(self)@.pressed(*button),
            old(self).wf() ==> final(self).wf(),
    {
        let k = button.key();
        self.current_buttons.insert(k, true);
        proof {
            lemma_insert_by_button(old(self).current_buttons@, *button, true);
        }
    }

    /// Records that `button` is released.
    pub fn register_release(&mut self, button: &ButtonId)
        ensures
            final(self)@ == old(self)@.released(*button),
            old(self).wf() ==> final(self).wf(),
    {
        let k = button.key();
        self.current_buttons.insert(k, false);
        proof {
            lemma_insert_by_button(old(self).current_buttons@, *button, false);
        }
    }

    /// Whether `button` is pressed as of the latest notifications; `false`
    /// for a button never notified.
    pub fn current_pressed(&self, button: &ButtonId) -> (r: bool)
        ensures
            r == self@.current_pressed(*button),
    {
        let k = button.key();
        match self.current_buttons.get(&k) {
            Some(state) => *state,
            None => false,
        }
    }

    /// Whether `button` was pressed as of the last update; `false` for a
    /// button never notified before an update.
    pub fn last_pressed(&self, button: &ButtonId) -> (r: bool)
        ensures
            r == self@.last_pressed(*button),
    {
        let k = button.key();
        match self.last_buttons.get(&k) {
            Some(state) => *state,
            None => false,
        }
    }

    /// Whether `button` was in `last_state` at the last update and is in
    /// `current_state` now: `(false, true)` asks whether it was just pressed,
    /// `(true, false)` whether it was just released.
    pub fn pressed_state(&self, button: &ButtonId, last_state: bool, current_state: bool) -> (r:
        bool)
        ensures
            r == self@.transition(*button, last_state, current_state),
    {
        self.last_pressed(button) == last_state && self.current_pressed(button) == current_state
    }
}

} // verus!
