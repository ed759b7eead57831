use std::collections::HashSet;
use vstd::prelude::*;

verus! {

broadcast use vstd::std_specs::hash::group_hash_axioms;

/// Code of the space bar.
pub const KEY_SPACE: u32 = 0x20;

/// Code of the A key.
pub const KEY_A: u32 = 0x61;

/// Code of the D key.
pub const KEY_D: u32 = 0x64;

/// The keys that are held down, by key code.
pub struct GameInput {
    pub pressed_keys: HashSet<u32>,
}

impl GameInput {
    pub open spec fn pressed(self) -> Set<u32> {
        self.pressed_keys@
    }

    pub fn new() -> (r: GameInput)
        ensures
            r.pressed() == Set::<u32>::empty(),
    {
        GameInput { pressed_keys: HashSet::new() }
    }

    /// Records that `key` went down (`pressed`) or came up.
    pub fn on_key_event(&mut self, key: u32, pressed: bool)
        ensures
            pressed ==> final(self).pressed() == old(self).pressed().insert(key),
            !pressed ==> final(self).pressed() == old(self).pressed().remove(key),
    {
        if pressed {
            self.pressed_keys.insert(key);
        } else {
            self.pressed_keys.remove(&key);
        }
    }

    pub fn is_key_pressed(&self, key: u32) -> (r: bool)
        ensures
            r == self.pressed().contains(key),
    {
        self.pressed_keys.contains(&key)
    }
}

} // verus!
