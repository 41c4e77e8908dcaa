use vstd::prelude::*;

verus! {

/// Number of keys on the keypad.
pub const KEY_COUNT: usize = 16;

/// Sixteen keys, each down (`true`) or up, and the last key released since
/// the slot was last consumed.
pub struct Keypad {
    pub key_map: [bool; KEY_COUNT],
    pub last_key: Option<u8>,
}

impl Keypad {
    /// All keys up, no release pending.
    pub fn new() -> (r: Keypad)
        ensures
            r.key_map@ == Seq::new(16, |k: int| false),
            r.last_key is None,
    {
        let r = Keypad { key_map: [false; KEY_COUNT], last_key: None };
        assert(r.key_map@ =~= Seq::new(16, |k: int| false));
        r
    }

    /// Sets key `idx` down or up; a key going from down to up becomes the
    /// last released key.
    pub fn set_key(&mut self, idx: u8, state: bool)
        requires
            idx < KEY_COUNT,
        ensures
            final(self).key_map@ == old(self).key_map@.update(idx as int, state),
            final(self).last_key == if old(self).key_map@[idx as int] && !state {
                Some(idx)
            } else {
                old(self).last_key
            },
    {
        let was_down = self.key_map[idx as usize];
        if was_down && !state {
            self.last_key = Some(idx);
        }
        self.key_map[idx as usize] = state;
    }

    /// Whether key `idx` is down; a query with no side effect.
    pub fn is_key_down(&self, idx: u8) -> (r: bool)
        requires
            idx < KEY_COUNT,
        ensures
            r == self.key_map@[idx as int],
    {
        self.key_map[idx as usize]
    }

    /// Whether key `idx` is down; this query also drops a pending release.
    pub fn get_key_state(&mut self, idx: u8) -> (r: bool)
        requires
            idx < KEY_COUNT,
        ensures
            r == old(self).key_map@[idx as int],
            final(self).key_map == old(self).key_map,
            final(self).last_key is None,
    {
        let state = self.key_map[idx as usize];
        self.last_key = None;
        state
    }

    /// Takes the pending released key, if any, leaving none pending.
    pub fn get_released_key(&mut self) -> (r: Option<u8>)
        ensures
            r == old(self).last_key,
            final(self).key_map == old(self).key_map,
            final(self).last_key is None,
    {
        let last_key = self.last_key;
        self.last_key = None;
        last_key
    }
}

} // verus!
