//! Keyboard state between two frames: which keys are down, and which went
//! down or up since the last update. Keys are physical key codes.
use vstd::prelude::*;

verus! {

/// Whether `v` holds `key`.
fn holds(v: &Vec<u32>, key: u32) -> (r: bool)
    ensures
        r == v@.contains(key),
{
    let mut i: usize = 0;
    while i < v.len()
        invariant
            i <= v@.len(),
            forall|j: int| 0 <= j < i ==> v@[j] != key,
        decreases v@.len() - i,
    {
        if v[i] == key {
            return true;
        }
        i += 1;
    }
    false
}

/// Adds `key` to the set `v` holds.
fn insert_key(v: &mut Vec<u32>, key: u32)
    ensures
        final(v)@.to_set() == old(v)@.to_set().insert(key),
{
    if !holds(v, key) {
        proof {
            old(v)@.lemma_push_to_set_commute(key);
        }
        v.push(key);
    } else {
        proof {
            assert(old(v)@.to_set() =~= old(v)@.to_set().insert(key));
        }
    }
}

/// Takes `key` out of the set `v` holds.
fn remove_key(v: &mut Vec<u32>, key: u32)
    ensures
        final(v)@.to_set() == old(v)@.to_set().remove(key),
{
    let mut kept: Vec<u32> = Vec::new();
    let mut i: usize = 0;
    while i < v.len()
        invariant
            i <= v@.len(),
            v@ == old(v)@,
            forall|y: u32|
                #[trigger] kept@.contains(y) <==> (y != key && exists|j: int|
                    0 <= j < i && v@[j] == y),
        decreases v@.len() - i,
    {
        let e = v[i];
        let ghost before = kept@;
        if e != key {
            kept.push(e);
        }
        proof {
            assert forall|y: u32| #[trigger] kept@.contains(y) <==> (y != key && exists|j: int|
                0 <= j < i + 1 && v@[j] == y) by {
                if kept@.contains(y) {
                    let k = choose|k: int| 0 <= k < kept@.len() && kept@[k] == y;
                    if k < before.len() {
                        assert(before[k] == y);
                        assert(before.contains(y));
                        let j = choose|j: int| 0 <= j < i && v@[j] == y;
                        assert(0 <= j < i + 1 && v@[j] == y);
                    } else {
                        assert(v@[i as int] == y);
                    }
                }
                if y != key && exists|j: int| 0 <= j < i + 1 && v@[j] == y {
                    let j = choose|j: int| 0 <= j < i + 1 && v@[j] == y;
                    if j == i {
                        assert(kept@[kept@.len() - 1] == y);
                    } else {
                        assert(before.contains(y));
                        let k = choose|k: int| 0 <= k < before.len() && before[k] == y;
                        assert(kept@[k] == y);
                    }
                }
            }
        }
        i += 1;
    }
    proof {
        assert forall|y: u32| kept@.to_set().contains(y) == old(v)@.to_set().remove(key).contains(y) by {
            if old(v)@.contains(y) {
                let j = choose|j: int| 0 <= j < old(v)@.len() && old(v)@[j] == y;
            }
        }
        assert(kept@.to_set() =~= old(v)@.to_set().remove(key));
    }
    *v = kept;
}

/// Which keys are held down, and which went down or up since the last
/// `update`.
pub struct KeyboardState {
    pressed: Vec<u32>,
    just_pressed: Vec<u32>,
    just_released: Vec<u32>,
}

impl KeyboardState {
    /// Keys held down.
    pub closed spec fn pressed_keys(&self) -> Set<u32> {
        self.pressed@.to_set()
    }

    /// Keys that went down since the last update.
    pub closed spec fn just_pressed_keys(&self) -> Set<u32> {
        self.just_pressed@.to_set()
    }

    /// Keys that went up since the last update.
    pub closed spec fn just_released_keys(&self) -> Set<u32> {
        self.just_released@.to_set()
    }

    /// No key down, none changed.
    pub fn new() -> (r: Self)
        ensures
            r.pressed_keys() == Set::<u32>::empty(),
            r.just_pressed_keys() == Set::<u32>::empty(),
            r.just_released_keys() == Set::<u32>::empty(),
    {
        let r = KeyboardState { pressed: Vec::new(), just_pressed: Vec::new(), just_released: Vec::new() };
        proof {
            assert(r.pressed@.to_set() =~= Set::<u32>::empty());
            assert(r.just_pressed@.to_set() =~= Set::<u32>::empty());
            assert(r.just_released@.to_set() =~= Set::<u32>::empty());
        }
        r
    }

    /// Takes a key going down (`pressed`) or up. A key that goes down while
    /// not held counts as just pressed; one that goes up counts as just
    /// released.
    pub fn process(&mut self, key: u32, pressed: bool)
        ensures
            pressed ==> {
                &&& final(self).pressed_keys() == old(self).pressed_keys().insert(key)
                &&& final(self).just_pressed_keys() == if old(self).pressed_keys().contains(key) {
                    old(self).just_pressed_keys()
                } else {
                    old(self).just_pressed_keys().insert(key)
                }
                &&& final(self).just_released_keys() == old(self).just_released_keys()
            },
            !pressed ==> {
                &&& final(self).pressed_keys() == old(self).pressed_keys().remove(key)
                &&& final(self).just_pressed_keys() == old(self).just_pressed_keys()
                &&& final(self).just_released_keys() == old(self).just_released_keys().insert(key)
            },
    {
        if pressed {
            if !holds(&self.pressed, key) {
                insert_key(&mut self.just_pressed, key);
            }
            insert_key(&mut self.pressed, key);
        } else {
            insert_key(&mut self.just_released, key);
            remove_key(&mut self.pressed, key);
        }
    }

    /// Starts a new frame: nothing counts as just pressed or just released.
    pub fn update(&mut self)
        ensures
            final(self).pressed_keys() == old(self).pressed_keys(),
            final(self).just_pressed_keys() == Set::<u32>::empty(),
            final(self).just_released_keys() == Set::<u32>::empty(),
    {
        self.just_pressed.clear();
        self.just_released.clear();
        proof {
            assert(self.just_pressed@.to_set() =~= Set::<u32>::empty());
            assert(self.just_released@.to_set() =~= Set::<u32>::empty());
        }
    }

    pub fn is_pressed(&self, key: u32) -> (r: bool)
        ensures
            r == self.pressed_keys().contains(key),
    {
        holds(&self.pressed, key)
    }

    pub fn just_pressed(&self, key: u32) -> (r: bool)
        ensures
            r == self.just_pressed_keys().contains(key),
    {
        holds(&self.just_pressed, key)
    }

    pub fn just_released(&self, key: u32) -> (r: bool)
        ensures
            r == self.just_released_keys().contains(key),
    {
        holds(&self.just_released, key)
    }
}

impl Default for KeyboardState {
    /// No key down, none changed.
    fn default() -> (r: Self)
        ensures
            r.pressed_keys() == Set::<u32>::empty(),
            r.just_pressed_keys() == Set::<u32>::empty(),
            r.just_released_keys() == Set::<u32>::empty(),
    {
        KeyboardState::new()
    }
}

} // verus!
