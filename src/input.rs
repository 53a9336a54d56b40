//! Keyboard edge tracking: raw key transitions become a three-state model
//! (just pressed, held, just released) that the simulation reads once per tick.
//!
//! Keys are identified by `u32` codes: physical keys by their USB HID usage id,
//! logical named keys by the codes in this module.

use vstd::prelude::*;

verus! {

/// Physical key `I` (USB HID usage id).
pub const KEY_I: u32 = 0x0C;

/// Physical key `Q` (USB HID usage id).
pub const KEY_Q: u32 = 0x14;

/// Logical named key Escape.
pub const NAMED_ESCAPE: u32 = 0x1B;

/// Input state of a mouse button or keyboard key.
#[derive(Clone, Copy, Debug, PartialEq, Eq, Hash, Structural)]
pub enum InputState {
    /// The button has just been pressed.
    Pressed,
    /// The button is being held down.
    Down,
    /// The button has just been released.
    ///
    /// It means that the key has **just** been released, **not** that it is not held.
    Released,
}

/// The direction of a raw key transition.
#[derive(Clone, Copy, Debug, PartialEq, Eq, Hash, Structural)]
pub enum KeyState {
    Pressed,
    Released,
}

/// A raw keyboard transition as the window system reports it.
#[derive(Clone, Copy, Debug)]
pub struct KeyEvent {
    /// The physical key's code, when the window system could name it.
    pub physical_key: Option<u32>,
    /// The logical named key's code, when the key is a named one.
    pub logical_key: Option<u32>,
    pub state: KeyState,
    /// Whether this is an auto-repeat of a key already held.
    pub repeat: bool,
}

/// The state that a transition records.
pub open spec fn state_of(s: KeyState) -> InputState {
    match s {
        KeyState::Pressed => InputState::Pressed,
        KeyState::Released => InputState::Released,
    }
}

impl From<KeyState> for InputState {
    fn from(value: KeyState) -> (r: InputState)
        ensures
            r == state_of(value),
    {
        match value {
            KeyState::Pressed => InputState::Pressed,
            KeyState::Released => InputState::Released,
        }
    }
}

impl vstd::std_specs::convert::FromSpecImpl<KeyState> for InputState {
    open spec fn obeys_from_spec() -> bool {
        true
    }

    open spec fn from_spec(v: KeyState) -> InputState {
        state_of(v)
    }
}

impl InputState {
    pub fn is_pressed(&self) -> (r: bool)
        ensures
            r == (*self == InputState::Pressed),
    {
        matches!(self, InputState::Pressed)
    }

    pub fn is_any_down(&self) -> (r: bool)
        ensures
            r == (*self == InputState::Pressed || *self == InputState::Down),
    {
        matches!(self, InputState::Pressed | InputState::Down)
    }

    pub fn is_released(&self) -> (r: bool)
        ensures
            r == (*self == InputState::Released),
    {
        matches!(self, InputState::Released)
    }
}

/// The state a key moves to at the end of a tick: a fresh press becomes a hold.
pub open spec fn advanced(s: InputState) -> InputState {
    if s == InputState::Pressed {
        InputState::Down
    } else {
        s
    }
}

/// A key table after the end-of-tick step: every `Pressed` entry is now `Down`.
pub open spec fn committed(m: Map<u32, InputState>) -> Map<u32, InputState> {
    m.map_values(|s: InputState| advanced(s))
}

/// Whether `key` is recorded as just pressed; an absent key is not.
pub open spec fn pressed_in(m: Map<u32, InputState>, key: u32) -> bool {
    m.contains_key(key) && m[key] == InputState::Pressed
}

/// A key table after a transition of `key` (if any): repeats change nothing.
pub open spec fn recorded(m: Map<u32, InputState>, key: Option<u32>, e: KeyEvent) -> Map<u32, InputState> {
    if e.repeat {
        m
    } else {
        match key {
            Some(k) => m.insert(k, state_of(e.state)),
            None => m,
        }
    }
}

/// The recorded state of each key seen so far, as a list of distinct keys.
pub struct KeyTable {
    entries: Vec<(u32, InputState)>,
}

impl View for KeyTable {
    type V = Map<u32, InputState>;

    closed spec fn view(&self) -> Map<u32, InputState> {
        Map::new(
            |k: u32| exists|i: int| 0 <= i < self.entries@.len() && self.entries@[i].0 == k,
            |k: u32| self.entries@[choose|i: int| 0 <= i < self.entries@.len() && self.entries@[i].0 == k].1,
        )
    }
}

impl KeyTable {
    /// No key is listed twice.
    pub closed spec fn wf(&self) -> bool {
        forall|i: int, j: int|
            0 <= i < j < self.entries@.len() ==> #[trigger] self.entries@[i].0 != #[trigger] self.entries@[j].0
    }

    proof fn lemma_entry(&self, i: int)
        requires
            self.wf(),
            0 <= i < self.entries@.len(),
        ensures
            self@.contains_key(self.entries@[i].0),
            self@[self.entries@[i].0] == self.entries@[i].1,
    {
        let k = self.entries@[i].0;
        assert(self@.contains_key(k));
        let j = choose|j: int| 0 <= j < self.entries@.len() && self.entries@[j].0 == k;
        if j < i {
            assert(self.entries@[j].0 != self.entries@[i].0);
        } else if i < j {
            assert(self.entries@[i].0 != self.entries@[j].0);
        }
    }

    pub fn new() -> (r: Self)
        ensures
            r.wf(),
            r@ == Map::<u32, InputState>::empty(),
    {
        let r = KeyTable { entries: Vec::new() };
        assert(r@ =~= Map::<u32, InputState>::empty());
        r
    }

    /// The recorded state of `key`, if it was ever seen.
    pub fn get(&self, key: u32) -> (r: Option<InputState>)
        requires
            self.wf(),
        ensures
            r == (if self@.contains_key(key) {
                Some(self@[key])
            } else {
                None::<InputState>
            }),
    {
        let mut i: usize = 0;
        while i < self.entries.len()
            invariant
                self.wf(),
                i <= self.entries@.len(),
                forall|j: int| 0 <= j < i ==> self.entries@[j].0 != key,
            decreases self.entries@.len() - i,
        {
            if self.entries[i].0 == key {
                proof {
                    self.lemma_entry(i as int);
                }
                return Some(self.entries[i].1);
            }
            i = i + 1;
        }
        None
    }

    /// Records `state` for `key`.
    pub fn set(&mut self, key: u32, state: InputState)
        requires
            old(self).wf(),
        ensures
            final(self).wf(),
            final(self)@ == old(self)@.insert(key, state),
    {
        let ghost before = *self;
        let mut i: usize = 0;
        while i < self.entries.len()
            invariant
                *self == before,
                before == *old(self),
                before.wf(),
                i <= self.entries@.len(),
                forall|j: int| 0 <= j < i ==> self.entries@[j].0 != key,
            decreases self.entries@.len() - i,
        {
            if self.entries[i].0 == key {
                self.entries.set(i, (key, state));
                proof {
                    assert forall|a: int, b: int| 0 <= a < b < self.entries@.len() implies #[trigger] self.entries@[a].0
                        != #[trigger] self.entries@[b].0 by {
                        assert(before.entries@[a].0 != before.entries@[b].0);
                    }
                    assert forall|k: u32| #[trigger] self@.contains_key(k) == before@.insert(key, state).contains_key(k) by {
                        if before@.contains_key(k) {
                            let j = choose|j: int| 0 <= j < before.entries@.len() && before.entries@[j].0 == k;
                            assert(self.entries@[j].0 == k);
                        }
                        if self@.contains_key(k) {
                            let j = choose|j: int| 0 <= j < self.entries@.len() && self.entries@[j].0 == k;
                            assert(before.entries@[j].0 == k);
                        }
                    }
                    assert forall|k: u32| #[trigger] self@.contains_key(k) implies self@[k] == before@.insert(key, state)[k] by {
                        let j = choose|j: int| 0 <= j < self.entries@.len() && self.entries@[j].0 == k;
                        self.lemma_entry(j);
                        if j != i as int {
                            if j < i {
                                assert(self.entries@[j].0 != self.entries@[i as int].0);
                            } else {
                                assert(self.entries@[i as int].0 != self.entries@[j].0);
                            }
                            assert(k != key);
                            before.lemma_entry(j);
                        }
                    }
                    assert(self@ =~= before@.insert(key, state));
                }
                return;
            }
            i = i + 1;
        }
        self.entries.push((key, state));
        proof {
            let n = before.entries@.len() as int;
            assert forall|k: u32| #[trigger] self@.contains_key(k) == before@.insert(key, state).contains_key(k) by {
                if before@.contains_key(k) {
                    let j = choose|j: int| 0 <= j < before.entries@.len() && before.entries@[j].0 == k;
                    assert(self.entries@[j].0 == k);
                }
                if k == key {
                    assert(self.entries@[n].0 == k);
                }
                if self@.contains_key(k) && k != key {
                    let j = choose|j: int| 0 <= j < self.entries@.len() && self.entries@[j].0 == k;
                    assert(before.entries@[j].0 == k);
                }
            }
            assert forall|k: u32| #[trigger] self@.contains_key(k) implies self@[k] == before@.insert(key, state)[k] by {
                let j = choose|j: int| 0 <= j < self.entries@.len() && self.entries@[j].0 == k;
                self.lemma_entry(j);
                if j != n {
                    before.lemma_entry(j);
                }
            }
            assert(self@ =~= before@.insert(key, state));
        }
    }

    /// Moves every just-pressed key to held.
    pub fn commit(&mut self)
        requires
            old(self).wf(),
        ensures
            final(self).wf(),
            final(self)@ == committed(old(self)@),
    {
        let ghost before = *self;
        let mut i: usize = 0;
        while i < self.entries.len()
            invariant
                self.entries@.len() == before.entries@.len(),
                i <= self.entries@.len(),
                forall|j: int| 0 <= j < self.entries@.len() ==> #[trigger] self.entries@[j].0 == before.entries@[j].0,
                forall|j: int| 0 <= j < i ==> #[trigger] self.entries@[j].1 == advanced(before.entries@[j].1),
                forall|j: int| i <= j < self.entries@.len() ==> #[trigger] self.entries@[j].1 == before.entries@[j].1,
            decreases self.entries@.len() - i,
        {
            let (k, s) = self.entries[i];
            if s == InputState::Pressed {
                self.entries.set(i, (k, InputState::Down));
            }
            i = i + 1;
        }
        proof {
            assert forall|a: int, b: int| 0 <= a < b < self.entries@.len() implies #[trigger] self.entries@[a].0
                != #[trigger] self.entries@[b].0 by {
                assert(before.entries@[a].0 != before.entries@[b].0);
            }
            assert forall|k: u32| #[trigger] self@.contains_key(k) == before@.contains_key(k) by {
                if before@.contains_key(k) {
                    let j = choose|j: int| 0 <= j < before.entries@.len() && before.entries@[j].0 == k;
                    assert(self.entries@[j].0 == k);
                }
                if self@.contains_key(k) {
                    let j = choose|j: int| 0 <= j < self.entries@.len() && self.entries@[j].0 == k;
                    assert(before.entries@[j].0 == k);
                }
            }
            assert forall|k: u32| #[trigger] self@.contains_key(k) implies self@[k] == committed(before@)[k] by {
                let j = choose|j: int| 0 <= j < self.entries@.len() && self.entries@[j].0 == k;
                self.lemma_entry(j);
                before.lemma_entry(j);
            }
            assert(self@ =~= committed(before@));
        }
    }
}

/// The keyboard as the simulation sees it: the last recorded state of each
/// physical key and of each logical named key.
pub struct Input {
    physical_keys: KeyTable,
    logical_keys: KeyTable,
}

impl Input {
    /// States of the physical keys seen so far.
    pub closed spec fn physical(&self) -> Map<u32, InputState> {
        self.physical_keys@
    }

    /// States of the logical named keys seen so far.
    pub closed spec fn logical(&self) -> Map<u32, InputState> {
        self.logical_keys@
    }

    pub closed spec fn wf(&self) -> bool {
        self.physical_keys.wf() && self.logical_keys.wf()
    }

    /// No key seen yet.
    pub fn new() -> (r: Self)
        ensures
            r.wf(),
            r.physical() == Map::<u32, InputState>::empty(),
            r.logical() == Map::<u32, InputState>::empty(),
    {
        Input { physical_keys: KeyTable::new(), logical_keys: KeyTable::new() }
    }

    /// Records a key transition under its physical code and, for a named key,
    /// under its logical code. Auto-repeats are ignored, so a held key is not
    /// reported as pressed again.
    pub fn process_event(&mut self, event: &KeyEvent)
        requires
            old(self).wf(),
        ensures
            final(self).wf(),
            final(self).physical() == recorded(old(self).physical(), event.physical_key, *event),
            final(self).logical() == recorded(old(self).logical(), event.logical_key, *event),
    {
        if event.repeat {
            return;
        }
        if let Some(key_code) = event.physical_key {
            self.physical_keys.set(key_code, InputState::from(event.state));
        }
        if let Some(key) = event.logical_key {
            self.logical_keys.set(key, InputState::from(event.state));
        }
    }

    /// Whether physical key `k` was just pressed (not held, not released, not unseen).
    pub fn is_physical_key_pressed(&self, k: u32) -> (r: bool)
        requires
            self.wf(),
        ensures
            r == pressed_in(self.physical(), k),
    {
        match self.physical_keys.get(k) {
            Some(s) => s.is_pressed(),
            None => false,
        }
    }

    /// Whether logical named key `k` was just pressed.
    pub fn is_logical_key_pressed(&self, k: u32) -> (r: bool)
        requires
            self.wf(),
        ensures
            r == pressed_in(self.logical(), k),
    {
        match self.logical_keys.get(k) {
            Some(s) => s.is_pressed(),
            None => false,
        }
    }

    /// The end-of-tick step: every just-pressed key becomes held. Released
    /// entries stay as they are.
    pub fn update_keys(&mut self)
        requires
            old(self).wf(),
        ensures
            final(self).wf(),
            final(self).physical() == committed(old(self).physical()),
            final(self).logical() == committed(old(self).logical()),
    {
        self.physical_keys.commit();
        self.logical_keys.commit();
    }
}

/// A key press is an edge: right after a non-repeated key-down the key reads
/// as pressed; after the end-of-tick step it no longer does, though it stays
/// held; and an auto-repeat while it is held does not make it pressed again.
pub proof fn lemma_press_is_an_edge(m: Map<u32, InputState>, key: u32, e: KeyEvent)
    requires
        e.state == KeyState::Pressed,
        e.repeat == false,
    ensures
        pressed_in(recorded(m, Some(key), e), key),
        !pressed_in(committed(recorded(m, Some(key), e)), key),
        committed(recorded(m, Some(key), e))[key] == InputState::Down,
        recorded(committed(recorded(m, Some(key), e)), Some(key), KeyEvent { repeat: true, ..e })
            == committed(recorded(m, Some(key), e)),
        !pressed_in(recorded(committed(recorded(m, Some(key), e)), Some(key), KeyEvent { repeat: true, ..e }), key),
{
}

} // verus!
