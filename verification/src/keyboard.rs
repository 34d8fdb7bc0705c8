//! The 16-key keyboard surface.
//!
//! The interpreter only queries this state; a host event source feeds it
//! through `press` and `release`. A released key stays registered (for the
//! wait-for-key instruction) until the next press.
use vstd::prelude::*;

verus! {

/// Abstract keyboard state: which of the 16 keys are down, and which key,
/// if any, was released since the last press.
pub ghost struct KeysView {
    pub pressed: Seq<bool>,
    pub registered: Option<u8>,
}

impl KeysView {
    /// Sixteen key slots, and a registered key is always a real key.
    pub open spec fn wf(self) -> bool {
        &&& self.pressed.len() == 16
        &&& (self.registered matches Some(k) ==> k < 16)
    }
}

/// Names for the non-zero keys of the sixteen-key pad, for hosts that
/// map them onto a physical keyboard.
#[derive(Clone, Copy, PartialEq, Eq, Structural, Debug)]
pub enum Key {
    Key1,
    Key2,
    Key3,
    Key4,
    Key5,
    Key6,
    Key7,
    Key8,
    Key9,
    KeyA,
    KeyB,
    KeyC,
    KeyD,
    KeyE,
    KeyF,
}

/// The pressed-state of the sixteen keys, with the most recently released
/// key remembered until the next press.
pub struct Keys {
    keys: Vec<bool>,
    registered: Option<u8>,
}

impl View for Keys {
    type V = KeysView;

    closed spec fn view(&self) -> KeysView {
        KeysView { pressed: self.keys@, registered: self.registered }
    }
}

impl Keys {
    /// All keys up, no key registered.
    pub fn new() -> (k: Keys)
        ensures
            k@.wf(),
            forall|i: int| 0 <= i < 16 ==> !k@.pressed[i],
            k@.registered is None,
    {
        let mut keys: Vec<bool> = Vec::new();
        let mut n: usize = 0;
        while n < 16
            invariant
                n <= 16,
                keys@.len() == n,
                forall|i: int| 0 <= i < n ==> !keys@[i],
            decreases 16 - n,
        {
            keys.push(false);
            n += 1;
        }
        Keys { keys, registered: None }
    }

    /// Mark a key as held down; a press clears the registered key.
    pub fn set_key(&mut self, key: usize)
        requires
            old(self)@.wf(),
            key < 16,
        ensures
            final(self)@.wf(),
            final(self)@.pressed == old(self)@.pressed.update(key as int, true),
            final(self)@.registered is None,
    {
        self.registered = None;
        self.keys.set(key, true);
    }

    /// Mark a key as released; the key becomes the registered key.
    pub fn clear_key(&mut self, key: usize)
        requires
            old(self)@.wf(),
            key < 16,
        ensures
            final(self)@.wf(),
            final(self)@.pressed == old(self)@.pressed.update(key as int, false),
            final(self)@.registered == Some(key as u8),
    {
        self.registered = Some(key as u8);
        self.keys.set(key, false);
    }

    /// Whether a key is currently held down.
    pub fn get_key(&self, key: usize) -> (down: bool)
        requires
            self@.wf(),
            key < 16,
        ensures
            down == self@.pressed[key as int],
    {
        self.keys[key]
    }

    /// Whether any key at all is held down.
    pub fn any_key_pressed(&self) -> (any: bool)
        requires
            self@.wf(),
        ensures
            any == exists|i: int| 0 <= i < 16 && self@.pressed[i],
    {
        let mut n: usize = 0;
        while n < 16
            invariant
                self@.wf(),
                n <= 16,
                forall|i: int| 0 <= i < n ==> !self@.pressed[i],
            decreases 16 - n,
        {
            if self.keys[n] {
                return true;
            }
            n += 1;
        }
        false
    }
}

/// The keyboard as the interpreter sees it: a query surface over the owned
/// key state.
pub struct Keyboard {
    keys: Keys,
}

impl View for Keyboard {
    type V = KeysView;

    closed spec fn view(&self) -> KeysView {
        self.keys@
    }
}

impl Keyboard {
    /// A keyboard with no key down and none registered.
    pub fn new() -> (k: Keyboard)
        ensures
            k@.wf(),
            forall|i: int| 0 <= i < 16 ==> !k@.pressed[i],
            k@.registered is None,
    {
        Keyboard { keys: Keys::new() }
    }

    /// Whether the key named by `key` is down; values past 15 name no key
    /// and read as up.
    pub fn get_key(&self, key: u8) -> (down: bool)
        requires
            self@.wf(),
        ensures
            down == (key < 16 && self@.pressed[key as int]),
    {
        if key > 0xf {
            false
        } else {
            self.keys.get_key(key as usize)
        }
    }

    /// The key released since the last press, if any.
    pub fn get_registered_key(&self) -> (k: Option<u8>)
        ensures
            k == self@.registered,
    {
        self.keys.registered
    }

    /// Host entry point: a key went down.
    pub fn press(&mut self, key: usize)
        requires
            old(self)@.wf(),
            key < 16,
        ensures
            final(self)@.wf(),
            final(self)@.pressed == old(self)@.pressed.update(key as int, true),
            final(self)@.registered is None,
    {
        self.keys.set_key(key)
    }

    /// Host entry point: a key came back up.
    pub fn release(&mut self, key: usize)
        requires
            old(self)@.wf(),
            key < 16,
        ensures
            final(self)@.wf(),
            final(self)@.pressed == old(self)@.pressed.update(key as int, false),
            final(self)@.registered == Some(key as u8),
    {
        self.keys.clear_key(key)
    }
}

impl Default for Keyboard {
    /// A keyboard with no key down and none registered.
    fn default() -> (k: Self)
        ensures
            k@.wf(),
            forall|i: int| 0 <= i < 16 ==> !k@.pressed[i],
            k@.registered is None,
    {
        Keyboard::new()
    }
}

} // verus!
