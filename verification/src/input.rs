//! Physical buttons, the total pressed-key map, and the classification of a
//! raw key transition into the gesture it means given which keys are held.

use vstd::prelude::*;

verus! {

/// The closed set of physical buttons on the device.
#[derive(Clone, Copy, Debug, PartialEq, Eq, Structural)]
pub enum Key {
    Up,
    Down,
    Left,
    Right,
    A,
    B,
    X,
    Y,
    Start,
    Select,
    L,
    R,
    Menu,
    L2,
    R2,
    Power,
    VolDown,
    VolUp,
}

/// A raw key transition as delivered by the input device. `Autorepeat` is the
/// synthetic repeat generated while a key stays held, distinct from the
/// initial `Pressed`.
#[derive(Clone, Copy, Debug, PartialEq, Eq, Structural)]
pub enum KeyEvent {
    Pressed(Key),
    Released(Key),
    Autorepeat(Key),
}

/// A total mapping from `Key` to "currently pressed": one field per key,
/// always fully populated, so "no other key is held" checks are exact.
#[derive(Clone, Copy, Debug, PartialEq, Eq, Structural)]
pub struct KeyState {
    pub up: bool,
    pub down: bool,
    pub left: bool,
    pub right: bool,
    pub a: bool,
    pub b: bool,
    pub x: bool,
    pub y: bool,
    pub start: bool,
    pub select: bool,
    pub l: bool,
    pub r: bool,
    pub menu: bool,
    pub l2: bool,
    pub r2: bool,
    pub power: bool,
    pub vol_down: bool,
    pub vol_up: bool,
}

impl KeyState {
    /// Whether `k` is currently pressed.
    pub open spec fn spec_get(self, k: Key) -> bool {
        match k {
            Key::Up => self.up,
            Key::Down => self.down,
            Key::Left => self.left,
            Key::Right => self.right,
            Key::A => self.a,
            Key::B => self.b,
            Key::X => self.x,
            Key::Y => self.y,
            Key::Start => self.start,
            Key::Select => self.select,
            Key::L => self.l,
            Key::R => self.r,
            Key::Menu => self.menu,
            Key::L2 => self.l2,
            Key::R2 => self.r2,
            Key::Power => self.power,
            Key::VolDown => self.vol_down,
            Key::VolUp => self.vol_up,
        }
    }

    /// The map with `k` set to `v` and every other key unchanged.
    pub open spec fn spec_set(self, k: Key, v: bool) -> KeyState {
        match k {
            Key::Up => KeyState { up: v, ..self },
            Key::Down => KeyState { down: v, ..self },
            Key::Left => KeyState { left: v, ..self },
            Key::Right => KeyState { right: v, ..self },
            Key::A => KeyState { a: v, ..self },
            Key::B => KeyState { b: v, ..self },
            Key::X => KeyState { x: v, ..self },
            Key::Y => KeyState { y: v, ..self },
            Key::Start => KeyState { start: v, ..self },
            Key::Select => KeyState { select: v, ..self },
            Key::L => KeyState { l: v, ..self },
            Key::R => KeyState { r: v, ..self },
            Key::Menu => KeyState { menu: v, ..self },
            Key::L2 => KeyState { l2: v, ..self },
            Key::R2 => KeyState { r2: v, ..self },
            Key::Power => KeyState { power: v, ..self },
            Key::VolDown => KeyState { vol_down: v, ..self },
            Key::VolUp => KeyState { vol_up: v, ..self },
        }
    }

    /// No key other than Menu is pressed (Menu itself may be either).
    pub open spec fn spec_only_menu_held(self) -> bool {
        !self.up && !self.down && !self.left && !self.right && !self.a && !self.b && !self.x
            && !self.y && !self.start && !self.select && !self.l && !self.r && !self.l2 && !self.r2
            && !self.power && !self.vol_down && !self.vol_up
    }

    /// The map with every key released.
    pub fn all_released() -> (r: KeyState)
        ensures
            forall|k: Key| !r.spec_get(k),
    {
        let r = KeyState {
            up: false,
            down: false,
            left: false,
            right: false,
            a: false,
            b: false,
            x: false,
            y: false,
            start: false,
            select: false,
            l: false,
            r: false,
            menu: false,
            l2: false,
            r2: false,
            power: false,
            vol_down: false,
            vol_up: false,
        };
        proof {
            assert(forall|k: Key| !r.spec_get(k));
        }
        r
    }

    /// Read one key.
    pub fn get(&self, k: Key) -> (r: bool)
        ensures
            r == self.spec_get(k),
    {
        match k {
            Key::Up => self.up,
            Key::Down => self.down,
            Key::Left => self.left,
            Key::Right => self.right,
            Key::A => self.a,
            Key::B => self.b,
            Key::X => self.x,
            Key::Y => self.y,
            Key::Start => self.start,
            Key::Select => self.select,
            Key::L => self.l,
            Key::R => self.r,
            Key::Menu => self.menu,
            Key::L2 => self.l2,
            Key::R2 => self.r2,
            Key::Power => self.power,
            Key::VolDown => self.vol_down,
            Key::VolUp => self.vol_up,
        }
    }

    /// Write one key.
    pub fn set(&mut self, k: Key, v: bool)
        ensures
            *final(self) == old(self).spec_set(k, v),
    {
        let s = *self;
        *self = match k {
            Key::Up => KeyState { up: v, ..s },
            Key::Down => KeyState { down: v, ..s },
            Key::Left => KeyState { left: v, ..s },
            Key::Right => KeyState { right: v, ..s },
            Key::A => KeyState { a: v, ..s },
            Key::B => KeyState { b: v, ..s },
            Key::X => KeyState { x: v, ..s },
            Key::Y => KeyState { y: v, ..s },
            Key::Start => KeyState { start: v, ..s },
            Key::Select => KeyState { select: v, ..s },
            Key::L => KeyState { l: v, ..s },
            Key::R => KeyState { r: v, ..s },
            Key::Menu => KeyState { menu: v, ..s },
            Key::L2 => KeyState { l2: v, ..s },
            Key::R2 => KeyState { r2: v, ..s },
            Key::Power => KeyState { power: v, ..s },
            Key::VolDown => KeyState { vol_down: v, ..s },
            Key::VolUp => KeyState { vol_up: v, ..s },
        };
    }

    /// Decide `spec_only_menu_held` executably.
    pub fn only_menu_held(&self) -> (r: bool)
        ensures
            r == self.spec_only_menu_held(),
    {
        !self.up && !self.down && !self.left && !self.right && !self.a && !self.b && !self.x
            && !self.y && !self.start && !self.select && !self.l && !self.r && !self.l2 && !self.r2
            && !self.power && !self.vol_down && !self.vol_up
    }
}

/// The pressed-key map after a transition: `Pressed` marks the key held,
/// `Released` marks it up, `Autorepeat` changes nothing.
pub open spec fn keys_after(keys: KeyState, ev: KeyEvent) -> KeyState {
    match ev {
        KeyEvent::Pressed(k) => keys.spec_set(k, true),
        KeyEvent::Released(k) => keys.spec_set(k, false),
        KeyEvent::Autorepeat(_) => keys,
    }
}

/// The `menu_held_alone` flag after a transition is fully handled: pressing
/// Menu sets it, pressing any other key clears it, and releasing Menu always
/// leaves it cleared (the release is what consumes it).
pub open spec fn alone_after(alone: bool, ev: KeyEvent) -> bool {
    match ev {
        KeyEvent::Pressed(Key::Menu) => true,
        KeyEvent::Pressed(_) => false,
        KeyEvent::Released(Key::Menu) => false,
        _ => alone,
    }
}

/// What a key transition means, given the pressed-key map as it stands after
/// the transition itself has been folded in. The cases are mutually
/// exclusive; at most one fires per event.
#[derive(Clone, Copy, Debug, PartialEq, Eq, Structural)]
pub enum Gesture {
    /// No settings or process effect.
    Nothing,
    /// Adjust volume by the given signed step.
    AddVolume(i32),
    /// Adjust brightness by the given signed step.
    AddBrightness(i32),
    /// A held Power key: begin the quit sequence.
    Quit,
    /// Menu was released; the menu-toggle rule decides what happens.
    MenuReleased,
}

/// Classification of one transition. Chords: L2/R2 with Start adjust
/// brightness, with Select adjust volume; VolUp/VolDown adjust brightness
/// while Menu is held, volume otherwise; holding Power quits.
pub open spec fn classify(keys: KeyState, ev: KeyEvent) -> Gesture {
    match ev {
        KeyEvent::Pressed(Key::L2) | KeyEvent::Autorepeat(Key::L2) => if keys.start {
            Gesture::AddBrightness(-5i32)
        } else if keys.select {
            Gesture::AddVolume(-1i32)
        } else {
            Gesture::Nothing
        },
        KeyEvent::Pressed(Key::R2) | KeyEvent::Autorepeat(Key::R2) => if keys.start {
            Gesture::AddBrightness(5i32)
        } else if keys.select {
            Gesture::AddVolume(1i32)
        } else {
            Gesture::Nothing
        },
        KeyEvent::Pressed(Key::VolDown) | KeyEvent::Autorepeat(Key::VolDown) => if keys.menu {
            Gesture::AddBrightness(-5i32)
        } else {
            Gesture::AddVolume(-1i32)
        },
        KeyEvent::Pressed(Key::VolUp) | KeyEvent::Autorepeat(Key::VolUp) => if keys.menu {
            Gesture::AddBrightness(5i32)
        } else {
            Gesture::AddVolume(1i32)
        },
        KeyEvent::Autorepeat(Key::Power) => Gesture::Quit,
        KeyEvent::Released(Key::Menu) => Gesture::MenuReleased,
        _ => Gesture::Nothing,
    }
}

/// Executable twin of `classify`, evaluated on the updated key map.
pub fn classify_event(keys: &KeyState, ev: KeyEvent) -> (g: Gesture)
    ensures
        g == classify(*keys, ev),
{
    match ev {
        KeyEvent::Pressed(Key::L2) | KeyEvent::Autorepeat(Key::L2) => if keys.start {
            Gesture::AddBrightness(-5)
        } else if keys.select {
            Gesture::AddVolume(-1)
        } else {
            Gesture::Nothing
        },
        KeyEvent::Pressed(Key::R2) | KeyEvent::Autorepeat(Key::R2) => if keys.start {
            Gesture::AddBrightness(5)
        } else if keys.select {
            Gesture::AddVolume(1)
        } else {
            Gesture::Nothing
        },
        KeyEvent::Pressed(Key::VolDown) | KeyEvent::Autorepeat(Key::VolDown) => if keys.menu {
            Gesture::AddBrightness(-5)
        } else {
            Gesture::AddVolume(-1)
        },
        KeyEvent::Pressed(Key::VolUp) | KeyEvent::Autorepeat(Key::VolUp) => if keys.menu {
            Gesture::AddBrightness(5)
        } else {
            Gesture::AddVolume(1)
        },
        KeyEvent::Autorepeat(Key::Power) => Gesture::Quit,
        KeyEvent::Released(Key::Menu) => Gesture::MenuReleased,
        _ => Gesture::Nothing,
    }
}

/// The `menu_held_alone` law: pressing Menu raises the flag, pressing any
/// other key lowers it before Menu is released, and after a Menu release is
/// fully handled the flag is never raised.
pub proof fn lemma_menu_held_alone(alone: bool, k: Key)
    ensures
        alone_after(alone, KeyEvent::Pressed(Key::Menu)),
        k != Key::Menu ==> !alone_after(alone, KeyEvent::Pressed(k)),
        !alone_after(alone, KeyEvent::Released(Key::Menu)),
{
}

} // verus!
