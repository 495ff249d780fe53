//! The keys that steer the player: which of them are held down, and which
//! press fires.
use vstd::prelude::*;

verus! {

/// A key of the keyboard, as far as the game tells keys apart.
#[derive(Clone, Copy, Debug, PartialEq, Eq, Structural)]
pub enum Control {
    /// Walk forward.
    W,
    /// Walk backward.
    S,
    /// Turn left.
    A,
    /// Turn right.
    D,
    /// Fire.
    Space,
    /// Any other key, which the game ignores.
    Other,
}

/// The movement keys held down.
#[derive(Clone, Copy, Debug, PartialEq, Eq, Structural)]
pub struct Pressed {
    pub w: bool,
    pub a: bool,
    pub s: bool,
    pub d: bool,
}

/// Whether `key` is a movement key held down in `p` (never for `Space` or `Other`).
pub open spec fn is_held(p: Pressed, key: Control) -> bool {
    match key {
        Control::W => p.w,
        Control::S => p.s,
        Control::A => p.a,
        Control::D => p.d,
        _ => false,
    }
}

/// `p` with the flag of movement key `key` set to `down`; `p` itself for any
/// other key.
pub open spec fn with_key(p: Pressed, key: Control, down: bool) -> Pressed {
    match key {
        Control::W => Pressed { w: down, ..p },
        Control::S => Pressed { s: down, ..p },
        Control::A => Pressed { a: down, ..p },
        Control::D => Pressed { d: down, ..p },
        _ => p,
    }
}

impl Pressed {
    /// No key held.
    pub fn new() -> (p: Pressed)
        ensures
            !p.w && !p.a && !p.s && !p.d,
    {
        Pressed { w: false, a: false, s: false, d: false }
    }

    /// A key went down: a movement key is now held; `Space` asks for a shot,
    /// which is what the result says.
    pub fn press(&mut self, key: Control) -> (fire: bool)
        ensures
            *final(self) == with_key(*old(self), key, true),
            fire == (key == Control::Space),
    {
        match key {
            Control::W => {
                self.w = true;
            },
            Control::S => {
                self.s = true;
            },
            Control::A => {
                self.a = true;
            },
            Control::D => {
                self.d = true;
            },
            _ => {},
        }
        match key {
            Control::Space => true,
            _ => false,
        }
    }

    /// A key went up: a movement key is no longer held.
    pub fn release(&mut self, key: Control)
        ensures
            *final(self) == with_key(*old(self), key, false),
    {
        match key {
            Control::W => {
                self.w = false;
            },
            Control::S => {
                self.s = false;
            },
            Control::A => {
                self.a = false;
            },
            Control::D => {
                self.d = false;
            },
            _ => {},
        }
    }
}

/// Releasing a key that a press put down gives back the state before the
/// press.
pub proof fn lemma_release_undoes_press(p: Pressed, key: Control)
    requires
        !is_held(p, key),
    ensures
        with_key(with_key(p, key, true), key, false) == p,
{
}

/// A press or a release changes the flag of its own key only.
pub proof fn lemma_keys_independent(p: Pressed, key: Control, other: Control, down: bool)
    requires
        key != other,
    ensures
        is_held(with_key(p, key, down), other) == is_held(p, other),
{
}

/// After a press of a movement key that key is held, and after its release
/// it is not.
pub proof fn lemma_press_holds_release_frees(p: Pressed, key: Control)
    requires
        key != Control::Space,
        key != Control::Other,
    ensures
        is_held(with_key(p, key, true), key),
        !is_held(with_key(p, key, false), key),
{
}

} // verus!
