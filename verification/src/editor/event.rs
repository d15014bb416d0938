//! What reaches the editor from the outside: keys, resizes, and failures to
//! read either.

use vstd::prelude::*;

verus! {

/// The key of a key event. The keys that the editor gives no meaning to
/// share `Other`.
#[derive(Clone, Copy, Debug, PartialEq, Eq, Structural)]
pub enum KeyCode {
    Up,
    Down,
    Left,
    Right,
    PageUp,
    PageDown,
    Home,
    End,
    Char(char),
    Other,
}

/// The modifier keys held down with a key, one flag each.
#[derive(Clone, Copy, Debug, PartialEq, Eq, Structural)]
pub struct KeyModifiers {
    pub shift: bool,
    pub control: bool,
    pub alt: bool,
    pub super_key: bool,
    pub hyper: bool,
    pub meta: bool,
}

impl KeyModifiers {
    /// Control is held down, and no other modifier is.
    pub open spec fn spec_is_control(self) -> bool {
        self == (KeyModifiers {
            shift: false,
            control: true,
            alt: false,
            super_key: false,
            hyper: false,
            meta: false,
        })
    }

    /// No modifier at all.
    pub fn none() -> (modifiers: Self)
        ensures
            modifiers == (KeyModifiers {
                shift: false,
                control: false,
                alt: false,
                super_key: false,
                hyper: false,
                meta: false,
            }),
    {
        KeyModifiers {
            shift: false,
            control: false,
            alt: false,
            super_key: false,
            hyper: false,
            meta: false,
        }
    }

    /// Control alone.
    pub fn control() -> (modifiers: Self)
        ensures
            modifiers.spec_is_control(),
    {
        KeyModifiers {
            shift: false,
            control: true,
            alt: false,
            super_key: false,
            hyper: false,
            meta: false,
        }
    }

    /// Whether Control is held down and no other modifier is.
    #[verifier::when_used_as_spec(spec_is_control)]
    pub fn is_control(self) -> (only_control: bool)
        ensures
            only_control == self.spec_is_control(),
    {
        self.control && !self.shift && !self.alt && !self.super_key && !self.hyper && !self.meta
    }
}

/// A key together with the modifiers held down with it.
#[derive(Clone, Copy, Debug, PartialEq, Eq, Structural)]
pub struct KeyEvent {
    pub code: KeyCode,
    pub modifiers: KeyModifiers,
}

impl KeyEvent {
    /// The combination that ends the session: Control and `q`, nothing else
    /// held down.
    pub open spec fn spec_is_quit(self) -> bool {
        self.code == KeyCode::Char('q') && self.modifiers.spec_is_control()
    }

    /// Whether this is the combination that ends the session.
    #[verifier::when_used_as_spec(spec_is_quit)]
    pub fn is_quit(self) -> (quit: bool)
        ensures
            quit == self.spec_is_quit(),
    {
        match self.code {
            KeyCode::Char(c) => c == 'q' && self.modifiers.is_control(),
            _ => false,
        }
    }
}

/// An event of the terminal. Those that the editor gives no meaning to
/// (focus, mouse, paste) share `Other`.
#[derive(Clone, Copy, Debug, PartialEq, Eq, Structural)]
pub enum Event {
    Key(KeyEvent),
    /// The terminal now has this many columns and this many rows.
    Resize(u16, u16),
    Other,
}

/// What an attempt to read the next event came to.
#[derive(Clone, Copy, Debug, PartialEq, Eq, Structural)]
pub enum Input {
    Event(Event),
    /// No event could be read.
    ReadFailed,
}

/// What a failed read means to the loop.
#[derive(Clone, Copy, Debug, PartialEq, Eq, Structural)]
pub enum FailurePolicy {
    /// The loop ends with an error. For builds made to find faults.
    Fatal,
    /// The failure is passed over and the loop goes on. For builds made to be
    /// used.
    Ignore,
}

} // verus!
