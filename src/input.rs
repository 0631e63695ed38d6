//! Host input: reserved shortcuts and forwarding of translated key codes.
use vstd::prelude::*;

verus! {

/// A translated key code that has no counterpart on the target machine.
pub const UNMAPPED: u16 = 0;

/// The keys that take part in the reserved shortcuts, as the host names them.
#[derive(Clone, Copy, Debug, PartialEq, Eq, Structural)]
pub enum HostKey {
    /// The key that, with the reserved modifier, toggles fullscreen.
    Fullscreen,
    /// The key that, with the reserved modifier, quits.
    Quit,
    /// Any other key.
    Other,
}

/// A host event, with the key already translated to the target's code.
#[derive(Clone, Copy, Debug, PartialEq, Eq, Structural)]
pub enum HostEvent {
    /// The window was closed.
    Close,
    /// A key was pressed or released.
    Key {
        key: HostKey,
        /// Whether the reserved modifier was held.
        modifier: bool,
        /// The target machine's code for the key, or `UNMAPPED`.
        code: u16,
        is_down: bool,
    },
    /// Anything else the host reports.
    Other,
}

/// What to do with a host event.
#[derive(Clone, Copy, Debug, PartialEq, Eq, Structural)]
pub enum InputAction {
    /// Leave the emulator.
    Quit,
    /// Switch between windowed and fullscreen, rebuilding the surface.
    ToggleFullscreen,
    /// Hand a key transition to the peripheral module.
    SendKey { code: u16, is_down: bool },
    /// Nothing reaches the module.
    Drop,
}

/// Whether the event is one of the reserved shortcut combinations.
pub open spec fn is_reserved(ev: HostEvent) -> bool {
    match ev {
        HostEvent::Key { key, modifier, .. } => modifier && key != HostKey::Other,
        _ => false,
    }
}

/// The action a host event calls for.
pub open spec fn action_of(ev: HostEvent) -> InputAction {
    match ev {
        HostEvent::Close => InputAction::Quit,
        HostEvent::Key { key, modifier, code, is_down } => {
            if modifier && key == HostKey::Fullscreen {
                if is_down {
                    InputAction::ToggleFullscreen
                } else {
                    InputAction::Drop
                }
            } else if modifier && key == HostKey::Quit {
                if is_down {
                    InputAction::Quit
                } else {
                    InputAction::Drop
                }
            } else if code == UNMAPPED {
                InputAction::Drop
            } else {
                InputAction::SendKey { code, is_down }
            }
        },
        HostEvent::Other => InputAction::Drop,
    }
}

/// Decides what a host event does: a reserved shortcut is intercepted (its
/// press acts, its release is swallowed), an unmapped key is dropped, and any
/// other key transition is forwarded as it is.
pub fn translate_event(ev: HostEvent) -> (r: InputAction)
    ensures
        r == action_of(ev),
{
    match ev {
        HostEvent::Close => InputAction::Quit,
        HostEvent::Key { key, modifier, code, is_down } => {
            if modifier && key == HostKey::Fullscreen {
                if is_down {
                    InputAction::ToggleFullscreen
                } else {
                    InputAction::Drop
                }
            } else if modifier && key == HostKey::Quit {
                if is_down {
                    InputAction::Quit
                } else {
                    InputAction::Drop
                }
            } else if code == UNMAPPED {
                InputAction::Drop
            } else {
                InputAction::SendKey { code, is_down }
            }
        },
        HostEvent::Other => InputAction::Drop,
    }
}

/// A reserved shortcut never reaches the module as a key event; every other
/// key event reaches it, with its code and direction unchanged, unless its
/// code is the unmapped one.
pub proof fn lemma_shortcuts_intercepted(ev: HostEvent)
    ensures
        is_reserved(ev) ==> !(action_of(ev) is SendKey),
        !is_reserved(ev) ==> (ev matches HostEvent::Key { code, is_down, .. } ==> action_of(ev)
            == if code == UNMAPPED {
            InputAction::Drop
        } else {
            InputAction::SendKey { code, is_down }
        }),
        action_of(ev) matches InputAction::SendKey { code, .. } ==> code != UNMAPPED,
{
}

} // verus!
