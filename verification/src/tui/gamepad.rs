//! The gamepad button map: each button stands for the key a keyboard user
//! would press for the same action, so every handler treats both alike.
use super::app::Key;
use vstd::prelude::*;

verus! {

/// A gamepad button, named by its position on an Xbox-style pad.
#[derive(Debug, Clone, Copy, PartialEq, Eq, Structural)]
pub enum PadButton {
    South,
    East,
    North,
    West,
    C,
    Z,
    LeftTrigger,
    LeftTrigger2,
    RightTrigger,
    RightTrigger2,
    Select,
    Start,
    Mode,
    LeftThumb,
    RightThumb,
    DPadUp,
    DPadDown,
    DPadLeft,
    DPadRight,
    Unknown,
}

/// The key each button stands for: the D-pad for the arrows, A to
/// confirm, B to cancel, X for the destructive action of the tab (kill or
/// delete, which still asks first), Y for help, the bumpers for the tabs,
/// Start to quit, Select to search, the stick clicks to refresh and for
/// winetricks, and RT for the `y` a confirmation needs (deliberately not
/// A, so mashing confirm never deletes anything).
pub open spec fn button_key(b: PadButton) -> Option<Key> {
    match b {
        PadButton::DPadUp => Some(Key::Up),
        PadButton::DPadDown => Some(Key::Down),
        PadButton::DPadLeft => Some(Key::Left),
        PadButton::DPadRight => Some(Key::Right),
        PadButton::South => Some(Key::Enter),
        PadButton::East => Some(Key::Esc),
        PadButton::West => Some(Key::Delete),
        PadButton::North => Some(Key::Char('?')),
        PadButton::LeftTrigger => Some(Key::BackTab),
        PadButton::RightTrigger => Some(Key::Tab),
        PadButton::Start => Some(Key::Char('q')),
        PadButton::Select => Some(Key::Char('f')),
        PadButton::LeftThumb => Some(Key::Char('r')),
        PadButton::RightThumb => Some(Key::Char('p')),
        PadButton::RightTrigger2 => Some(Key::Char('y')),
        _ => None,
    }
}

pub fn translate(button: PadButton) -> (r: Option<Key>)
    ensures
        r == button_key(button),
{
    match button {
        PadButton::DPadUp => Some(Key::Up),
        PadButton::DPadDown => Some(Key::Down),
        PadButton::DPadLeft => Some(Key::Left),
        PadButton::DPadRight => Some(Key::Right),
        PadButton::South => Some(Key::Enter),
        PadButton::East => Some(Key::Esc),
        PadButton::West => Some(Key::Delete),
        PadButton::North => Some(Key::Char('?')),
        PadButton::LeftTrigger => Some(Key::BackTab),
        PadButton::RightTrigger => Some(Key::Tab),
        PadButton::Start => Some(Key::Char('q')),
        PadButton::Select => Some(Key::Char('f')),
        PadButton::LeftThumb => Some(Key::Char('r')),
        PadButton::RightThumb => Some(Key::Char('p')),
        PadButton::RightTrigger2 => Some(Key::Char('y')),
        _ => None,
    }
}

/// No two buttons stand for the same key, and the confirm button (A) can
/// never answer a `y`-to-confirm prompt.
pub proof fn lemma_buttons_distinct(a: PadButton, b: PadButton)
    ensures
        button_key(a) is Some && button_key(a) == button_key(b) ==> a == b,
        button_key(PadButton::South) != Some(Key::Char('y')),
        button_key(PadButton::South) != Some(Key::Char('Y')),
{
}

} // verus!
