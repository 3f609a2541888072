//! Buttons of a mouse, named by the numbers that mouse events carry.
use vstd::prelude::*;

verus! {

/// A button of the mouse.
#[derive(Clone, Copy, Debug, PartialEq, Eq, PartialOrd, Ord, Hash, Structural)]
pub enum Button {
    Left,
    Middle,
    Right,
    Forward,
    Backward,
}

/// Number of buttons.
pub const BUTTON_COUNT: u8 = 5;

impl Button {
    /// The number by which mouse events name this button.
    pub open spec fn code(self) -> int {
        match self {
            Button::Left => 0,
            Button::Middle => 1,
            Button::Right => 2,
            Button::Forward => 3,
            Button::Backward => 4,
        }
    }

    /// The button whose number is `code`, if there is one.
    pub open spec fn numbered(code: int) -> Option<Button> {
        if code == 0 {
            Some(Button::Left)
        } else if code == 1 {
            Some(Button::Middle)
        } else if code == 2 {
            Some(Button::Right)
        } else if code == 3 {
            Some(Button::Forward)
        } else if code == 4 {
            Some(Button::Backward)
        } else {
            None
        }
    }

    /// The button that `code` names, or `None` when it names no button.
    pub fn from_code(code: i16) -> (button: Option<Button>)
        ensures
            button == Button::numbered(code as int),
    {
        match code {
            0 => Some(Button::Left),
            1 => Some(Button::Middle),
            2 => Some(Button::Right),
            3 => Some(Button::Forward),
            4 => Some(Button::Backward),
            _ => None,
        }
    }

    /// The place of the button in the declaration of `Button`, from zero.
    pub fn position(self) -> (place: u8)
        ensures
            place == self.code(),
            place < BUTTON_COUNT,
    {
        match self {
            Button::Left => 0,
            Button::Middle => 1,
            Button::Right => 2,
            Button::Forward => 3,
            Button::Backward => 4,
        }
    }
}

/// A button is found again by its number, and a number that names a button
/// is the number of that button.
pub proof fn lemma_numbered_by_code(button: Button, code: int)
    ensures
        Button::numbered(button.code()) == Some(button),
        Button::numbered(code) == Some(button) ==> code == button.code(),
{
}

} // verus!
