//! Keyboard and mouse state, driven by the events of the host.
//!
//! The host reports each event to an `Input`; the application asks it which
//! keys and buttons are held, and which were pressed since it last asked.
pub mod button;
mod flags;
pub mod key;
pub mod keyboard;
pub mod mouse;

pub use button::Button;
pub use key::Key;
use keyboard::Keyboard;
use mouse::Mouse;
use vstd::prelude::*;

verus! {

/// Keyboard and mouse together.
pub struct Input {
    keyboard: Keyboard,
    mouse: Mouse,
}

impl Input {
    /// The keys that are held.
    pub closed spec fn keys_down(&self) -> Set<Key> {
        self.keyboard.down()
    }

    /// The keys that went down since they were last asked for.
    pub closed spec fn keys_pressed(&self) -> Set<Key> {
        self.keyboard.pressed()
    }

    /// The buttons that are held.
    pub closed spec fn buttons_down(&self) -> Set<Button> {
        self.mouse.down()
    }

    /// The buttons that went down since they were last asked for.
    pub closed spec fn buttons_pressed(&self) -> Set<Button> {
        self.mouse.pressed()
    }

    /// Where the pointer was last seen.
    pub closed spec fn pointer(&self) -> (i32, i32) {
        self.mouse.pointer()
    }

    /// Whether nothing but the keys changed between `before` and `self`.
    pub open spec fn same_mouse(&self, before: &Input) -> bool {
        &&& self.buttons_down() == before.buttons_down()
        &&& self.buttons_pressed() == before.buttons_pressed()
        &&& self.pointer() == before.pointer()
    }

    /// Whether nothing but the mouse changed between `before` and `self`.
    pub open spec fn same_keys(&self, before: &Input) -> bool {
        &&& self.keys_down() == before.keys_down()
        &&& self.keys_pressed() == before.keys_pressed()
    }

    /// The state before any event.
    pub fn new() -> (input: Input)
        ensures
            input.keys_down() == Set::<Key>::empty(),
            input.keys_pressed() == Set::<Key>::empty(),
            input.buttons_down() == Set::<Button>::empty(),
            input.buttons_pressed() == Set::<Button>::empty(),
            input.pointer() == (0i32, 0i32),
    {
        Input { keyboard: Keyboard::new(), mouse: Mouse::new() }
    }

    /// A key went down.
    pub fn key_down(&mut self, code: &str)
        ensures
            final(self).same_mouse(old(self)),
            match Key::named(code@) {
                Some(key) => {
                    &&& final(self).keys_down() == old(self).keys_down().insert(key)
                    &&& final(self).keys_pressed() == old(self).keys_pressed().insert(key)
                },
                None => final(self).same_keys(old(self)),
            },
    {
        self.keyboard.key_down(code);
    }

    /// A key went up.
    pub fn key_up(&mut self, code: &str)
        ensures
            final(self).same_mouse(old(self)),
            final(self).keys_pressed() == old(self).keys_pressed(),
            match Key::named(code@) {
                Some(key) => final(self).keys_down() == old(self).keys_down().remove(key),
                None => final(self).keys_down() == old(self).keys_down(),
            },
    {
        self.keyboard.key_up(code);
    }

    /// A mouse button went down.
    pub fn mouse_down(&mut self, code: i16)
        ensures
            final(self).same_keys(old(self)),
            final(self).pointer() == old(self).pointer(),
            match Button::numbered(code as int) {
                Some(button) => {
                    &&& final(self).buttons_down() == old(self).buttons_down().insert(button)
                    &&& final(self).buttons_pressed() == old(self).buttons_pressed().insert(
                        button,
                    )
                },
                None => final(self).same_mouse(old(self)),
            },
    {
        self.mouse.mouse_down(code);
    }

    /// A mouse button went up.
    pub fn mouse_up(&mut self, code: i16)
        ensures
            final(self).same_keys(old(self)),
            final(self).pointer() == old(self).pointer(),
            final(self).buttons_pressed() == old(self).buttons_pressed(),
            match Button::numbered(code as int) {
                Some(button) => final(self).buttons_down() == old(self).buttons_down().remove(
                    button,
                ),
                None => final(self).buttons_down() == old(self).buttons_down(),
            },
    {
        self.mouse.mouse_up(code);
    }

    /// The pointer moved to `(x, y)`.
    pub fn mouse_move(&mut self, x: i32, y: i32)
        ensures
            final(self).same_keys(old(self)),
            final(self).pointer() == (x, y),
            final(self).buttons_down() == old(self).buttons_down(),
            final(self).buttons_pressed() == old(self).buttons_pressed(),
    {
        self.mouse.mouse_move(x, y);
    }

    /// The window lost the focus: nothing is held any more. What was
    /// pressed and not yet asked for stays so.
    pub fn blur(&mut self)
        ensures
            final(self).keys_down() == Set::<Key>::empty(),
            final(self).buttons_down() == Set::<Button>::empty(),
            final(self).keys_pressed() == old(self).keys_pressed(),
            final(self).buttons_pressed() == old(self).buttons_pressed(),
            final(self).pointer() == old(self).pointer(),
    {
        self.keyboard.release_all();
        self.mouse.release_all();
    }

    /// Whether `button` is held.
    pub fn is_button_down(&self, button: Button) -> (held: bool)
        ensures
            held == self.buttons_down().contains(button),
    {
        mouse::is_down(&self.mouse, button)
    }

    /// Whether `button` went down since this was last asked of it.
    pub fn is_button_pressed(&mut self, button: Button) -> (was_pressed: bool)
        ensures
            was_pressed == old(self).buttons_pressed().contains(button),
            final(self).buttons_pressed() == old(self).buttons_pressed().remove(button),
            final(self).buttons_down() == old(self).buttons_down(),
            final(self).pointer() == old(self).pointer(),
            final(self).same_keys(old(self)),
    {
        mouse::is_pressed(&mut self.mouse, button)
    }

    /// Where the pointer was last seen.
    pub fn position(&self) -> (at: (i32, i32))
        ensures
            at == self.pointer(),
    {
        mouse::position(&self.mouse)
    }

    /// Whether `key` is held.
    pub fn is_key_down(&self, key: Key) -> (held: bool)
        ensures
            held == self.keys_down().contains(key),
    {
        keyboard::is_down(&self.keyboard, key)
    }

    /// Whether `key` went down since this was last asked of it.
    pub fn is_key_pressed(&mut self, key: Key) -> (was_pressed: bool)
        ensures
            was_pressed == old(self).keys_pressed().contains(key),
            final(self).keys_pressed() == old(self).keys_pressed().remove(key),
            final(self).keys_down() == old(self).keys_down(),
            final(self).same_mouse(old(self)),
    {
        keyboard::is_pressed(&mut self.keyboard, key)
    }
}

/// Whether `key` is held.
pub fn is_key_down(input: &Input, key: Key) -> (held: bool)
    ensures
        held == input.keys_down().contains(key),
{
    input.is_key_down(key)
}

/// Whether `key` went down since this was last asked of it. Asking takes
/// the key out of the pressed keys.
pub fn is_key_pressed(input: &mut Input, key: Key) -> (was_pressed: bool)
    ensures
        was_pressed == old(input).keys_pressed().contains(key),
        final(input).keys_pressed() == old(input).keys_pressed().remove(key),
        final(input).keys_down() == old(input).keys_down(),
        final(input).same_mouse(old(input)),
{
    input.is_key_pressed(key)
}

/// Whether `button` is held.
pub fn is_button_down(input: &Input, button: Button) -> (held: bool)
    ensures
        held == input.buttons_down().contains(button),
{
    input.is_button_down(button)
}

/// Whether `button` went down since this was last asked of it. Asking takes
/// the button out of the pressed buttons.
pub fn is_button_pressed(input: &mut Input, button: Button) -> (was_pressed: bool)
    ensures
        was_pressed == old(input).buttons_pressed().contains(button),
        final(input).buttons_pressed() == old(input).buttons_pressed().remove(button),
        final(input).buttons_down() == old(input).buttons_down(),
        final(input).pointer() == old(input).pointer(),
        final(input).same_keys(old(input)),
{
    input.is_button_pressed(button)
}

/// Where the pointer was last seen.
pub fn mouse_position(input: &Input) -> (at: (i32, i32))
    ensures
        at == input.pointer(),
{
    input.position()
}

} // verus!
