//! Which mouse buttons are held, which were pressed and not yet asked for,
//! and where the pointer is.
use crate::input::button::Button;
use crate::input::flags::Flags;
use vstd::prelude::*;

verus! {

/// The state of the mouse, as the mouse events seen so far leave it.
pub struct Mouse {
    buttons_down: Flags,
    buttons_pressed: Flags,
    mouse_pos: (i32, i32),
}

impl Mouse {
    /// The buttons that are held.
    pub closed spec fn down(&self) -> Set<Button> {
        Set::new(|button: Button| self.buttons_down.has(button.code() as nat))
    }

    /// The buttons that went down since they were last asked for.
    pub closed spec fn pressed(&self) -> Set<Button> {
        Set::new(|button: Button| self.buttons_pressed.has(button.code() as nat))
    }

    /// Where the pointer was last seen, in pixels from the corner of the
    /// page.
    pub closed spec fn pointer(&self) -> (i32, i32) {
        self.mouse_pos
    }

    /// A mouse that has not moved from the corner, with no button pressed
    /// yet.
    pub fn new() -> (mouse: Mouse)
        ensures
            mouse.down() == Set::<Button>::empty(),
            mouse.pressed() == Set::<Button>::empty(),
            mouse.pointer() == (0i32, 0i32),
    {
        let mouse = Mouse {
            buttons_down: Flags::new(),
            buttons_pressed: Flags::new(),
            mouse_pos: (0, 0),
        };
        assert(mouse.down() =~= Set::<Button>::empty());
        assert(mouse.pressed() =~= Set::<Button>::empty());
        mouse
    }

    /// A button went down: the button that `code` names is now held and
    /// pressed. A number that names no button changes nothing.
    pub fn mouse_down(&mut self, code: i16)
        ensures
            final(self).pointer() == old(self).pointer(),
            match Button::numbered(code as int) {
                Some(button) => {
                    &&& final(self).down() == old(self).down().insert(button)
                    &&& final(self).pressed() == old(self).pressed().insert(button)
                },
                None => {
                    &&& final(self).down() == old(self).down()
                    &&& final(self).pressed() == old(self).pressed()
                },
            },
    {
        if let Some(button) = Button::from_code(code) {
            self.buttons_down.insert(button.position());
            self.buttons_pressed.insert(button.position());
            assert(self.down() =~= old(self).down().insert(button));
            assert(self.pressed() =~= old(self).pressed().insert(button));
        }
    }

    /// A button went up: the button that `code` names is no longer held. A
    /// number that names no button changes nothing.
    pub fn mouse_up(&mut self, code: i16)
        ensures
            final(self).pointer() == old(self).pointer(),
            final(self).pressed() == old(self).pressed(),
            match Button::numbered(code as int) {
                Some(button) => final(self).down() == old(self).down().remove(button),
                None => final(self).down() == old(self).down(),
            },
    {
        if let Some(button) = Button::from_code(code) {
            self.buttons_down.remove(button.position());
            assert(self.down() =~= old(self).down().remove(button));
        }
    }

    /// The pointer moved to `(x, y)`.
    pub fn mouse_move(&mut self, x: i32, y: i32)
        ensures
            final(self).pointer() == (x, y),
            final(self).down() == old(self).down(),
            final(self).pressed() == old(self).pressed(),
    {
        self.mouse_pos = (x, y);
    }

    /// The mouse was lost to another window: no button is held any more.
    pub fn release_all(&mut self)
        ensures
            final(self).down() == Set::<Button>::empty(),
            final(self).pressed() == old(self).pressed(),
            final(self).pointer() == old(self).pointer(),
    {
        self.buttons_down = Flags::new();
        assert(self.down() =~= Set::<Button>::empty());
    }
}

/// Whether `button` is held.
pub fn is_down(mouse: &Mouse, button: Button) -> (held: bool)
    ensures
        held == mouse.down().contains(button),
{
    mouse.buttons_down.contains(button.position())
}

/// Whether `button` went down since this was last asked of it. Asking takes
/// the button out of the pressed buttons.
pub fn is_pressed(mouse: &mut Mouse, button: Button) -> (was_pressed: bool)
    ensures
        was_pressed == old(mouse).pressed().contains(button),
        final(mouse).pressed() == old(mouse).pressed().remove(button),
        final(mouse).down() == old(mouse).down(),
        final(mouse).pointer() == old(mouse).pointer(),
{
    let was_pressed = mouse.buttons_pressed.contains(button.position());
    mouse.buttons_pressed.remove(button.position());
    assert(mouse.pressed() =~= old(mouse).pressed().remove(button));
    was_pressed
}

/// Where the pointer was last seen.
pub fn position(mouse: &Mouse) -> (at: (i32, i32))
    ensures
        at == mouse.pointer(),
{
    mouse.mouse_pos
}

} // verus!
