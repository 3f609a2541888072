//! Which keys are held, and which were pressed and not yet asked for.
use crate::input::flags::Flags;
use crate::input::key::{lemma_ordinal_identifies_key, Key};
use vstd::prelude::*;

verus! {

/// The state of the keyboard, as the key events seen so far leave it.
pub struct Keyboard {
    keys_down: Flags,
    keys_pressed: Flags,
}

impl Keyboard {
    /// The keys that are held.
    pub closed spec fn down(&self) -> Set<Key> {
        Set::new(|key: Key| self.keys_down.has(key.ordinal()))
    }

    /// The keys that went down since they were last asked for.
    pub closed spec fn pressed(&self) -> Set<Key> {
        Set::new(|key: Key| self.keys_pressed.has(key.ordinal()))
    }

    /// A keyboard on which nothing was pressed yet.
    pub fn new() -> (keyboard: Keyboard)
        ensures
            keyboard.down() == Set::<Key>::empty(),
            keyboard.pressed() == Set::<Key>::empty(),
    {
        let keyboard = Keyboard { keys_down: Flags::new(), keys_pressed: Flags::new() };
        assert(keyboard.down() =~= Set::<Key>::empty());
        assert(keyboard.pressed() =~= Set::<Key>::empty());
        keyboard
    }

    /// A key went down: the key that `code` names is now held and pressed.
    /// A code that names no key changes nothing.
    pub fn key_down(&mut self, code: &str)
        ensures
            match Key::named(code@) {
                Some(key) => {
                    &&& final(self).down() == old(self).down().insert(key)
                    &&& final(self).pressed() == old(self).pressed().insert(key)
                },
                None => {
                    &&& final(self).down() == old(self).down()
                    &&& final(self).pressed() == old(self).pressed()
                },
            },
    {
        if let Some(key) = Key::from_code(code) {
            self.keys_down.insert(key.position());
            self.keys_pressed.insert(key.position());
            proof {
                assert forall|other: Key|
                    other.ordinal() == key.ordinal() implies other == key by {
                    lemma_ordinal_identifies_key(other, key);
                }
                assert(self.down() =~= old(self).down().insert(key));
                assert(self.pressed() =~= old(self).pressed().insert(key));
            }
        }
    }

    /// A key went up: the key that `code` names is no longer held. A code
    /// that names no key changes nothing.
    pub fn key_up(&mut self, code: &str)
        ensures
            final(self).pressed() == old(self).pressed(),
            match Key::named(code@) {
                Some(key) => final(self).down() == old(self).down().remove(key),
                None => final(self).down() == old(self).down(),
            },
    {
        if let Some(key) = Key::from_code(code) {
            self.keys_down.remove(key.position());
            proof {
                assert forall|other: Key|
                    other.ordinal() == key.ordinal() implies other == key by {
                    lemma_ordinal_identifies_key(other, key);
                }
                assert(self.down() =~= old(self).down().remove(key));
            }
        }
    }

    /// The keyboard was lost to another window: no key is held any more.
    pub fn release_all(&mut self)
        ensures
            final(self).down() == Set::<Key>::empty(),
            final(self).pressed() == old(self).pressed(),
    {
        self.keys_down = Flags::new();
        assert(self.down() =~= Set::<Key>::empty());
    }
}

/// Whether `key` is held.
pub fn is_down(keyboard: &Keyboard, key: Key) -> (held: bool)
    ensures
        held == keyboard.down().contains(key),
{
    keyboard.keys_down.contains(key.position())
}

/// Whether `key` went down since this was last asked of it. Asking takes
/// the key out of the pressed keys.
pub fn is_pressed(keyboard: &mut Keyboard, key: Key) -> (was_pressed: bool)
    ensures
        was_pressed == old(keyboard).pressed().contains(key),
        final(keyboard).pressed() == old(keyboard).pressed().remove(key),
        final(keyboard).down() == old(keyboard).down(),
{
    let was_pressed = keyboard.keys_pressed.contains(key.position());
    keyboard.keys_pressed.remove(key.position());
    proof {
        assert forall|other: Key| other.ordinal() == key.ordinal() implies other == key by {
            lemma_ordinal_identifies_key(other, key);
        }
        assert(keyboard.pressed() =~= old(keyboard).pressed().remove(key));
    }
    was_pressed
}

} // verus!
