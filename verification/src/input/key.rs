//! Keys of a keyboard, named by the codes that key events carry.
use crate::text::text_eq;
use vstd::prelude::*;

verus! {

/// A key of the keyboard, by its place on the board.
#[derive(Clone, Copy, Debug, PartialEq, Eq, PartialOrd, Ord, Hash, Structural)]
pub enum Key {
    Digit0,
    Digit1,
    Digit2,
    Digit3,
    Digit4,
    Digit5,
    Digit6,
    Digit7,
    Digit8,
    Digit9,
    A,
    B,
    C,
    D,
    E,
    F,
    G,
    H,
    I,
    J,
    K,
    L,
    M,
    N,
    O,
    P,
    Q,
    R,
    S,
    T,
    U,
    V,
    W,
    X,
    Y,
    Z,
    ShiftLeft,
    ShiftRight,
    ControlLeft,
    ControlRight,
    AltLeft,
    AltRight,
    MetaLeft,
    MetaRight,
    Enter,
    Escape,
    Backspace,
    Tab,
    Space,
    ArrowUp,
    ArrowDown,
    ArrowLeft,
    ArrowRight,
    CapsLock,
}

/// Number of keys.
pub const KEY_COUNT: u8 = 54;

impl Key {
    /// The code by which key events name this key.
    pub open spec fn code(self) -> Seq<char> {
        match self {
            Key::Digit0 => "Digit0"@,
            Key::Digit1 => "Digit1"@,
            Key::Digit2 => "Digit2"@,
            Key::Digit3 => "Digit3"@,
            Key::Digit4 => "Digit4"@,
            Key::Digit5 => "Digit5"@,
            Key::Digit6 => "Digit6"@,
            Key::Digit7 => "Digit7"@,
            Key::Digit8 => "Digit8"@,
            Key::Digit9 => "Digit9"@,
            Key::A => "KeyA"@,
            Key::B => "KeyB"@,
            Key::C => "KeyC"@,
            Key::D => "KeyD"@,
            Key::E => "KeyE"@,
            Key::F => "KeyF"@,
            Key::G => "KeyG"@,
            Key::H => "KeyH"@,
            Key::I => "KeyI"@,
            Key::J => "KeyJ"@,
            Key::K => "KeyK"@,
            Key::L => "KeyL"@,
            Key::M => "KeyM"@,
            Key::N => "KeyN"@,
            Key::O => "KeyO"@,
            Key::P => "KeyP"@,
            Key::Q => "KeyQ"@,
            Key::R => "KeyR"@,
            Key::S => "KeyS"@,
            Key::T => "KeyT"@,
            Key::U => "KeyU"@,
            Key::V => "KeyV"@,
            Key::W => "KeyW"@,
            Key::X => "KeyX"@,
            Key::Y => "KeyY"@,
            Key::Z => "KeyZ"@,
            Key::ShiftLeft => "ShiftLeft"@,
            Key::ShiftRight => "ShiftRight"@,
            Key::ControlLeft => "ControlLeft"@,
            Key::ControlRight => "ControlRight"@,
            Key::AltLeft => "AltLeft"@,
            Key::AltRight => "AltRight"@,
            Key::MetaLeft => "MetaLeft"@,
            Key::MetaRight => "MetaRight"@,
            Key::Enter => "Enter"@,
            Key::Escape => "Escape"@,
            Key::Backspace => "Backspace"@,
            Key::Tab => "Tab"@,
            Key::Space => "Space"@,
            Key::ArrowUp => "ArrowUp"@,
            Key::ArrowDown => "ArrowDown"@,
            Key::ArrowLeft => "ArrowLeft"@,
            Key::ArrowRight => "ArrowRight"@,
            Key::CapsLock => "CapsLock"@,
        }
    }

    /// The place of the key in the declaration of `Key`, from zero.
    pub open spec fn ordinal(self) -> nat {
        match self {
            Key::Digit0 => 0,
            Key::Digit1 => 1,
            Key::Digit2 => 2,
            Key::Digit3 => 3,
            Key::Digit4 => 4,
            Key::Digit5 => 5,
            Key::Digit6 => 6,
            Key::Digit7 => 7,
            Key::Digit8 => 8,
            Key::Digit9 => 9,
            Key::A => 10,
            Key::B => 11,
            Key::C => 12,
            Key::D => 13,
            Key::E => 14,
            Key::F => 15,
            Key::G => 16,
            Key::H => 17,
            Key::I => 18,
            Key::J => 19,
            Key::K => 20,
            Key::L => 21,
            Key::M => 22,
            Key::N => 23,
            Key::O => 24,
            Key::P => 25,
            Key::Q => 26,
            Key::R => 27,
            Key::S => 28,
            Key::T => 29,
            Key::U => 30,
            Key::V => 31,
            Key::W => 32,
            Key::X => 33,
            Key::Y => 34,
            Key::Z => 35,
            Key::ShiftLeft => 36,
            Key::ShiftRight => 37,
            Key::ControlLeft => 38,
            Key::ControlRight => 39,
            Key::AltLeft => 40,
            Key::AltRight => 41,
            Key::MetaLeft => 42,
            Key::MetaRight => 43,
            Key::Enter => 44,
            Key::Escape => 45,
            Key::Backspace => 46,
            Key::Tab => 47,
            Key::Space => 48,
            Key::ArrowUp => 49,
            Key::ArrowDown => 50,
            Key::ArrowLeft => 51,
            Key::ArrowRight => 52,
            Key::CapsLock => 53,
        }
    }

    /// The place of the key in the declaration of `Key`, from zero.
    pub fn position(self) -> (place: u8)
        ensures
            place == self.ordinal(),
            place < KEY_COUNT,
    {
        match self {
            Key::Digit0 => 0,
            Key::Digit1 => 1,
            Key::Digit2 => 2,
            Key::Digit3 => 3,
            Key::Digit4 => 4,
            Key::Digit5 => 5,
            Key::Digit6 => 6,
            Key::Digit7 => 7,
            Key::Digit8 => 8,
            Key::Digit9 => 9,
            Key::A => 10,
            Key::B => 11,
            Key::C => 12,
            Key::D => 13,
            Key::E => 14,
            Key::F => 15,
            Key::G => 16,
            Key::H => 17,
            Key::I => 18,
            Key::J => 19,
            Key::K => 20,
            Key::L => 21,
            Key::M => 22,
            Key::N => 23,
            Key::O => 24,
            Key::P => 25,
            Key::Q => 26,
            Key::R => 27,
            Key::S => 28,
            Key::T => 29,
            Key::U => 30,
            Key::V => 31,
            Key::W => 32,
            Key::X => 33,
            Key::Y => 34,
            Key::Z => 35,
            Key::ShiftLeft => 36,
            Key::ShiftRight => 37,
            Key::ControlLeft => 38,
            Key::ControlRight => 39,
            Key::AltLeft => 40,
            Key::AltRight => 41,
            Key::MetaLeft => 42,
            Key::MetaRight => 43,
            Key::Enter => 44,
            Key::Escape => 45,
            Key::Backspace => 46,
            Key::Tab => 47,
            Key::Space => 48,
            Key::ArrowUp => 49,
            Key::ArrowDown => 50,
            Key::ArrowLeft => 51,
            Key::ArrowRight => 52,
            Key::CapsLock => 53,
        }
    }

    /// The key whose code is `code`, if there is one.
    pub open spec fn named(code: Seq<char>) -> Option<Key> {
        if exists|k: Key| #[trigger] k.code() == code {
            Some(choose|k: Key| #[trigger] k.code() == code)
        } else {
            None
        }
    }

    /// The key that `code` names, or `None` when it names no key.
    pub fn from_code(code: &str) -> (key: Option<Key>)
        ensures
            key == Key::named(code@),
    {
        let key = Key::lookup(code);
        proof {
            if let Some(found) = key {
                lemma_code_identifies_key(choose|k: Key| #[trigger] k.code() == code@, found);
            }
        }
        key
    }

    /// `code` compared with the code of every key in turn.
    fn lookup(code: &str) -> (key: Option<Key>)
        ensures
            match key {
                Some(k) => code@ == k.code(),
                None => forall|k: Key| code@ != #[trigger] k.code(),
            },
    {
        if text_eq(code, "Digit0") {
            return Some(Key::Digit0);
        }
        if text_eq(code, "Digit1") {
            return Some(Key::Digit1);
        }
        if text_eq(code, "Digit2") {
            return Some(Key::Digit2);
        }
        if text_eq(code, "Digit3") {
            return Some(Key::Digit3);
        }
        if text_eq(code, "Digit4") {
            return Some(Key::Digit4);
        }
        if text_eq(code, "Digit5") {
            return Some(Key::Digit5);
        }
        if text_eq(code, "Digit6") {
            return Some(Key::Digit6);
        }
        if text_eq(code, "Digit7") {
            return Some(Key::Digit7);
        }
        if text_eq(code, "Digit8") {
            return Some(Key::Digit8);
        }
        if text_eq(code, "Digit9") {
            return Some(Key::Digit9);
        }
        if text_eq(code, "KeyA") {
            return Some(Key::A);
        }
        if text_eq(code, "KeyB") {
            return Some(Key::B);
        }
        if text_eq(code, "KeyC") {
            return Some(Key::C);
        }
        if text_eq(code, "KeyD") {
            return Some(Key::D);
        }
        if text_eq(code, "KeyE") {
            return Some(Key::E);
        }
        if text_eq(code, "KeyF") {
            return Some(Key::F);
        }
        if text_eq(code, "KeyG") {
            return Some(Key::G);
        }
        if text_eq(code, "KeyH") {
            return Some(Key::H);
        }
        if text_eq(code, "KeyI") {
            return Some(Key::I);
        }
        if text_eq(code, "KeyJ") {
            return Some(Key::J);
        }
        if text_eq(code, "KeyK") {
            return Some(Key::K);
        }
        if text_eq(code, "KeyL") {
            return Some(Key::L);
        }
        if text_eq(code, "KeyM") {
            return Some(Key::M);
        }
        if text_eq(code, "KeyN") {
            return Some(Key::N);
        }
        if text_eq(code, "KeyO") {
            return Some(Key::O);
        }
        if text_eq(code, "KeyP") {
            return Some(Key::P);
        }
        if text_eq(code, "KeyQ") {
            return Some(Key::Q);
        }
        if text_eq(code, "KeyR") {
            return Some(Key::R);
        }
        if text_eq(code, "KeyS") {
            return Some(Key::S);
        }
        if text_eq(code, "KeyT") {
            return Some(Key::T);
        }
        if text_eq(code, "KeyU") {
            return Some(Key::U);
        }
        if text_eq(code, "KeyV") {
            return Some(Key::V);
        }
        if text_eq(code, "KeyW") {
            return Some(Key::W);
        }
        if text_eq(code, "KeyX") {
            return Some(Key::X);
        }
        if text_eq(code, "KeyY") {
            return Some(Key::Y);
        }
        if text_eq(code, "KeyZ") {
            return Some(Key::Z);
        }
        if text_eq(code, "ShiftLeft") {
            return Some(Key::ShiftLeft);
        }
        if text_eq(code, "ShiftRight") {
            return Some(Key::ShiftRight);
        }
        if text_eq(code, "ControlLeft") {
            return Some(Key::ControlLeft);
        }
        if text_eq(code, "ControlRight") {
            return Some(Key::ControlRight);
        }
        if text_eq(code, "AltLeft") {
            return Some(Key::AltLeft);
        }
        if text_eq(code, "AltRight") {
            return Some(Key::AltRight);
        }
        if text_eq(code, "MetaLeft") {
            return Some(Key::MetaLeft);
        }
        if text_eq(code, "MetaRight") {
            return Some(Key::MetaRight);
        }
        if text_eq(code, "Enter") {
            return Some(Key::Enter);
        }
        if text_eq(code, "Escape") {
            return Some(Key::Escape);
        }
        if text_eq(code, "Backspace") {
            return Some(Key::Backspace);
        }
        if text_eq(code, "Tab") {
            return Some(Key::Tab);
        }
        if text_eq(code, "Space") {
            return Some(Key::Space);
        }
        if text_eq(code, "ArrowUp") {
            return Some(Key::ArrowUp);
        }
        if text_eq(code, "ArrowDown") {
            return Some(Key::ArrowDown);
        }
        if text_eq(code, "ArrowLeft") {
            return Some(Key::ArrowLeft);
        }
        if text_eq(code, "ArrowRight") {
            return Some(Key::ArrowRight);
        }
        if text_eq(code, "CapsLock") {
            return Some(Key::CapsLock);
        }
        None
    }
}

/// A key is found again by its code.
pub proof fn lemma_named_by_code(key: Key)
    ensures
        Key::named(key.code()) == Some(key),
{
    lemma_code_identifies_key(choose|k: Key| #[trigger] k.code() == key.code(), key);
}

/// No two keys share a place.
pub proof fn lemma_ordinal_identifies_key(a: Key, b: Key)
    requires
        a.ordinal() == b.ordinal(),
    ensures
        a == b,
{
}

/// No two keys share a code: the code identifies the key.
pub proof fn lemma_code_identifies_key(a: Key, b: Key)
    requires
        a.code() == b.code(),
    ensures
        a == b,
{
    reveal_strlit("Digit0");
    reveal_strlit("Digit1");
    reveal_strlit("Digit2");
    reveal_strlit("Digit3");
    reveal_strlit("Digit4");
    reveal_strlit("Digit5");
    reveal_strlit("Digit6");
    reveal_strlit("Digit7");
    reveal_strlit("Digit8");
    reveal_strlit("Digit9");
    reveal_strlit("KeyA");
    reveal_strlit("KeyB");
    reveal_strlit("KeyC");
    reveal_strlit("KeyD");
    reveal_strlit("KeyE");
    reveal_strlit("KeyF");
    reveal_strlit("KeyG");
    reveal_strlit("KeyH");
    reveal_strlit("KeyI");
    reveal_strlit("KeyJ");
    reveal_strlit("KeyK");
    reveal_strlit("KeyL");
    reveal_strlit("KeyM");
    reveal_strlit("KeyN");
    reveal_strlit("KeyO");
    reveal_strlit("KeyP");
    reveal_strlit("KeyQ");
    reveal_strlit("KeyR");
    reveal_strlit("KeyS");
    reveal_strlit("KeyT");
    reveal_strlit("KeyU");
    reveal_strlit("KeyV");
    reveal_strlit("KeyW");
    reveal_strlit("KeyX");
    reveal_strlit("KeyY");
    reveal_strlit("KeyZ");
    reveal_strlit("ShiftLeft");
    reveal_strlit("ShiftRight");
    reveal_strlit("ControlLeft");
    reveal_strlit("ControlRight");
    reveal_strlit("AltLeft");
    reveal_strlit("AltRight");
    reveal_strlit("MetaLeft");
    reveal_strlit("MetaRight");
    reveal_strlit("Enter");
    reveal_strlit("Escape");
    reveal_strlit("Backspace");
    reveal_strlit("Tab");
    reveal_strlit("Space");
    reveal_strlit("ArrowUp");
    reveal_strlit("ArrowDown");
    reveal_strlit("ArrowLeft");
    reveal_strlit("ArrowRight");
    reveal_strlit("CapsLock");
    let shared = b.code();
    match a {
        Key::Digit0 => {
            assert(shared.len() == 6);
            assert(shared[0] == 'D');
            assert(shared[3] == 'i');
            assert(shared[5] == '0');
        },
        Key::Digit1 => {
            assert(shared.len() == 6);
            assert(shared[0] == 'D');
            assert(shared[3] == 'i');
            assert(shared[5] == '1');
        },
        Key::Digit2 => {
            assert(shared.len() == 6);
            assert(shared[0] == 'D');
            assert(shared[3] == 'i');
            assert(shared[5] == '2');
        },
        Key::Digit3 => {
            assert(shared.len() == 6);
            assert(shared[0] == 'D');
            assert(shared[3] == 'i');
            assert(shared[5] == '3');
        },
        Key::Digit4 => {
            assert(shared.len() == 6);
            assert(shared[0] == 'D');
            assert(shared[3] == 'i');
            assert(shared[5] == '4');
        },
        Key::Digit5 => {
            assert(shared.len() == 6);
            assert(shared[0] == 'D');
            assert(shared[3] == 'i');
            assert(shared[5] == '5');
        },
        Key::Digit6 => {
            assert(shared.len() == 6);
            assert(shared[0] == 'D');
            assert(shared[3] == 'i');
            assert(shared[5] == '6');
        },
        Key::Digit7 => {
            assert(shared.len() == 6);
            assert(shared[0] == 'D');
            assert(shared[3] == 'i');
            assert(shared[5] == '7');
        },
        Key::Digit8 => {
            assert(shared.len() == 6);
            assert(shared[0] == 'D');
            assert(shared[3] == 'i');
            assert(shared[5] == '8');
        },
        Key::Digit9 => {
            assert(shared.len() == 6);
            assert(shared[0] == 'D');
            assert(shared[3] == 'i');
            assert(shared[5] == '9');
        },
        Key::A => {
            assert(shared.len() == 4);
            assert(shared[0] == 'K');
            assert(shared[3] == 'A');
        },
        Key::B => {
            assert(shared.len() == 4);
            assert(shared[0] == 'K');
            assert(shared[3] == 'B');
        },
        Key::C => {
            assert(shared.len() == 4);
            assert(shared[0] == 'K');
            assert(shared[3] == 'C');
        },
        Key::D => {
            assert(shared.len() == 4);
            assert(shared[0] == 'K');
            assert(shared[3] == 'D');
        },
        Key::E => {
            assert(shared.len() == 4);
            assert(shared[0] == 'K');
            assert(shared[3] == 'E');
        },
        Key::F => {
            assert(shared.len() == 4);
            assert(shared[0] == 'K');
            assert(shared[3] == 'F');
        },
        Key::G => {
            assert(shared.len() == 4);
            assert(shared[0] == 'K');
            assert(shared[3] == 'G');
        },
        Key::H => {
            assert(shared.len() == 4);
            assert(shared[0] == 'K');
            assert(shared[3] == 'H');
        },
        Key::I => {
            assert(shared.len() == 4);
            assert(shared[0] == 'K');
            assert(shared[3] == 'I');
        },
        Key::J => {
            assert(shared.len() == 4);
            assert(shared[0] == 'K');
            assert(shared[3] == 'J');
        },
        Key::K => {
            assert(shared.len() == 4);
            assert(shared[0] == 'K');
            assert(shared[3] == 'K');
        },
        Key::L => {
            assert(shared.len() == 4);
            assert(shared[0] == 'K');
            assert(shared[3] == 'L');
        },
        Key::M => {
            assert(shared.len() == 4);
            assert(shared[0] == 'K');
            assert(shared[3] == 'M');
        },
        Key::N => {
            assert(shared.len() == 4);
            assert(shared[0] == 'K');
            assert(shared[3] == 'N');
        },
        Key::O => {
            assert(shared.len() == 4);
            assert(shared[0] == 'K');
            assert(shared[3] == 'O');
        },
        Key::P => {
            assert(shared.len() == 4);
            assert(shared[0] == 'K');
            assert(shared[3] == 'P');
        },
        Key::Q => {
            assert(shared.len() == 4);
            assert(shared[0] == 'K');
            assert(shared[3] == 'Q');
        },
        Key::R => {
            assert(shared.len() == 4);
            assert(shared[0] == 'K');
            assert(shared[3] == 'R');
        },
        Key::S => {
            assert(shared.len() == 4);
            assert(shared[0] == 'K');
            assert(shared[3] == 'S');
        },
        Key::T => {
            assert(shared.len() == 4);
            assert(shared[0] == 'K');
            assert(shared[3] == 'T');
        },
        Key::U => {
            assert(shared.len() == 4);
            assert(shared[0] == 'K');
            assert(shared[3] == 'U');
        },
        Key::V => {
            assert(shared.len() == 4);
            assert(shared[0] == 'K');
            assert(shared[3] == 'V');
        },
        Key::W => {
            assert(shared.len() == 4);
            assert(shared[0] == 'K');
            assert(shared[3] == 'W');
        },
        Key::X => {
            assert(shared.len() == 4);
            assert(shared[0] == 'K');
            assert(shared[3] == 'X');
        },
        Key::Y => {
            assert(shared.len() == 4);
            assert(shared[0] == 'K');
            assert(shared[3] == 'Y');
        },
        Key::Z => {
            assert(shared.len() == 4);
            assert(shared[0] == 'K');
            assert(shared[3] == 'Z');
        },
        Key::ShiftLeft => {
            assert(shared.len() == 9);
            assert(shared[0] == 'S');
            assert(shared[3] == 'f');
            assert(shared[5] == 'L');
        },
        Key::ShiftRight => {
            assert(shared.len() == 10);
            assert(shared[0] == 'S');
            assert(shared[3] == 'f');
            assert(shared[5] == 'R');
        },
        Key::ControlLeft => {
            assert(shared.len() == 11);
            assert(shared[0] == 'C');
            assert(shared[3] == 't');
            assert(shared[5] == 'o');
        },
        Key::ControlRight => {
            assert(shared.len() == 12);
            assert(shared[0] == 'C');
            assert(shared[3] == 't');
            assert(shared[5] == 'o');
        },
        Key::AltLeft => {
            assert(shared.len() == 7);
            assert(shared[0] == 'A');
            assert(shared[3] == 'L');
            assert(shared[5] == 'f');
        },
        Key::AltRight => {
            assert(shared.len() == 8);
            assert(shared[0] == 'A');
            assert(shared[3] == 'R');
            assert(shared[5] == 'g');
        },
        Key::MetaLeft => {
            assert(shared.len() == 8);
            assert(shared[0] == 'M');
            assert(shared[3] == 'a');
            assert(shared[5] == 'e');
        },
        Key::MetaRight => {
            assert(shared.len() == 9);
            assert(shared[0] == 'M');
            assert(shared[3] == 'a');
            assert(shared[5] == 'i');
        },
        Key::Enter => {
            assert(shared.len() == 5);
            assert(shared[0] == 'E');
            assert(shared[3] == 'e');
        },
        Key::Escape => {
            assert(shared.len() == 6);
            assert(shared[0] == 'E');
            assert(shared[3] == 'a');
            assert(shared[5] == 'e');
        },
        Key::Backspace => {
            assert(shared.len() == 9);
            assert(shared[0] == 'B');
            assert(shared[3] == 'k');
            assert(shared[5] == 'p');
        },
        Key::Tab => {
            assert(shared.len() == 3);
            assert(shared[0] == 'T');
        },
        Key::Space => {
            assert(shared.len() == 5);
            assert(shared[0] == 'S');
            assert(shared[3] == 'c');
        },
        Key::ArrowUp => {
            assert(shared.len() == 7);
            assert(shared[0] == 'A');
            assert(shared[3] == 'o');
            assert(shared[5] == 'U');
        },
        Key::ArrowDown => {
            assert(shared.len() == 9);
            assert(shared[0] == 'A');
            assert(shared[3] == 'o');
            assert(shared[5] == 'D');
        },
        Key::ArrowLeft => {
            assert(shared.len() == 9);
            assert(shared[0] == 'A');
            assert(shared[3] == 'o');
            assert(shared[5] == 'L');
        },
        Key::ArrowRight => {
            assert(shared.len() == 10);
            assert(shared[0] == 'A');
            assert(shared[3] == 'o');
            assert(shared[5] == 'R');
        },
        Key::CapsLock => {
            assert(shared.len() == 8);
            assert(shared[0] == 'C');
            assert(shared[3] == 's');
            assert(shared[5] == 'o');
        },
    }
}

} // verus!
