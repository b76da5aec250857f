use vstd::prelude::*;
use vstd::std_specs::convert::TryFromSpecImpl;

verus! {

/// The keys that are recognized. They are centered on an AZERTY keyboard's
/// essential keys needed for games.
#[derive(PartialEq, Eq, Structural, Hash, Clone, Copy, Debug)]
pub enum Key {
    KeyA,
    KeyZ,
    KeyE,
    KeyQ,
    KeyS,
    KeyD,
    KeyW,
    KeyX,
    KeyC,
    Up,
    Down,
    Left,
    Right,
}

/// Number of variants of `Key`.
pub const KEY_COUNT: usize = 13;

impl Key {
    /// Position of the key in declaration order.
    pub open spec fn index(self) -> int {
        match self {
            Key::KeyA => 0,
            Key::KeyZ => 1,
            Key::KeyE => 2,
            Key::KeyQ => 3,
            Key::KeyS => 4,
            Key::KeyD => 5,
            Key::KeyW => 6,
            Key::KeyX => 7,
            Key::KeyC => 8,
            Key::Up => 9,
            Key::Down => 10,
            Key::Left => 11,
            Key::Right => 12,
        }
    }

    /// The key at a position in declaration order.
    pub open spec fn at_index(i: int) -> Key {
        if i == 0 {
            Key::KeyA
        } else if i == 1 {
            Key::KeyZ
        } else if i == 2 {
            Key::KeyE
        } else if i == 3 {
            Key::KeyQ
        } else if i == 4 {
            Key::KeyS
        } else if i == 5 {
            Key::KeyD
        } else if i == 6 {
            Key::KeyW
        } else if i == 7 {
            Key::KeyX
        } else if i == 8 {
            Key::KeyC
        } else if i == 9 {
            Key::Up
        } else if i == 10 {
            Key::Down
        } else if i == 11 {
            Key::Left
        } else {
            Key::Right
        }
    }

    /// Position of the key in declaration order.
    pub fn ordinal(&self) -> (i: usize)
        ensures
            i == self.index(),
            i < KEY_COUNT,
    {
        match self {
            Key::KeyA => 0,
            Key::KeyZ => 1,
            Key::KeyE => 2,
            Key::KeyQ => 3,
            Key::KeyS => 4,
            Key::KeyD => 5,
            Key::KeyW => 6,
            Key::KeyX => 7,
            Key::KeyC => 8,
            Key::Up => 9,
            Key::Down => 10,
            Key::Left => 11,
            Key::Right => 12,
        }
    }

    /// The key at position `i` in declaration order.
    pub fn from_ordinal(i: usize) -> (k: Key)
        requires
            i < KEY_COUNT,
        ensures
            k == Key::at_index(i as int),
            k.index() == i,
    {
        if i == 0 {
            Key::KeyA
        } else if i == 1 {
            Key::KeyZ
        } else if i == 2 {
            Key::KeyE
        } else if i == 3 {
            Key::KeyQ
        } else if i == 4 {
            Key::KeyS
        } else if i == 5 {
            Key::KeyD
        } else if i == 6 {
            Key::KeyW
        } else if i == 7 {
            Key::KeyX
        } else if i == 8 {
            Key::KeyC
        } else if i == 9 {
            Key::Up
        } else if i == 10 {
            Key::Down
        } else if i == 11 {
            Key::Left
        } else {
            Key::Right
        }
    }
}

/// Every key sits at its own position: `at_index` undoes `index`.
pub proof fn lemma_key_index_roundtrip(k: Key)
    ensures
        0 <= k.index() < KEY_COUNT,
        Key::at_index(k.index()) == k,
{
}

/// A logical keyboard key as the windowing system reports it: the named keys
/// that this library reacts to, the text a key produces, or anything else.
#[derive(PartialEq, Eq, Debug)]
pub enum LogicalKey {
    ArrowLeft,
    ArrowRight,
    ArrowUp,
    ArrowDown,
    Escape,
    Space,
    /// A key that produces text.
    Character(String),
    /// Any other key.
    Unrecognized,
}

/// Whether a keyboard event presses or releases its key.
#[derive(PartialEq, Eq, Structural, Clone, Copy, Debug)]
pub enum ElementState {
    Pressed,
    Released,
}

/// The recognized key that a logical key stands for, if any.
pub open spec fn key_of(k: LogicalKey) -> Option<Key> {
    match k {
        LogicalKey::ArrowLeft => Some(Key::Left),
        LogicalKey::ArrowRight => Some(Key::Right),
        LogicalKey::ArrowUp => Some(Key::Up),
        LogicalKey::ArrowDown => Some(Key::Down),
        LogicalKey::Character(name) => key_of_text(name@),
        _ => None,
    }
}

/// The recognized key whose text is exactly `text`, if any: only the
/// one-character texts `a z e q s d w x c` name a key.
pub open spec fn key_of_text(text: Seq<char>) -> Option<Key> {
    if text.len() == 1 {
        key_of_char(text[0])
    } else {
        None
    }
}

/// The recognized key that the character `c` names, if any.
pub open spec fn key_of_char(c: char) -> Option<Key> {
    match c {
        'q' => Some(Key::KeyQ),
        'd' => Some(Key::KeyD),
        'z' => Some(Key::KeyZ),
        's' => Some(Key::KeyS),
        'a' => Some(Key::KeyA),
        'e' => Some(Key::KeyE),
        'w' => Some(Key::KeyW),
        'x' => Some(Key::KeyX),
        'c' => Some(Key::KeyC),
        _ => None,
    }
}

/// The recognized key whose text is exactly `text`, if any.
fn key_of_str(text: &str) -> (r: Option<Key>)
    ensures
        r == key_of_text(text@),
{
    if text.unicode_len() == 1 {
        let c = text.get_char(0);
        match c {
            'q' => Some(Key::KeyQ),
            'd' => Some(Key::KeyD),
            'z' => Some(Key::KeyZ),
            's' => Some(Key::KeyS),
            'a' => Some(Key::KeyA),
            'e' => Some(Key::KeyE),
            'w' => Some(Key::KeyW),
            'x' => Some(Key::KeyX),
            'c' => Some(Key::KeyC),
            _ => None,
        }
    } else {
        None
    }
}

impl<'a> TryFrom<&'a LogicalKey> for Key {
    type Error = ();

    fn try_from(value: &'a LogicalKey) -> (r: Result<Key, ()>) {
        let k = match value {
            LogicalKey::ArrowLeft => Some(Key::Left),
            LogicalKey::ArrowRight => Some(Key::Right),
            LogicalKey::ArrowUp => Some(Key::Up),
            LogicalKey::ArrowDown => Some(Key::Down),
            LogicalKey::Character(name) => key_of_str(name.as_str()),
            _ => None,
        };
        match k {
            Some(k) => Ok(k),
            None => Err(()),
        }
    }
}

impl<'a> TryFromSpecImpl<&'a LogicalKey> for Key {
    open spec fn obeys_try_from_spec() -> bool {
        true
    }

    open spec fn try_from_spec(v: &'a LogicalKey) -> Result<Key, ()> {
        match key_of(*v) {
            Some(k) => Ok(k),
            None => Err(()),
        }
    }
}

} // verus!
