//! The keypad: sixteen keys, each operated by one key of a keyboard.

use vstd::prelude::*;

verus! {

/// A keyboard key, as far as the keypad cares: the sixteen keys of the
/// left-hand block, and everything else.
#[derive(Clone, Copy, Debug, PartialEq, Eq, Structural)]
pub enum Key {
    Num1,
    Num2,
    Num3,
    Num4,
    Q,
    W,
    E,
    R,
    A,
    S,
    D,
    F,
    Z,
    X,
    C,
    V,
    /// Any key that operates no keypad key.
    Other,
}

/// The keyboard key that operates each keypad key, by keypad index. The
/// keyboard block
///
/// ```text
/// 1 2 3 4        1 2 3 C
/// Q W E R  plays 4 5 6 D
/// A S D F        7 8 9 E
/// Z X C V        A 0 B F
/// ```
pub open spec fn layout() -> Seq<Key> {
    seq![
        Key::X,
        Key::Num1,
        Key::Num2,
        Key::Num3,
        Key::Q,
        Key::W,
        Key::E,
        Key::A,
        Key::S,
        Key::D,
        Key::Z,
        Key::C,
        Key::Num4,
        Key::R,
        Key::F,
        Key::V,
    ]
}

/// The keypad after `key` went down (`state` true) or up (`state` false):
/// the keypad key that `key` operates is 1 or 0, every other is as it was.
pub open spec fn keypress_spec(keys: Seq<u8>, key: Key, state: bool) -> Seq<u8> {
    Seq::new(
        16,
        |k: int|
            if layout()[k] == key {
                if state {
                    1u8
                } else {
                    0u8
                }
            } else {
                keys[k]
            },
    )
}

/// The keypad index that `key` operates, if it operates one.
pub fn key_index(key: Key) -> (index: Option<usize>)
    ensures
        match index {
            Some(k) => k < 16 && layout()[k as int] == key,
            None => forall|k: int| 0 <= k < 16 ==> layout()[k] != key,
        },
{
    match key {
        Key::Num1 => Some(0x1),
        Key::Num2 => Some(0x2),
        Key::Num3 => Some(0x3),
        Key::Num4 => Some(0xC),
        Key::Q => Some(0x4),
        Key::W => Some(0x5),
        Key::E => Some(0x6),
        Key::R => Some(0xD),
        Key::A => Some(0x7),
        Key::S => Some(0x8),
        Key::D => Some(0x9),
        Key::F => Some(0xE),
        Key::Z => Some(0xA),
        Key::X => Some(0x0),
        Key::C => Some(0xB),
        Key::V => Some(0xF),
        Key::Other => None,
    }
}

/// Records on the keypad `memory` that `key` went down (`state` true) or up
/// (`state` false).
pub fn handle_keypress(memory: &mut [u8; 16], key: Key, state: bool)
    ensures
        final(memory)@ == keypress_spec(old(memory)@, key, state),
{
    match key_index(key) {
        Some(k) => {
            memory[k] = if state { 1 } else { 0 };
        },
        None => {},
    }
}

} // verus!
