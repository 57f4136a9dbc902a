//! The hexadecimal keypad and its mapping onto a host keyboard.
//!
//! ```text
//! Keypad       Keyboard
//! 1 2 3 C      1 2 3 4
//! 4 5 6 D      Q W E R
//! 7 8 9 E      A S D F
//! A 0 B F      Z X C V
//! ```
use vstd::prelude::*;
use vstd::string::*;

verus! {

/// A single keystroke as typed on a host keyboard.
pub type Key = String;

/// Why a key or a keypad value could not be translated.
#[derive(Debug, Clone, Copy, PartialEq, Eq, Structural)]
pub enum KeyError {
    /// The byte is not a keypad value (it is above 0xF).
    UnmappedByte(u8),
    /// The keystroke is not one of the sixteen mapped keys.
    UnmappedKey,
    /// No keystroke was given.
    NoInput,
}

/// The host key (upper case) that stands for keypad value `b`.
pub open spec fn key_char(b: u8) -> char {
    if b == 0x0 { 'X' }
    else if b == 0x1 { '1' }
    else if b == 0x2 { '2' }
    else if b == 0x3 { '3' }
    else if b == 0x4 { 'Q' }
    else if b == 0x5 { 'W' }
    else if b == 0x6 { 'E' }
    else if b == 0x7 { 'A' }
    else if b == 0x8 { 'S' }
    else if b == 0x9 { 'D' }
    else if b == 0xA { 'Z' }
    else if b == 0xB { 'C' }
    else if b == 0xC { '4' }
    else if b == 0xD { 'R' }
    else if b == 0xE { 'F' }
    else { 'V' }
}

/// The keypad value of a host key, ignoring ASCII case.
pub open spec fn nibble_of_char(c: char) -> Option<u8> {
    match c {
        'x' | 'X' => Some(0x0u8),
        '1' => Some(0x1u8),
        '2' => Some(0x2u8),
        '3' => Some(0x3u8),
        'q' | 'Q' => Some(0x4u8),
        'w' | 'W' => Some(0x5u8),
        'e' | 'E' => Some(0x6u8),
        'a' | 'A' => Some(0x7u8),
        's' | 'S' => Some(0x8u8),
        'd' | 'D' => Some(0x9u8),
        'z' | 'Z' => Some(0xAu8),
        'c' | 'C' => Some(0xBu8),
        '4' => Some(0xCu8),
        'r' | 'R' => Some(0xDu8),
        'f' | 'F' => Some(0xEu8),
        'v' | 'V' => Some(0xFu8),
        _ => None,
    }
}

/// Whether a string of keystrokes holds the key for keypad value `key`.
pub open spec fn holds_key(input: Seq<char>, key: u8) -> bool {
    exists|i: int| 0 <= i < input.len() && #[trigger] nibble_of_char(input[i]) == Some(key)
}

/// The host key for a keypad value.
pub fn map(byte: u8) -> (r: Result<Key, KeyError>)
    ensures
        byte < 16 ==> (r matches Ok(k) && k@ == seq![key_char(byte)]),
        byte >= 16 ==> r == Err::<Key, KeyError>(KeyError::UnmappedByte(byte)),
{
    let s: &str = match byte {
        0x00 => { proof { reveal_strlit("X"); } "X" },
        0x01 => { proof { reveal_strlit("1"); } "1" },
        0x02 => { proof { reveal_strlit("2"); } "2" },
        0x03 => { proof { reveal_strlit("3"); } "3" },
        0x04 => { proof { reveal_strlit("Q"); } "Q" },
        0x05 => { proof { reveal_strlit("W"); } "W" },
        0x06 => { proof { reveal_strlit("E"); } "E" },
        0x07 => { proof { reveal_strlit("A"); } "A" },
        0x08 => { proof { reveal_strlit("S"); } "S" },
        0x09 => { proof { reveal_strlit("D"); } "D" },
        0x0A => { proof { reveal_strlit("Z"); } "Z" },
        0x0B => { proof { reveal_strlit("C"); } "C" },
        0x0C => { proof { reveal_strlit("4"); } "4" },
        0x0D => { proof { reveal_strlit("R"); } "R" },
        0x0E => { proof { reveal_strlit("F"); } "F" },
        0x0F => { proof { reveal_strlit("V"); } "V" },
        _ => { return Err(KeyError::UnmappedByte(byte)); },
    };
    let k = s.to_owned();
    assert(k@ =~= seq![key_char(byte)]);
    Ok(k)
}

/// The keypad value of a single character, ignoring ASCII case.
pub fn nibble_from_char(c: char) -> (r: Option<u8>)
    ensures
        r == nibble_of_char(c),
{
    match c {
        'x' | 'X' => Some(0x0u8),
        '1' => Some(0x1u8),
        '2' => Some(0x2u8),
        '3' => Some(0x3u8),
        'q' | 'Q' => Some(0x4u8),
        'w' | 'W' => Some(0x5u8),
        'e' | 'E' => Some(0x6u8),
        'a' | 'A' => Some(0x7u8),
        's' | 'S' => Some(0x8u8),
        'd' | 'D' => Some(0x9u8),
        'z' | 'Z' => Some(0xAu8),
        'c' | 'C' => Some(0xBu8),
        '4' => Some(0xCu8),
        'r' | 'R' => Some(0xDu8),
        'f' | 'F' => Some(0xEu8),
        'v' | 'V' => Some(0xFu8),
        _ => None,
    }
}

/// The keypad value of a host key, ignoring ASCII case.
pub fn inverse_map(k: Key) -> (r: Result<u8, KeyError>)
    ensures
        (k@.len() == 1 && nibble_of_char(k@[0]) is Some) ==> r == Ok::<u8, KeyError>(
            nibble_of_char(k@[0])->0,
        ),
        !(k@.len() == 1 && nibble_of_char(k@[0]) is Some) ==> r == Err::<u8, KeyError>(
            KeyError::UnmappedKey,
        ),
{
    let s = k.as_str();
    if s.unicode_len() != 1 {
        return Err(KeyError::UnmappedKey);
    }
    match nibble_from_char(s.get_char(0)) {
        Some(b) => Ok(b),
        None => Err(KeyError::UnmappedKey),
    }
}

/// Whether the keystrokes in `input` hold the key for keypad value `key`
/// (ignoring ASCII case). An unmapped value is never down.
pub fn is_key_down(input: &str, key: u8) -> (r: bool)
    ensures
        r == holds_key(input@, key),
{
    let n = input.unicode_len();
    let mut i: usize = 0;
    while i < n
        invariant
            n == input@.len(),
            i <= n,
            forall|j: int| 0 <= j < i ==> #[trigger] nibble_of_char(input@[j]) != Some(key),
        decreases n - i,
    {
        let c = input.get_char(i);
        if let Some(b) = nibble_from_char(c) {
            if b == key {
                return true;
            }
        }
        i += 1;
    }
    false
}

/// The keypad value of the last keystroke in `input`.
pub fn pressed_key(input: &str) -> (r: Result<u8, KeyError>)
    ensures
        input@.len() == 0 ==> r == Err::<u8, KeyError>(KeyError::NoInput),
        input@.len() > 0 ==> r == (match nibble_of_char(input@.last()) {
            Some(b) => Ok::<u8, KeyError>(b),
            None => Err(KeyError::UnmappedKey),
        }),
{
    let n = input.unicode_len();
    if n == 0 {
        return Err(KeyError::NoInput);
    }
    match nibble_from_char(input.get_char(n - 1)) {
        Some(b) => Ok(b),
        None => Err(KeyError::UnmappedKey),
    }
}

} // verus!
