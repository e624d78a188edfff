//! Mapping of macOS virtual keycodes (US layout) to typed characters.

use vstd::prelude::*;

verus! {

/// Virtual keycode of the delete (backspace) key.
pub const BACKSPACE_KEYCODE: i64 = 51;

/// Virtual keycode of the space bar.
pub const SPACE_KEYCODE: i64 = 49;

/// The character a key produces on a US layout, or `None` for keys that type
/// nothing (delete, escape, arrows, function keys) and for unknown codes.
pub open spec fn key_char(keycode: i64, shift: bool) -> Option<char> {
    match keycode {
        0 => Some(if shift { 'A' } else { 'a' }),
        1 => Some(if shift { 'S' } else { 's' }),
        2 => Some(if shift { 'D' } else { 'd' }),
        3 => Some(if shift { 'F' } else { 'f' }),
        4 => Some(if shift { 'H' } else { 'h' }),
        5 => Some(if shift { 'G' } else { 'g' }),
        6 => Some(if shift { 'Z' } else { 'z' }),
        7 => Some(if shift { 'X' } else { 'x' }),
        8 => Some(if shift { 'C' } else { 'c' }),
        9 => Some(if shift { 'V' } else { 'v' }),
        11 => Some(if shift { 'B' } else { 'b' }),
        12 => Some(if shift { 'Q' } else { 'q' }),
        13 => Some(if shift { 'W' } else { 'w' }),
        14 => Some(if shift { 'E' } else { 'e' }),
        15 => Some(if shift { 'R' } else { 'r' }),
        16 => Some(if shift { 'Y' } else { 'y' }),
        17 => Some(if shift { 'T' } else { 't' }),
        31 => Some(if shift { 'O' } else { 'o' }),
        32 => Some(if shift { 'U' } else { 'u' }),
        34 => Some(if shift { 'I' } else { 'i' }),
        35 => Some(if shift { 'P' } else { 'p' }),
        37 => Some(if shift { 'L' } else { 'l' }),
        38 => Some(if shift { 'J' } else { 'j' }),
        40 => Some(if shift { 'K' } else { 'k' }),
        45 => Some(if shift { 'N' } else { 'n' }),
        46 => Some(if shift { 'M' } else { 'm' }),
        18 => Some(if shift { '!' } else { '1' }),
        19 => Some(if shift { '@' } else { '2' }),
        20 => Some(if shift { '#' } else { '3' }),
        21 => Some(if shift { '$' } else { '4' }),
        23 => Some(if shift { '%' } else { '5' }),
        22 => Some(if shift { '^' } else { '6' }),
        26 => Some(if shift { '&' } else { '7' }),
        28 => Some(if shift { '*' } else { '8' }),
        25 => Some(if shift { '(' } else { '9' }),
        29 => Some(if shift { ')' } else { '0' }),
        27 => Some(if shift { '_' } else { '-' }),
        24 => Some(if shift { '+' } else { '=' }),
        33 => Some(if shift { '{' } else { '[' }),
        30 => Some(if shift { '}' } else { ']' }),
        41 => Some(if shift { ':' } else { ';' }),
        39 => Some(if shift { '"' } else { '\'' }),
        42 => Some(if shift { '|' } else { '\\' }),
        43 => Some(if shift { '<' } else { ',' }),
        47 => Some(if shift { '>' } else { '.' }),
        44 => Some(if shift { '?' } else { '/' }),
        50 => Some(if shift { '~' } else { '`' }),
        49 => Some(' '),
        36 | 76 => Some('\n'),
        48 => Some('\t'),
        _ => None,
    }
}

/// Classifies a raw keycode with the shift state into the character it types.
pub fn keycode_to_char(keycode: i64, shift: bool) -> (r: Option<char>)
    ensures
        r == key_char(keycode, shift),
{
    match keycode {
        0 => Some(if shift { 'A' } else { 'a' }),
        1 => Some(if shift { 'S' } else { 's' }),
        2 => Some(if shift { 'D' } else { 'd' }),
        3 => Some(if shift { 'F' } else { 'f' }),
        4 => Some(if shift { 'H' } else { 'h' }),
        5 => Some(if shift { 'G' } else { 'g' }),
        6 => Some(if shift { 'Z' } else { 'z' }),
        7 => Some(if shift { 'X' } else { 'x' }),
        8 => Some(if shift { 'C' } else { 'c' }),
        9 => Some(if shift { 'V' } else { 'v' }),
        11 => Some(if shift { 'B' } else { 'b' }),
        12 => Some(if shift { 'Q' } else { 'q' }),
        13 => Some(if shift { 'W' } else { 'w' }),
        14 => Some(if shift { 'E' } else { 'e' }),
        15 => Some(if shift { 'R' } else { 'r' }),
        16 => Some(if shift { 'Y' } else { 'y' }),
        17 => Some(if shift { 'T' } else { 't' }),
        31 => Some(if shift { 'O' } else { 'o' }),
        32 => Some(if shift { 'U' } else { 'u' }),
        34 => Some(if shift { 'I' } else { 'i' }),
        35 => Some(if shift { 'P' } else { 'p' }),
        37 => Some(if shift { 'L' } else { 'l' }),
        38 => Some(if shift { 'J' } else { 'j' }),
        40 => Some(if shift { 'K' } else { 'k' }),
        45 => Some(if shift { 'N' } else { 'n' }),
        46 => Some(if shift { 'M' } else { 'm' }),
        18 => Some(if shift { '!' } else { '1' }),
        19 => Some(if shift { '@' } else { '2' }),
        20 => Some(if shift { '#' } else { '3' }),
        21 => Some(if shift { '$' } else { '4' }),
        23 => Some(if shift { '%' } else { '5' }),
        22 => Some(if shift { '^' } else { '6' }),
        26 => Some(if shift { '&' } else { '7' }),
        28 => Some(if shift { '*' } else { '8' }),
        25 => Some(if shift { '(' } else { '9' }),
        29 => Some(if shift { ')' } else { '0' }),
        27 => Some(if shift { '_' } else { '-' }),
        24 => Some(if shift { '+' } else { '=' }),
        33 => Some(if shift { '{' } else { '[' }),
        30 => Some(if shift { '}' } else { ']' }),
        41 => Some(if shift { ':' } else { ';' }),
        39 => Some(if shift { '"' } else { '\'' }),
        42 => Some(if shift { '|' } else { '\\' }),
        43 => Some(if shift { '<' } else { ',' }),
        47 => Some(if shift { '>' } else { '.' }),
        44 => Some(if shift { '?' } else { '/' }),
        50 => Some(if shift { '~' } else { '`' }),
        49 => Some(' '),
        36 | 76 => Some('\n'),
        48 => Some('\t'),
        _ => None,
    }
}

/// The virtual keycode of a letter key, in either case; `None` for other characters.
pub open spec fn letter_keycode(letter: char) -> Option<i64> {
    match letter {
        'A' | 'a' => Some(0),
        'B' | 'b' => Some(11),
        'C' | 'c' => Some(8),
        'D' | 'd' => Some(2),
        'E' | 'e' => Some(14),
        'F' | 'f' => Some(3),
        'G' | 'g' => Some(5),
        'H' | 'h' => Some(4),
        'I' | 'i' => Some(34),
        'J' | 'j' => Some(38),
        'K' | 'k' => Some(40),
        'L' | 'l' => Some(37),
        'M' | 'm' => Some(46),
        'N' | 'n' => Some(45),
        'O' | 'o' => Some(31),
        'P' | 'p' => Some(35),
        'Q' | 'q' => Some(12),
        'R' | 'r' => Some(15),
        'S' | 's' => Some(1),
        'T' | 't' => Some(17),
        'U' | 'u' => Some(32),
        'V' | 'v' => Some(9),
        'W' | 'w' => Some(13),
        'X' | 'x' => Some(7),
        'Y' | 'y' => Some(16),
        'Z' | 'z' => Some(6),
        _ => None,
    }
}

/// Finds the key that types a letter (either case), for binding hotkeys.
pub fn letter_to_keycode(letter: char) -> (r: Option<i64>)
    ensures
        r == letter_keycode(letter),
{
    match letter {
        'A' | 'a' => Some(0),
        'B' | 'b' => Some(11),
        'C' | 'c' => Some(8),
        'D' | 'd' => Some(2),
        'E' | 'e' => Some(14),
        'F' | 'f' => Some(3),
        'G' | 'g' => Some(5),
        'H' | 'h' => Some(4),
        'I' | 'i' => Some(34),
        'J' | 'j' => Some(38),
        'K' | 'k' => Some(40),
        'L' | 'l' => Some(37),
        'M' | 'm' => Some(46),
        'N' | 'n' => Some(45),
        'O' | 'o' => Some(31),
        'P' | 'p' => Some(35),
        'Q' | 'q' => Some(12),
        'R' | 'r' => Some(15),
        'S' | 's' => Some(1),
        'T' | 't' => Some(17),
        'U' | 'u' => Some(32),
        'V' | 'v' => Some(9),
        'W' | 'w' => Some(13),
        'X' | 'x' => Some(7),
        'Y' | 'y' => Some(16),
        'Z' | 'z' => Some(6),
        _ => None,
    }
}

} // verus!
