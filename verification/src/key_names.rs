//! The table of key names, stated key by key: each key of the virtual
//! keyboard has one name (the escape key has two), and a name stands for
//! the key that has it and for no other.
use vstd::prelude::*;
use crate::keys::{KeyCode, key_for_name};
use crate::text::decimal;

verus! {

/// The capital letter that names a letter key.
pub open spec fn letter_of(k: KeyCode) -> Option<char> {
    match k {
        KeyCode::A => Some('A'),
        KeyCode::B => Some('B'),
        KeyCode::C => Some('C'),
        KeyCode::D => Some('D'),
        KeyCode::E => Some('E'),
        KeyCode::F => Some('F'),
        KeyCode::G => Some('G'),
        KeyCode::H => Some('H'),
        KeyCode::I => Some('I'),
        KeyCode::J => Some('J'),
        KeyCode::K => Some('K'),
        KeyCode::L => Some('L'),
        KeyCode::M => Some('M'),
        KeyCode::N => Some('N'),
        KeyCode::O => Some('O'),
        KeyCode::P => Some('P'),
        KeyCode::Q => Some('Q'),
        KeyCode::R => Some('R'),
        KeyCode::S => Some('S'),
        KeyCode::T => Some('T'),
        KeyCode::U => Some('U'),
        KeyCode::V => Some('V'),
        KeyCode::W => Some('W'),
        KeyCode::X => Some('X'),
        KeyCode::Y => Some('Y'),
        KeyCode::Z => Some('Z'),
        _ => None,
    }
}

/// The number of a function key.
pub open spec fn function_number(k: KeyCode) -> Option<nat> {
    match k {
        KeyCode::F1 => Some(1),
        KeyCode::F2 => Some(2),
        KeyCode::F3 => Some(3),
        KeyCode::F4 => Some(4),
        KeyCode::F5 => Some(5),
        KeyCode::F6 => Some(6),
        KeyCode::F7 => Some(7),
        KeyCode::F8 => Some(8),
        KeyCode::F9 => Some(9),
        KeyCode::F10 => Some(10),
        KeyCode::F11 => Some(11),
        KeyCode::F12 => Some(12),
        _ => None,
    }
}

/// The name of each key: a letter key is named by its letter alone, a
/// function key by `F` and its number; the arrows, `Space`, `Enter`, `Esc`,
/// `Tab`, `Backspace` and the modifiers (`LeftShift`, `RightShift`,
/// `LeftCtrl`, `RightCtrl`, `LeftAlt`, `RightAlt`) by those words.
pub open spec fn key_name(k: KeyCode) -> Seq<char> {
    if let Some(c) = letter_of(k) {
        seq![c]
    } else if let Some(n) = function_number(k) {
        seq!['F'] + decimal(n)
    } else {
        match k {
            KeyCode::Up => "Up"@,
            KeyCode::Down => "Down"@,
            KeyCode::Left => "Left"@,
            KeyCode::Right => "Right"@,
            KeyCode::Space => "Space"@,
            KeyCode::Enter => "Enter"@,
            KeyCode::Esc => "Esc"@,
            KeyCode::Tab => "Tab"@,
            KeyCode::BackSpace => "Backspace"@,
            KeyCode::LeftShift => "LeftShift"@,
            KeyCode::RightShift => "RightShift"@,
            KeyCode::LeftControl => "LeftCtrl"@,
            KeyCode::RightControl => "RightCtrl"@,
            KeyCode::LeftAlt => "LeftAlt"@,
            KeyCode::RightAlt => "RightAlt"@,
            _ => Seq::empty(),
        }
    }
}

/// The length, first and last character of a name: no two key names
/// share all three.
spec fn name_shape(s: Seq<char>) -> (nat, char, char) {
    (s.len(), s[0], s[s.len() - 1])
}

proof fn lemma_name_shapes()
    ensures
        name_shape("Up"@) == (2nat, 'U', 'p'),
        name_shape("Down"@) == (4nat, 'D', 'n'),
        name_shape("Left"@) == (4nat, 'L', 't'),
        name_shape("Right"@) == (5nat, 'R', 't'),
        name_shape("Space"@) == (5nat, 'S', 'e'),
        name_shape("Enter"@) == (5nat, 'E', 'r'),
        name_shape("Esc"@) == (3nat, 'E', 'c'),
        name_shape("Escape"@) == (6nat, 'E', 'e'),
        name_shape("Tab"@) == (3nat, 'T', 'b'),
        name_shape("Backspace"@) == (9nat, 'B', 'e'),
        name_shape("LeftShift"@) == (9nat, 'L', 't'),
        name_shape("RightShift"@) == (10nat, 'R', 't'),
        name_shape("LeftCtrl"@) == (8nat, 'L', 'l'),
        name_shape("RightCtrl"@) == (9nat, 'R', 'l'),
        name_shape("LeftAlt"@) == (7nat, 'L', 't'),
        name_shape("RightAlt"@) == (8nat, 'R', 't'),
        name_shape("A"@) == (1nat, 'A', 'A'),
        name_shape("B"@) == (1nat, 'B', 'B'),
        name_shape("C"@) == (1nat, 'C', 'C'),
        name_shape("D"@) == (1nat, 'D', 'D'),
        name_shape("E"@) == (1nat, 'E', 'E'),
        name_shape("F"@) == (1nat, 'F', 'F'),
        name_shape("G"@) == (1nat, 'G', 'G'),
        name_shape("H"@) == (1nat, 'H', 'H'),
        name_shape("I"@) == (1nat, 'I', 'I'),
        name_shape("J"@) == (1nat, 'J', 'J'),
        name_shape("K"@) == (1nat, 'K', 'K'),
        name_shape("L"@) == (1nat, 'L', 'L'),
        name_shape("M"@) == (1nat, 'M', 'M'),
        name_shape("N"@) == (1nat, 'N', 'N'),
        name_shape("O"@) == (1nat, 'O', 'O'),
        name_shape("P"@) == (1nat, 'P', 'P'),
        name_shape("Q"@) == (1nat, 'Q', 'Q'),
        name_shape("R"@) == (1nat, 'R', 'R'),
        name_shape("S"@) == (1nat, 'S', 'S'),
        name_shape("T"@) == (1nat, 'T', 'T'),
        name_shape("U"@) == (1nat, 'U', 'U'),
        name_shape("V"@) == (1nat, 'V', 'V'),
        name_shape("W"@) == (1nat, 'W', 'W'),
        name_shape("X"@) == (1nat, 'X', 'X'),
        name_shape("Y"@) == (1nat, 'Y', 'Y'),
        name_shape("Z"@) == (1nat, 'Z', 'Z'),
        name_shape("F1"@) == (2nat, 'F', '1'),
        name_shape("F2"@) == (2nat, 'F', '2'),
        name_shape("F3"@) == (2nat, 'F', '3'),
        name_shape("F4"@) == (2nat, 'F', '4'),
        name_shape("F5"@) == (2nat, 'F', '5'),
        name_shape("F6"@) == (2nat, 'F', '6'),
        name_shape("F7"@) == (2nat, 'F', '7'),
        name_shape("F8"@) == (2nat, 'F', '8'),
        name_shape("F9"@) == (2nat, 'F', '9'),
        name_shape("F10"@) == (3nat, 'F', '0'),
        name_shape("F11"@) == (3nat, 'F', '1'),
        name_shape("F12"@) == (3nat, 'F', '2'),
{
    reveal_strlit("Up");
    reveal_strlit("Down");
    reveal_strlit("Left");
    reveal_strlit("Right");
    reveal_strlit("Space");
    reveal_strlit("Enter");
    reveal_strlit("Esc");
    reveal_strlit("Escape");
    reveal_strlit("Tab");
    reveal_strlit("Backspace");
    reveal_strlit("LeftShift");
    reveal_strlit("RightShift");
    reveal_strlit("LeftCtrl");
    reveal_strlit("RightCtrl");
    reveal_strlit("LeftAlt");
    reveal_strlit("RightAlt");
    reveal_strlit("A");
    reveal_strlit("B");
    reveal_strlit("C");
    reveal_strlit("D");
    reveal_strlit("E");
    reveal_strlit("F");
    reveal_strlit("G");
    reveal_strlit("H");
    reveal_strlit("I");
    reveal_strlit("J");
    reveal_strlit("K");
    reveal_strlit("L");
    reveal_strlit("M");
    reveal_strlit("N");
    reveal_strlit("O");
    reveal_strlit("P");
    reveal_strlit("Q");
    reveal_strlit("R");
    reveal_strlit("S");
    reveal_strlit("T");
    reveal_strlit("U");
    reveal_strlit("V");
    reveal_strlit("W");
    reveal_strlit("X");
    reveal_strlit("Y");
    reveal_strlit("Z");
    reveal_strlit("F1");
    reveal_strlit("F2");
    reveal_strlit("F3");
    reveal_strlit("F4");
    reveal_strlit("F5");
    reveal_strlit("F6");
    reveal_strlit("F7");
    reveal_strlit("F8");
    reveal_strlit("F9");
    reveal_strlit("F10");
    reveal_strlit("F11");
    reveal_strlit("F12");
}

/// Names of up to three characters are equal where their characters are.
proof fn lemma_short_names_equal()
    ensures
        forall|s: Seq<char>, t: Seq<char>|
            s.len() == 1 && t.len() == 1 && #[trigger] s[0] == #[trigger] t[0] ==> s == t,
        forall|s: Seq<char>, t: Seq<char>|
            s.len() == 2 && t.len() == 2 && #[trigger] s[0] == #[trigger] t[0] && s[1] == t[1]
                ==> s == t,
        forall|s: Seq<char>, t: Seq<char>|
            s.len() == 3 && t.len() == 3 && #[trigger] s[0] == #[trigger] t[0] && s[1] == t[1]
                && s[2] == t[2] ==> s == t,
{
    assert forall|s: Seq<char>, t: Seq<char>|
        s.len() == 1 && t.len() == 1 && #[trigger] s[0] == #[trigger] t[0] implies s == t by {
        assert(s =~= t);
    }
    assert forall|s: Seq<char>, t: Seq<char>|
        s.len() == 2 && t.len() == 2 && #[trigger] s[0] == #[trigger] t[0] && s[1] == t[1]
            implies s == t by {
        assert(s =~= t);
    }
    assert forall|s: Seq<char>, t: Seq<char>|
        s.len() == 3 && t.len() == 3 && #[trigger] s[0] == #[trigger] t[0] && s[1] == t[1]
            && s[2] == t[2] implies s == t by {
        assert(s =~= t);
    }
}

/// Each key's name stands for that key.
pub proof fn law_key_name_names_its_key(k: KeyCode)
    ensures
        key_for_name(key_name(k)) == Some(k),
{
    lemma_name_shapes();
    lemma_short_names_equal();
    reveal_with_fuel(decimal, 2);
    reveal_strlit("A");
    reveal_strlit("B");
    reveal_strlit("C");
    reveal_strlit("D");
    reveal_strlit("E");
    reveal_strlit("F");
    reveal_strlit("G");
    reveal_strlit("H");
    reveal_strlit("I");
    reveal_strlit("J");
    reveal_strlit("K");
    reveal_strlit("L");
    reveal_strlit("M");
    reveal_strlit("N");
    reveal_strlit("O");
    reveal_strlit("P");
    reveal_strlit("Q");
    reveal_strlit("R");
    reveal_strlit("S");
    reveal_strlit("T");
    reveal_strlit("U");
    reveal_strlit("V");
    reveal_strlit("W");
    reveal_strlit("X");
    reveal_strlit("Y");
    reveal_strlit("Z");
    reveal_strlit("F1");
    reveal_strlit("F2");
    reveal_strlit("F3");
    reveal_strlit("F4");
    reveal_strlit("F5");
    reveal_strlit("F6");
    reveal_strlit("F7");
    reveal_strlit("F8");
    reveal_strlit("F9");
    reveal_strlit("F10");
    reveal_strlit("F11");
    reveal_strlit("F12");
    let name = key_name(k);
    if let Some(c) = letter_of(k) {
        assert(name_shape(name) == (1nat, c, c));
    } else if let Some(n) = function_number(k) {
        assert(name.len() == 1 + decimal(n).len());
        assert(name_shape(name) == (name.len(), 'F', name.last()));
    } else {
        assert(name_shape(name) == name_shape(name));
    }
}

/// `Escape` is a second name of the escape key.
pub proof fn law_escape_names_esc()
    ensures
        key_for_name("Escape"@) == Some(KeyCode::Esc),
{
    lemma_name_shapes();
}

/// A name stands for a key only where it is that key's name, or `Escape`
/// for the escape key: no key has a name it was not given.
pub proof fn law_names_are_the_keys_names(name: Seq<char>)
    ensures
        key_for_name(name) matches Some(k) ==> (name == key_name(k) || (k == KeyCode::Esc
            && name == "Escape"@)),
{
    lemma_name_shapes();
    lemma_short_names_equal();
    reveal_with_fuel(decimal, 2);
    reveal_strlit("A");
    reveal_strlit("B");
    reveal_strlit("C");
    reveal_strlit("D");
    reveal_strlit("E");
    reveal_strlit("F");
    reveal_strlit("G");
    reveal_strlit("H");
    reveal_strlit("I");
    reveal_strlit("J");
    reveal_strlit("K");
    reveal_strlit("L");
    reveal_strlit("M");
    reveal_strlit("N");
    reveal_strlit("O");
    reveal_strlit("P");
    reveal_strlit("Q");
    reveal_strlit("R");
    reveal_strlit("S");
    reveal_strlit("T");
    reveal_strlit("U");
    reveal_strlit("V");
    reveal_strlit("W");
    reveal_strlit("X");
    reveal_strlit("Y");
    reveal_strlit("Z");
    reveal_strlit("F1");
    reveal_strlit("F2");
    reveal_strlit("F3");
    reveal_strlit("F4");
    reveal_strlit("F5");
    reveal_strlit("F6");
    reveal_strlit("F7");
    reveal_strlit("F8");
    reveal_strlit("F9");
    reveal_strlit("F10");
    reveal_strlit("F11");
    reveal_strlit("F12");
}

} // verus!
