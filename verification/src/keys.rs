//! Symbolic key names and the keys of the virtual keyboard they stand for,
//! and the resolution of a keymap from DTMF digits to key names.
use vstd::prelude::*;
use crate::strmap::StrMap;
use crate::text::same_text;

verus! {

/// A key of the virtual keyboard.
#[derive(Clone, Copy, Debug, PartialEq, Eq, Structural)]
pub enum KeyCode {
    Up,
    Down,
    Left,
    Right,
    Space,
    Enter,
    Esc,
    Tab,
    BackSpace,
    LeftShift,
    RightShift,
    LeftControl,
    RightControl,
    LeftAlt,
    RightAlt,
    A,
    B,
    C,
    D,
    E,
    F,
    G,
    H,
    I,
    J,
    K,
    L,
    M,
    N,
    O,
    P,
    Q,
    R,
    S,
    T,
    U,
    V,
    W,
    X,
    Y,
    Z,
    F1,
    F2,
    F3,
    F4,
    F5,
    F6,
    F7,
    F8,
    F9,
    F10,
    F11,
    F12,
}

/// The key that a symbolic name stands for, if any. Names are case
/// sensitive; `Esc` and `Escape` both name the escape key.
pub open spec fn key_for_name(name: Seq<char>) -> Option<KeyCode> {
    if name == "Up"@ {
        Some(KeyCode::Up)
    } else if name == "Down"@ {
        Some(KeyCode::Down)
    } else if name == "Left"@ {
        Some(KeyCode::Left)
    } else if name == "Right"@ {
        Some(KeyCode::Right)
    } else if name == "Space"@ {
        Some(KeyCode::Space)
    } else if name == "Enter"@ {
        Some(KeyCode::Enter)
    } else if name == "Esc"@ {
        Some(KeyCode::Esc)
    } else if name == "Escape"@ {
        Some(KeyCode::Esc)
    } else if name == "Tab"@ {
        Some(KeyCode::Tab)
    } else if name == "Backspace"@ {
        Some(KeyCode::BackSpace)
    } else if name == "LeftShift"@ {
        Some(KeyCode::LeftShift)
    } else if name == "RightShift"@ {
        Some(KeyCode::RightShift)
    } else if name == "LeftCtrl"@ {
        Some(KeyCode::LeftControl)
    } else if name == "RightCtrl"@ {
        Some(KeyCode::RightControl)
    } else if name == "LeftAlt"@ {
        Some(KeyCode::LeftAlt)
    } else if name == "RightAlt"@ {
        Some(KeyCode::RightAlt)
    } else if name == "A"@ {
        Some(KeyCode::A)
    } else if name == "B"@ {
        Some(KeyCode::B)
    } else if name == "C"@ {
        Some(KeyCode::C)
    } else if name == "D"@ {
        Some(KeyCode::D)
    } else if name == "E"@ {
        Some(KeyCode::E)
    } else if name == "F"@ {
        Some(KeyCode::F)
    } else if name == "G"@ {
        Some(KeyCode::G)
    } else if name == "H"@ {
        Some(KeyCode::H)
    } else if name == "I"@ {
        Some(KeyCode::I)
    } else if name == "J"@ {
        Some(KeyCode::J)
    } else if name == "K"@ {
        Some(KeyCode::K)
    } else if name == "L"@ {
        Some(KeyCode::L)
    } else if name == "M"@ {
        Some(KeyCode::M)
    } else if name == "N"@ {
        Some(KeyCode::N)
    } else if name == "O"@ {
        Some(KeyCode::O)
    } else if name == "P"@ {
        Some(KeyCode::P)
    } else if name == "Q"@ {
        Some(KeyCode::Q)
    } else if name == "R"@ {
        Some(KeyCode::R)
    } else if name == "S"@ {
        Some(KeyCode::S)
    } else if name == "T"@ {
        Some(KeyCode::T)
    } else if name == "U"@ {
        Some(KeyCode::U)
    } else if name == "V"@ {
        Some(KeyCode::V)
    } else if name == "W"@ {
        Some(KeyCode::W)
    } else if name == "X"@ {
        Some(KeyCode::X)
    } else if name == "Y"@ {
        Some(KeyCode::Y)
    } else if name == "Z"@ {
        Some(KeyCode::Z)
    } else if name == "F1"@ {
        Some(KeyCode::F1)
    } else if name == "F2"@ {
        Some(KeyCode::F2)
    } else if name == "F3"@ {
        Some(KeyCode::F3)
    } else if name == "F4"@ {
        Some(KeyCode::F4)
    } else if name == "F5"@ {
        Some(KeyCode::F5)
    } else if name == "F6"@ {
        Some(KeyCode::F6)
    } else if name == "F7"@ {
        Some(KeyCode::F7)
    } else if name == "F8"@ {
        Some(KeyCode::F8)
    } else if name == "F9"@ {
        Some(KeyCode::F9)
    } else if name == "F10"@ {
        Some(KeyCode::F10)
    } else if name == "F11"@ {
        Some(KeyCode::F11)
    } else if name == "F12"@ {
        Some(KeyCode::F12)
    } else {
        None
    }
}

/// The key that the symbolic `name` stands for, or `None` for an unknown
/// name.
pub fn parse_key_name(name: &str) -> (r: Option<KeyCode>)
    ensures
        r == key_for_name(name@),
{
    if same_text(name, "Up") {
        return Some(KeyCode::Up);
    }
    if same_text(name, "Down") {
        return Some(KeyCode::Down);
    }
    if same_text(name, "Left") {
        return Some(KeyCode::Left);
    }
    if same_text(name, "Right") {
        return Some(KeyCode::Right);
    }
    if same_text(name, "Space") {
        return Some(KeyCode::Space);
    }
    if same_text(name, "Enter") {
        return Some(KeyCode::Enter);
    }
    if same_text(name, "Esc") {
        return Some(KeyCode::Esc);
    }
    if same_text(name, "Escape") {
        return Some(KeyCode::Esc);
    }
    if same_text(name, "Tab") {
        return Some(KeyCode::Tab);
    }
    if same_text(name, "Backspace") {
        return Some(KeyCode::BackSpace);
    }
    if same_text(name, "LeftShift") {
        return Some(KeyCode::LeftShift);
    }
    if same_text(name, "RightShift") {
        return Some(KeyCode::RightShift);
    }
    if same_text(name, "LeftCtrl") {
        return Some(KeyCode::LeftControl);
    }
    if same_text(name, "RightCtrl") {
        return Some(KeyCode::RightControl);
    }
    if same_text(name, "LeftAlt") {
        return Some(KeyCode::LeftAlt);
    }
    if same_text(name, "RightAlt") {
        return Some(KeyCode::RightAlt);
    }
    if same_text(name, "A") {
        return Some(KeyCode::A);
    }
    if same_text(name, "B") {
        return Some(KeyCode::B);
    }
    if same_text(name, "C") {
        return Some(KeyCode::C);
    }
    if same_text(name, "D") {
        return Some(KeyCode::D);
    }
    if same_text(name, "E") {
        return Some(KeyCode::E);
    }
    if same_text(name, "F") {
        return Some(KeyCode::F);
    }
    if same_text(name, "G") {
        return Some(KeyCode::G);
    }
    if same_text(name, "H") {
        return Some(KeyCode::H);
    }
    if same_text(name, "I") {
        return Some(KeyCode::I);
    }
    if same_text(name, "J") {
        return Some(KeyCode::J);
    }
    if same_text(name, "K") {
        return Some(KeyCode::K);
    }
    if same_text(name, "L") {
        return Some(KeyCode::L);
    }
    if same_text(name, "M") {
        return Some(KeyCode::M);
    }
    if same_text(name, "N") {
        return Some(KeyCode::N);
    }
    if same_text(name, "O") {
        return Some(KeyCode::O);
    }
    if same_text(name, "P") {
        return Some(KeyCode::P);
    }
    if same_text(name, "Q") {
        return Some(KeyCode::Q);
    }
    if same_text(name, "R") {
        return Some(KeyCode::R);
    }
    if same_text(name, "S") {
        return Some(KeyCode::S);
    }
    if same_text(name, "T") {
        return Some(KeyCode::T);
    }
    if same_text(name, "U") {
        return Some(KeyCode::U);
    }
    if same_text(name, "V") {
        return Some(KeyCode::V);
    }
    if same_text(name, "W") {
        return Some(KeyCode::W);
    }
    if same_text(name, "X") {
        return Some(KeyCode::X);
    }
    if same_text(name, "Y") {
        return Some(KeyCode::Y);
    }
    if same_text(name, "Z") {
        return Some(KeyCode::Z);
    }
    if same_text(name, "F1") {
        return Some(KeyCode::F1);
    }
    if same_text(name, "F2") {
        return Some(KeyCode::F2);
    }
    if same_text(name, "F3") {
        return Some(KeyCode::F3);
    }
    if same_text(name, "F4") {
        return Some(KeyCode::F4);
    }
    if same_text(name, "F5") {
        return Some(KeyCode::F5);
    }
    if same_text(name, "F6") {
        return Some(KeyCode::F6);
    }
    if same_text(name, "F7") {
        return Some(KeyCode::F7);
    }
    if same_text(name, "F8") {
        return Some(KeyCode::F8);
    }
    if same_text(name, "F9") {
        return Some(KeyCode::F9);
    }
    if same_text(name, "F10") {
        return Some(KeyCode::F10);
    }
    if same_text(name, "F11") {
        return Some(KeyCode::F11);
    }
    if same_text(name, "F12") {
        return Some(KeyCode::F12);
    }
    None
}

/// The keymap that the symbolic keymap `symbolic` gives: each DTMF digit
/// whose key name is known, to the key that the name stands for. Digits
/// with an unknown name are left out.
pub open spec fn resolved_keymap(symbolic: Map<Seq<char>, String>) -> Map<Seq<char>, KeyCode> {
    Map::new(
        |d: Seq<char>| symbolic.contains_key(d) && key_for_name(symbolic[d]@) is Some,
        |d: Seq<char>| key_for_name(symbolic[d]@)->0,
    )
}

/// Some text of `seen` is `d`.
spec fn among(seen: Seq<String>, d: Seq<char>) -> bool {
    exists|j: int| 0 <= j < seen.len() && seen[j]@ == d
}

/// Resolving a keymap keeps exactly the digits whose key name is known, each
/// with the key its name stands for; where every name is known, every digit
/// keeps a key.
pub proof fn law_resolution_keeps_known_names(symbolic: Map<Seq<char>, String>)
    ensures
        forall|d: Seq<char>| #[trigger]
            resolved_keymap(symbolic).contains_key(d) ==> symbolic.contains_key(d)
                && key_for_name(symbolic[d]@) == Some(resolved_keymap(symbolic)[d]),
        (forall|d: Seq<char>| #[trigger]
            symbolic.contains_key(d) ==> key_for_name(symbolic[d]@) is Some) ==> resolved_keymap(
            symbolic,
        ).dom() == symbolic.dom(),
{
    if forall|d: Seq<char>| #[trigger] symbolic.contains_key(d) ==> key_for_name(symbolic[d]@) is Some {
        assert(resolved_keymap(symbolic).dom() =~= symbolic.dom());
    }
}

/// `resolved_keymap(symbolic)` on the digits among `seen` only.
spec fn resolved_among(symbolic: Map<Seq<char>, String>, seen: Seq<String>) -> Map<
    Seq<char>,
    KeyCode,
> {
    Map::new(
        |d: Seq<char>|
            among(seen, d) && resolved_keymap(
                symbolic,
            ).contains_key(d),
        |d: Seq<char>| resolved_keymap(symbolic)[d],
    )
}

/// Resolves each key name of `symbolic` to its key; digits whose name is
/// unknown are left out.
pub fn resolve_keymap(symbolic: &StrMap<String>) -> (r: StrMap<KeyCode>)
    ensures
        r@ == resolved_keymap(symbolic@),
{
    let digits = symbolic.keys();
    let n = digits.len();
    let mut out: StrMap<KeyCode> = StrMap::new();
    let mut i: usize = 0;
    proof {
        assert(out@ =~= resolved_among(symbolic@, digits@.take(0)));
    }
    while i < n
        invariant
            n == digits@.len(),
            0 <= i <= n,
            forall|j: int| 0 <= j < digits@.len() ==> symbolic@.contains_key(#[trigger] digits@[j]@),
            out@ == resolved_among(symbolic@, digits@.take(i as int)),
        decreases n - i,
    {
        let digit = &digits[i];
        let ghost before = out@;
        let ghost d = digit@;
        match symbolic.get(digit.as_str()) {
            Some(name) => {
                match parse_key_name(name.as_str()) {
                    Some(code) => {
                        out.insert(digit.clone(), code);
                    },
                    None => {},
                }
            },
            None => {},
        }
        proof {
            let prev = digits@.take(i as int);
            let next = digits@.take(i + 1);
            assert forall|x: Seq<char>| #[trigger] among(next, x) == (among(prev, x) || x == d) by {
                if x == d {
                    assert(next[i as int]@ == x);
                }
                if among(prev, x) {
                    let j = choose|j: int| 0 <= j < prev.len() && prev[j]@ == x;
                    assert(next[j]@ == x);
                }
            }
            assert(out@ =~= resolved_among(symbolic@, next));
        }
        i += 1;
    }
    proof {
        assert(digits@.take(n as int) =~= digits@);
        assert forall|x: Seq<char>| #[trigger] resolved_keymap(symbolic@).contains_key(x) implies among(
            digits@,
            x,
        ) by {}
        assert(out@ =~= resolved_keymap(symbolic@));
    }
    out
}

} // verus!
