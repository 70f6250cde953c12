//! Parsing of global shortcut strings such as "Ctrl+Shift+O".

use vstd::prelude::*;
use crate::text::{chars_eq, chars_of, first_index, split_chars, split_seq, string_from_chars, trim_bounds, trim_seq};

verus! {

/// Result of `str::to_lowercase` on a string with the characters `s`
/// (Unicode lowercase mapping of every character).
pub uninterp spec fn unicode_lowercase(s: Seq<char>) -> Seq<char>;

/// Result of `str::to_uppercase` on a string with the characters `s`
/// (Unicode uppercase mapping of every character).
pub uninterp spec fn unicode_uppercase(s: Seq<char>) -> Seq<char>;

/// Every character of `s` is ASCII.
pub open spec fn is_ascii_chars(s: Seq<char>) -> bool {
    forall|i: int| 0 <= i < s.len() ==> (s[i] as u32) < 128
}

/// `s` with every ASCII letter `A`-`Z` turned into `a`-`z`.
pub open spec fn ascii_lowercase(s: Seq<char>) -> Seq<char> {
    s.map_values(|c: char| if 'A' <= c <= 'Z' { ((c as u32) + 32) as char } else { c })
}

/// `s` with every ASCII letter `a`-`z` turned into `A`-`Z`.
pub open spec fn ascii_uppercase(s: Seq<char>) -> Seq<char> {
    s.map_values(|c: char| if 'a' <= c <= 'z' { ((c as u32) - 32) as char } else { c })
}

/// Lower-cases `s` with `str::to_lowercase`.
/// Trusted: the contract says that the result is `unicode_lowercase` of the
/// input, a function of the input alone, and, for ASCII text, that only
/// `A`-`Z` change, into `a`-`z`: the Unicode lowercase mapping, which the
/// method documents it follows, maps ASCII that way. The mapping of other
/// characters (Unicode tables) is left unstated.
#[verifier::external_body]
fn to_lowercase(s: &str) -> (res: String)
    ensures
        res@ == unicode_lowercase(s@),
        is_ascii_chars(s@) ==> res@ == ascii_lowercase(s@),
{
    s.to_lowercase()
}

/// Upper-cases `s` with `str::to_uppercase`.
/// Trusted: the contract says that the result is `unicode_uppercase` of the
/// input, a function of the input alone, and, for ASCII text, that only
/// `a`-`z` change, into `A`-`Z`: the Unicode uppercase mapping, which the
/// method documents it follows, maps ASCII that way. The mapping of other
/// characters (Unicode tables) is left unstated.
#[verifier::external_body]
fn to_uppercase(s: &str) -> (res: String)
    ensures
        res@ == unicode_uppercase(s@),
        is_ascii_chars(s@) ==> res@ == ascii_uppercase(s@),
{
    s.to_uppercase()
}

/// The modifier keys of a shortcut.
#[derive(Clone, Copy, Debug, PartialEq, Eq, Structural)]
pub struct Modifiers {
    pub ctrl: bool,
    pub shift: bool,
    pub alt: bool,
    pub super_key: bool,
}

/// The main key of a shortcut.
#[derive(Clone, Copy, Debug, PartialEq, Eq, Structural)]
pub enum KeyCode {
    KeyA,
    KeyB,
    KeyC,
    KeyD,
    KeyE,
    KeyF,
    KeyG,
    KeyH,
    KeyI,
    KeyJ,
    KeyK,
    KeyL,
    KeyM,
    KeyN,
    KeyO,
    KeyP,
    KeyQ,
    KeyR,
    KeyS,
    KeyT,
    KeyU,
    KeyV,
    KeyW,
    KeyX,
    KeyY,
    KeyZ,
    Digit0,
    Digit1,
    Digit2,
    Digit3,
    Digit4,
    Digit5,
    Digit6,
    Digit7,
    Digit8,
    Digit9,
    F1,
    F2,
    F3,
    F4,
    F5,
    F6,
    F7,
    F8,
    F9,
    F10,
    F11,
    F12,
    Space,
    Tab,
    Enter,
    Escape,
    Backspace,
}

/// A parsed shortcut: modifiers and a key.
#[derive(Clone, Copy, Debug, PartialEq, Eq, Structural)]
pub struct Shortcut {
    pub modifiers: Modifiers,
    pub code: KeyCode,
}

/// No modifier set.
pub open spec fn no_modifiers() -> Modifiers {
    Modifiers { ctrl: false, shift: false, alt: false, super_key: false }
}

/// `m` with the modifier that the lower-cased word `w` names added, if any.
pub open spec fn add_modifier(m: Modifiers, w: Seq<char>) -> Modifiers {
    if w == "ctrl"@ || w == "control"@ {
        Modifiers { ctrl: true, ..m }
    } else if w == "shift"@ {
        Modifiers { shift: true, ..m }
    } else if w == "alt"@ {
        Modifiers { alt: true, ..m }
    } else if w == "super"@ || w == "cmd"@ || w == "command"@ || w == "win"@ {
        Modifiers { super_key: true, ..m }
    } else {
        m
    }
}

/// The modifiers that the (trimmed) parts `parts` name, in order.
pub open spec fn modifiers_of(parts: Seq<Seq<char>>) -> Modifiers
    decreases parts.len(),
{
    if parts.len() == 0 {
        no_modifiers()
    } else {
        add_modifier(modifiers_of(parts.drop_last()), unicode_lowercase(parts.last()))
    }
}

/// The key that the upper-cased name `k` names; unknown names give `KeyO`.
pub open spec fn key_of(k: Seq<char>) -> KeyCode {
    if k == "A"@ { KeyCode::KeyA }
    else if k == "B"@ { KeyCode::KeyB }
    else if k == "C"@ { KeyCode::KeyC }
    else if k == "D"@ { KeyCode::KeyD }
    else if k == "E"@ { KeyCode::KeyE }
    else if k == "F"@ { KeyCode::KeyF }
    else if k == "G"@ { KeyCode::KeyG }
    else if k == "H"@ { KeyCode::KeyH }
    else if k == "I"@ { KeyCode::KeyI }
    else if k == "J"@ { KeyCode::KeyJ }
    else if k == "K"@ { KeyCode::KeyK }
    else if k == "L"@ { KeyCode::KeyL }
    else if k == "M"@ { KeyCode::KeyM }
    else if k == "N"@ { KeyCode::KeyN }
    else if k == "O"@ { KeyCode::KeyO }
    else if k == "P"@ { KeyCode::KeyP }
    else if k == "Q"@ { KeyCode::KeyQ }
    else if k == "R"@ { KeyCode::KeyR }
    else if k == "S"@ { KeyCode::KeyS }
    else if k == "T"@ { KeyCode::KeyT }
    else if k == "U"@ { KeyCode::KeyU }
    else if k == "V"@ { KeyCode::KeyV }
    else if k == "W"@ { KeyCode::KeyW }
    else if k == "X"@ { KeyCode::KeyX }
    else if k == "Y"@ { KeyCode::KeyY }
    else if k == "Z"@ { KeyCode::KeyZ }
    else if k == "0"@ { KeyCode::Digit0 }
    else if k == "1"@ { KeyCode::Digit1 }
    else if k == "2"@ { KeyCode::Digit2 }
    else if k == "3"@ { KeyCode::Digit3 }
    else if k == "4"@ { KeyCode::Digit4 }
    else if k == "5"@ { KeyCode::Digit5 }
    else if k == "6"@ { KeyCode::Digit6 }
    else if k == "7"@ { KeyCode::Digit7 }
    else if k == "8"@ { KeyCode::Digit8 }
    else if k == "9"@ { KeyCode::Digit9 }
    else if k == "F1"@ { KeyCode::F1 }
    else if k == "F2"@ { KeyCode::F2 }
    else if k == "F3"@ { KeyCode::F3 }
    else if k == "F4"@ { KeyCode::F4 }
    else if k == "F5"@ { KeyCode::F5 }
    else if k == "F6"@ { KeyCode::F6 }
    else if k == "F7"@ { KeyCode::F7 }
    else if k == "F8"@ { KeyCode::F8 }
    else if k == "F9"@ { KeyCode::F9 }
    else if k == "F10"@ { KeyCode::F10 }
    else if k == "F11"@ { KeyCode::F11 }
    else if k == "F12"@ { KeyCode::F12 }
    else if k == "SPACE"@ { KeyCode::Space }
    else if k == "TAB"@ { KeyCode::Tab }
    else if k == "ENTER"@ || k == "RETURN"@ { KeyCode::Enter }
    else if k == "ESCAPE"@ || k == "ESC"@ { KeyCode::Escape }
    else if k == "BACKSPACE"@ { KeyCode::Backspace }
    else { KeyCode::KeyO }
}

/// The parts of a shortcut string: the pieces between '+' signs, trimmed.
pub open spec fn shortcut_parts(s: Seq<char>) -> Seq<Seq<char>> {
    split_seq(s, '+').map_values(|p: Seq<char>| trim_seq(p))
}

/// The shortcut that a parts list names: every part but the last is a
/// modifier word, the last one is the key.
pub open spec fn shortcut_of_parts(parts: Seq<Seq<char>>) -> Shortcut {
    Shortcut {
        modifiers: modifiers_of(parts.drop_last()),
        code: key_of(unicode_uppercase(parts.last())),
    }
}

/// The shortcut that the string `s` names.
pub open spec fn shortcut_spec(s: Seq<char>) -> Shortcut {
    shortcut_of_parts(shortcut_parts(s))
}

fn lit_eq(w: &[char], lit: &str) -> (res: bool)
    ensures
        res == (w@ == lit@),
{
    let l = chars_of(lit);
    chars_eq(w, l.as_slice())
}

fn add_modifier_exec(m: Modifiers, w: &[char]) -> (res: Modifiers)
    ensures
        res == add_modifier(m, w@),
{
    if lit_eq(w, "ctrl") || lit_eq(w, "control") {
        Modifiers { ctrl: true, ..m }
    } else if lit_eq(w, "shift") {
        Modifiers { shift: true, ..m }
    } else if lit_eq(w, "alt") {
        Modifiers { alt: true, ..m }
    } else if lit_eq(w, "super") || lit_eq(w, "cmd") || lit_eq(w, "command") || lit_eq(w, "win") {
        Modifiers { super_key: true, ..m }
    } else {
        m
    }
}

/// The position of a key in the table of keys: the letters A-Z from 0,
/// the digits 0-9 from 26, F1-F12 from 36, then Space, Tab, Enter, Escape
/// and Backspace.
pub open spec fn key_number(k: KeyCode) -> int {
    match k {
        KeyCode::KeyA => 0,
        KeyCode::KeyB => 1,
        KeyCode::KeyC => 2,
        KeyCode::KeyD => 3,
        KeyCode::KeyE => 4,
        KeyCode::KeyF => 5,
        KeyCode::KeyG => 6,
        KeyCode::KeyH => 7,
        KeyCode::KeyI => 8,
        KeyCode::KeyJ => 9,
        KeyCode::KeyK => 10,
        KeyCode::KeyL => 11,
        KeyCode::KeyM => 12,
        KeyCode::KeyN => 13,
        KeyCode::KeyO => 14,
        KeyCode::KeyP => 15,
        KeyCode::KeyQ => 16,
        KeyCode::KeyR => 17,
        KeyCode::KeyS => 18,
        KeyCode::KeyT => 19,
        KeyCode::KeyU => 20,
        KeyCode::KeyV => 21,
        KeyCode::KeyW => 22,
        KeyCode::KeyX => 23,
        KeyCode::KeyY => 24,
        KeyCode::KeyZ => 25,
        KeyCode::Digit0 => 26,
        KeyCode::Digit1 => 27,
        KeyCode::Digit2 => 28,
        KeyCode::Digit3 => 29,
        KeyCode::Digit4 => 30,
        KeyCode::Digit5 => 31,
        KeyCode::Digit6 => 32,
        KeyCode::Digit7 => 33,
        KeyCode::Digit8 => 34,
        KeyCode::Digit9 => 35,
        KeyCode::F1 => 36,
        KeyCode::F2 => 37,
        KeyCode::F3 => 38,
        KeyCode::F4 => 39,
        KeyCode::F5 => 40,
        KeyCode::F6 => 41,
        KeyCode::F7 => 42,
        KeyCode::F8 => 43,
        KeyCode::F9 => 44,
        KeyCode::F10 => 45,
        KeyCode::F11 => 46,
        KeyCode::F12 => 47,
        KeyCode::Space => 48,
        KeyCode::Tab => 49,
        KeyCode::Enter => 50,
        KeyCode::Escape => 51,
        KeyCode::Backspace => 52,
    }
}

proof fn reveal_key_names()
    ensures
        "A"@ =~= seq!['A'],
        "B"@ =~= seq!['B'],
        "C"@ =~= seq!['C'],
        "D"@ =~= seq!['D'],
        "E"@ =~= seq!['E'],
        "F"@ =~= seq!['F'],
        "G"@ =~= seq!['G'],
        "H"@ =~= seq!['H'],
        "I"@ =~= seq!['I'],
        "J"@ =~= seq!['J'],
        "K"@ =~= seq!['K'],
        "L"@ =~= seq!['L'],
        "M"@ =~= seq!['M'],
        "N"@ =~= seq!['N'],
        "O"@ =~= seq!['O'],
        "P"@ =~= seq!['P'],
        "Q"@ =~= seq!['Q'],
        "R"@ =~= seq!['R'],
        "S"@ =~= seq!['S'],
        "T"@ =~= seq!['T'],
        "U"@ =~= seq!['U'],
        "V"@ =~= seq!['V'],
        "W"@ =~= seq!['W'],
        "X"@ =~= seq!['X'],
        "Y"@ =~= seq!['Y'],
        "Z"@ =~= seq!['Z'],
        "0"@ =~= seq!['0'],
        "1"@ =~= seq!['1'],
        "2"@ =~= seq!['2'],
        "3"@ =~= seq!['3'],
        "4"@ =~= seq!['4'],
        "5"@ =~= seq!['5'],
        "6"@ =~= seq!['6'],
        "7"@ =~= seq!['7'],
        "8"@ =~= seq!['8'],
        "9"@ =~= seq!['9'],
        "F1"@ =~= seq!['F', '1'],
        "F2"@ =~= seq!['F', '2'],
        "F3"@ =~= seq!['F', '3'],
        "F4"@ =~= seq!['F', '4'],
        "F5"@ =~= seq!['F', '5'],
        "F6"@ =~= seq!['F', '6'],
        "F7"@ =~= seq!['F', '7'],
        "F8"@ =~= seq!['F', '8'],
        "F9"@ =~= seq!['F', '9'],
        "F10"@ =~= seq!['F', '1', '0'],
        "F11"@ =~= seq!['F', '1', '1'],
        "F12"@ =~= seq!['F', '1', '2'],
        "SPACE"@ =~= seq!['S', 'P', 'A', 'C', 'E'],
        "TAB"@ =~= seq!['T', 'A', 'B'],
        "ENTER"@ =~= seq!['E', 'N', 'T', 'E', 'R'],
        "RETURN"@ =~= seq!['R', 'E', 'T', 'U', 'R', 'N'],
        "ESCAPE"@ =~= seq!['E', 'S', 'C', 'A', 'P', 'E'],
        "ESC"@ =~= seq!['E', 'S', 'C'],
        "BACKSPACE"@ =~= seq!['B', 'A', 'C', 'K', 'S', 'P', 'A', 'C', 'E'],
{
    reveal_strlit("A");
    reveal_strlit("B");
    reveal_strlit("C");
    reveal_strlit("D");
    reveal_strlit("E");
    reveal_strlit("F");
    reveal_strlit("G");
    reveal_strlit("H");
    reveal_strlit("I");
    reveal_strlit("J");
    reveal_strlit("K");
    reveal_strlit("L");
    reveal_strlit("M");
    reveal_strlit("N");
    reveal_strlit("O");
    reveal_strlit("P");
    reveal_strlit("Q");
    reveal_strlit("R");
    reveal_strlit("S");
    reveal_strlit("T");
    reveal_strlit("U");
    reveal_strlit("V");
    reveal_strlit("W");
    reveal_strlit("X");
    reveal_strlit("Y");
    reveal_strlit("Z");
    reveal_strlit("0");
    reveal_strlit("1");
    reveal_strlit("2");
    reveal_strlit("3");
    reveal_strlit("4");
    reveal_strlit("5");
    reveal_strlit("6");
    reveal_strlit("7");
    reveal_strlit("8");
    reveal_strlit("9");
    reveal_strlit("F1");
    reveal_strlit("F2");
    reveal_strlit("F3");
    reveal_strlit("F4");
    reveal_strlit("F5");
    reveal_strlit("F6");
    reveal_strlit("F7");
    reveal_strlit("F8");
    reveal_strlit("F9");
    reveal_strlit("F10");
    reveal_strlit("F11");
    reveal_strlit("F12");
    reveal_strlit("SPACE");
    reveal_strlit("TAB");
    reveal_strlit("ENTER");
    reveal_strlit("RETURN");
    reveal_strlit("ESCAPE");
    reveal_strlit("ESC");
    reveal_strlit("BACKSPACE");
}

/// A one-character key name equals a table name exactly when it is that
/// name's character.
proof fn lemma_one_char_names(c: char)
    ensures
        (seq![c] == "A"@) == (c == 'A'),
        (seq![c] == "B"@) == (c == 'B'),
        (seq![c] == "C"@) == (c == 'C'),
        (seq![c] == "D"@) == (c == 'D'),
        (seq![c] == "E"@) == (c == 'E'),
        (seq![c] == "F"@) == (c == 'F'),
        (seq![c] == "G"@) == (c == 'G'),
        (seq![c] == "H"@) == (c == 'H'),
        (seq![c] == "I"@) == (c == 'I'),
        (seq![c] == "J"@) == (c == 'J'),
        (seq![c] == "K"@) == (c == 'K'),
        (seq![c] == "L"@) == (c == 'L'),
        (seq![c] == "M"@) == (c == 'M'),
        (seq![c] == "N"@) == (c == 'N'),
        (seq![c] == "O"@) == (c == 'O'),
        (seq![c] == "P"@) == (c == 'P'),
        (seq![c] == "Q"@) == (c == 'Q'),
        (seq![c] == "R"@) == (c == 'R'),
        (seq![c] == "S"@) == (c == 'S'),
        (seq![c] == "T"@) == (c == 'T'),
        (seq![c] == "U"@) == (c == 'U'),
        (seq![c] == "V"@) == (c == 'V'),
        (seq![c] == "W"@) == (c == 'W'),
        (seq![c] == "X"@) == (c == 'X'),
        (seq![c] == "Y"@) == (c == 'Y'),
        (seq![c] == "Z"@) == (c == 'Z'),
        (seq![c] == "0"@) == (c == '0'),
        (seq![c] == "1"@) == (c == '1'),
        (seq![c] == "2"@) == (c == '2'),
        (seq![c] == "3"@) == (c == '3'),
        (seq![c] == "4"@) == (c == '4'),
        (seq![c] == "5"@) == (c == '5'),
        (seq![c] == "6"@) == (c == '6'),
        (seq![c] == "7"@) == (c == '7'),
        (seq![c] == "8"@) == (c == '8'),
        (seq![c] == "9"@) == (c == '9'),
        seq![c] != "F1"@,
        seq![c] != "F2"@,
        seq![c] != "F3"@,
        seq![c] != "F4"@,
        seq![c] != "F5"@,
        seq![c] != "F6"@,
        seq![c] != "F7"@,
        seq![c] != "F8"@,
        seq![c] != "F9"@,
        seq![c] != "F10"@,
        seq![c] != "F11"@,
        seq![c] != "F12"@,
        seq![c] != "SPACE"@,
        seq![c] != "TAB"@,
        seq![c] != "ENTER"@,
        seq![c] != "RETURN"@,
        seq![c] != "ESCAPE"@,
        seq![c] != "ESC"@,
        seq![c] != "BACKSPACE"@,
{
    reveal_key_names();
    if c == 'A' {
        assert(seq![c] =~= "A"@);
    } else {
        assert(seq![c][0] != "A"@[0]);
    }
    if c == 'B' {
        assert(seq![c] =~= "B"@);
    } else {
        assert(seq![c][0] != "B"@[0]);
    }
    if c == 'C' {
        assert(seq![c] =~= "C"@);
    } else {
        assert(seq![c][0] != "C"@[0]);
    }
    if c == 'D' {
        assert(seq![c] =~= "D"@);
    } else {
        assert(seq![c][0] != "D"@[0]);
    }
    if c == 'E' {
        assert(seq![c] =~= "E"@);
    } else {
        assert(seq![c][0] != "E"@[0]);
    }
    if c == 'F' {
        assert(seq![c] =~= "F"@);
    } else {
        assert(seq![c][0] != "F"@[0]);
    }
    if c == 'G' {
        assert(seq![c] =~= "G"@);
    } else {
        assert(seq![c][0] != "G"@[0]);
    }
    if c == 'H' {
        assert(seq![c] =~= "H"@);
    } else {
        assert(seq![c][0] != "H"@[0]);
    }
    if c == 'I' {
        assert(seq![c] =~= "I"@);
    } else {
        assert(seq![c][0] != "I"@[0]);
    }
    if c == 'J' {
        assert(seq![c] =~= "J"@);
    } else {
        assert(seq![c][0] != "J"@[0]);
    }
    if c == 'K' {
        assert(seq![c] =~= "K"@);
    } else {
        assert(seq![c][0] != "K"@[0]);
    }
    if c == 'L' {
        assert(seq![c] =~= "L"@);
    } else {
        assert(seq![c][0] != "L"@[0]);
    }
    if c == 'M' {
        assert(seq![c] =~= "M"@);
    } else {
        assert(seq![c][0] != "M"@[0]);
    }
    if c == 'N' {
        assert(seq![c] =~= "N"@);
    } else {
        assert(seq![c][0] != "N"@[0]);
    }
    if c == 'O' {
        assert(seq![c] =~= "O"@);
    } else {
        assert(seq![c][0] != "O"@[0]);
    }
    if c == 'P' {
        assert(seq![c] =~= "P"@);
    } else {
        assert(seq![c][0] != "P"@[0]);
    }
    if c == 'Q' {
        assert(seq![c] =~= "Q"@);
    } else {
        assert(seq![c][0] != "Q"@[0]);
    }
    if c == 'R' {
        assert(seq![c] =~= "R"@);
    } else {
        assert(seq![c][0] != "R"@[0]);
    }
    if c == 'S' {
        assert(seq![c] =~= "S"@);
    } else {
        assert(seq![c][0] != "S"@[0]);
    }
    if c == 'T' {
        assert(seq![c] =~= "T"@);
    } else {
        assert(seq![c][0] != "T"@[0]);
    }
    if c == 'U' {
        assert(seq![c] =~= "U"@);
    } else {
        assert(seq![c][0] != "U"@[0]);
    }
    if c == 'V' {
        assert(seq![c] =~= "V"@);
    } else {
        assert(seq![c][0] != "V"@[0]);
    }
    if c == 'W' {
        assert(seq![c] =~= "W"@);
    } else {
        assert(seq![c][0] != "W"@[0]);
    }
    if c == 'X' {
        assert(seq![c] =~= "X"@);
    } else {
        assert(seq![c][0] != "X"@[0]);
    }
    if c == 'Y' {
        assert(seq![c] =~= "Y"@);
    } else {
        assert(seq![c][0] != "Y"@[0]);
    }
    if c == 'Z' {
        assert(seq![c] =~= "Z"@);
    } else {
        assert(seq![c][0] != "Z"@[0]);
    }
    if c == '0' {
        assert(seq![c] =~= "0"@);
    } else {
        assert(seq![c][0] != "0"@[0]);
    }
    if c == '1' {
        assert(seq![c] =~= "1"@);
    } else {
        assert(seq![c][0] != "1"@[0]);
    }
    if c == '2' {
        assert(seq![c] =~= "2"@);
    } else {
        assert(seq![c][0] != "2"@[0]);
    }
    if c == '3' {
        assert(seq![c] =~= "3"@);
    } else {
        assert(seq![c][0] != "3"@[0]);
    }
    if c == '4' {
        assert(seq![c] =~= "4"@);
    } else {
        assert(seq![c][0] != "4"@[0]);
    }
    if c == '5' {
        assert(seq![c] =~= "5"@);
    } else {
        assert(seq![c][0] != "5"@[0]);
    }
    if c == '6' {
        assert(seq![c] =~= "6"@);
    } else {
        assert(seq![c][0] != "6"@[0]);
    }
    if c == '7' {
        assert(seq![c] =~= "7"@);
    } else {
        assert(seq![c][0] != "7"@[0]);
    }
    if c == '8' {
        assert(seq![c] =~= "8"@);
    } else {
        assert(seq![c][0] != "8"@[0]);
    }
    if c == '9' {
        assert(seq![c] =~= "9"@);
    } else {
        assert(seq![c][0] != "9"@[0]);
    }
    assert(seq![c].len() != "F1"@.len());
    assert(seq![c].len() != "F2"@.len());
    assert(seq![c].len() != "F3"@.len());
    assert(seq![c].len() != "F4"@.len());
    assert(seq![c].len() != "F5"@.len());
    assert(seq![c].len() != "F6"@.len());
    assert(seq![c].len() != "F7"@.len());
    assert(seq![c].len() != "F8"@.len());
    assert(seq![c].len() != "F9"@.len());
    assert(seq![c].len() != "F10"@.len());
    assert(seq![c].len() != "F11"@.len());
    assert(seq![c].len() != "F12"@.len());
    assert(seq![c].len() != "SPACE"@.len());
    assert(seq![c].len() != "TAB"@.len());
    assert(seq![c].len() != "ENTER"@.len());
    assert(seq![c].len() != "RETURN"@.len());
    assert(seq![c].len() != "ESCAPE"@.len());
    assert(seq![c].len() != "ESC"@.len());
    assert(seq![c].len() != "BACKSPACE"@.len());
}

/// Every letter names its own key: the upper-case letter `c` gives the key
/// of that letter, so `KeyO` is only given for `O` among the letters.
pub proof fn law_letter_keys(c: char)
    requires
        'A' <= c <= 'Z',
    ensures
        key_number(key_of(seq![c])) == (c as int) - ('A' as int),
{
    lemma_one_char_names(c);
}

/// Every digit names its own key: the digit `c` gives the key of that
/// digit.
pub proof fn law_digit_keys(c: char)
    requires
        '0' <= c <= '9',
    ensures
        key_number(key_of(seq![c])) == 26 + (c as int) - ('0' as int),
{
    lemma_one_char_names(c);
}

/// A two-character name `F` and `d` equals a table name exactly when it is
/// that function key's name.
proof fn lemma_two_char_names(d: char)
    ensures
        seq!['F', d] != "A"@,
        seq!['F', d] != "B"@,
        seq!['F', d] != "C"@,
        seq!['F', d] != "D"@,
        seq!['F', d] != "E"@,
        seq!['F', d] != "F"@,
        seq!['F', d] != "G"@,
        seq!['F', d] != "H"@,
        seq!['F', d] != "I"@,
        seq!['F', d] != "J"@,
        seq!['F', d] != "K"@,
        seq!['F', d] != "L"@,
        seq!['F', d] != "M"@,
        seq!['F', d] != "N"@,
        seq!['F', d] != "O"@,
        seq!['F', d] != "P"@,
        seq!['F', d] != "Q"@,
        seq!['F', d] != "R"@,
        seq!['F', d] != "S"@,
        seq!['F', d] != "T"@,
        seq!['F', d] != "U"@,
        seq!['F', d] != "V"@,
        seq!['F', d] != "W"@,
        seq!['F', d] != "X"@,
        seq!['F', d] != "Y"@,
        seq!['F', d] != "Z"@,
        seq!['F', d] != "0"@,
        seq!['F', d] != "1"@,
        seq!['F', d] != "2"@,
        seq!['F', d] != "3"@,
        seq!['F', d] != "4"@,
        seq!['F', d] != "5"@,
        seq!['F', d] != "6"@,
        seq!['F', d] != "7"@,
        seq!['F', d] != "8"@,
        seq!['F', d] != "9"@,
        seq!['F', d] != "F10"@,
        seq!['F', d] != "F11"@,
        seq!['F', d] != "F12"@,
        seq!['F', d] != "TAB"@,
        seq!['F', d] != "ESC"@,
        seq!['F', d] != "SPACE"@,
        seq!['F', d] != "ENTER"@,
        seq!['F', d] != "RETURN"@,
        seq!['F', d] != "ESCAPE"@,
        seq!['F', d] != "BACKSPACE"@,
        (seq!['F', d] == "F1"@) == (d == '1'),
        (seq!['F', d] == "F2"@) == (d == '2'),
        (seq!['F', d] == "F3"@) == (d == '3'),
        (seq!['F', d] == "F4"@) == (d == '4'),
        (seq!['F', d] == "F5"@) == (d == '5'),
        (seq!['F', d] == "F6"@) == (d == '6'),
        (seq!['F', d] == "F7"@) == (d == '7'),
        (seq!['F', d] == "F8"@) == (d == '8'),
        (seq!['F', d] == "F9"@) == (d == '9'),
{
    reveal_key_names();
    assert(seq!['F', d].len() != "A"@.len());
    assert(seq!['F', d].len() != "B"@.len());
    assert(seq!['F', d].len() != "C"@.len());
    assert(seq!['F', d].len() != "D"@.len());
    assert(seq!['F', d].len() != "E"@.len());
    assert(seq!['F', d].len() != "F"@.len());
    assert(seq!['F', d].len() != "G"@.len());
    assert(seq!['F', d].len() != "H"@.len());
    assert(seq!['F', d].len() != "I"@.len());
    assert(seq!['F', d].len() != "J"@.len());
    assert(seq!['F', d].len() != "K"@.len());
    assert(seq!['F', d].len() != "L"@.len());
    assert(seq!['F', d].len() != "M"@.len());
    assert(seq!['F', d].len() != "N"@.len());
    assert(seq!['F', d].len() != "O"@.len());
    assert(seq!['F', d].len() != "P"@.len());
    assert(seq!['F', d].len() != "Q"@.len());
    assert(seq!['F', d].len() != "R"@.len());
    assert(seq!['F', d].len() != "S"@.len());
    assert(seq!['F', d].len() != "T"@.len());
    assert(seq!['F', d].len() != "U"@.len());
    assert(seq!['F', d].len() != "V"@.len());
    assert(seq!['F', d].len() != "W"@.len());
    assert(seq!['F', d].len() != "X"@.len());
    assert(seq!['F', d].len() != "Y"@.len());
    assert(seq!['F', d].len() != "Z"@.len());
    assert(seq!['F', d].len() != "0"@.len());
    assert(seq!['F', d].len() != "1"@.len());
    assert(seq!['F', d].len() != "2"@.len());
    assert(seq!['F', d].len() != "3"@.len());
    assert(seq!['F', d].len() != "4"@.len());
    assert(seq!['F', d].len() != "5"@.len());
    assert(seq!['F', d].len() != "6"@.len());
    assert(seq!['F', d].len() != "7"@.len());
    assert(seq!['F', d].len() != "8"@.len());
    assert(seq!['F', d].len() != "9"@.len());
    assert(seq!['F', d].len() != "F10"@.len());
    assert(seq!['F', d].len() != "F11"@.len());
    assert(seq!['F', d].len() != "F12"@.len());
    assert(seq!['F', d].len() != "TAB"@.len());
    assert(seq!['F', d].len() != "ESC"@.len());
    assert(seq!['F', d].len() != "SPACE"@.len());
    assert(seq!['F', d].len() != "ENTER"@.len());
    assert(seq!['F', d].len() != "RETURN"@.len());
    assert(seq!['F', d].len() != "ESCAPE"@.len());
    assert(seq!['F', d].len() != "BACKSPACE"@.len());
    if d == '1' {
        assert(seq!['F', d] =~= "F1"@);
    } else {
        assert(seq!['F', d][1] != "F1"@[1]);
    }
    if d == '2' {
        assert(seq!['F', d] =~= "F2"@);
    } else {
        assert(seq!['F', d][1] != "F2"@[1]);
    }
    if d == '3' {
        assert(seq!['F', d] =~= "F3"@);
    } else {
        assert(seq!['F', d][1] != "F3"@[1]);
    }
    if d == '4' {
        assert(seq!['F', d] =~= "F4"@);
    } else {
        assert(seq!['F', d][1] != "F4"@[1]);
    }
    if d == '5' {
        assert(seq!['F', d] =~= "F5"@);
    } else {
        assert(seq!['F', d][1] != "F5"@[1]);
    }
    if d == '6' {
        assert(seq!['F', d] =~= "F6"@);
    } else {
        assert(seq!['F', d][1] != "F6"@[1]);
    }
    if d == '7' {
        assert(seq!['F', d] =~= "F7"@);
    } else {
        assert(seq!['F', d][1] != "F7"@[1]);
    }
    if d == '8' {
        assert(seq!['F', d] =~= "F8"@);
    } else {
        assert(seq!['F', d][1] != "F8"@[1]);
    }
    if d == '9' {
        assert(seq!['F', d] =~= "F9"@);
    } else {
        assert(seq!['F', d][1] != "F9"@[1]);
    }
}

/// A three-character name `F`, `1` and `d` equals a table name exactly when
/// it is that function key's name.
proof fn lemma_three_char_names(d: char)
    ensures
        seq!['F', '1', d] != "A"@,
        seq!['F', '1', d] != "B"@,
        seq!['F', '1', d] != "C"@,
        seq!['F', '1', d] != "D"@,
        seq!['F', '1', d] != "E"@,
        seq!['F', '1', d] != "F"@,
        seq!['F', '1', d] != "G"@,
        seq!['F', '1', d] != "H"@,
        seq!['F', '1', d] != "I"@,
        seq!['F', '1', d] != "J"@,
        seq!['F', '1', d] != "K"@,
        seq!['F', '1', d] != "L"@,
        seq!['F', '1', d] != "M"@,
        seq!['F', '1', d] != "N"@,
        seq!['F', '1', d] != "O"@,
        seq!['F', '1', d] != "P"@,
        seq!['F', '1', d] != "Q"@,
        seq!['F', '1', d] != "R"@,
        seq!['F', '1', d] != "S"@,
        seq!['F', '1', d] != "T"@,
        seq!['F', '1', d] != "U"@,
        seq!['F', '1', d] != "V"@,
        seq!['F', '1', d] != "W"@,
        seq!['F', '1', d] != "X"@,
        seq!['F', '1', d] != "Y"@,
        seq!['F', '1', d] != "Z"@,
        seq!['F', '1', d] != "0"@,
        seq!['F', '1', d] != "1"@,
        seq!['F', '1', d] != "2"@,
        seq!['F', '1', d] != "3"@,
        seq!['F', '1', d] != "4"@,
        seq!['F', '1', d] != "5"@,
        seq!['F', '1', d] != "6"@,
        seq!['F', '1', d] != "7"@,
        seq!['F', '1', d] != "8"@,
        seq!['F', '1', d] != "9"@,
        seq!['F', '1', d] != "F1"@,
        seq!['F', '1', d] != "F2"@,
        seq!['F', '1', d] != "F3"@,
        seq!['F', '1', d] != "F4"@,
        seq!['F', '1', d] != "F5"@,
        seq!['F', '1', d] != "F6"@,
        seq!['F', '1', d] != "F7"@,
        seq!['F', '1', d] != "F8"@,
        seq!['F', '1', d] != "F9"@,
        seq!['F', '1', d] != "SPACE"@,
        seq!['F', '1', d] != "ENTER"@,
        seq!['F', '1', d] != "RETURN"@,
        seq!['F', '1', d] != "ESCAPE"@,
        seq!['F', '1', d] != "BACKSPACE"@,
        seq!['F', '1', d] != "TAB"@,
        seq!['F', '1', d] != "ESC"@,
        (seq!['F', '1', d] == "F10"@) == (d == '0'),
        (seq!['F', '1', d] == "F11"@) == (d == '1'),
        (seq!['F', '1', d] == "F12"@) == (d == '2'),
{
    reveal_key_names();
    assert(seq!['F', '1', d].len() != "A"@.len());
    assert(seq!['F', '1', d].len() != "B"@.len());
    assert(seq!['F', '1', d].len() != "C"@.len());
    assert(seq!['F', '1', d].len() != "D"@.len());
    assert(seq!['F', '1', d].len() != "E"@.len());
    assert(seq!['F', '1', d].len() != "F"@.len());
    assert(seq!['F', '1', d].len() != "G"@.len());
    assert(seq!['F', '1', d].len() != "H"@.len());
    assert(seq!['F', '1', d].len() != "I"@.len());
    assert(seq!['F', '1', d].len() != "J"@.len());
    assert(seq!['F', '1', d].len() != "K"@.len());
    assert(seq!['F', '1', d].len() != "L"@.len());
    assert(seq!['F', '1', d].len() != "M"@.len());
    assert(seq!['F', '1', d].len() != "N"@.len());
    assert(seq!['F', '1', d].len() != "O"@.len());
    assert(seq!['F', '1', d].len() != "P"@.len());
    assert(seq!['F', '1', d].len() != "Q"@.len());
    assert(seq!['F', '1', d].len() != "R"@.len());
    assert(seq!['F', '1', d].len() != "S"@.len());
    assert(seq!['F', '1', d].len() != "T"@.len());
    assert(seq!['F', '1', d].len() != "U"@.len());
    assert(seq!['F', '1', d].len() != "V"@.len());
    assert(seq!['F', '1', d].len() != "W"@.len());
    assert(seq!['F', '1', d].len() != "X"@.len());
    assert(seq!['F', '1', d].len() != "Y"@.len());
    assert(seq!['F', '1', d].len() != "Z"@.len());
    assert(seq!['F', '1', d].len() != "0"@.len());
    assert(seq!['F', '1', d].len() != "1"@.len());
    assert(seq!['F', '1', d].len() != "2"@.len());
    assert(seq!['F', '1', d].len() != "3"@.len());
    assert(seq!['F', '1', d].len() != "4"@.len());
    assert(seq!['F', '1', d].len() != "5"@.len());
    assert(seq!['F', '1', d].len() != "6"@.len());
    assert(seq!['F', '1', d].len() != "7"@.len());
    assert(seq!['F', '1', d].len() != "8"@.len());
    assert(seq!['F', '1', d].len() != "9"@.len());
    assert(seq!['F', '1', d].len() != "F1"@.len());
    assert(seq!['F', '1', d].len() != "F2"@.len());
    assert(seq!['F', '1', d].len() != "F3"@.len());
    assert(seq!['F', '1', d].len() != "F4"@.len());
    assert(seq!['F', '1', d].len() != "F5"@.len());
    assert(seq!['F', '1', d].len() != "F6"@.len());
    assert(seq!['F', '1', d].len() != "F7"@.len());
    assert(seq!['F', '1', d].len() != "F8"@.len());
    assert(seq!['F', '1', d].len() != "F9"@.len());
    assert(seq!['F', '1', d].len() != "SPACE"@.len());
    assert(seq!['F', '1', d].len() != "ENTER"@.len());
    assert(seq!['F', '1', d].len() != "RETURN"@.len());
    assert(seq!['F', '1', d].len() != "ESCAPE"@.len());
    assert(seq!['F', '1', d].len() != "BACKSPACE"@.len());
    assert(seq!['F', '1', d][0] != "TAB"@[0]);
    assert(seq!['F', '1', d][0] != "ESC"@[0]);
    if d == '0' {
        assert(seq!['F', '1', d] =~= "F10"@);
    } else {
        assert(seq!['F', '1', d][2] != "F10"@[2]);
    }
    if d == '1' {
        assert(seq!['F', '1', d] =~= "F11"@);
    } else {
        assert(seq!['F', '1', d][2] != "F11"@[2]);
    }
    if d == '2' {
        assert(seq!['F', '1', d] =~= "F12"@);
    } else {
        assert(seq!['F', '1', d][2] != "F12"@[2]);
    }
}

/// The function keys `F1` to `F9` give their own keys.
pub proof fn law_function_keys_1_to_9(d: char)
    requires
        '1' <= d <= '9',
    ensures
        key_number(key_of(seq!['F', d])) == 35 + (d as int) - ('0' as int),
{
    lemma_two_char_names(d);
}

/// The function keys `F10` to `F12` give their own keys.
pub proof fn law_function_keys_10_to_12(d: char)
    requires
        '0' <= d <= '2',
    ensures
        key_number(key_of(seq!['F', '1', d])) == 45 + (d as int) - ('0' as int),
{
    lemma_three_char_names(d);
}

fn key_of_exec(k: &[char]) -> (res: KeyCode)
    ensures
        res == key_of(k@),
{
    if lit_eq(k, "A") {
        return KeyCode::KeyA;
    }
    if lit_eq(k, "B") {
        return KeyCode::KeyB;
    }
    if lit_eq(k, "C") {
        return KeyCode::KeyC;
    }
    if lit_eq(k, "D") {
        return KeyCode::KeyD;
    }
    if lit_eq(k, "E") {
        return KeyCode::KeyE;
    }
    if lit_eq(k, "F") {
        return KeyCode::KeyF;
    }
    if lit_eq(k, "G") {
        return KeyCode::KeyG;
    }
    if lit_eq(k, "H") {
        return KeyCode::KeyH;
    }
    if lit_eq(k, "I") {
        return KeyCode::KeyI;
    }
    if lit_eq(k, "J") {
        return KeyCode::KeyJ;
    }
    if lit_eq(k, "K") {
        return KeyCode::KeyK;
    }
    if lit_eq(k, "L") {
        return KeyCode::KeyL;
    }
    if lit_eq(k, "M") {
        return KeyCode::KeyM;
    }
    if lit_eq(k, "N") {
        return KeyCode::KeyN;
    }
    if lit_eq(k, "O") {
        return KeyCode::KeyO;
    }
    if lit_eq(k, "P") {
        return KeyCode::KeyP;
    }
    if lit_eq(k, "Q") {
        return KeyCode::KeyQ;
    }
    if lit_eq(k, "R") {
        return KeyCode::KeyR;
    }
    if lit_eq(k, "S") {
        return KeyCode::KeyS;
    }
    if lit_eq(k, "T") {
        return KeyCode::KeyT;
    }
    if lit_eq(k, "U") {
        return KeyCode::KeyU;
    }
    if lit_eq(k, "V") {
        return KeyCode::KeyV;
    }
    if lit_eq(k, "W") {
        return KeyCode::KeyW;
    }
    if lit_eq(k, "X") {
        return KeyCode::KeyX;
    }
    if lit_eq(k, "Y") {
        return KeyCode::KeyY;
    }
    if lit_eq(k, "Z") {
        return KeyCode::KeyZ;
    }
    if lit_eq(k, "0") {
        return KeyCode::Digit0;
    }
    if lit_eq(k, "1") {
        return KeyCode::Digit1;
    }
    if lit_eq(k, "2") {
        return KeyCode::Digit2;
    }
    if lit_eq(k, "3") {
        return KeyCode::Digit3;
    }
    if lit_eq(k, "4") {
        return KeyCode::Digit4;
    }
    if lit_eq(k, "5") {
        return KeyCode::Digit5;
    }
    if lit_eq(k, "6") {
        return KeyCode::Digit6;
    }
    if lit_eq(k, "7") {
        return KeyCode::Digit7;
    }
    if lit_eq(k, "8") {
        return KeyCode::Digit8;
    }
    if lit_eq(k, "9") {
        return KeyCode::Digit9;
    }
    if lit_eq(k, "F1") {
        return KeyCode::F1;
    }
    if lit_eq(k, "F2") {
        return KeyCode::F2;
    }
    if lit_eq(k, "F3") {
        return KeyCode::F3;
    }
    if lit_eq(k, "F4") {
        return KeyCode::F4;
    }
    if lit_eq(k, "F5") {
        return KeyCode::F5;
    }
    if lit_eq(k, "F6") {
        return KeyCode::F6;
    }
    if lit_eq(k, "F7") {
        return KeyCode::F7;
    }
    if lit_eq(k, "F8") {
        return KeyCode::F8;
    }
    if lit_eq(k, "F9") {
        return KeyCode::F9;
    }
    if lit_eq(k, "F10") {
        return KeyCode::F10;
    }
    if lit_eq(k, "F11") {
        return KeyCode::F11;
    }
    if lit_eq(k, "F12") {
        return KeyCode::F12;
    }
    if lit_eq(k, "SPACE") {
        return KeyCode::Space;
    }
    if lit_eq(k, "TAB") {
        return KeyCode::Tab;
    }
    if lit_eq(k, "ENTER") || lit_eq(k, "RETURN") {
        return KeyCode::Enter;
    }
    if lit_eq(k, "ESCAPE") || lit_eq(k, "ESC") {
        return KeyCode::Escape;
    }
    if lit_eq(k, "BACKSPACE") {
        return KeyCode::Backspace;
    }
    KeyCode::KeyO
}

/// Splitting always yields at least one piece.
pub proof fn lemma_split_nonempty(s: Seq<char>, sep: char)
    ensures
        split_seq(s, sep).len() >= 1,
    decreases s.len(),
{
    match first_index(s, sep) {
        Some(i) => if 0 <= i < s.len() {
            lemma_split_nonempty(s.skip(i + 1), sep);
        },
        None => {},
    }
}

/// The modifiers that the (trimmed) ASCII parts `parts` name, in order,
/// with ASCII lower-casing.
pub open spec fn ascii_modifiers_of(parts: Seq<Seq<char>>) -> Modifiers
    decreases parts.len(),
{
    if parts.len() == 0 {
        no_modifiers()
    } else {
        add_modifier(ascii_modifiers_of(parts.drop_last()), ascii_lowercase(parts.last()))
    }
}

/// The shortcut that the ASCII string `s` names: as `shortcut_spec`, with
/// the case mappings that ASCII text gets.
pub open spec fn ascii_shortcut_spec(s: Seq<char>) -> Shortcut {
    Shortcut {
        modifiers: ascii_modifiers_of(shortcut_parts(s).drop_last()),
        code: key_of(ascii_uppercase(shortcut_parts(s).last())),
    }
}

/// The pieces of ASCII text are ASCII.
proof fn lemma_split_ascii(s: Seq<char>, sep: char)
    requires
        is_ascii_chars(s),
    ensures
        forall|k: int| 0 <= k < split_seq(s, sep).len() ==> is_ascii_chars(#[trigger] split_seq(s, sep)[k]),
    decreases s.len(),
{
    crate::text::lemma_first_index_bounds(s, sep);
    match first_index(s, sep) {
        Some(i) => {
            if 0 <= i < s.len() {
                let rest = s.skip(i + 1);
                assert forall|j: int| 0 <= j < rest.len() implies (rest[j] as u32) < 128 by {
                    assert(rest[j] == s[i + 1 + j]);
                }
                lemma_split_ascii(rest, sep);
                let pieces = split_seq(s, sep);
                assert forall|k: int| 0 <= k < pieces.len() implies is_ascii_chars(#[trigger] pieces[k]) by {
                    if k == 0 {
                        assert(pieces[0] == s.take(i));
                        assert forall|j: int| 0 <= j < s.take(i).len() implies (s.take(i)[j] as u32) < 128 by {
                            assert(s.take(i)[j] == s[j]);
                        }
                    } else {
                        assert(pieces[k] == split_seq(rest, sep)[k - 1]);
                    }
                }
            }
        },
        None => {},
    }
}

/// Parses a shortcut string such as "Ctrl+Shift+O": the pieces between
/// '+' signs are trimmed; every piece but the last names a modifier
/// (case-insensitively; unknown words are ignored) and the last piece names
/// the key (case-insensitively; an unknown key falls back to `KeyO`).
pub fn parse_shortcut_string(s: &str) -> (res: Shortcut)
    ensures
        res == shortcut_spec(s@),
        is_ascii_chars(s@) ==> res == ascii_shortcut_spec(s@),
{
    let cs = chars_of(s);
    let raw = split_chars(cs.as_slice(), '+');
    proof {
        lemma_split_nonempty(s@, '+');
    }
    let ghost parts = shortcut_parts(s@);
    proof {
        if is_ascii_chars(s@) {
            lemma_split_ascii(s@, '+');
        }
    }
    let mut trimmed: Vec<Vec<char>> = Vec::new();
    let mut i: usize = 0;
    while i < raw.len()
        invariant
            raw.deep_view() == split_seq(s@, '+'),
            parts == split_seq(s@, '+').map_values(|p: Seq<char>| trim_seq(p)),
            i <= raw@.len(),
            trimmed.deep_view() == parts.take(i as int),
            is_ascii_chars(s@) ==> forall|k: int|
                0 <= k < split_seq(s@, '+').len() ==> is_ascii_chars(#[trigger] split_seq(s@, '+')[k]),
            is_ascii_chars(s@) ==> forall|k: int| 0 <= k < i ==> is_ascii_chars(#[trigger] parts[k]),
        decreases raw@.len() - i,
    {
        let (a, b) = trim_bounds(raw[i].as_slice());
        let t = vstd::slice::slice_to_vec(vstd::slice::slice_subrange(raw[i].as_slice(), a, b));
        let ghost old_t = trimmed.deep_view();
        assert(t.deep_view() =~= t@);
        assert(raw.deep_view()[i as int] == raw@[i as int]@);
        assert(parts[i as int] == trim_seq(raw@[i as int]@));
        proof {
            if is_ascii_chars(s@) {
                let piece = raw@[i as int]@;
                assert(is_ascii_chars(split_seq(s@, '+')[i as int]));
                assert forall|j: int| 0 <= j < t@.len() implies (t@[j] as u32) < 128 by {
                    assert(t@[j] == piece[a + j]);
                }
            }
        }
        trimmed.push(t);
        assert(trimmed.deep_view() =~= old_t.push(t@));
        assert(trimmed.deep_view() =~= parts.take(i + 1));
        i = i + 1;
    }
    assert(parts.take(raw@.len() as int) =~= parts);
    let n = trimmed.len();
    let mut modifiers = Modifiers { ctrl: false, shift: false, alt: false, super_key: false };
    let mut j: usize = 0;
    while j + 1 < n
        invariant
            n == trimmed@.len(),
            n >= 1,
            trimmed.deep_view() == parts,
            j < n,
            modifiers == modifiers_of(parts.take(j as int)),
            is_ascii_chars(s@) ==> forall|k: int| 0 <= k < n ==> is_ascii_chars(#[trigger] parts[k]),
            is_ascii_chars(s@) ==> modifiers == ascii_modifiers_of(parts.take(j as int)),
        decreases n - j,
    {
        let word = string_from_chars(trimmed[j].as_slice());
        let lower = to_lowercase(word.as_str());
        let lower_chars = chars_of(lower.as_str());
        assert(trimmed.deep_view()[j as int] == trimmed@[j as int]@);
        modifiers = add_modifier_exec(modifiers, lower_chars.as_slice());
        assert(parts.take(j + 1).drop_last() =~= parts.take(j as int));
        j = j + 1;
    }
    assert(parts.take(j as int) =~= parts.drop_last());
    let key_word = string_from_chars(trimmed[n - 1].as_slice());
    assert(trimmed.deep_view()[n - 1] == trimmed@[n - 1]@);
    let upper = to_uppercase(key_word.as_str());
    let upper_chars = chars_of(upper.as_str());
    let code = key_of_exec(upper_chars.as_slice());
    Shortcut { modifiers, code }
}

/// Adding two modifier words gives the same modifiers in either order.
pub proof fn lemma_add_modifier_commutes(m: Modifiers, a: Seq<char>, b: Seq<char>)
    ensures
        add_modifier(add_modifier(m, a), b) == add_modifier(add_modifier(m, b), a),
{
}

/// `s` with the elements at `i` and `i + 1` exchanged.
pub open spec fn swap_adjacent(s: Seq<Seq<char>>, i: int) -> Seq<Seq<char>> {
    s.update(i, s[i + 1]).update(i + 1, s[i])
}

/// Exchanging two neighbouring modifier words does not change the modifiers.
pub proof fn lemma_modifiers_swap(parts: Seq<Seq<char>>, i: int)
    requires
        0 <= i,
        i + 1 < parts.len(),
    ensures
        modifiers_of(swap_adjacent(parts, i)) == modifiers_of(parts),
    decreases parts.len(),
{
    let q = swap_adjacent(parts, i);
    if i + 1 < parts.len() - 1 {
        assert(q.drop_last() =~= swap_adjacent(parts.drop_last(), i));
        lemma_modifiers_swap(parts.drop_last(), i);
        assert(q.last() == parts.last());
    } else {
        let base = parts.drop_last().drop_last();
        assert(q.drop_last().drop_last() =~= base);
        assert(q.last() == parts[i]);
        assert(q.drop_last().last() == parts[i + 1]);
        assert(parts.drop_last().last() == parts[i]);
        assert(parts.drop_last().drop_last() =~= base);
        assert(modifiers_of(q.drop_last()) == add_modifier(
            modifiers_of(base),
            unicode_lowercase(parts[i + 1]),
        ));
        assert(modifiers_of(parts.drop_last()) == add_modifier(
            modifiers_of(base),
            unicode_lowercase(parts[i]),
        ));
        lemma_add_modifier_commutes(
            modifiers_of(base),
            unicode_lowercase(parts[i]),
            unicode_lowercase(parts[i + 1]),
        );
    }
}

/// The order in which modifiers are written does not matter: exchanging
/// two neighbouring modifier parts of a shortcut names the same shortcut.
pub proof fn law_modifier_order_irrelevant(parts: Seq<Seq<char>>, i: int)
    requires
        0 <= i,
        i + 2 < parts.len(),
    ensures
        shortcut_of_parts(swap_adjacent(parts, i)) == shortcut_of_parts(parts),
{
    let q = swap_adjacent(parts, i);
    assert(q.drop_last() =~= swap_adjacent(parts.drop_last(), i));
    lemma_modifiers_swap(parts.drop_last(), i);
    assert(q.last() == parts.last());
}

} // verus!
