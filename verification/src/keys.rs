//! The names of the keys that a mouse button can be mapped to.

use vstd::prelude::*;
use vstd::string::StringExecFns;

verus! {

/// How many key names there are.
pub const KEY_NAME_COUNT: usize = 89;

/// The key names, in the order in which they are offered for selection.
pub open spec fn valid_key_names() -> Seq<Seq<char>> {
    seq![
        "F1"@, "F2"@, "F3"@, "F4"@, "F5"@, "F6"@,
        "F7"@, "F8"@, "F9"@, "F10"@, "F11"@, "F12"@,
        "Grave"@, "_1"@, "_2"@, "_3"@, "_4"@, "_5"@,
        "_6"@, "_7"@, "_8"@, "_9"@, "_0"@, "Minus"@,
        "Equal"@, "BackSpace"@, "Tab"@, "Q"@, "W"@, "E"@,
        "R"@, "T"@, "Y"@, "U"@, "I"@, "O"@,
        "P"@, "LeftBrace"@, "RightBrace"@, "BackSlash"@, "CapsLock"@, "A"@,
        "S"@, "D"@, "F"@, "G"@, "H"@, "J"@,
        "K"@, "L"@, "SemiColon"@, "Apostrophe"@, "Enter"@, "LeftShift"@,
        "Z"@, "X"@, "C"@, "V"@, "B"@, "N"@,
        "M"@, "Comma"@, "Dot"@, "Slash"@, "RightShift"@, "LeftControl"@,
        "LeftMeta"@, "LeftAlt"@, "Space"@, "RightAlt"@, "RightMeta"@, "RightControl"@,
        "Esc"@, "SysRq"@, "ScrollLock"@, "Insert"@, "Home"@, "PageUp"@,
        "Delete"@, "End"@, "PageDown"@, "Up"@, "Left"@, "Down"@,
        "Right"@, "NumLock"@, "LineFeed"@, "ScrollUp"@, "ScrollDown"@,
    ]
}

/// Whether `name` is one of the key names.
pub open spec fn is_valid_key_name(name: Seq<char>) -> bool {
    valid_key_names().contains(name)
}

fn key_name_table() -> (r: Vec<&'static str>)
    ensures
        r@.len() == valid_key_names().len(),
        forall|i: int| 0 <= i < r@.len() ==> (#[trigger] r@[i])@ == valid_key_names()[i],
{
    vec![
        "F1", "F2", "F3", "F4", "F5", "F6",
        "F7", "F8", "F9", "F10", "F11", "F12",
        "Grave", "_1", "_2", "_3", "_4", "_5",
        "_6", "_7", "_8", "_9", "_0", "Minus",
        "Equal", "BackSpace", "Tab", "Q", "W", "E",
        "R", "T", "Y", "U", "I", "O",
        "P", "LeftBrace", "RightBrace", "BackSlash", "CapsLock", "A",
        "S", "D", "F", "G", "H", "J",
        "K", "L", "SemiColon", "Apostrophe", "Enter", "LeftShift",
        "Z", "X", "C", "V", "B", "N",
        "M", "Comma", "Dot", "Slash", "RightShift", "LeftControl",
        "LeftMeta", "LeftAlt", "Space", "RightAlt", "RightMeta", "RightControl",
        "Esc", "SysRq", "ScrollLock", "Insert", "Home", "PageUp",
        "Delete", "End", "PageDown", "Up", "Left", "Down",
        "Right", "NumLock", "LineFeed", "ScrollUp", "ScrollDown",
    ]
}

/// The key names as owned strings.
pub fn get_valid_keys() -> (r: Vec<String>)
    ensures
        r@.len() == KEY_NAME_COUNT,
        r@.len() == valid_key_names().len(),
        forall|i: int| 0 <= i < r@.len() ==> (#[trigger] r@[i])@ == valid_key_names()[i],
{
    let table = key_name_table();
    let mut keys: Vec<String> = Vec::new();
    let mut i: usize = 0;
    while i < table.len()
        invariant
            i <= table@.len(),
            table@.len() == valid_key_names().len(),
            forall|j: int| 0 <= j < table@.len() ==> (#[trigger] table@[j])@ == valid_key_names()[j],
            keys@.len() == i,
            forall|j: int| 0 <= j < i ==> (#[trigger] keys@[j])@ == valid_key_names()[j],
        decreases table@.len() - i,
    {
        keys.push(String::from_str(table[i]));
        i = i + 1;
    }
    keys
}

/// Whether `name` is one of the key names.
pub fn is_valid_key(name: &str) -> (r: bool)
    ensures
        r == is_valid_key_name(name@),
{
    let table = key_name_table();
    let wanted = String::from_str(name);
    let mut i: usize = 0;
    while i < table.len()
        invariant
            i <= table@.len(),
            wanted@ == name@,
            table@.len() == valid_key_names().len(),
            forall|j: int| 0 <= j < table@.len() ==> (#[trigger] table@[j])@ == valid_key_names()[j],
            forall|j: int| 0 <= j < i ==> valid_key_names()[j] != name@,
        decreases table@.len() - i,
    {
        if String::from_str(table[i]) == wanted {
            assert(valid_key_names()[i as int] == name@);
            return true;
        }
        i = i + 1;
    }
    false
}

} // verus!
