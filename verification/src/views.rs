//! Texts as sequences of characters, for the contracts to speak of.

use vstd::prelude::*;

verus! {

/// The characters of a text that may be missing.
pub open spec fn option_text(text: Option<&str>) -> Option<Seq<char>> {
    match text {
        Some(t) => Some(t@),
        None => None,
    }
}

/// The characters of a path that may be missing.
pub open spec fn path_text(path: Option<String>) -> Option<Seq<char>> {
    match path {
        Some(p) => Some(p@),
        None => None,
    }
}

/// The characters of each of `names`.
pub open spec fn names_text(names: Seq<String>) -> Seq<Seq<char>> {
    Seq::new(names.len(), |i: int| names[i]@)
}

/// The characters of what reading a file gave: its text, or why it could not
/// be read.
pub open spec fn read_text(read: Result<String, String>) -> Result<Seq<char>, Seq<char>> {
    match read {
        Ok(text) => Ok(text@),
        Err(cause) => Err(cause@),
    }
}

/// The characters of what writing a file gave: nothing, or why it could not
/// be written.
pub open spec fn written_text(written: Result<(), String>) -> Result<(), Seq<char>> {
    match written {
        Ok(_) => Ok(()),
        Err(cause) => Err(cause@),
    }
}

} // verus!
