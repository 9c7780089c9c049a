use vstd::prelude::*;

verus! {

/// Options of the password generation utility: the length and the character
/// classes to draw from.
pub struct GenPassOpt {
    pub length: u8,
    pub uppercase: bool,
    pub lowercase: bool,
    pub numbers: bool,
    pub symbols: bool,
}

} // verus!
