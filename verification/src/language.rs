//! Languages, as the shaping engine hands them out.

use vstd::prelude::*;

verus! {

/// A language. The shaping engine interns language tags and hands out one
/// token for each; the library stores the token and hands it back. The token
/// zero stands for "no language".
#[derive(Debug, Copy, Clone, PartialEq, Eq, Structural, Hash)]
pub struct Language {
    /// The engine's token for the language.
    pub raw: usize,
}

impl Language {
    /// No language.
    pub fn invalid() -> (language: Self)
        ensures
            language.raw == 0,
            !language.valid(),
    {
        Language { raw: 0 }
    }

    /// The language that the engine knows by the given token.
    pub fn from_raw(raw: usize) -> (language: Self)
        ensures
            language.raw == raw,
    {
        Language { raw }
    }

    /// The engine's token for this language.
    pub fn as_raw(self) -> (raw: usize)
        ensures
            raw == self.raw,
    {
        self.raw
    }

    /// Whether this is a language, and not the absence of one.
    pub open spec fn valid(self) -> bool {
        self.raw != 0
    }

    /// Returns true if this is a language, and not the absence of one.
    pub fn is_valid(self) -> (valid: bool)
        ensures
            valid == self.valid(),
    {
        self.raw != 0
    }
}

} // verus!
