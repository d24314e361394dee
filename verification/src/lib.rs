//! Decoders for binary 3D-model interchange formats.
//!
//! The crate is built bottom-up: byte-level primitives (`primitives`,
//! `vector`, `color`, `bounds`), indices of variable width (`index`) and
//! strings (`text`), reference resolution and versioned records
//! (`reference`), records of variable size (`wire`) and, on top of those,
//! decoders that produce a self-contained model: for files with a tag index
//! (`container`, `md34`), for files made of sized chunks (`mdx`) and for
//! files with a single body (`pmx`). The other modules hold the records and
//! flag words of the formats.
//!
//! Floating-point fields are carried as their IEEE-754 bit patterns, so every
//! decoder is a function from bytes to plain integer data.
//!
//! A decode either fails as a whole with a `DecodeError`, or gives a model
//! and the list of `Warning`s for what was repaired or kept raw on the way.

use vstd::prelude::*;

pub mod bounds;
pub mod color;
pub mod container;
pub mod error;
pub mod flags;
pub mod index;
pub mod ism2;
pub mod m2;
pub mod m3;
pub mod md34;
pub mod mdx;
pub mod modl;
pub mod number;
pub mod object;
pub mod pmd;
pub mod pmx;
pub mod primitives;
pub mod reference;
pub mod scene;
pub mod text;
pub mod vector;
pub mod vertex;
pub mod wire;
pub mod xps;

verus! {

/// The languages in which a file may name its parts.
#[derive(Clone, Copy, Debug, PartialEq, Eq, Structural)]
pub enum Language {
    English,
    Japanese,
}

/// At most one string per language.
#[derive(Clone, Debug, PartialEq, Eq)]
pub struct LocalizedStringMap {
    pub english: Option<String>,
    pub japanese: Option<String>,
}

impl View for LocalizedStringMap {
    type V = Map<Language, Seq<char>>;

    open spec fn view(&self) -> Map<Language, Seq<char>> {
        let english = match self.english {
            Some(text) => Map::<Language, Seq<char>>::empty().insert(Language::English, text@),
            None => Map::<Language, Seq<char>>::empty(),
        };
        match self.japanese {
            Some(text) => english.insert(Language::Japanese, text@),
            None => english,
        }
    }
}

impl LocalizedStringMap {
    /// The map without a string.
    pub fn new() -> (m: Self)
        ensures
            m@ == Map::<Language, Seq<char>>::empty(),
    {
        LocalizedStringMap { english: None, japanese: None }
    }

    /// The string in `language`, if there is one.
    pub fn get(&self, language: Language) -> (r: Option<&String>)
        ensures
            r.is_some() == self@.dom().contains(language),
            r.is_some() ==> r.unwrap()@ == self@[language],
    {
        match language {
            Language::English => self.english.as_ref(),
            Language::Japanese => self.japanese.as_ref(),
        }
    }

    /// Sets the string in `language` and returns the one it replaces.
    pub fn insert(&mut self, language: Language, text: String) -> (r: Option<String>)
        ensures
            final(self)@ == old(self)@.insert(language, text@),
            r.is_some() == old(self)@.dom().contains(language),
            r.is_some() ==> r.unwrap()@ == old(self)@[language],
    {
        let mut slot = Some(text);
        match language {
            Language::English => std::mem::swap(&mut self.english, &mut slot),
            Language::Japanese => std::mem::swap(&mut self.japanese, &mut slot),
        }
        assert(self@ =~= old(self)@.insert(language, text@));
        slot
    }

    /// The number of languages that have a string.
    pub fn len(&self) -> (n: usize)
        ensures
            n == (if self.english.is_some() {
                1int
            } else {
                0int
            }) + (if self.japanese.is_some() {
                1int
            } else {
                0int
            }),
    {
        let mut n: usize = 0;
        if self.english.is_some() {
            n = n + 1;
        }
        if self.japanese.is_some() {
            n = n + 1;
        }
        n
    }
}

} // verus!
