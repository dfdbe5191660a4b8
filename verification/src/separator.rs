//! The separator between a footer's token and its value.

use crate::text::str_eq;
use vstd::prelude::*;

verus! {

/// The `:<space>` separator.
pub const SEPARATOR_COLON: &'static str = ": ";

/// The `<space>#` separator for footer notes.
///
/// This type of separator is mostly used when using issues or PR numbers as
/// value.
pub const SEPARATOR_HASHTAG: &'static str = " #";

/// The separator used to separate the token and value of a footer.
#[derive(Copy, Clone, Debug, PartialEq, Eq, Hash, Structural)]
pub enum FooterSeparator {
    /// The `:<space>` separator, mostly used for values that do not involve
    /// issue or PR references.
    ColonSpace,
    /// The `<space>#` separator, more often than not used for issue and PR
    /// references.
    SpaceHashTag,
}

/// The error of reading a separator from a text that is neither of the two
/// separators. It carries the text that was rejected.
#[derive(Clone, Debug, PartialEq, Eq, Hash)]
pub struct UnrecognizedSeparator(pub String);

/// The separator that a text stands for, if it stands for one: the text has
/// to be a separator's literal text, character for character.
pub open spec fn recognized(s: Seq<char>) -> Option<FooterSeparator> {
    if s == FooterSeparator::ColonSpace.text() {
        Some(FooterSeparator::ColonSpace)
    } else if s == FooterSeparator::SpaceHashTag.text() {
        Some(FooterSeparator::SpaceHashTag)
    } else {
        None
    }
}

/// The two constants hold the literal texts of the two separators.
pub proof fn lemma_separator_constants()
    ensures
        SEPARATOR_COLON@ == FooterSeparator::ColonSpace.text(),
        SEPARATOR_HASHTAG@ == FooterSeparator::SpaceHashTag.text(),
{
    reveal_strlit(": ");
    reveal_strlit(" #");
    assert(SEPARATOR_COLON@ =~= seq![':', ' ']);
    assert(SEPARATOR_HASHTAG@ =~= seq![' ', '#']);
}

/// Reading a separator's literal text gives that separator back.
pub proof fn lemma_text_round_trip(sep: FooterSeparator)
    ensures
        recognized(sep.text()) == Some(sep),
{
    assert(FooterSeparator::SpaceHashTag.text()[0] != FooterSeparator::ColonSpace.text()[0]);
}

/// A text is read as a separator exactly when it is `": "` or `" #"`, and
/// the separator that is read has the text as its literal text. Every other
/// text is rejected.
pub proof fn lemma_recognized_exactly(s: Seq<char>)
    ensures
        recognized(s) is Some <==> (s == seq![':', ' '] || s == seq![' ', '#']),
        recognized(s) is None <==> (s != seq![':', ' '] && s != seq![' ', '#']),
        forall|sep: FooterSeparator| recognized(s) == Some(sep) <==> s == sep.text(),
{
    assert(FooterSeparator::SpaceHashTag.text()[0] != FooterSeparator::ColonSpace.text()[0]);
}

impl FooterSeparator {
    /// The separator that is used when none is given.
    pub open spec fn default_spec() -> FooterSeparator {
        FooterSeparator::ColonSpace
    }

    /// The literal text that stands for this separator.
    pub open spec fn text(self) -> Seq<char> {
        match self {
            FooterSeparator::ColonSpace => seq![':', ' '],
            FooterSeparator::SpaceHashTag => seq![' ', '#'],
        }
    }

    /// Returns the literal text of this separator.
    pub fn to_text(&self) -> (s: &'static str)
        ensures
            s@ == self.text(),
    {
        proof {
            lemma_separator_constants();
        }
        match self {
            FooterSeparator::ColonSpace => SEPARATOR_COLON,
            FooterSeparator::SpaceHashTag => SEPARATOR_HASHTAG,
        }
    }

    /// Returns the literal text of this separator as an owned string.
    pub fn to_string(&self) -> (s: String)
        ensures
            s@ == self.text(),
    {
        self.to_text().to_owned()
    }

    /// Reads a separator from its literal text. Nothing is trimmed and no
    /// case is folded: any other text is handed back in the error.
    pub fn parse(s: &str) -> (r: Result<FooterSeparator, UnrecognizedSeparator>)
        ensures
            r is Ok <==> (s@ == seq![':', ' '] || s@ == seq![' ', '#']),
            match r {
                Ok(sep) => recognized(s@) == Some(sep) && sep.text() == s@,
                Err(e) => recognized(s@) is None && e.0@ == s@,
            },
    {
        proof {
            lemma_separator_constants();
        }
        if str_eq(s, SEPARATOR_COLON) {
            Ok(FooterSeparator::ColonSpace)
        } else if str_eq(s, SEPARATOR_HASHTAG) {
            Ok(FooterSeparator::SpaceHashTag)
        } else {
            Err(UnrecognizedSeparator(s.to_owned()))
        }
    }
}

impl Default for FooterSeparator {
    /// Returns the default separator, the `ColonSpace`.
    fn default() -> (sep: Self)
        ensures
            sep == FooterSeparator::ColonSpace,
            sep == FooterSeparator::default_spec(),
    {
        FooterSeparator::ColonSpace
    }
}

impl std::str::FromStr for FooterSeparator {
    type Err = UnrecognizedSeparator;

    fn from_str(s: &str) -> (r: Result<Self, Self::Err>)
        ensures
            r is Ok <==> (s@ == seq![':', ' '] || s@ == seq![' ', '#']),
            match r {
                Ok(sep) => recognized(s@) == Some(sep) && sep.text() == s@,
                Err(e) => recognized(s@) is None && e.0@ == s@,
            },
    {
        FooterSeparator::parse(s)
    }
}

} // verus!
