//! The list a language is picked from: what it shows for each language,
//! which entries a search finds, and where a language stands in it.

use crate::language::Language;
use vstd::prelude::*;

verus! {

/// What `str::to_lowercase` makes of a text.
pub uninterp spec fn lowercase(text: Seq<char>) -> Seq<char>;

/// Calls `str::to_lowercase`, which returns the text in lower case. What
/// the lower case of a character is, is left to std.
#[verifier::external_body]
fn to_lowercase(text: &str) -> (lower: String)
    ensures
        lower@ == lowercase(text@),
{
    text.to_lowercase()
}

/// Calls `str::contains` with a text as the pattern: whether `pattern`
/// stands somewhere in `text`.
#[verifier::external_body]
fn contains(text: &str, pattern: &str) -> (found: bool)
    ensures
        found == occurs_in(pattern@, text@),
{
    text.contains(pattern)
}

/// Whether `pattern` stands somewhere in `text`.
pub open spec fn occurs_in(pattern: Seq<char>, text: Seq<char>) -> bool {
    exists|i: int|
        0 <= i <= text.len() - pattern.len() && #[trigger] text.subrange(i, i + pattern.len())
            == pattern
}

/// Whether `query` stands somewhere in `text`, letter case aside.
pub open spec fn mentions(text: Seq<char>, query: Seq<char>) -> bool {
    occurs_in(lowercase(query), lowercase(text))
}

/// Whether `i` is the place of the first language with the code `code`.
pub open spec fn is_first_with_code(languages: Seq<Language>, code: Seq<char>, i: int) -> bool {
    &&& 0 <= i < languages.len()
    &&& languages[i].code@ == code
    &&& forall|j: int| 0 <= j < i ==> languages[j].code@ != code
}

/// Where the language with the code `code` stands in `languages`: the
/// place of the first one, if there is one.
pub fn position_of(languages: &Vec<Language>, code: &str) -> (place: Option<usize>)
    ensures
        match place {
            Some(i) => is_first_with_code(languages@, code@, i as int),
            None => forall|j: int| 0 <= j < languages@.len() ==> languages@[j].code@ != code@,
        },
{
    let wanted = code.to_owned();
    let mut i: usize = 0;
    while i < languages.len()
        invariant
            i <= languages.len(),
            wanted@ == code@,
            forall|j: int| 0 <= j < i ==> languages@[j].code@ != code@,
        decreases languages.len() - i,
    {
        if languages[i].code == wanted {
            return Some(i);
        }
        i += 1;
    }
    None
}

/// A language as the list shows it.
#[derive(Debug, Clone)]
pub struct LanguageItem {
    language: Language,
    display_name: String,
}

impl LanguageItem {
    /// The language of the entry.
    pub closed spec fn language_of(&self) -> Language {
        self.language
    }

    /// The name that the entry shows.
    pub closed spec fn name_chars(&self) -> Seq<char> {
        self.display_name@
    }

    /// Whether a search for `query` finds the entry: by the name it shows,
    /// by the name of its language or by its code, letter case aside.
    pub open spec fn found_by(&self, query: Seq<char>) -> bool {
        ||| mentions(self.name_chars(), query)
        ||| mentions(self.language_of().name@, query)
        ||| mentions(self.language_of().code@, query)
    }

    pub fn new(language: Language, display_name: &str) -> (item: LanguageItem)
        ensures
            item.language_of() == language,
            item.name_chars() == display_name@,
    {
        LanguageItem { language, display_name: display_name.to_owned() }
    }

    /// The name that the entry shows.
    pub fn title(&self) -> (title: &str)
        ensures
            title@ == self.name_chars(),
    {
        self.display_name.as_str()
    }

    /// The language of the entry.
    pub fn value(&self) -> (language: &Language)
        ensures
            *language == self.language_of(),
    {
        &self.language
    }

    /// Whether a search for `query` finds the entry.
    pub fn matches(&self, query: &str) -> (found: bool)
        ensures
            found == self.found_by(query@),
    {
        let query = to_lowercase(query);
        contains(to_lowercase(self.display_name.as_str()).as_str(), query.as_str()) || contains(
            to_lowercase(self.language.name.as_str()).as_str(),
            query.as_str(),
        ) || contains(to_lowercase(self.language.code.as_str()).as_str(), query.as_str())
    }
}

} // verus!
