//! The locales that the interface can be shown in.

use crate::ollama::generate::chars_of;
use vstd::prelude::*;

verus! {

/// The request to show the interface in another locale.
#[derive(Debug, Clone, PartialEq)]
pub struct ChangeLocale(pub String);

/// A locale of the interface, with the name to show for it, if one is
/// known.
#[derive(Debug, Clone)]
pub struct Locale {
    id: String,
    display_name: Option<String>,
}

impl Locale {
    /// The identifier of the locale.
    pub closed spec fn id_chars(&self) -> Seq<char> {
        self.id@
    }

    /// The name to show for the locale, if one is known.
    pub closed spec fn name_chars(&self) -> Option<Seq<char>> {
        chars_of(self.display_name)
    }

    /// What is shown for the locale: its name, or its identifier where no
    /// name is known.
    pub open spec fn shown(&self) -> Seq<char> {
        match self.name_chars() {
            Some(name) => name,
            None => self.id_chars(),
        }
    }

    /// The locale `locale`, to be shown as `display_name`.
    pub fn new(locale: &str, display_name: Option<String>) -> (made: Locale)
        ensures
            made.id_chars() == locale@,
            made.name_chars() == chars_of(display_name),
    {
        Locale { id: locale.to_owned(), display_name }
    }

    /// The identifier of the locale.
    pub fn id(&self) -> (id: &str)
        ensures
            id@ == self.id_chars(),
    {
        self.id.as_str()
    }

    /// Whether this is the locale with the identifier `selected`.
    pub fn is_selected(&self, selected: &str) -> (is: bool)
        ensures
            is == (self.id_chars() == selected@),
    {
        let chosen = selected.to_owned();
        self.id == chosen
    }

    /// What is shown for the locale.
    pub fn to_string(&self) -> (text: String)
        ensures
            text@ == self.shown(),
    {
        match &self.display_name {
            Some(name) => name.clone(),
            None => self.id.clone(),
        }
    }
}

} // verus!
