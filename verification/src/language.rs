//! Languages a prompt can translate between.

use vstd::prelude::*;
use vstd::std_specs::cmp::PartialEqSpecImpl;

verus! {

/// A language, identified by a BCP-47-like code and carrying an English name.
#[derive(Debug, Clone)]
pub struct Language {
    pub code: String,
    pub name: String,
}

impl Language {
    /// Builds a language from its code and its name.
    pub fn new(code: &str, name: &str) -> (language: Language)
        ensures
            language.code@ == code@,
            language.name@ == name@,
    {
        Language { code: code.to_owned(), name: name.to_owned() }
    }

    /// Whether two languages carry the same code.
    pub open spec fn same_code(&self, other: &Language) -> bool {
        self.code@ == other.code@
    }
}

impl PartialEq for Language {
    /// Two languages are equal when their codes are.
    fn eq(&self, other: &Language) -> (equal: bool) {
        self.code == other.code
    }
}

impl PartialEqSpecImpl for Language {
    open spec fn obeys_eq_spec() -> bool {
        true
    }

    open spec fn eq_spec(&self, other: &Language) -> bool {
        self.same_code(other)
    }
}

} // verus!
