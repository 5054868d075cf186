//! The output area: the translated text and the hint shown while there is
//! none.

use vstd::prelude::*;
use vstd::string::StringExecFns;

verus! {

/// The hint shown in the output area while it holds no text.
#[derive(Debug, Clone, Copy, PartialEq, Eq, Structural)]
pub enum Placeholder {
    /// No hint.
    Blank,
    /// The previous translation was interrupted and more input is awaited.
    WaitInput,
    /// A request is outstanding.
    InProgress,
}

/// What the output area shows.
pub struct OutputModel {
    pub value: Seq<char>,
    pub placeholder: Placeholder,
}

/// The output area.
#[derive(Debug, Clone)]
pub struct OutputEditor {
    value: String,
    placeholder: Placeholder,
}

impl View for OutputEditor {
    type V = OutputModel;

    closed spec fn view(&self) -> OutputModel {
        OutputModel { value: self.value@, placeholder: self.placeholder }
    }
}

impl OutputEditor {
    /// An empty output area without a hint.
    pub fn new() -> (editor: OutputEditor)
        ensures
            editor@ == (OutputModel { value: Seq::empty(), placeholder: Placeholder::Blank }),
    {
        OutputEditor { value: String::new(), placeholder: Placeholder::Blank }
    }

    /// Clears the text and the hint.
    pub fn reset(&mut self)
        ensures
            final(self)@ == (OutputModel { value: Seq::empty(), placeholder: Placeholder::Blank }),
    {
        self.value = String::new();
        self.placeholder = Placeholder::Blank;
    }

    /// Clears the text and asks for more input.
    pub fn wait_for_input(&mut self)
        ensures
            final(self)@ == (OutputModel {
                value: Seq::empty(),
                placeholder: Placeholder::WaitInput,
            }),
    {
        self.value = String::new();
        self.placeholder = Placeholder::WaitInput;
    }

    /// Clears the text and announces a translation under way.
    pub fn translate_in_progress(&mut self)
        ensures
            final(self)@ == (OutputModel {
                value: Seq::empty(),
                placeholder: Placeholder::InProgress,
            }),
    {
        self.value = String::new();
        self.placeholder = Placeholder::InProgress;
    }

    /// Adds `text` at the end of the text shown.
    pub fn append(&mut self, text: &str)
        ensures
            final(self)@ == (OutputModel {
                value: old(self)@.value + text@,
                placeholder: old(self)@.placeholder,
            }),
    {
        self.value.append(text);
    }

    /// The text shown.
    pub fn value(&self) -> (value: &str)
        ensures
            value@ == self@.value,
    {
        self.value.as_str()
    }

    /// The hint shown while there is no text.
    pub fn placeholder(&self) -> (placeholder: Placeholder)
        ensures
            placeholder == self@.placeholder,
    {
        self.placeholder
    }
}

} // verus!
