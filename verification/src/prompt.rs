//! The instruction text sent to the model for one translation.

use crate::language::Language;
use vstd::prelude::*;
use vstd::string::StringExecFns;

verus! {

/// The instruction for translating `text` from a language called
/// `source_name` (`source_code`) into one called `target_name`
/// (`target_code`). Two blank lines separate the instruction from the text.
pub open spec fn instruction(
    source_name: Seq<char>,
    source_code: Seq<char>,
    target_name: Seq<char>,
    target_code: Seq<char>,
    text: Seq<char>,
) -> Seq<char> {
    "You are a professional "@ + source_name + " ("@ + source_code + ") to "@ + target_name
        + " ("@ + target_code
        + ") translator. Your goal is to accurately convey the meaning and nuances of the original "@
        + source_name + " text while adhering to "@ + target_name
        + " grammar, vocabulary, and cultural sensitivities. Produce only the "@ + target_name
        + " translation, without any additional explanations or commentary. Please translate the following "@
        + source_name + " text into "@ + target_name + ":\n\n\n"@ + text
}

/// What is to be translated, from which language and into which.
#[derive(Debug, Clone)]
pub struct Prompt {
    pub source_language: Language,
    pub target_language: Language,
    pub text: String,
}

impl Prompt {
    /// The instruction text this prompt renders to.
    pub open spec fn rendered(&self) -> Seq<char> {
        instruction(
            self.source_language.name@,
            self.source_language.code@,
            self.target_language.name@,
            self.target_language.code@,
            self.text@,
        )
    }

    /// A prompt may be submitted only when it has text to translate.
    pub open spec fn eligible(&self) -> bool {
        self.text@.len() > 0
    }

    pub fn new(source_language: Language, target_language: Language, text: &str) -> (prompt:
        Prompt)
        ensures
            prompt.source_language == source_language,
            prompt.target_language == target_language,
            prompt.text@ == text@,
    {
        Prompt { source_language, target_language, text: text.to_owned() }
    }

    /// Swaps languages: in what the prompt renders to, each language
    /// stands where the other stood.
    pub fn swap(self) -> (prompt: Prompt)
        ensures
            prompt.source_language == self.target_language,
            prompt.target_language == self.source_language,
            prompt.text == self.text,
            prompt.rendered() == instruction(
                self.target_language.name@,
                self.target_language.code@,
                self.source_language.name@,
                self.source_language.code@,
                self.text@,
            ),
    {
        Prompt {
            source_language: self.target_language,
            target_language: self.source_language,
            text: self.text,
        }
    }

    /// Replaces the text to translate.
    pub fn text(self, text: &str) -> (prompt: Prompt)
        ensures
            prompt.source_language == self.source_language,
            prompt.target_language == self.target_language,
            prompt.text@ == text@,
    {
        Prompt {
            source_language: self.source_language,
            target_language: self.target_language,
            text: text.to_owned(),
        }
    }

    /// Whether the prompt has text to translate.
    pub fn is_eligible(&self) -> (eligible: bool)
        ensures
            eligible == self.eligible(),
    {
        !self.text.as_str().is_empty()
    }

    /// Renders the instruction text.
    pub fn to_string(&self) -> (rendered: String)
        ensures
            rendered@ == self.rendered(),
    {
        let source = &self.source_language;
        let target = &self.target_language;
        let mut out = String::new();
        out.append("You are a professional ");
        out.append(source.name.as_str());
        out.append(" (");
        out.append(source.code.as_str());
        out.append(") to ");
        out.append(target.name.as_str());
        out.append(" (");
        out.append(target.code.as_str());
        out.append(
            ") translator. Your goal is to accurately convey the meaning and nuances of the original ",
        );
        out.append(source.name.as_str());
        out.append(" text while adhering to ");
        out.append(target.name.as_str());
        out.append(" grammar, vocabulary, and cultural sensitivities. Produce only the ");
        out.append(target.name.as_str());
        out.append(
            " translation, without any additional explanations or commentary. Please translate the following ",
        );
        out.append(source.name.as_str());
        out.append(" text into ");
        out.append(target.name.as_str());
        out.append(":\n\n\n");
        out.append(self.text.as_str());
        out
    }
}

/// Rendering depends on the characters of the five texts of a prompt and
/// on nothing else: two prompts that agree in them render to the same text.
pub proof fn lemma_rendering_is_a_function(a: Prompt, b: Prompt)
    requires
        a.source_language.name@ == b.source_language.name@,
        a.source_language.code@ == b.source_language.code@,
        a.target_language.name@ == b.target_language.name@,
        a.target_language.code@ == b.target_language.code@,
        a.text@ == b.text@,
    ensures
        a.rendered() == b.rendered(),
{
}

/// A prompt with the languages of `prompt` in each other's place and the
/// text `text` renders to the instruction for translating `text` the other
/// way round.
pub proof fn lemma_swap_mirrors(prompt: Prompt, swapped: Prompt, text: Seq<char>)
    requires
        swapped.source_language == prompt.target_language,
        swapped.target_language == prompt.source_language,
        swapped.text@ == text,
    ensures
        swapped.rendered() == instruction(
            prompt.target_language.name@,
            prompt.target_language.code@,
            prompt.source_language.name@,
            prompt.source_language.code@,
            text,
        ),
{
}

} // verus!
