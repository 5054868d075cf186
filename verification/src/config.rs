//! What the user has chosen: the language of the interface, the languages
//! to translate between, and the model.

use crate::ollama::generate::chars_of;
use crate::ollama::list::texts_of;
use vstd::prelude::*;

verus! {

/// The name under which the choices are kept.
pub const APP_NAME: &'static str = "translate-gemma-desktop";

/// The locale used when no other can be.
pub const FALLBACK_LOCALE: &'static str = "en";

/// The locale that ICU reads from `text`, in its canonical writing; nothing
/// if ICU refuses the text.
pub uninterp spec fn locale_of(text: Seq<char>) -> Option<Seq<char>>;

/// Parses `text` with ICU's `Locale::try_from_str` and writes the locale
/// out again. Whether ICU accepts the text, and what it writes, depends on
/// the text alone.
#[verifier::external_body]
fn canonical_locale(text: &str) -> (locale: Option<String>)
    ensures
        chars_of(locale) == locale_of(text@),
{
    match icu_locale::Locale::try_from_str(text) {
        Ok(locale) => Some(locale.to_string()),
        Err(_) => None,
    }
}

/// What changed in the choices.
#[derive(Debug, Clone, PartialEq, Eq)]
pub enum ConfigEvent {
    LocaleChange,
    SourceLanguageChange(Option<String>),
    TargetLanguageChange(Option<String>),
    SwapLanguages { source_language: Option<String>, target_language: Option<String> },
    ModelChange,
}

impl ConfigEvent {
    /// Whether the change asks for a new translation: a language was
    /// chosen, two chosen languages changed places, or the model changed.
    pub open spec fn asks_translation(&self) -> bool {
        match *self {
            ConfigEvent::LocaleChange => false,
            ConfigEvent::SourceLanguageChange(language) => language is Some,
            ConfigEvent::TargetLanguageChange(language) => language is Some,
            ConfigEvent::SwapLanguages { source_language, target_language } => {
                source_language is Some && target_language is Some
            },
            ConfigEvent::ModelChange => true,
        }
    }

    /// Whether the change asks for a new translation.
    pub fn triggers_translation(&self) -> (asks: bool)
        ensures
            asks == self.asks_translation(),
    {
        match self {
            ConfigEvent::LocaleChange => false,
            ConfigEvent::SourceLanguageChange(language) => language.is_some(),
            ConfigEvent::TargetLanguageChange(language) => language.is_some(),
            ConfigEvent::SwapLanguages { source_language, target_language } => {
                source_language.is_some() && target_language.is_some()
            },
            ConfigEvent::ModelChange => true,
        }
    }
}

/// The characters of a borrowed text that may be absent.
pub open spec fn chars_of_ref(text: Option<&String>) -> Option<Seq<char>> {
    match text {
        Some(text) => Some(text@),
        None => None,
    }
}

/// The choices, with their texts as sequences of characters.
pub struct ConfigModel {
    pub app_name: Seq<char>,
    pub locale: Option<Seq<char>>,
    pub source_language: Option<Seq<char>>,
    pub target_language: Option<Seq<char>>,
    pub model: Option<Seq<char>>,
}

impl ConfigModel {
    /// The choices of a user who has made none.
    pub open spec fn initial() -> ConfigModel {
        ConfigModel {
            app_name: APP_NAME@,
            locale: None,
            source_language: Some("zh-Hans"@),
            target_language: Some("en"@),
            model: None,
        }
    }
}

/// The first locale of `chain` that is among `available`, and the fallback
/// locale if there is none.
pub open spec fn negotiated(chain: Seq<Seq<char>>, available: Seq<Seq<char>>) -> Seq<char>
    decreases chain.len(),
{
    if chain.len() == 0 {
        FALLBACK_LOCALE@
    } else if available.contains(chain[0]) {
        chain[0]
    } else {
        negotiated(chain.drop_first(), available)
    }
}

/// The locale to start from: the chosen one if ICU reads it, else the one
/// of the system if there is one and ICU reads it, else the fallback locale.
pub open spec fn preferred(chosen: Option<Seq<char>>, system: Option<Seq<char>>) -> Seq<char> {
    if chosen is Some && locale_of(chosen->0) is Some {
        locale_of(chosen->0)->0
    } else if system is Some {
        match locale_of(system->0) {
            Some(locale) => locale,
            None => FALLBACK_LOCALE@,
        }
    } else {
        match locale_of(FALLBACK_LOCALE@) {
            Some(locale) => locale,
            None => FALLBACK_LOCALE@,
        }
    }
}

/// Whether `locale` is among `available`.
fn is_available(locale: &String, available: &Vec<String>) -> (found: bool)
    ensures
        found == texts_of(available@).contains(locale@),
{
    let mut i: usize = 0;
    while i < available.len()
        invariant
            i <= available.len(),
            forall|j: int| 0 <= j < i ==> texts_of(available@)[j] != locale@,
        decreases available.len() - i,
    {
        if available[i] == *locale {
            assert(texts_of(available@)[i as int] == locale@);
            return true;
        }
        i += 1;
    }
    false
}

/// Picks the locale of the interface: the first of `chain`, the locales to
/// try in order of preference, that is among `available`, and the fallback
/// locale if none is.
pub fn negotiate(chain: &Vec<String>, available: &Vec<String>) -> (locale: String)
    ensures
        locale@ == negotiated(texts_of(chain@), texts_of(available@)),
{
    let mut i: usize = 0;
    assert(texts_of(chain@).subrange(0, chain@.len() as int) =~= texts_of(chain@));
    while i < chain.len()
        invariant
            i <= chain.len(),
            negotiated(texts_of(chain@), texts_of(available@)) == negotiated(
                texts_of(chain@).subrange(i as int, chain@.len() as int),
                texts_of(available@),
            ),
        decreases chain.len() - i,
    {
        let ghost left = texts_of(chain@).subrange(i as int, chain@.len() as int);
        assert(left[0] == chain@[i as int]@);
        assert(left.drop_first() =~= texts_of(chain@).subrange(i + 1, chain@.len() as int));
        if is_available(&chain[i], available) {
            return chain[i].clone();
        }
        i += 1;
    }
    assert(texts_of(chain@).subrange(i as int, chain@.len() as int).len() == 0);
    FALLBACK_LOCALE.to_owned()
}

/// The choices of the user.
#[derive(Debug, Clone)]
pub struct Config {
    app_name: String,
    locale: Option<String>,
    source_language: Option<String>,
    target_language: Option<String>,
    model: Option<String>,
}

impl View for Config {
    type V = ConfigModel;

    closed spec fn view(&self) -> ConfigModel {
        ConfigModel {
            app_name: self.app_name@,
            locale: chars_of(self.locale),
            source_language: chars_of(self.source_language),
            target_language: chars_of(self.target_language),
            model: chars_of(self.model),
        }
    }
}

impl Default for Config {
    fn default() -> (config: Config)
        ensures
            config@ == ConfigModel::initial(),
    {
        Config {
            app_name: APP_NAME.to_owned(),
            locale: None,
            source_language: Some("zh-Hans".to_owned()),
            target_language: Some("en".to_owned()),
            model: None,
        }
    }
}

impl Config {
    /// Choices made of their parts.
    pub fn new(
        app_name: &str,
        locale: Option<String>,
        source_language: Option<String>,
        target_language: Option<String>,
        model: Option<String>,
    ) -> (config: Config)
        ensures
            config@ == (ConfigModel {
                app_name: app_name@,
                locale: chars_of(locale),
                source_language: chars_of(source_language),
                target_language: chars_of(target_language),
                model: chars_of(model),
            }),
    {
        Config { app_name: app_name.to_owned(), locale, source_language, target_language, model }
    }

    /// The choices to start with: those that were kept under `app_name`,
    /// if they could be read, and otherwise those of a user who has made
    /// none.
    pub fn restore(app_name: &str, stored: Option<Config>) -> (config: Config)
        ensures
            config@ == match stored {
                Some(kept) => ConfigModel { app_name: app_name@, ..kept@ },
                None => ConfigModel::initial(),
            },
    {
        match stored {
            Some(kept) => Config {
                app_name: app_name.to_owned(),
                locale: kept.locale,
                source_language: kept.source_language,
                target_language: kept.target_language,
                model: kept.model,
            },
            None => Config::default(),
        }
    }

    /// The name under which the choices are kept.
    pub fn app_name(&self) -> (name: &str)
        ensures
            name@ == self@.app_name,
    {
        self.app_name.as_str()
    }

    /// The chosen locale of the interface.
    pub fn locale(&self) -> (locale: Option<&String>)
        ensures
            chars_of_ref(locale) == self@.locale,
    {
        self.locale.as_ref()
    }

    /// The locale to start from, given the one of the system, if it names
    /// one.
    pub fn get_locale(&self, system: Option<String>) -> (locale: String)
        ensures
            locale@ == preferred(self@.locale, chars_of(system)),
    {
        if let Some(chosen) = &self.locale {
            if let Some(locale) = canonical_locale(chosen.as_str()) {
                return locale;
            }
        }
        let read = match system {
            Some(system) => canonical_locale(system.as_str()),
            None => canonical_locale(FALLBACK_LOCALE),
        };
        match read {
            Some(locale) => locale,
            None => FALLBACK_LOCALE.to_owned(),
        }
    }

    /// Settles the locale of the interface at start: the first of
    /// `chain` that is among `available`, or the fallback locale.
    pub fn init(&mut self, chain: &Vec<String>, available: &Vec<String>) -> (event: ConfigEvent)
        ensures
            final(self)@ == (ConfigModel {
                locale: Some(negotiated(texts_of(chain@), texts_of(available@))),
                ..old(self)@
            }),
            event is LocaleChange,
    {
        self.locale = Some(negotiate(chain, available));
        ConfigEvent::LocaleChange
    }

    pub fn set_locale(&mut self, locale: &str) -> (event: ConfigEvent)
        ensures
            final(self)@ == (ConfigModel { locale: Some(locale@), ..old(self)@ }),
            event is LocaleChange,
    {
        self.locale = Some(locale.to_owned());
        ConfigEvent::LocaleChange
    }

    pub fn get_source_language(&self) -> (language: Option<&String>)
        ensures
            chars_of_ref(language) == self@.source_language,
    {
        self.source_language.as_ref()
    }

    pub fn set_source_language(&mut self, language: &str) -> (event: ConfigEvent)
        ensures
            final(self)@ == (ConfigModel { source_language: Some(language@), ..old(self)@ }),
            event matches ConfigEvent::SourceLanguageChange(Some(chosen)) && chosen@ == language@,
    {
        self.source_language = Some(language.to_owned());
        ConfigEvent::SourceLanguageChange(Some(language.to_owned()))
    }

    pub fn get_target_language(&self) -> (language: Option<&String>)
        ensures
            chars_of_ref(language) == self@.target_language,
    {
        self.target_language.as_ref()
    }

    pub fn set_target_language(&mut self, language: &str) -> (event: ConfigEvent)
        ensures
            final(self)@ == (ConfigModel { target_language: Some(language@), ..old(self)@ }),
            event matches ConfigEvent::TargetLanguageChange(Some(chosen)) && chosen@ == language@,
    {
        self.target_language = Some(language.to_owned());
        ConfigEvent::TargetLanguageChange(Some(language.to_owned()))
    }

    /// Lets the two languages change places.
    pub fn swap_languages(&mut self) -> (event: ConfigEvent)
        ensures
            final(self)@ == (ConfigModel {
                source_language: old(self)@.target_language,
                target_language: old(self)@.source_language,
                ..old(self)@
            }),
            event matches ConfigEvent::SwapLanguages { source_language, target_language }
                && chars_of(source_language) == old(self)@.target_language && chars_of(
                target_language,
            ) == old(self)@.source_language,
    {
        core::mem::swap(&mut self.source_language, &mut self.target_language);
        ConfigEvent::SwapLanguages {
            source_language: self.source_language.clone(),
            target_language: self.target_language.clone(),
        }
    }

    /// The chosen model.
    pub fn model(&self) -> (model: Option<&String>)
        ensures
            chars_of_ref(model) == self@.model,
    {
        self.model.as_ref()
    }

    pub fn set_model(&mut self, model: &str) -> (event: ConfigEvent)
        ensures
            final(self)@ == (ConfigModel { model: Some(model@), ..old(self)@ }),
            event is ModelChange,
    {
        self.model = Some(model.to_owned());
        ConfigEvent::ModelChange
    }

    /// Chooses the first of `models` if no model is chosen and there is
    /// one to choose.
    pub fn adopt_model(&mut self, models: &Vec<String>) -> (event: Option<ConfigEvent>)
        ensures
            final(self)@ == if old(self)@.model is None && models@.len() > 0 {
                ConfigModel { model: Some(models@[0]@), ..old(self)@ }
            } else {
                old(self)@
            },
            event is Some == (old(self)@.model is None && models@.len() > 0),
            event matches Some(change) ==> change is ModelChange,
    {
        if self.model.is_none() && models.len() > 0 {
            Some(self.set_model(models[0].as_str()))
        } else {
            None
        }
    }
}

} // verus!
