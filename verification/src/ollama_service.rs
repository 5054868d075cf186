//! The polling supervisor: what is known of the server, refreshed by two
//! probes that repeat at a fixed interval.
//!
//! A probe that succeeds replaces what was known and is announced; a probe
//! that fails leaves it as it was. Whoever drives the supervisor performs
//! the probes and sleeps [`POLL_INTERVAL_SECS`] between two of them.

use crate::decimal::{decimal, to_decimal};
use crate::ollama::error::ClientError;
use crate::ollama::list::{names_of, texts_of, ListResponse};
use vstd::prelude::*;
use vstd::string::StringExecFns;

verus! {

/// The seconds between two probes of one kind.
pub const POLL_INTERVAL_SECS: u64 = 300;

/// What the name of a model starts with if the model translates.
pub const MODEL_PREFIX: &'static str = "translategemma";

/// What the semver crate reads a version text as: major, minor and patch
/// number, pre-release and build metadata; nothing if it refuses the text.
pub uninterp spec fn semver_of(text: Seq<char>) -> Option<(u64, u64, u64, Seq<char>, Seq<char>)>;

/// Calls `semver::Version::parse` and copies the parts of the version it
/// returns. Whether it accepts the text, and what it reads, depends on the
/// text alone.
#[verifier::external_body]
fn parse_semver(text: &str) -> (version: Option<Version>)
    ensures
        parts_of(version) == semver_of(text@),
{
    match semver::Version::parse(text) {
        Ok(version) => Some(
            Version {
                major: version.major,
                minor: version.minor,
                patch: version.patch,
                pre: version.pre.as_str().to_owned(),
                build: version.build.as_str().to_owned(),
            },
        ),
        Err(_) => None,
    }
}

/// Calls `str::starts_with` with a text as the pattern: whether `text`
/// begins with `prefix`.
#[verifier::external_body]
fn starts_with(text: &str, prefix: &str) -> (starts: bool)
    ensures
        starts == prefix@.is_prefix_of(text@),
{
    text.starts_with(prefix)
}

/// A semantic version.
#[derive(Debug, Clone, PartialEq, Eq)]
pub struct Version {
    pub major: u64,
    pub minor: u64,
    pub patch: u64,
    pub pre: String,
    pub build: String,
}

/// The parts of a version that may be absent.
pub open spec fn parts_of(version: Option<Version>) -> Option<
    (u64, u64, u64, Seq<char>, Seq<char>),
> {
    match version {
        Some(v) => Some((v.major, v.minor, v.patch, v.pre@, v.build@)),
        None => None,
    }
}

impl Version {
    /// The version written out: the three numbers with dots between them,
    /// then the pre-release after a hyphen and the build metadata after a
    /// plus sign, each only if there is one.
    pub open spec fn written(&self) -> Seq<char> {
        decimal(self.major as nat) + "."@ + decimal(self.minor as nat) + "."@ + decimal(
            self.patch as nat,
        ) + (if self.pre@.len() > 0 {
            "-"@ + self.pre@
        } else {
            Seq::empty()
        }) + (if self.build@.len() > 0 {
            "+"@ + self.build@
        } else {
            Seq::empty()
        })
    }

    /// Writes the version out.
    pub fn to_string(&self) -> (text: String)
        ensures
            text@ == self.written(),
    {
        let mut text = to_decimal(self.major);
        text.append(".");
        text.append(to_decimal(self.minor).as_str());
        text.append(".");
        text.append(to_decimal(self.patch).as_str());
        let ghost numbers = text@;
        if !self.pre.as_str().is_empty() {
            text.append("-");
            text.append(self.pre.as_str());
        }
        assert(text@ =~= numbers + (if self.pre@.len() > 0 {
            "-"@ + self.pre@
        } else {
            Seq::empty()
        }));
        let ghost before = text@;
        if !self.build.as_str().is_empty() {
            text.append("+");
            text.append(self.build.as_str());
        }
        assert(text@ =~= before + (if self.build@.len() > 0 {
            "+"@ + self.build@
        } else {
            Seq::empty()
        }));
        text
    }

    /// Reads a version, if `text` is one.
    pub fn parse(text: &str) -> (version: Option<Version>)
        ensures
            parts_of(version) == semver_of(text@),
    {
        parse_semver(text)
    }
}

/// Whether a model of this name translates.
pub open spec fn is_relevant(name: Seq<char>) -> bool {
    MODEL_PREFIX@.is_prefix_of(name)
}

/// The names among `names` of models that translate, in the same order.
pub open spec fn relevant(names: Seq<Seq<char>>) -> Seq<Seq<char>> {
    names.filter(|name: Seq<char>| is_relevant(name))
}

/// The names among `names` of models that translate, in the same order.
pub fn relevant_models(names: Vec<String>) -> (kept: Vec<String>)
    ensures
        texts_of(kept@) == relevant(texts_of(names@)),
{
    let mut kept: Vec<String> = Vec::new();
    let mut i: usize = 0;
    proof {
        reveal(Seq::filter);
        assert(texts_of(names@).subrange(0, 0) =~= Seq::<Seq<char>>::empty());
    }
    while i < names.len()
        invariant
            i <= names.len(),
            texts_of(kept@) == relevant(texts_of(names@).subrange(0, i as int)),
        decreases names.len() - i,
    {
        let ghost before = texts_of(kept@);
        let ghost seen = texts_of(names@).subrange(0, i as int);
        if starts_with(names[i].as_str(), MODEL_PREFIX) {
            kept.push(names[i].clone());
            assert(texts_of(kept@) =~= before.push(names@[i as int]@));
        }
        i += 1;
        proof {
            let now = texts_of(names@).subrange(0, i as int);
            assert(now.drop_last() =~= seen);
            assert(now.last() == names@[i - 1]@);
            reveal(Seq::filter);
        }
    }
    assert(texts_of(names@).subrange(0, i as int) =~= texts_of(names@));
    kept
}

/// What is known of the server.
#[derive(Debug, Clone)]
pub struct OllamaService {
    pub version: Option<Version>,
    pub models: Vec<String>,
}

/// What a probe changed.
#[derive(Debug, Clone, Copy, PartialEq, Eq, Structural)]
pub enum OllamaServiceEvent {
    VersionChanged,
    ModelsChanged,
}

impl OllamaService {
    /// Nothing is known of the server yet.
    pub fn new() -> (service: OllamaService)
        ensures
            service.version is None,
            service.models@.len() == 0,
    {
        OllamaService { version: None, models: Vec::new() }
    }

    /// Takes in what a probe of the version found. A version replaces the
    /// one known and is announced; without one, the one known stays.
    pub fn record_version(&mut self, found: Option<Version>) -> (event: Option<OllamaServiceEvent>)
        ensures
            final(self).models == old(self).models,
            found is Some ==> final(self).version == found && event == Some(
                OllamaServiceEvent::VersionChanged,
            ),
            found is None ==> final(self).version == old(self).version && event is None,
    {
        match found {
            Some(version) => {
                self.version = Some(version);
                Some(OllamaServiceEvent::VersionChanged)
            },
            None => None,
        }
    }

    /// Takes in what a probe of the models found. A list replaces the one
    /// known and is announced; without one, the one known stays.
    pub fn record_models(&mut self, found: Option<Vec<String>>) -> (event: Option<
        OllamaServiceEvent,
    >)
        ensures
            final(self).version == old(self).version,
            found matches Some(models) ==> final(self).models == models && event == Some(
                OllamaServiceEvent::ModelsChanged,
            ),
            found is None ==> final(self).models == old(self).models && event is None,
    {
        match found {
            Some(models) => {
                self.models = models;
                Some(OllamaServiceEvent::ModelsChanged)
            },
            None => None,
        }
    }

    /// Takes in the answer to a probe of the version. The probe succeeded
    /// if the server answered with a text that is a version.
    pub fn version_probed(&mut self, answer: Result<String, ClientError>) -> (event: Option<
        OllamaServiceEvent,
    >)
        ensures
            final(self).models == old(self).models,
            match answer {
                Ok(text) if semver_of(text@) is Some => {
                    &&& parts_of(final(self).version) == semver_of(text@)
                    &&& event == Some(OllamaServiceEvent::VersionChanged)
                },
                _ => final(self).version == old(self).version && event is None,
            },
    {
        let found = match answer {
            Ok(text) => Version::parse(text.as_str()),
            Err(_) => None,
        };
        self.record_version(found)
    }

    /// Takes in the answer to a probe of the models. Of the models that the
    /// server lists, those that translate are kept, in the server's order.
    pub fn models_probed(&mut self, answer: Result<ListResponse, ClientError>) -> (event: Option<
        OllamaServiceEvent,
    >)
        ensures
            final(self).version == old(self).version,
            match answer {
                Ok(list) => {
                    &&& texts_of(final(self).models@) == relevant(names_of(list.models@))
                    &&& event == Some(OllamaServiceEvent::ModelsChanged)
                },
                Err(_) => final(self).models == old(self).models && event is None,
            },
    {
        let found = match answer {
            Ok(list) => Some(relevant_models(list.names())),
            Err(_) => None,
        };
        self.record_models(found)
    }
}

} // verus!
