//! The status bar: what it says of the server.

use crate::ollama_service::Version;
use vstd::prelude::*;
use vstd::string::StringExecFns;

verus! {

/// What the status bar says of a server of the version `version`, or of a
/// server that did not tell its version.
pub open spec fn label_of(version: Option<Version>) -> Seq<char> {
    match version {
        Some(version) => "Ollama "@ + version.written(),
        None => "Ollama"@,
    }
}

/// What the status bar shows.
#[derive(Debug)]
pub struct StatusBar {
    ollama_version: Option<Version>,
}

impl StatusBar {
    /// The version the status bar tells of.
    pub closed spec fn version(&self) -> Option<Version> {
        self.ollama_version
    }

    pub fn new(ollama_version: Option<Version>) -> (bar: StatusBar)
        ensures
            bar.version() == ollama_version,
    {
        StatusBar { ollama_version }
    }

    /// Whether the server told its version when it was last asked with
    /// success.
    pub fn is_available(&self) -> (available: bool)
        ensures
            available == self.version() is Some,
    {
        self.ollama_version.is_some()
    }

    /// What the status bar says of the server.
    pub fn label(&self) -> (label: String)
        ensures
            label@ == label_of(self.version()),
    {
        match &self.ollama_version {
            Some(version) => {
                let mut label = String::from_str("Ollama ");
                label.append(version.to_string().as_str());
                label
            },
            None => String::from_str("Ollama"),
        }
    }
}

} // verus!
