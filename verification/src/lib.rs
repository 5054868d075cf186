//! Core of a desktop translator that talks to a locally running
//! language-model server: prompt construction, the wire protocol of the
//! model client, the session manager that keeps one generation current, and
//! the polling supervisor that tracks server status.

pub mod assets;
pub mod config;
pub mod decimal;
pub mod language;
pub mod language_selector;
pub mod locale_selector;
pub mod menu;
pub mod ollama;
pub mod ollama_service;
pub mod output_editor;
pub mod prompt;
pub mod session;
pub mod status_bar;
pub mod traces;
