[package]
name = "translate_gemma"
version = "0.1.0"
edition = "2021"
publish = false

[dependencies]
anyhow = "1"
confy = "*"
futures-util = "0.3"
icu_experimental = "*"
icu_locale = "*"
reqwest = { version = "0.12", default-features = false, features = ["json", "stream"] }
rust-embed = "*"
rust-i18n = "*"
schemars = "*"
semver = "1"
serde = { version = "1", features = ["derive"] }
serde_json = "1"
serde_with = "*"
sys-locale = "*"
tokio = { version = "1", features = ["rt-multi-thread"] }
tokio-util = { version = "0.7", features = ["codec", "io"] }
unicode-segmentation = "1"
url = "2"
