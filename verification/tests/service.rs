use translate_gemma::decimal::to_decimal;
use translate_gemma::ollama::error::ClientError;
use translate_gemma::ollama::list::{ListResponse, Model, ModelDetails};
use translate_gemma::ollama_service::{
    relevant_models, OllamaService, OllamaServiceEvent, Version, MODEL_PREFIX, POLL_INTERVAL_SECS,
};
use translate_gemma::status_bar::StatusBar;

fn version(major: u64, minor: u64, patch: u64, pre: &str, build: &str) -> Version {
    Version { major, minor, patch, pre: pre.to_string(), build: build.to_string() }
}

fn names(list: &[&str]) -> Vec<String> {
    list.iter().map(|name| name.to_string()).collect()
}

fn model(name: &str) -> Model {
    Model {
        name: name.to_string(),
        modified_at: String::new(),
        size: 0,
        digest: String::new(),
        details: ModelDetails {
            format: String::new(),
            family: String::new(),
            families: Vec::new(),
            parameter_size: String::new(),
            quantization_level: String::new(),
        },
    }
}

#[test]
fn probes_repeat_every_five_minutes() {
    assert_eq!(POLL_INTERVAL_SECS, 5 * 60);
    assert_eq!(MODEL_PREFIX, "translategemma");
}

#[test]
fn version_is_read_by_its_parts() {
    assert_eq!(Version::parse("0.5.1"), Some(version(0, 5, 1, "", "")));
    assert_eq!(Version::parse("0.12.6-rc0"), Some(version(0, 12, 6, "rc0", "")));
    assert_eq!(
        Version::parse("1.2.3-alpha.1+build.5"),
        Some(version(1, 2, 3, "alpha.1", "build.5"))
    );
    assert_eq!(Version::parse("18446744073709551615.0.0"), Some(version(u64::MAX, 0, 0, "", "")));
    assert_eq!(Version::parse(""), None);
    assert_eq!(Version::parse("1.2"), None);
    assert_eq!(Version::parse("01.2.3"), None);
    assert_eq!(Version::parse(" 1.2.3"), None);
    assert_eq!(Version::parse("v1.2.3"), None);
    assert_eq!(Version::parse("18446744073709551616.0.0"), None);
}

#[test]
fn version_is_written_as_it_was_read() {
    for text in ["0.5.1", "0.12.6-rc0", "1.2.3-alpha.1+build.5", "10.20.30+sha.abc", "0.0.0"] {
        assert_eq!(Version::parse(text).unwrap().to_string(), text);
    }
    assert_eq!(version(1, 0, 0, "", "").to_string(), "1.0.0");
    assert_eq!(version(u64::MAX, 10, 909, "x", "y").to_string(), "18446744073709551615.10.909-x+y");
}

#[test]
fn numbers_in_decimal() {
    assert_eq!(to_decimal(0), "0");
    assert_eq!(to_decimal(7), "7");
    assert_eq!(to_decimal(10), "10");
    assert_eq!(to_decimal(1234567890), "1234567890");
    assert_eq!(to_decimal(u64::MAX), "18446744073709551615");
}

#[test]
fn status_bar_names_the_version() {
    let bar = StatusBar::new(Version::parse("0.5.1"));
    assert!(bar.is_available());
    assert_eq!(bar.label(), "Ollama 0.5.1");
    let unknown = StatusBar::new(None);
    assert!(!unknown.is_available());
    assert_eq!(unknown.label(), "Ollama");
}

#[test]
fn models_that_translate_are_kept_in_order() {
    assert_eq!(
        relevant_models(names(&[
            "llama3:8b",
            "translategemma:12b",
            "gemma3:4b",
            "translategemma:4b",
            "translategemma",
            "translategemm",
            "Translategemma:4b",
            " translategemma:4b",
            "translategemma:12b",
        ])),
        names(&["translategemma:12b", "translategemma:4b", "translategemma", "translategemma:12b"])
    );
    assert!(relevant_models(Vec::new()).is_empty());
    assert!(relevant_models(names(&["", "t"])).is_empty());
}

#[test]
fn service_starts_knowing_nothing() {
    let service = OllamaService::new();
    assert_eq!(service.version, None);
    assert!(service.models.is_empty());
}

#[test]
fn successful_version_probe_replaces_the_version() {
    let mut service = OllamaService::new();
    assert_eq!(
        service.version_probed(Ok("0.5.1".to_string())),
        Some(OllamaServiceEvent::VersionChanged)
    );
    assert_eq!(service.version, Some(version(0, 5, 1, "", "")));
    assert_eq!(
        service.version_probed(Ok("0.6.0".to_string())),
        Some(OllamaServiceEvent::VersionChanged)
    );
    assert_eq!(service.version, Some(version(0, 6, 0, "", "")));
    assert_eq!(
        service.version_probed(Ok("0.6.0".to_string())),
        Some(OllamaServiceEvent::VersionChanged)
    );
}

#[test]
fn failed_version_probe_keeps_the_last_known_version() {
    let mut service = OllamaService::new();
    service.models = names(&["translategemma:4b"]);
    service.version_probed(Ok("0.5.1".to_string()));
    assert_eq!(service.version_probed(Err(ClientError::transport("connection refused"))), None);
    assert_eq!(service.version, Some(version(0, 5, 1, "", "")));
    assert_eq!(service.version_probed(Ok("not a version".to_string())), None);
    assert_eq!(service.version, Some(version(0, 5, 1, "", "")));
    assert_eq!(service.record_version(None), None);
    assert_eq!(service.version, Some(version(0, 5, 1, "", "")));
    assert_eq!(service.models, names(&["translategemma:4b"]));
}

#[test]
fn successful_models_probe_replaces_the_models() {
    let mut service = OllamaService::new();
    service.version_probed(Ok("0.5.1".to_string()));
    let list = ListResponse {
        models: vec![model("llama3:8b"), model("translategemma:12b"), model("translategemma:4b")],
    };
    assert_eq!(service.models_probed(Ok(list)), Some(OllamaServiceEvent::ModelsChanged));
    assert_eq!(service.models, names(&["translategemma:12b", "translategemma:4b"]));
    assert_eq!(
        service.models_probed(Ok(ListResponse { models: vec![model("llama3:8b")] })),
        Some(OllamaServiceEvent::ModelsChanged)
    );
    assert!(service.models.is_empty());
    assert_eq!(service.version, Some(version(0, 5, 1, "", "")));
}

#[test]
fn failed_models_probe_keeps_the_last_known_models() {
    let mut service = OllamaService::new();
    service.record_models(Some(names(&["translategemma:4b"])));
    assert_eq!(service.models_probed(Err(ClientError::rejected(503, "starting"))), None);
    assert_eq!(service.models, names(&["translategemma:4b"]));
    assert_eq!(service.record_models(None), None);
    assert_eq!(service.models, names(&["translategemma:4b"]));
}
