//! The request for a generation and one chunk of its answer.

use std::collections::HashMap;
use vstd::prelude::*;
use vstd::string::StringExecFns;

verus! {

/// A JSON value of serde_json. Nothing in this library looks inside one.
#[verifier::external_type_specification]
#[verifier::external_body]
pub struct ExJsonValue(serde_json::Value);

/// The format the model is to answer in.
#[derive(Debug)]
pub enum Format {
    JSON,
    JSONSchema(serde_json::Value),
}

/// How much the model is to reason before it answers.
#[derive(Debug, Clone, Copy, PartialEq, Eq, Structural)]
pub enum ReasoningEffort {
    High,
    Medium,
    Low,
}

/// Reasoning control: boolean toggle or effort level.
#[derive(Debug, Clone, Copy, PartialEq, Eq, Structural)]
pub enum Reasoning {
    Reasoning(bool),
    ReasoningEffort(ReasoningEffort),
}

impl ReasoningEffort {
    /// The name of the effort on the wire.
    pub open spec fn name(self) -> Seq<char> {
        match self {
            ReasoningEffort::High => "high"@,
            ReasoningEffort::Medium => "medium"@,
            ReasoningEffort::Low => "low"@,
        }
    }

    /// The name of the effort on the wire.
    pub fn as_str(self) -> (name: &'static str)
        ensures
            name@ == self.name(),
    {
        match self {
            ReasoningEffort::High => "high",
            ReasoningEffort::Medium => "medium",
            ReasoningEffort::Low => "low",
        }
    }

    /// The effort as JSON: its name as a JSON string.
    pub fn to_json(self) -> (json: String)
        ensures
            json@ == "\""@ + self.name() + "\""@,
    {
        let mut json = String::from_str("\"");
        json.append(self.as_str());
        json.append("\"");
        json
    }
}

impl Reasoning {
    /// The reasoning control as JSON.
    pub open spec fn json(self) -> Seq<char> {
        match self {
            Reasoning::Reasoning(true) => "true"@,
            Reasoning::Reasoning(false) => "false"@,
            Reasoning::ReasoningEffort(effort) => "\""@ + effort.name() + "\""@,
        }
    }

    /// The reasoning control as JSON: a toggle as a JSON boolean, an
    /// effort as a JSON string.
    pub fn to_json(self) -> (json: String)
        ensures
            json@ == self.json(),
    {
        match self {
            Reasoning::Reasoning(true) => String::from_str("true"),
            Reasoning::Reasoning(false) => String::from_str("false"),
            Reasoning::ReasoningEffort(effort) => effort.to_json(),
        }
    }
}

/// What is asked of the model in one generation.
#[derive(Debug)]
pub struct GenerateRequest {
    pub model: String,
    pub prompt: String,
    pub suffix: Option<String>,
    pub images: Option<Vec<Vec<u8>>>,
    pub format: Option<Format>,
    pub system: Option<String>,
    /// Streaming is enabled by default.
    pub stream: Option<bool>,
    /// Reasoning control: boolean toggle or effort level.
    pub reasoning: Option<Reasoning>,
    pub raw: Option<bool>,
    /// How long to keep the model loaded after the request (default: "5m").
    pub keep_alive: Option<String>,
    pub options: Option<HashMap<String, serde_json::Value>>,
}

/// The characters of a text that may be absent.
pub open spec fn chars_of(text: Option<String>) -> Option<Seq<char>> {
    match text {
        Some(text) => Some(text@),
        None => None,
    }
}

/// The bytes of the images of a list that may be absent.
pub open spec fn bytes_of(images: Option<Vec<Vec<u8>>>) -> Option<Seq<Seq<u8>>> {
    match images {
        Some(images) => Some(images@.map_values(|image: Vec<u8>| image@)),
        None => None,
    }
}

/// A request, with its texts as sequences of characters and its images as
/// sequences of bytes.
pub struct GenerateRequestModel {
    pub model: Seq<char>,
    pub prompt: Seq<char>,
    pub suffix: Option<Seq<char>>,
    pub images: Option<Seq<Seq<u8>>>,
    pub format: Option<Format>,
    pub system: Option<Seq<char>>,
    pub stream: Option<bool>,
    pub reasoning: Option<Reasoning>,
    pub raw: Option<bool>,
    pub keep_alive: Option<Seq<char>>,
    pub options: Option<HashMap<String, serde_json::Value>>,
}

impl GenerateRequestModel {
    /// The request that sets nothing.
    pub open spec fn blank() -> GenerateRequestModel {
        GenerateRequestModel {
            model: Seq::empty(),
            prompt: Seq::empty(),
            suffix: None,
            images: None,
            format: None,
            system: None,
            stream: None,
            reasoning: None,
            raw: None,
            keep_alive: None,
            options: None,
        }
    }
}

impl View for GenerateRequest {
    type V = GenerateRequestModel;

    open spec fn view(&self) -> GenerateRequestModel {
        GenerateRequestModel {
            model: self.model@,
            prompt: self.prompt@,
            suffix: chars_of(self.suffix),
            images: bytes_of(self.images),
            format: self.format,
            system: chars_of(self.system),
            stream: self.stream,
            reasoning: self.reasoning,
            raw: self.raw,
            keep_alive: chars_of(self.keep_alive),
            options: self.options,
        }
    }
}

impl Default for GenerateRequest {
    fn default() -> (request: GenerateRequest)
        ensures
            request@ == GenerateRequestModel::blank(),
    {
        GenerateRequest {
            model: String::new(),
            prompt: String::new(),
            suffix: None,
            images: None,
            format: None,
            system: None,
            stream: None,
            reasoning: None,
            raw: None,
            keep_alive: None,
            options: None,
        }
    }
}

impl GenerateRequest {
    /// Starts a request that sets nothing yet.
    pub fn builder() -> (builder: GenerateRequestBuilder)
        ensures
            builder@ == GenerateRequestModel::blank(),
    {
        GenerateRequestBuilder(GenerateRequest::default())
    }
}

/// A request in the making.
pub struct GenerateRequestBuilder(GenerateRequest);

impl View for GenerateRequestBuilder {
    type V = GenerateRequestModel;

    closed spec fn view(&self) -> GenerateRequestModel {
        self.0@
    }
}

impl GenerateRequestBuilder {
    pub fn model(self, model: &str) -> (builder: GenerateRequestBuilder)
        ensures
            builder@ == (GenerateRequestModel { model: model@, ..self@ }),
    {
        let mut request = self.0;
        request.model = model.to_owned();
        GenerateRequestBuilder(request)
    }

    pub fn prompt(self, prompt: &str) -> (builder: GenerateRequestBuilder)
        ensures
            builder@ == (GenerateRequestModel { prompt: prompt@, ..self@ }),
    {
        let mut request = self.0;
        request.prompt = prompt.to_owned();
        GenerateRequestBuilder(request)
    }

    pub fn suffix(self, suffix: &str) -> (builder: GenerateRequestBuilder)
        ensures
            builder@ == (GenerateRequestModel { suffix: Some(suffix@), ..self@ }),
    {
        let mut request = self.0;
        request.suffix = Some(suffix.to_owned());
        GenerateRequestBuilder(request)
    }

    /// Adds `image` after the images that the request already holds.
    pub fn image(self, image: Vec<u8>) -> (builder: GenerateRequestBuilder)
        ensures
            builder@ == (GenerateRequestModel {
                images: Some(
                    match self@.images {
                        Some(images) => images.push(image@),
                        None => seq![image@],
                    },
                ),
                ..self@
            }),
    {
        let mut request = self.0;
        let ghost before = bytes_of(request.images);
        let mut images = match request.images {
            Some(images) => images,
            None => Vec::new(),
        };
        let ghost held = images@.map_values(|image: Vec<u8>| image@);
        images.push(image);
        proof {
            assert(images@.map_values(|image: Vec<u8>| image@) =~= held.push(image@));
            assert(before is None ==> held.push(image@) =~= seq![image@]);
        }
        request.images = Some(images);
        GenerateRequestBuilder(request)
    }

    pub fn json(self) -> (builder: GenerateRequestBuilder)
        ensures
            builder@ == (GenerateRequestModel { format: Some(Format::JSON), ..self@ }),
    {
        let mut request = self.0;
        request.format = Some(Format::JSON);
        GenerateRequestBuilder(request)
    }

    pub fn json_schema(self, schema: serde_json::Value) -> (builder: GenerateRequestBuilder)
        ensures
            builder@ == (GenerateRequestModel {
                format: Some(Format::JSONSchema(schema)),
                ..self@
            }),
    {
        let mut request = self.0;
        request.format = Some(Format::JSONSchema(schema));
        GenerateRequestBuilder(request)
    }

    pub fn system(self, system: &str) -> (builder: GenerateRequestBuilder)
        ensures
            builder@ == (GenerateRequestModel { system: Some(system@), ..self@ }),
    {
        let mut request = self.0;
        request.system = Some(system.to_owned());
        GenerateRequestBuilder(request)
    }

    pub fn stream(self, stream: bool) -> (builder: GenerateRequestBuilder)
        ensures
            builder@ == (GenerateRequestModel { stream: Some(stream), ..self@ }),
    {
        let mut request = self.0;
        request.stream = Some(stream);
        GenerateRequestBuilder(request)
    }

    pub fn stream_on(self) -> (builder: GenerateRequestBuilder)
        ensures
            builder@ == (GenerateRequestModel { stream: Some(true), ..self@ }),
    {
        self.stream(true)
    }

    pub fn stream_off(self) -> (builder: GenerateRequestBuilder)
        ensures
            builder@ == (GenerateRequestModel { stream: Some(false), ..self@ }),
    {
        self.stream(false)
    }

    pub fn reasoning(self, reasoning: bool) -> (builder: GenerateRequestBuilder)
        ensures
            builder@ == (GenerateRequestModel {
                reasoning: Some(Reasoning::Reasoning(reasoning)),
                ..self@
            }),
    {
        let mut request = self.0;
        request.reasoning = Some(Reasoning::Reasoning(reasoning));
        GenerateRequestBuilder(request)
    }

    pub fn reasoning_effort(self, reasoning_effort: ReasoningEffort) -> (builder:
        GenerateRequestBuilder)
        ensures
            builder@ == (GenerateRequestModel {
                reasoning: Some(Reasoning::ReasoningEffort(reasoning_effort)),
                ..self@
            }),
    {
        let mut request = self.0;
        request.reasoning = Some(Reasoning::ReasoningEffort(reasoning_effort));
        GenerateRequestBuilder(request)
    }

    pub fn reasoning_on(self) -> (builder: GenerateRequestBuilder)
        ensures
            builder@ == (GenerateRequestModel {
                reasoning: Some(Reasoning::Reasoning(true)),
                ..self@
            }),
    {
        self.reasoning(true)
    }

    pub fn reasoning_off(self) -> (builder: GenerateRequestBuilder)
        ensures
            builder@ == (GenerateRequestModel {
                reasoning: Some(Reasoning::Reasoning(false)),
                ..self@
            }),
    {
        self.reasoning(false)
    }

    pub fn reasoning_low(self) -> (builder: GenerateRequestBuilder)
        ensures
            builder@ == (GenerateRequestModel {
                reasoning: Some(Reasoning::ReasoningEffort(ReasoningEffort::Low)),
                ..self@
            }),
    {
        self.reasoning_effort(ReasoningEffort::Low)
    }

    pub fn reasoning_medium(self) -> (builder: GenerateRequestBuilder)
        ensures
            builder@ == (GenerateRequestModel {
                reasoning: Some(Reasoning::ReasoningEffort(ReasoningEffort::Medium)),
                ..self@
            }),
    {
        self.reasoning_effort(ReasoningEffort::Medium)
    }

    pub fn reasoning_high(self) -> (builder: GenerateRequestBuilder)
        ensures
            builder@ == (GenerateRequestModel {
                reasoning: Some(Reasoning::ReasoningEffort(ReasoningEffort::High)),
                ..self@
            }),
    {
        self.reasoning_effort(ReasoningEffort::High)
    }

    pub fn raw(self, raw: bool) -> (builder: GenerateRequestBuilder)
        ensures
            builder@ == (GenerateRequestModel { raw: Some(raw), ..self@ }),
    {
        let mut request = self.0;
        request.raw = Some(raw);
        GenerateRequestBuilder(request)
    }

    /// The request as built.
    pub fn build(self) -> (request: GenerateRequest)
        ensures
            request@ == self@,
    {
        self.0
    }
}

/// Counts and durations that the server reports with a chunk.
#[derive(Debug, Clone, PartialEq, Eq)]
pub struct Metrics {
    pub total_duration: Option<i64>,
    pub load_duration: Option<i64>,
    pub prompt_eval_count: Option<isize>,
    pub prompt_eval_duration: Option<i64>,
    pub eval_count: Option<isize>,
    pub eval_duration: Option<i64>,
}

/// One chunk of the answer to a generation.
#[derive(Debug, Clone, PartialEq, Eq)]
pub struct GenerateResponse {
    pub model: String,
    pub created_at: String,
    pub response: String,
    pub thinking: Option<String>,
    pub done: bool,
    pub done_reason: Option<String>,
    pub metrics: Metrics,
}

} // verus!
