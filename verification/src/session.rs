//! The generation session manager: at most one generation is current, a new
//! submission supersedes the one before it, and only the current generation
//! writes to the output area.
//!
//! The manager is a state machine. Whoever drives it performs the network
//! call, the timer and the writes to the screen, and reports back what
//! happened as an [`Event`]; [`Session::step`] answers with the next state and
//! the [`Action`]s to perform, in order.

use crate::language::Language;
use crate::ollama::error::{ClientError, ClientErrorModel};
use crate::ollama::generate::{GenerateRequest, GenerateRequestModel};
use crate::output_editor::{OutputEditor, OutputModel, Placeholder};
use crate::prompt::{instruction, Prompt};
use vstd::prelude::*;

verus! {

/// How long an interrupting submission waits before its request is issued.
pub const DEBOUNCE_MILLIS: u64 = 500;

/// What one request to the model carries.
#[derive(Debug, Clone, PartialEq, Eq)]
pub struct Submission {
    pub model: String,
    pub prompt: String,
}

/// A submission, with its texts as sequences of characters.
pub struct SubmissionModel {
    pub model: Seq<char>,
    pub prompt: Seq<char>,
}

impl View for Submission {
    type V = SubmissionModel;

    open spec fn view(&self) -> SubmissionModel {
        SubmissionModel { model: self.model@, prompt: self.prompt@ }
    }
}

impl Submission {
    /// The request that carries the submission: for its model, with its
    /// prompt, and with the answer streamed.
    pub fn request(&self) -> (request: GenerateRequest)
        ensures
            request@ == (GenerateRequestModel {
                model: self.model@,
                prompt: self.prompt@,
                stream: Some(true),
                ..GenerateRequestModel::blank()
            }),
    {
        GenerateRequest::builder().model(self.model.as_str()).stream(true).prompt(
            self.prompt.as_str(),
        ).build()
    }
}

/// What the user has entered and selected at one moment.
#[derive(Debug, Clone)]
pub struct InputSnapshot {
    pub model: Option<String>,
    pub source_language: Option<Language>,
    pub target_language: Option<Language>,
    pub text: String,
}

impl InputSnapshot {
    /// Both languages are selected and there is text to translate.
    pub open spec fn has_prompt(&self) -> bool {
        &&& self.source_language is Some
        &&& self.target_language is Some
        &&& self.text@.len() > 0
    }

    /// A model is selected and there is a prompt to send to it.
    pub open spec fn qualifies(&self) -> bool {
        self.model is Some && self.has_prompt()
    }

    /// The instruction text for the languages and the text of this input.
    pub open spec fn rendered(&self) -> Seq<char> {
        instruction(
            self.source_language->0.name@,
            self.source_language->0.code@,
            self.target_language->0.name@,
            self.target_language->0.code@,
            self.text@,
        )
    }

    /// The prompt for this input, if both languages are selected and the
    /// text is not empty.
    pub fn prompt(&self) -> (prompt: Option<Prompt>)
        ensures
            prompt is Some == self.has_prompt(),
            prompt matches Some(p) ==> {
                &&& p.source_language.code@ == self.source_language->0.code@
                &&& p.source_language.name@ == self.source_language->0.name@
                &&& p.target_language.code@ == self.target_language->0.code@
                &&& p.target_language.name@ == self.target_language->0.name@
                &&& p.text@ == self.text@
            },
    {
        match (&self.source_language, &self.target_language) {
            (Some(source), Some(target)) => {
                if self.text.as_str().is_empty() {
                    None
                } else {
                    Some(
                        Prompt::new(
                            Language::new(source.code.as_str(), source.name.as_str()),
                            Language::new(target.code.as_str(), target.name.as_str()),
                            self.text.as_str(),
                        ),
                    )
                }
            },
            _ => None,
        }
    }

    /// What to send for this input: nothing unless a model is selected and
    /// there is a prompt.
    pub fn submission(&self) -> (submission: Option<Submission>)
        ensures
            submission is Some == self.qualifies(),
            submission matches Some(s) ==> s@ == (SubmissionModel {
                model: self.model->0@,
                prompt: self.rendered(),
            }),
    {
        match &self.model {
            Some(model) => match self.prompt() {
                Some(prompt) => Some(
                    Submission { model: model.clone(), prompt: prompt.to_string() },
                ),
                None => None,
            },
            None => None,
        }
    }
}

/// Where the current generation stands.
#[derive(Debug, Clone, PartialEq, Eq)]
pub enum Stage {
    /// Nothing has been submitted, or the session was released.
    Idle,
    /// The submission interrupted a generation and waits for its timer; no
    /// request has been issued for it.
    Debouncing { submission: Submission },
    /// The request has been issued and not answered.
    Requesting,
    /// The answer is streaming in; `received` tells whether a chunk has
    /// arrived.
    Streaming { received: bool },
    /// The generation is over, with the failure that ended it, if one did.
    Settled { error: Option<ClientError> },
}

/// A stage, with its texts as sequences of characters.
pub enum StageModel {
    Idle,
    Debouncing { submission: SubmissionModel },
    Requesting,
    Streaming { received: bool },
    Settled { error: Option<ClientErrorModel> },
}

impl View for Stage {
    type V = StageModel;

    open spec fn view(&self) -> StageModel {
        match *self {
            Stage::Idle => StageModel::Idle,
            Stage::Debouncing { submission } => StageModel::Debouncing { submission: submission@ },
            Stage::Requesting => StageModel::Requesting,
            Stage::Streaming { received } => StageModel::Streaming { received },
            Stage::Settled { error: Some(error) } => StageModel::Settled { error: Some(error@) },
            Stage::Settled { error: None } => StageModel::Settled { error: None },
        }
    }
}

/// What happened outside the session manager.
#[derive(Debug, Clone, PartialEq, Eq)]
pub enum Event {
    /// The input changed; `submission` is what it now asks to send, if
    /// anything.
    InputChanged { submission: Option<Submission> },
    /// The timer started for generation `epoch` ran out.
    DebounceElapsed { epoch: u64 },
    /// The server accepted the request of generation `epoch`.
    Opened { epoch: u64 },
    /// A chunk arrived for generation `epoch`.
    Chunk { epoch: u64, text: String, done: bool },
    /// The stream of generation `epoch` closed.
    Exhausted { epoch: u64 },
    /// The call or the stream of generation `epoch` failed.
    Failed { epoch: u64, error: ClientError },
    /// The owner of the session goes away.
    Released,
}

/// An event, with its texts as sequences of characters.
pub enum EventModel {
    InputChanged { submission: Option<SubmissionModel> },
    DebounceElapsed { epoch: int },
    Opened { epoch: int },
    Chunk { epoch: int, text: Seq<char>, done: bool },
    Exhausted { epoch: int },
    Failed { epoch: int, error: ClientErrorModel },
    Released,
}

impl View for Event {
    type V = EventModel;

    open spec fn view(&self) -> EventModel {
        match *self {
            Event::InputChanged { submission: Some(submission) } => EventModel::InputChanged {
                submission: Some(submission@),
            },
            Event::InputChanged { submission: None } => EventModel::InputChanged {
                submission: None,
            },
            Event::DebounceElapsed { epoch } => EventModel::DebounceElapsed { epoch: epoch as int },
            Event::Opened { epoch } => EventModel::Opened { epoch: epoch as int },
            Event::Chunk { epoch, text, done } => EventModel::Chunk {
                epoch: epoch as int,
                text: text@,
                done,
            },
            Event::Exhausted { epoch } => EventModel::Exhausted { epoch: epoch as int },
            Event::Failed { epoch, error } => EventModel::Failed {
                epoch: epoch as int,
                error: error@,
            },
            Event::Released => EventModel::Released,
        }
    }
}

/// What the driver of the session is to do.
#[derive(Debug, Clone, PartialEq, Eq)]
pub enum Action {
    /// Abandon generation `epoch`: drop its stream, forget its timer.
    Cancel { epoch: u64 },
    /// Clear the output area and show that more input is awaited.
    WaitForInput,
    /// Start a timer of `millis` milliseconds for generation `epoch`.
    Debounce { epoch: u64, millis: u64 },
    /// Clear the output area and show that a translation is under way.
    TranslateInProgress,
    /// Send `submission` to the model as generation `epoch`.
    Issue { epoch: u64, submission: Submission },
    /// Clear the output area and its hint.
    Reset,
    /// Add `text` at the end of the output area.
    Append { text: String },
}

/// An action, with its texts as sequences of characters.
pub enum ActionModel {
    Cancel { epoch: int },
    WaitForInput,
    Debounce { epoch: int, millis: int },
    TranslateInProgress,
    Issue { epoch: int, submission: SubmissionModel },
    Reset,
    Append { text: Seq<char> },
}

impl View for Action {
    type V = ActionModel;

    open spec fn view(&self) -> ActionModel {
        match *self {
            Action::Cancel { epoch } => ActionModel::Cancel { epoch: epoch as int },
            Action::WaitForInput => ActionModel::WaitForInput,
            Action::Debounce { epoch, millis } => ActionModel::Debounce {
                epoch: epoch as int,
                millis: millis as int,
            },
            Action::TranslateInProgress => ActionModel::TranslateInProgress,
            Action::Issue { epoch, submission } => ActionModel::Issue {
                epoch: epoch as int,
                submission: submission@,
            },
            Action::Reset => ActionModel::Reset,
            Action::Append { text } => ActionModel::Append { text: text@ },
        }
    }
}

/// The models of a list of actions, in order.
pub open spec fn action_models(actions: Seq<Action>) -> Seq<ActionModel> {
    actions.map_values(|action: Action| action@)
}

/// The state of the session manager: the token of the current generation and
/// the stage it is in.
pub struct SessionModel {
    pub epoch: int,
    pub stage: StageModel,
}

/// A generation that is neither over nor yet to begin.
pub open spec fn unfinished(stage: StageModel) -> bool {
    stage is Debouncing || stage is Requesting || stage is Streaming
}

/// The generation an event speaks of, if it speaks of one.
pub open spec fn epoch_of(event: EventModel) -> Option<int> {
    match event {
        EventModel::InputChanged { .. } => None,
        EventModel::DebounceElapsed { epoch } => Some(epoch),
        EventModel::Opened { epoch } => Some(epoch),
        EventModel::Chunk { epoch, .. } => Some(epoch),
        EventModel::Exhausted { epoch } => Some(epoch),
        EventModel::Failed { epoch, .. } => Some(epoch),
        EventModel::Released => None,
    }
}

/// The state after `event` in state `s`.
///
/// A submission starts a new generation under the next token, at once if no
/// generation is unfinished and after the debounce timer otherwise. What is
/// reported of another generation than the current one changes nothing, nor
/// does an input that asks to send nothing, nor a submission once the tokens
/// are used up.
pub open spec fn next(s: SessionModel, event: EventModel) -> SessionModel {
    match event {
        EventModel::InputChanged { submission: Some(submission) } => {
            if s.epoch < u64::MAX {
                SessionModel {
                    epoch: s.epoch + 1,
                    stage: if unfinished(s.stage) {
                        StageModel::Debouncing { submission }
                    } else {
                        StageModel::Requesting
                    },
                }
            } else {
                s
            }
        },
        EventModel::InputChanged { submission: None } => s,
        EventModel::DebounceElapsed { epoch } => {
            if epoch == s.epoch && s.stage is Debouncing {
                SessionModel { epoch: s.epoch, stage: StageModel::Requesting }
            } else {
                s
            }
        },
        EventModel::Opened { epoch } => {
            if epoch == s.epoch && s.stage is Requesting {
                SessionModel { epoch: s.epoch, stage: StageModel::Streaming { received: false } }
            } else {
                s
            }
        },
        EventModel::Chunk { epoch, text, done } => {
            if epoch == s.epoch && s.stage is Streaming {
                SessionModel {
                    epoch: s.epoch,
                    stage: if done {
                        StageModel::Settled { error: None }
                    } else {
                        StageModel::Streaming { received: true }
                    },
                }
            } else {
                s
            }
        },
        EventModel::Exhausted { epoch } => {
            if epoch == s.epoch && s.stage is Streaming {
                SessionModel { epoch: s.epoch, stage: StageModel::Settled { error: None } }
            } else {
                s
            }
        },
        EventModel::Failed { epoch, error } => {
            if epoch == s.epoch && (s.stage is Requesting || s.stage is Streaming) {
                SessionModel { epoch: s.epoch, stage: StageModel::Settled { error: Some(error) } }
            } else {
                s
            }
        },
        EventModel::Released => {
            if unfinished(s.stage) {
                SessionModel { epoch: s.epoch, stage: StageModel::Idle }
            } else {
                s
            }
        },
    }
}

/// The actions that `event` calls for in state `s`, in the order in which
/// they are to be performed.
pub open spec fn emitted(s: SessionModel, event: EventModel) -> Seq<ActionModel> {
    match event {
        EventModel::InputChanged { submission: Some(submission) } => {
            if s.epoch < u64::MAX {
                if unfinished(s.stage) {
                    seq![
                        ActionModel::Cancel { epoch: s.epoch },
                        ActionModel::WaitForInput,
                        ActionModel::Debounce { epoch: s.epoch + 1, millis: DEBOUNCE_MILLIS as int },
                    ]
                } else {
                    seq![ActionModel::Issue { epoch: s.epoch + 1, submission }]
                }
            } else {
                Seq::empty()
            }
        },
        EventModel::DebounceElapsed { epoch } => {
            if epoch == s.epoch && s.stage is Debouncing {
                seq![
                    ActionModel::TranslateInProgress,
                    ActionModel::Issue { epoch: s.epoch, submission: s.stage->submission },
                ]
            } else {
                Seq::empty()
            }
        },
        EventModel::Chunk { epoch, text, done } => {
            if epoch == s.epoch && s.stage is Streaming {
                if s.stage->received {
                    seq![ActionModel::Append { text }]
                } else {
                    seq![ActionModel::Reset, ActionModel::Append { text }]
                }
            } else {
                Seq::empty()
            }
        },
        EventModel::Released => {
            if unfinished(s.stage) {
                seq![ActionModel::Cancel { epoch: s.epoch }]
            } else {
                Seq::empty()
            }
        },
        _ => Seq::empty(),
    }
}

/// What the output area shows after `action`.
pub open spec fn shown(output: OutputModel, action: ActionModel) -> OutputModel {
    match action {
        ActionModel::WaitForInput => OutputModel {
            value: Seq::empty(),
            placeholder: Placeholder::WaitInput,
        },
        ActionModel::TranslateInProgress => OutputModel {
            value: Seq::empty(),
            placeholder: Placeholder::InProgress,
        },
        ActionModel::Reset => OutputModel { value: Seq::empty(), placeholder: Placeholder::Blank },
        ActionModel::Append { text } => OutputModel {
            value: output.value + text,
            placeholder: output.placeholder,
        },
        _ => output,
    }
}

/// The session manager.
#[derive(Debug)]
pub struct Session {
    epoch: u64,
    stage: Stage,
}

impl View for Session {
    type V = SessionModel;

    closed spec fn view(&self) -> SessionModel {
        SessionModel { epoch: self.epoch as int, stage: self.stage@ }
    }
}

impl Session {
    /// A session in which nothing has been submitted.
    pub fn new() -> (session: Session)
        ensures
            session@ == (SessionModel { epoch: 0, stage: StageModel::Idle }),
    {
        Session { epoch: 0, stage: Stage::Idle }
    }

    /// The token of the current generation.
    pub fn epoch(&self) -> (epoch: u64)
        ensures
            epoch == self@.epoch,
    {
        self.epoch
    }

    /// The stage of the current generation.
    pub fn stage(&self) -> (stage: &Stage)
        ensures
            stage@ == self@.stage,
    {
        &self.stage
    }

    /// Whether the current generation is neither over nor yet to begin.
    pub fn is_unfinished(&self) -> (active: bool)
        ensures
            active == unfinished(self@.stage),
    {
        match self.stage {
            Stage::Debouncing { .. } | Stage::Requesting | Stage::Streaming { .. } => true,
            Stage::Idle | Stage::Settled { .. } => false,
        }
    }

    /// Whether generation `epoch` is the current one and may write to the
    /// output area.
    pub fn is_current(&self, epoch: u64) -> (current: bool)
        ensures
            current == (epoch == self@.epoch),
    {
        epoch == self.epoch
    }

    /// Takes `event` in: moves to the next state and returns what is to be
    /// done, in order.
    pub fn step(&mut self, event: Event) -> (actions: Vec<Action>)
        ensures
            final(self)@ == next(old(self)@, event@),
            action_models(actions@) == emitted(old(self)@, event@),
    {
        let mut actions: Vec<Action> = Vec::new();
        let current = self.epoch;
        match event {
            Event::InputChanged { submission: Some(submission) } => {
                if current < u64::MAX {
                    let interrupts = self.is_unfinished();
                    self.epoch = current + 1;
                    if interrupts {
                        actions.push(Action::Cancel { epoch: current });
                        actions.push(Action::WaitForInput);
                        actions.push(
                            Action::Debounce { epoch: current + 1, millis: DEBOUNCE_MILLIS },
                        );
                        self.stage = Stage::Debouncing { submission };
                    } else {
                        actions.push(Action::Issue { epoch: current + 1, submission });
                        self.stage = Stage::Requesting;
                    }
                }
            },
            Event::InputChanged { submission: None } => {},
            Event::DebounceElapsed { epoch } => {
                if epoch == current {
                    let mut stage = Stage::Requesting;
                    core::mem::swap(&mut self.stage, &mut stage);
                    match stage {
                        Stage::Debouncing { submission } => {
                            actions.push(Action::TranslateInProgress);
                            actions.push(Action::Issue { epoch: current, submission });
                        },
                        other => {
                            self.stage = other;
                        },
                    }
                }
            },
            Event::Opened { epoch } => {
                if epoch == current {
                    if let Stage::Requesting = self.stage {
                        self.stage = Stage::Streaming { received: false };
                    }
                }
            },
            Event::Chunk { epoch, text, done } => {
                if epoch == current {
                    if let Stage::Streaming { received } = self.stage {
                        if !received {
                            actions.push(Action::Reset);
                        }
                        actions.push(Action::Append { text });
                        if done {
                            self.stage = Stage::Settled { error: None };
                        } else {
                            self.stage = Stage::Streaming { received: true };
                        }
                    }
                }
            },
            Event::Exhausted { epoch } => {
                if epoch == current {
                    if let Stage::Streaming { .. } = self.stage {
                        self.stage = Stage::Settled { error: None };
                    }
                }
            },
            Event::Failed { epoch, error } => {
                if epoch == current {
                    match self.stage {
                        Stage::Requesting | Stage::Streaming { .. } => {
                            self.stage = Stage::Settled { error: Some(error) };
                        },
                        _ => {},
                    }
                }
            },
            Event::Released => {
                if self.is_unfinished() {
                    actions.push(Action::Cancel { epoch: current });
                    self.stage = Stage::Idle;
                }
            },
        }
        assert(action_models(actions@) =~= emitted(old(self)@, event@));
        actions
    }
}

impl OutputEditor {
    /// Performs `action` on the output area. An action that is not about
    /// the output area leaves it as it is.
    pub fn perform(&mut self, action: &Action)
        ensures
            final(self)@ == shown(old(self)@, action@),
    {
        match action {
            Action::WaitForInput => self.wait_for_input(),
            Action::TranslateInProgress => self.translate_in_progress(),
            Action::Reset => self.reset(),
            Action::Append { text } => self.append(text.as_str()),
            Action::Cancel { .. } | Action::Debounce { .. } | Action::Issue { .. } => {},
        }
    }
}

} // verus!
