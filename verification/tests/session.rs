use translate_gemma::language::Language;
use translate_gemma::ollama::error::ClientError;
use translate_gemma::output_editor::{OutputEditor, Placeholder};
use translate_gemma::session::{
    Action, Event, InputSnapshot, Session, Stage, Submission, DEBOUNCE_MILLIS,
};

fn submission(prompt: &str) -> Submission {
    Submission { model: "translategemma:4b".to_string(), prompt: prompt.to_string() }
}

fn changed(prompt: &str) -> Event {
    Event::InputChanged { submission: Some(submission(prompt)) }
}

fn chunk(epoch: u64, text: &str, done: bool) -> Event {
    Event::Chunk { epoch, text: text.to_string(), done }
}

fn perform(output: &mut OutputEditor, actions: &[Action]) {
    for action in actions {
        output.perform(action);
    }
}

fn issued(actions: &[Action]) -> Vec<(u64, Submission)> {
    let mut found = Vec::new();
    for action in actions {
        if let Action::Issue { epoch, submission } = action {
            found.push((*epoch, submission.clone()));
        }
    }
    found
}

#[test]
fn session_starts_idle() {
    let session = Session::new();
    assert_eq!(session.epoch(), 0);
    assert_eq!(*session.stage(), Stage::Idle);
    assert!(!session.is_unfinished());
}

#[test]
fn first_submission_is_issued_at_once() {
    let mut session = Session::new();
    let actions = session.step(changed("one"));
    assert_eq!(actions, vec![Action::Issue { epoch: 1, submission: submission("one") }]);
    assert_eq!(session.epoch(), 1);
    assert_eq!(*session.stage(), Stage::Requesting);
    assert!(session.is_unfinished());
    assert!(session.is_current(1));
    assert!(!session.is_current(0));
}

#[test]
fn input_that_asks_for_nothing_changes_nothing() {
    let mut session = Session::new();
    session.step(changed("one"));
    let actions = session.step(Event::InputChanged { submission: None });
    assert!(actions.is_empty());
    assert_eq!(session.epoch(), 1);
    assert_eq!(*session.stage(), Stage::Requesting);
}

#[test]
fn interrupting_submission_waits_for_the_debounce_window() {
    let mut session = Session::new();
    session.step(changed("one"));
    let actions = session.step(changed("two"));
    assert_eq!(DEBOUNCE_MILLIS, 500);
    assert_eq!(
        actions,
        vec![
            Action::Cancel { epoch: 1 },
            Action::WaitForInput,
            Action::Debounce { epoch: 2, millis: 500 },
        ]
    );
    assert_eq!(*session.stage(), Stage::Debouncing { submission: submission("two") });

    let actions = session.step(Event::DebounceElapsed { epoch: 2 });
    assert_eq!(
        actions,
        vec![Action::TranslateInProgress, Action::Issue { epoch: 2, submission: submission("two") }]
    );
    assert_eq!(*session.stage(), Stage::Requesting);
}

#[test]
fn burst_issues_one_request_with_the_last_content() {
    let mut session = Session::new();
    session.step(changed("h"));
    session.step(Event::Opened { epoch: 1 });
    session.step(chunk(1, "partial", false));

    let mut all = Vec::new();
    for text in ["he", "hel", "hell", "hello"] {
        all.extend(session.step(changed(text)));
    }
    assert!(issued(&all).is_empty());
    assert_eq!(session.epoch(), 5);
    assert_eq!(*session.stage(), Stage::Debouncing { submission: submission("hello") });

    for epoch in [2, 3, 5, 4, 5, 1] {
        all.extend(session.step(Event::DebounceElapsed { epoch }));
    }
    assert_eq!(issued(&all), vec![(5, submission("hello"))]);
    assert_eq!(*session.stage(), Stage::Requesting);
}

#[test]
fn timer_of_a_superseded_submission_issues_nothing() {
    let mut session = Session::new();
    session.step(changed("one"));
    session.step(changed("two"));
    session.step(changed("three"));
    let actions = session.step(Event::DebounceElapsed { epoch: 2 });
    assert!(actions.is_empty());
    assert_eq!(*session.stage(), Stage::Debouncing { submission: submission("three") });
}

#[test]
fn chunks_reach_the_output_in_arrival_order() {
    let mut session = Session::new();
    let mut output = OutputEditor::new();
    output.append("old translation");

    perform(&mut output, &session.step(changed("one")));
    perform(&mut output, &session.step(Event::Opened { epoch: 1 }));
    assert_eq!(*session.stage(), Stage::Streaming { received: false });
    assert_eq!(output.value(), "old translation");

    let first = session.step(chunk(1, "A", false));
    assert_eq!(first, vec![Action::Reset, Action::Append { text: "A".to_string() }]);
    perform(&mut output, &first);
    assert_eq!(output.value(), "A");
    assert_eq!(output.placeholder(), Placeholder::Blank);

    let second = session.step(chunk(1, "B", false));
    assert_eq!(second, vec![Action::Append { text: "B".to_string() }]);
    perform(&mut output, &second);
    perform(&mut output, &session.step(chunk(1, "C", true)));
    assert_eq!(output.value(), "ABC");
    assert_eq!(*session.stage(), Stage::Settled { error: None });

    let late = session.step(chunk(1, "D", false));
    assert!(late.is_empty());
    perform(&mut output, &late);
    assert_eq!(output.value(), "ABC");
}

#[test]
fn chunk_of_a_superseded_generation_never_reaches_the_output() {
    let mut session = Session::new();
    let mut output = OutputEditor::new();
    perform(&mut output, &session.step(changed("one")));
    perform(&mut output, &session.step(Event::Opened { epoch: 1 }));
    perform(&mut output, &session.step(chunk(1, "stale", false)));
    assert_eq!(output.value(), "stale");

    perform(&mut output, &session.step(changed("two")));
    assert_eq!(output.value(), "");
    assert_eq!(output.placeholder(), Placeholder::WaitInput);

    let late = session.step(chunk(1, " more", false));
    assert!(late.is_empty());
    perform(&mut output, &late);
    assert_eq!(output.value(), "");
    assert_eq!(*session.stage(), Stage::Debouncing { submission: submission("two") });

    perform(&mut output, &session.step(Event::DebounceElapsed { epoch: 2 }));
    assert_eq!(output.placeholder(), Placeholder::InProgress);
    assert!(session.step(Event::Exhausted { epoch: 1 }).is_empty());
    assert!(session
        .step(Event::Failed { epoch: 1, error: ClientError::transport("reset") })
        .is_empty());
    assert_eq!(*session.stage(), Stage::Requesting);

    perform(&mut output, &session.step(Event::Opened { epoch: 2 }));
    perform(&mut output, &session.step(chunk(2, "fresh", true)));
    assert_eq!(output.value(), "fresh");
    assert_eq!(output.placeholder(), Placeholder::Blank);
}

#[test]
fn chunk_before_the_stream_opened_is_ignored() {
    let mut session = Session::new();
    session.step(changed("one"));
    assert!(session.step(chunk(1, "early", false)).is_empty());
    assert_eq!(*session.stage(), Stage::Requesting);
}

#[test]
fn failure_settles_and_keeps_what_was_received() {
    let mut session = Session::new();
    let mut output = OutputEditor::new();
    perform(&mut output, &session.step(changed("one")));
    perform(&mut output, &session.step(Event::Opened { epoch: 1 }));
    perform(&mut output, &session.step(chunk(1, "half", false)));

    let error = ClientError::malformed("expected value at line 1 column 1");
    let actions = session.step(Event::Failed { epoch: 1, error: error.clone() });
    assert!(actions.is_empty());
    perform(&mut output, &actions);
    assert_eq!(output.value(), "half");
    assert_eq!(*session.stage(), Stage::Settled { error: Some(error) });
    assert!(!session.is_unfinished());

    let next = session.step(changed("two"));
    assert_eq!(next, vec![Action::Issue { epoch: 2, submission: submission("two") }]);
}

#[test]
fn failure_of_the_request_settles_too() {
    let mut session = Session::new();
    session.step(changed("one"));
    let error = ClientError::transport("connection refused");
    session.step(Event::Failed { epoch: 1, error: error.clone() });
    assert_eq!(*session.stage(), Stage::Settled { error: Some(error) });
}

#[test]
fn stream_that_closes_settles_the_generation() {
    let mut session = Session::new();
    session.step(changed("one"));
    session.step(Event::Opened { epoch: 1 });
    assert!(session.step(Event::Exhausted { epoch: 1 }).is_empty());
    assert_eq!(*session.stage(), Stage::Settled { error: None });
}

#[test]
fn release_cancels_an_unfinished_generation() {
    let mut session = Session::new();
    session.step(changed("one"));
    let actions = session.step(Event::Released);
    assert_eq!(actions, vec![Action::Cancel { epoch: 1 }]);
    assert_eq!(*session.stage(), Stage::Idle);
    assert!(session.step(Event::Released).is_empty());
    assert!(session.step(Event::Opened { epoch: 1 }).is_empty());
    assert_eq!(*session.stage(), Stage::Idle);
}

#[test]
fn output_editor_follows_the_actions() {
    let mut output = OutputEditor::new();
    assert_eq!(output.value(), "");
    assert_eq!(output.placeholder(), Placeholder::Blank);
    output.append("abc");
    output.wait_for_input();
    assert_eq!(output.value(), "");
    assert_eq!(output.placeholder(), Placeholder::WaitInput);
    output.append("x");
    output.translate_in_progress();
    assert_eq!(output.value(), "");
    assert_eq!(output.placeholder(), Placeholder::InProgress);
    output.append("你好");
    output.append("，世界");
    assert_eq!(output.value(), "你好，世界");
    output.perform(&Action::Cancel { epoch: 3 });
    output.perform(&Action::Debounce { epoch: 3, millis: 500 });
    output.perform(&Action::Issue { epoch: 3, submission: submission("p") });
    assert_eq!(output.value(), "你好，世界");
    assert_eq!(output.placeholder(), Placeholder::InProgress);
    output.reset();
    assert_eq!(output.value(), "");
    assert_eq!(output.placeholder(), Placeholder::Blank);
}

fn snapshot(model: Option<&str>, source: bool, target: bool, text: &str) -> InputSnapshot {
    InputSnapshot {
        model: model.map(|m| m.to_string()),
        source_language: if source { Some(Language::new("zh-Hans", "Chinese")) } else { None },
        target_language: if target { Some(Language::new("en", "English")) } else { None },
        text: text.to_string(),
    }
}

#[test]
fn snapshot_qualifies_only_with_model_languages_and_text() {
    assert!(snapshot(None, true, true, "你好").submission().is_none());
    assert!(snapshot(Some("m"), false, true, "你好").submission().is_none());
    assert!(snapshot(Some("m"), true, false, "你好").submission().is_none());
    assert!(snapshot(Some("m"), true, true, "").submission().is_none());
    assert!(snapshot(None, true, true, "你好").prompt().is_some());
    assert!(snapshot(Some("m"), true, true, "").prompt().is_none());

    let sent = snapshot(Some("translategemma:4b"), true, true, "你好，世界！").submission().unwrap();
    assert_eq!(sent.model, "translategemma:4b");
    assert_eq!(
        sent.prompt,
        "You are a professional Chinese (zh-Hans) to English (en) translator. Your goal is to accurately convey the meaning and nuances of the original Chinese text while adhering to English grammar, vocabulary, and cultural sensitivities. Produce only the English translation, without any additional explanations or commentary. Please translate the following Chinese text into English:\n\n\n你好，世界！"
    );
}

#[test]
fn submission_becomes_a_streaming_request() {
    let request = submission("translate this").request();
    assert_eq!(request.model, "translategemma:4b");
    assert_eq!(request.prompt, "translate this");
    assert_eq!(request.stream, Some(true));
    assert!(request.suffix.is_none());
    assert!(request.images.is_none());
    assert!(request.format.is_none());
    assert!(request.system.is_none());
    assert!(request.reasoning.is_none());
    assert!(request.raw.is_none());
    assert!(request.keep_alive.is_none());
    assert!(request.options.is_none());
}

#[test]
fn burst_that_interrupts_nothing_issues_its_first_and_its_last() {
    let mut session = Session::new();
    let mut all = Vec::new();
    for text in ["h", "he", "hel"] {
        all.extend(session.step(changed(text)));
    }
    for epoch in [2, 3] {
        all.extend(session.step(Event::DebounceElapsed { epoch }));
    }
    assert_eq!(issued(&all), vec![(1, submission("h")), (3, submission("hel"))]);
}
