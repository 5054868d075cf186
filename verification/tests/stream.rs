use translate_gemma::ollama::error::ClientError;
use translate_gemma::ollama::generate::{GenerateResponse, Metrics};
use translate_gemma::ollama::stream::{GenerateStream, Rejection};

fn text_field(value: &serde_json::Value, name: &str) -> Option<String> {
    value.get(name).and_then(|field| field.as_str()).map(|text| text.to_string())
}

fn decode(line: &str) -> Result<GenerateResponse, String> {
    let value: serde_json::Value = serde_json::from_str(line).map_err(|error| error.to_string())?;
    let response = text_field(&value, "response").ok_or("missing field `response`".to_string())?;
    let done = value
        .get("done")
        .and_then(|field| field.as_bool())
        .ok_or("missing field `done`".to_string())?;
    Ok(GenerateResponse {
        model: text_field(&value, "model").unwrap_or_default(),
        created_at: text_field(&value, "created_at").unwrap_or_default(),
        response,
        thinking: text_field(&value, "thinking"),
        done,
        done_reason: text_field(&value, "done_reason"),
        metrics: Metrics {
            total_duration: value.get("total_duration").and_then(|field| field.as_i64()),
            load_duration: None,
            prompt_eval_count: None,
            prompt_eval_duration: None,
            eval_count: None,
            eval_duration: None,
        },
    })
}

fn drain(stream: &mut GenerateStream) -> Vec<Result<GenerateResponse, ClientError>> {
    let mut items = Vec::new();
    while let Some(frame) = stream.next_frame() {
        match frame {
            Ok(line) => items.push(stream.accept(decode(&line))),
            Err(error) => items.push(Err(error)),
        }
    }
    items
}

fn lines(stream: &mut GenerateStream) -> Vec<Result<String, ClientError>> {
    let mut found = Vec::new();
    while let Some(frame) = stream.next_frame() {
        found.push(frame);
    }
    found
}

fn opened() -> GenerateStream {
    GenerateStream::open(200).unwrap()
}

#[test]
fn generate_yields_the_chunks_of_the_answer_and_then_nothing() {
    let mut stream = opened();
    stream.receive(b"{\"response\":\"A\",\"done\":false}\n{\"response\":\"B\",\"done\":true}\n");
    let items = drain(&mut stream);
    assert_eq!(items.len(), 2);
    let first = items[0].as_ref().unwrap();
    let second = items[1].as_ref().unwrap();
    assert_eq!(first.response, "A");
    assert!(!first.done);
    assert_eq!(second.response, "B");
    assert!(second.done);
    assert!(stream.is_ended());

    assert!(stream.next_frame().is_none());
    stream.receive(b"{\"response\":\"C\",\"done\":false}\n");
    stream.close();
    assert!(stream.next_frame().is_none());
    assert!(drain(&mut stream).is_empty());
}

#[test]
fn chunk_after_the_last_one_is_dropped() {
    let mut stream = opened();
    stream.receive(b"{\"response\":\"A\",\"done\":true}\n{\"response\":\"B\",\"done\":false}\n");
    let items = drain(&mut stream);
    assert_eq!(items.len(), 1);
    assert_eq!(items[0].as_ref().unwrap().response, "A");
    assert!(stream.is_ended());
}

#[test]
fn failure_status_yields_no_stream_and_an_error_with_the_body() {
    for status in [404u16, 500, 199, 300, 301, 400, 0, 99, 1000] {
        let rejection = match GenerateStream::open(status) {
            Ok(_) => panic!("status {status} opened a stream"),
            Err(rejection) => rejection,
        };
        assert_eq!(rejection, Rejection { status });
        let error = rejection.with_body("{\"error\":\"model 'x' not found\"}");
        assert_eq!(
            error,
            ClientError::Protocol {
                status: Some(status),
                detail: "{\"error\":\"model 'x' not found\"}".to_string(),
            }
        );
        assert!(error.message().contains("{\"error\":\"model 'x' not found\"}"));
        assert!(!error.is_transport());
    }
}

#[test]
fn success_status_opens_an_empty_stream() {
    for status in [200u16, 201, 204, 299] {
        let mut stream = GenerateStream::open(status).unwrap();
        assert!(!stream.is_ended());
        assert!(stream.next_frame().is_none());
        assert!(!stream.is_ended());
    }
}

#[test]
fn lines_split_over_several_deliveries_are_put_together() {
    let mut stream = opened();
    stream.receive(b"{\"respon");
    assert!(stream.next_frame().is_none());
    stream.receive(b"se\":\"A\",\"done\":false}");
    assert!(stream.next_frame().is_none());
    stream.receive(b"\n{\"response\":");
    assert_eq!(
        stream.next_frame(),
        Some(Ok("{\"response\":\"A\",\"done\":false}".to_string()))
    );
    assert!(stream.next_frame().is_none());
    stream.receive(b"\"B\",\"done\":false}\r\n");
    assert_eq!(
        stream.next_frame(),
        Some(Ok("{\"response\":\"B\",\"done\":false}".to_string()))
    );
    assert!(stream.next_frame().is_none());
    assert!(!stream.is_ended());
}

#[test]
fn blank_lines_are_passed_over() {
    let mut stream = opened();
    stream.receive(b"\n\r\n   \n\t \r\nfirst\n\n\xc2\xa0\xe3\x80\x80\nsecond\n \n");
    assert_eq!(lines(&mut stream), vec![Ok("first".to_string()), Ok("second".to_string())]);
    assert!(!stream.is_ended());
}

#[test]
fn line_keeps_its_inner_and_outer_spaces() {
    let mut stream = opened();
    stream.receive(b"  a b \n\rx\r\r\n");
    assert_eq!(lines(&mut stream), vec![Ok("  a b ".to_string()), Ok("\rx\r".to_string())]);
}

#[test]
fn rest_without_line_feed_is_a_line_once_the_transport_closed() {
    let mut stream = opened();
    stream.receive(b"one\ntwo");
    assert_eq!(stream.next_frame(), Some(Ok("one".to_string())));
    assert!(stream.next_frame().is_none());
    assert!(!stream.is_ended());
    stream.close();
    assert!(!stream.is_ended());
    assert_eq!(stream.next_frame(), Some(Ok("two".to_string())));
    assert!(stream.next_frame().is_none());
    assert!(stream.is_ended());
}

#[test]
fn rest_with_carriage_return_loses_it() {
    let mut stream = opened();
    stream.receive(b"two\r");
    stream.close();
    assert_eq!(lines(&mut stream), vec![Ok("two".to_string())]);
    assert!(stream.is_ended());
}

#[test]
fn lone_carriage_return_at_the_end_is_no_line() {
    let mut stream = opened();
    stream.receive(b"one\n\r");
    stream.close();
    assert_eq!(lines(&mut stream), vec![Ok("one".to_string())]);
    assert!(stream.is_ended());
}

#[test]
fn closed_transport_takes_no_more_bytes() {
    let mut stream = opened();
    stream.close();
    stream.receive(b"late\n");
    assert!(stream.next_frame().is_none());
    assert!(stream.is_ended());
}

#[test]
fn line_that_is_no_text_fails_and_ends_the_stream() {
    let mut stream = opened();
    stream.receive(b"good\n\xff\xfe\nnever\n");
    assert_eq!(stream.next_frame(), Some(Ok("good".to_string())));
    assert_eq!(
        stream.next_frame(),
        Some(Err(ClientError::Protocol {
            status: None,
            detail: "Unable to decode input as UTF8".to_string(),
        }))
    );
    assert!(stream.is_ended());
    assert!(stream.next_frame().is_none());
}

#[test]
fn line_in_another_script_is_kept_whole() {
    let mut stream = opened();
    stream.receive("{\"response\":\"你好，世界！\",\"done\":false}\n".as_bytes());
    let items = drain(&mut stream);
    assert_eq!(items[0].as_ref().unwrap().response, "你好，世界！");
}

#[test]
fn line_that_cannot_be_decoded_fails_and_the_stream_goes_on() {
    let mut stream = opened();
    stream.receive(b"not json\n{\"response\":\"A\",\"done\":false}\n");
    let items = drain(&mut stream);
    assert_eq!(items.len(), 2);
    match &items[0] {
        Err(ClientError::Protocol { status: None, detail }) => {
            assert!(detail.starts_with("expected"), "{detail}")
        }
        other => panic!("{other:?}"),
    }
    assert_eq!(items[1].as_ref().unwrap().response, "A");
    assert!(!stream.is_ended());
}

#[test]
fn accept_hands_the_chunk_on_unchanged() {
    let mut stream = opened();
    let chunk = decode("{\"model\":\"m\",\"created_at\":\"t\",\"response\":\"A\",\"done\":false,\"total_duration\":7}").unwrap();
    assert_eq!(chunk.model, "m");
    assert_eq!(chunk.metrics.total_duration, Some(7));
    assert_eq!(stream.accept(Ok(chunk.clone())), Ok(chunk));
    assert!(!stream.is_ended());
    assert_eq!(
        stream.accept(Err("missing field `done`".to_string())),
        Err(ClientError::malformed("missing field `done`"))
    );
    assert!(!stream.is_ended());
}

#[test]
fn cancelled_stream_yields_nothing_more() {
    let mut stream = opened();
    stream.receive(b"{\"response\":\"A\",\"done\":false}\n{\"response\":\"B\",");
    assert!(stream.next_frame().is_some());
    stream.cancel();
    assert!(stream.is_ended());
    assert!(stream.next_frame().is_none());
    stream.receive(b"\"done\":false}\n");
    assert!(stream.next_frame().is_none());
    stream.close();
    assert!(stream.next_frame().is_none());
    assert!(stream.is_ended());
}

#[test]
fn failed_transport_ends_the_stream_with_its_error() {
    let mut stream = opened();
    stream.receive(b"{\"response\":\"A\",\"done\":false}\n");
    let error = stream.fail("connection reset by peer");
    assert_eq!(error, ClientError::Transport { detail: "connection reset by peer".to_string() });
    assert!(error.is_transport());
    assert_eq!(error.message(), "connection reset by peer");
    assert!(stream.is_ended());
    assert!(stream.next_frame().is_none());
}
