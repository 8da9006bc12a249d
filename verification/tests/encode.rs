use yaml_codec::emitter::{
    Emitter, EmitterError, Event, EventRequest, Mapping, Scalar, ScalarStyle, Sequence,
};
use yaml_codec::engine::{RawEvent, RawEventKind, RawStyle};
use yaml_codec::error::{Error, ErrorKind, Mark};
use yaml_codec::parser;

fn prepare(event: Event<'_>) -> EventRequest {
    yaml_codec::emitter::prepare(event)
}

#[test]
fn implicit_flags_without_tag() {
    let request = prepare(Event::Scalar(Scalar {
        tag: None,
        value: "hello",
        style: ScalarStyle::Plain,
    }));
    match request {
        EventRequest::Scalar(q) => {
            assert!(q.tag.is_none());
            assert!(q.plain_implicit);
            assert!(q.quoted_implicit);
            assert_eq!(q.value, b"hello".to_vec());
            assert_eq!(q.style, RawStyle::Plain);
        }
        other => panic!("expected a scalar request, got {:?}", other),
    }
}

#[test]
fn explicit_tag_clears_implicit_flags() {
    let request = prepare(Event::Scalar(Scalar {
        tag: Some(String::from("tag:yaml.org,2002:str")),
        value: "hello",
        style: ScalarStyle::Plain,
    }));
    match request {
        EventRequest::Scalar(q) => {
            assert_eq!(q.tag.unwrap(), b"tag:yaml.org,2002:str\0".to_vec());
            assert!(!q.plain_implicit);
            assert!(!q.quoted_implicit);
        }
        other => panic!("expected a scalar request, got {:?}", other),
    }
}

#[test]
fn collection_implicit_flags_follow_the_tag() {
    let with_tag = prepare(Event::SequenceStart(Sequence {
        tag: Some(String::from("tag:yaml.org,2002:seq")),
    }));
    match with_tag {
        EventRequest::SequenceStart(q) => {
            assert!(!q.implicit);
            assert_eq!(q.tag.unwrap(), b"tag:yaml.org,2002:seq\0".to_vec());
        }
        other => panic!("expected a sequence request, got {:?}", other),
    }

    let without_tag = prepare(Event::MappingStart(Mapping { tag: None }));
    match without_tag {
        EventRequest::MappingStart(q) => {
            assert!(q.implicit);
            assert!(q.tag.is_none());
        }
        other => panic!("expected a mapping request, got {:?}", other),
    }
}

#[test]
fn styles_map_to_engine_styles() {
    let cases = [
        (ScalarStyle::Any, RawStyle::Any),
        (ScalarStyle::Plain, RawStyle::Plain),
        (ScalarStyle::SingleQuoted, RawStyle::SingleQuoted),
        (ScalarStyle::Literal, RawStyle::Literal),
    ];
    for (style, expected) in cases {
        let request = prepare(Event::Scalar(Scalar {
            tag: None,
            value: "v",
            style,
        }));
        match request {
            EventRequest::Scalar(q) => assert_eq!(q.style, expected),
            other => panic!("expected a scalar request, got {:?}", other),
        }
    }
}

/// Mirrors a prepared request back as the native record a faithful engine
/// would report after re-reading its own output.
fn reflect(request: &EventRequest) -> RawEvent {
    let zero = Mark {
        index: 0,
        line: 0,
        column: 0,
    };
    let (kind, tag, value, style) = match request {
        EventRequest::StreamStart => (RawEventKind::StreamStart, None, None, RawStyle::Any),
        EventRequest::StreamEnd => (RawEventKind::StreamEnd, None, None, RawStyle::Any),
        EventRequest::DocumentStart => (RawEventKind::DocumentStart, None, None, RawStyle::Any),
        EventRequest::DocumentEnd => (RawEventKind::DocumentEnd, None, None, RawStyle::Any),
        EventRequest::Scalar(q) => {
            let tag = q.tag.as_ref().map(|b| b[..b.len() - 1].to_vec());
            (RawEventKind::Scalar, tag, Some(q.value.clone()), q.style)
        }
        EventRequest::SequenceStart(q) => {
            let tag = q.tag.as_ref().map(|b| b[..b.len() - 1].to_vec());
            (RawEventKind::SequenceStart, tag, None, RawStyle::Any)
        }
        EventRequest::SequenceEnd => (RawEventKind::SequenceEnd, None, None, RawStyle::Any),
        EventRequest::MappingStart(q) => {
            let tag = q.tag.as_ref().map(|b| b[..b.len() - 1].to_vec());
            (RawEventKind::MappingStart, tag, None, RawStyle::Any)
        }
        EventRequest::MappingEnd => (RawEventKind::MappingEnd, None, None, RawStyle::Any),
    };
    RawEvent {
        kind,
        anchor: None,
        tag,
        value,
        style,
        start_mark: zero,
        end_mark: zero,
    }
}

#[test]
fn scenario_single_quoted_scalar_round_trip() {
    let events = vec![
        Event::StreamStart,
        Event::DocumentStart,
        Event::Scalar(Scalar {
            tag: None,
            value: "x",
            style: ScalarStyle::SingleQuoted,
        }),
        Event::DocumentEnd,
        Event::StreamEnd,
    ];
    let requests: Vec<EventRequest> = events.into_iter().map(prepare).collect();

    let mut decoder = parser::Parser::new(parser::Input::Owned(b"'x'\n".to_vec()));
    let mut decoded = Vec::new();
    for request in &requests {
        let (event, _mark) = decoder.next_event(Ok(reflect(request))).unwrap();
        decoded.push(event);
    }
    assert!(matches!(decoded[0], parser::Event::StreamStart));
    assert!(matches!(decoded[1], parser::Event::DocumentStart));
    match &decoded[2] {
        parser::Event::Scalar(scalar) => {
            assert_eq!(scalar.value.as_ref(), b"x");
            assert_eq!(scalar.style, parser::ScalarStyle::SingleQuoted);
            assert!(scalar.tag.is_none());
        }
        other => panic!("expected a scalar, got {:?}", other),
    }
    assert!(matches!(decoded[3], parser::Event::DocumentEnd));
    assert!(matches!(decoded[4], parser::Event::StreamEnd));
}

#[test]
fn sink_failure_outranks_the_engine_error() {
    let mut emitter = Emitter::new();
    // The engine's write callback saw the sink fail on its second write.
    emitter.record_io_failure(std::io::Error::new(
        std::io::ErrorKind::BrokenPipe,
        "sink closed",
    ));
    let engine_error = Error::get_emitter_error(
        ErrorKind::Emitter,
        Some(String::from("write error")),
    );
    match emitter.resolve_failure(engine_error) {
        EmitterError::Io(io) => {
            assert_eq!(io.kind(), std::io::ErrorKind::BrokenPipe);
        }
        EmitterError::Libyaml(other) => {
            panic!("expected the sink failure, got {:?}", other)
        }
    }
}

#[test]
fn engine_error_reported_when_no_sink_failure() {
    let mut emitter = Emitter::new();
    let engine_error = Error::get_emitter_error(
        ErrorKind::Emitter,
        Some(String::from("expected SCALAR")),
    );
    match emitter.resolve_failure(engine_error) {
        EmitterError::Libyaml(error) => {
            assert_eq!(error.kind, ErrorKind::Emitter);
            assert_eq!(error.message(), "expected SCALAR");
        }
        EmitterError::Io(io) => panic!("expected the engine error, got {:?}", io),
    }
}

#[test]
fn stashed_failure_is_drained_once() {
    let mut emitter = Emitter::new();
    emitter.record_io_failure(std::io::Error::new(
        std::io::ErrorKind::WriteZero,
        "short write",
    ));
    let first = emitter.resolve_failure(Error::get_emitter_error(ErrorKind::Writer, None));
    assert!(matches!(first, EmitterError::Io(_)));
    let second = emitter.resolve_failure(Error::get_emitter_error(ErrorKind::Writer, None));
    assert!(matches!(second, EmitterError::Libyaml(_)));
}
