use openai_api_rs::v1::responses_stream::{ResponseStreamDecoder, ResponseStreamResponse};

#[test]
fn named_event_with_json_payload() {
    let mut decoder = ResponseStreamDecoder::new();
    decoder.feed(b"event: response.created\ndata: {\"a\":1}\n\n");
    match decoder.next_response_from_buffer() {
        Some(ResponseStreamResponse::Event(ev)) => {
            assert_eq!(ev.event.as_deref(), Some("response.created"));
            assert_eq!(ev.data.get("a").and_then(|v| v.as_i64()), Some(1));
        }
        other => panic!("expected Event, got {:?}", other),
    }
}

#[test]
fn unparseable_payload_is_kept_as_raw_string() {
    let mut decoder = ResponseStreamDecoder::new();
    decoder.feed(b"data: {not json\n\n");
    match decoder.next_response_from_buffer() {
        Some(ResponseStreamResponse::Event(ev)) => {
            assert_eq!(ev.event, None);
            assert_eq!(ev.data.as_str(), Some("{not json"));
        }
        other => panic!("expected Event, got {:?}", other),
    }
}

#[test]
fn multi_line_data_joins_with_newline() {
    let mut decoder = ResponseStreamDecoder::new();
    decoder.feed(b"data: {\"a\":1}\ndata: more\n\n");
    match decoder.next_response_from_buffer() {
        Some(ResponseStreamResponse::Event(ev)) => {
            assert_eq!(ev.data.as_str(), Some("{\"a\":1}\nmore"));
        }
        other => panic!("expected Event, got {:?}", other),
    }
}

#[test]
fn last_named_event_line_wins() {
    let mut decoder = ResponseStreamDecoder::new();
    decoder.feed(b"event: first\nevent: second\ndata: {}\n\n");
    match decoder.next_response_from_buffer() {
        Some(ResponseStreamResponse::Event(ev)) => {
            assert_eq!(ev.event.as_deref(), Some("second"));
        }
        other => panic!("expected Event, got {:?}", other),
    }
}

#[test]
fn empty_event_name_does_not_overwrite() {
    let mut decoder = ResponseStreamDecoder::new();
    decoder.feed(b"event: kept\nevent:\ndata: {}\n\n");
    match decoder.next_response_from_buffer() {
        Some(ResponseStreamResponse::Event(ev)) => {
            assert_eq!(ev.event.as_deref(), Some("kept"));
        }
        other => panic!("expected Event, got {:?}", other),
    }
}

#[test]
fn done_sentinel_short_circuits_json() {
    let mut decoder = ResponseStreamDecoder::new();
    decoder.feed(b"event: anything\ndata: [DONE]\n\n");
    assert!(matches!(
        decoder.next_response_from_buffer(),
        Some(ResponseStreamResponse::Done)
    ));
    assert!(decoder.next_response_from_buffer().is_none());
}

#[test]
fn responses_surface_nothing_after_done() {
    let mut decoder = ResponseStreamDecoder::new();
    decoder.feed(b"data: [DONE]\n\ndata: {\"a\":1}\n\n");
    assert!(matches!(
        decoder.next_response_from_buffer(),
        Some(ResponseStreamResponse::Done)
    ));
    assert!(decoder.next_response_from_buffer().is_none());
    decoder.feed(b"data: {\"b\":2}\n\n");
    assert!(decoder.next_response_from_buffer().is_none());
}

#[test]
fn split_delimiter_across_chunks_yields_one_frame() {
    let mut decoder = ResponseStreamDecoder::new();
    decoder.feed(b"data: {}\n");
    assert!(decoder.next_response_from_buffer().is_none());
    decoder.feed(b"\n");
    match decoder.next_response_from_buffer() {
        Some(ResponseStreamResponse::Event(ev)) => {
            assert!(ev.data.is_object());
        }
        other => panic!("expected Event, got {:?}", other),
    }
    assert!(decoder.next_response_from_buffer().is_none());
}

#[test]
fn invalid_bytes_are_replaced_not_rejected() {
    let mut decoder = ResponseStreamDecoder::new();
    decoder.feed(b"data: a\xffb\n\n");
    match decoder.next_response_from_buffer() {
        Some(ResponseStreamResponse::Event(ev)) => {
            assert_eq!(ev.data.as_str(), Some("a\u{fffd}b"));
        }
        other => panic!("expected Event, got {:?}", other),
    }
}

#[test]
fn data_without_space_after_colon() {
    let mut decoder = ResponseStreamDecoder::new();
    decoder.feed(b"data:{\"a\":2}\n\n");
    match decoder.next_response_from_buffer() {
        Some(ResponseStreamResponse::Event(ev)) => {
            assert_eq!(ev.data.get("a").and_then(|v| v.as_i64()), Some(2));
        }
        other => panic!("expected Event, got {:?}", other),
    }
}

#[test]
fn earlier_delimiter_wins_between_forms() {
    let mut decoder = ResponseStreamDecoder::new();
    decoder.feed(b"data: one\n\ndata: two\r\n\r\ndata: [DONE]\n\n");
    match decoder.next_response_from_buffer() {
        Some(ResponseStreamResponse::Event(ev)) => assert_eq!(ev.data.as_str(), Some("one")),
        other => panic!("expected Event, got {:?}", other),
    }
    match decoder.next_response_from_buffer() {
        Some(ResponseStreamResponse::Event(ev)) => assert_eq!(ev.data.as_str(), Some("two")),
        other => panic!("expected Event, got {:?}", other),
    }
    assert!(matches!(
        decoder.next_response_from_buffer(),
        Some(ResponseStreamResponse::Done)
    ));
}

#[test]
fn intra_frame_crlf_lines_are_stripped() {
    let mut decoder = ResponseStreamDecoder::new();
    decoder.feed(b"event: tick\r\ndata: raw\n\n");
    match decoder.next_response_from_buffer() {
        Some(ResponseStreamResponse::Event(ev)) => {
            assert_eq!(ev.event.as_deref(), Some("tick"));
            assert_eq!(ev.data.as_str(), Some("raw"));
        }
        other => panic!("expected Event, got {:?}", other),
    }
}
