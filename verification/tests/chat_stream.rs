use openai_api_rs::v1::chat_completion_stream::{
    ChatCompletionStreamDecoder, ChatCompletionStreamResponse,
};

fn drain(decoder: &mut ChatCompletionStreamDecoder) -> Vec<ChatCompletionStreamResponse> {
    let mut out = Vec::new();
    while let Some(ev) = decoder.next_response_from_buffer() {
        out.push(ev);
    }
    out
}

#[test]
fn done_terminates() {
    let mut decoder = ChatCompletionStreamDecoder::new();
    decoder.feed(b"data: [DONE]\n\n");
    match decoder.next_response_from_buffer() {
        Some(ChatCompletionStreamResponse::Done) => {}
        other => panic!("expected Done, got {:?}", other),
    }
    assert!(decoder.next_response_from_buffer().is_none());
    assert!(decoder.next_response_from_buffer().is_none());
}

#[test]
fn chat_surfaces_nothing_after_done() {
    let mut decoder = ChatCompletionStreamDecoder::new();
    decoder.feed(
        b"data: [DONE]\n\ndata: {\"choices\":[{\"delta\":{\"content\":\"late\"}}]}\n\ndata: [DONE]\n\n",
    );
    assert!(matches!(
        decoder.next_response_from_buffer(),
        Some(ChatCompletionStreamResponse::Done)
    ));
    assert!(decoder.next_response_from_buffer().is_none());
    decoder.feed(b"data: {\"choices\":[{\"delta\":{\"content\":\"later\"}}]}\n\n");
    assert!(decoder.next_response_from_buffer().is_none());
    assert!(decoder.next_response_from_buffer().is_none());
}

#[test]
fn done_with_surrounding_whitespace() {
    let mut decoder = ChatCompletionStreamDecoder::new();
    decoder.feed(b"data:   [DONE]  \n\n");
    assert!(matches!(
        decoder.next_response_from_buffer(),
        Some(ChatCompletionStreamResponse::Done)
    ));
}

#[test]
fn content_delta() {
    let mut decoder = ChatCompletionStreamDecoder::new();
    decoder.feed(b"data: {\"choices\":[{\"delta\":{\"content\":\"Hi\"}}]}\n\n");
    match decoder.next_response_from_buffer() {
        Some(ChatCompletionStreamResponse::Content(text)) => assert_eq!(text, "Hi"),
        other => panic!("expected Content, got {:?}", other),
    }
    assert!(decoder.next_response_from_buffer().is_none());
}

#[test]
fn tool_call_delta() {
    let mut decoder = ChatCompletionStreamDecoder::new();
    decoder.feed(
        b"data: {\"choices\":[{\"delta\":{\"tool_calls\":[{\"id\":\"1\",\"type\":\"function\",\"function\":{\"name\":\"f\",\"arguments\":\"{}\"}}]}}]}\n\n",
    );
    match decoder.next_response_from_buffer() {
        Some(ChatCompletionStreamResponse::ToolCall(calls)) => {
            assert_eq!(calls.len(), 1);
            assert_eq!(calls[0].id, "1");
            assert_eq!(calls[0].kind, "function");
            assert_eq!(calls[0].function.name.as_deref(), Some("f"));
            assert_eq!(calls[0].function.arguments.as_deref(), Some("{}"));
        }
        other => panic!("expected ToolCall, got {:?}", other),
    }
}

#[test]
fn tool_calls_win_over_content() {
    let mut decoder = ChatCompletionStreamDecoder::new();
    decoder.feed(
        b"data: {\"choices\":[{\"delta\":{\"content\":\"x\",\"tool_calls\":[{\"id\":\"a\",\"type\":\"function\",\"function\":{}}]}}]}\n\n",
    );
    assert!(matches!(
        decoder.next_response_from_buffer(),
        Some(ChatCompletionStreamResponse::ToolCall(_))
    ));
}

#[test]
fn failing_tool_call_elements_are_dropped() {
    let mut decoder = ChatCompletionStreamDecoder::new();
    decoder.feed(
        b"data: {\"choices\":[{\"delta\":{\"tool_calls\":[{\"type\":\"function\"},{\"id\":\"keep\",\"type\":\"function\",\"function\":{}}]}}]}\n\n",
    );
    match decoder.next_response_from_buffer() {
        Some(ChatCompletionStreamResponse::ToolCall(calls)) => {
            assert_eq!(calls.len(), 1);
            assert_eq!(calls[0].id, "keep");
            assert_eq!(calls[0].function.name, None);
            assert_eq!(calls[0].function.arguments, None);
        }
        other => panic!("expected ToolCall, got {:?}", other),
    }
}

#[test]
fn all_tool_calls_failing_falls_back_to_content() {
    let mut decoder = ChatCompletionStreamDecoder::new();
    decoder.feed(
        b"data: {\"choices\":[{\"delta\":{\"content\":\"kept\",\"tool_calls\":[{\"id\":7}]}}]}\n\n",
    );
    match decoder.next_response_from_buffer() {
        Some(ChatCompletionStreamResponse::Content(text)) => assert_eq!(text, "kept"),
        other => panic!("expected Content, got {:?}", other),
    }
}

#[test]
fn malformed_json_skip() {
    let mut decoder = ChatCompletionStreamDecoder::new();
    decoder.feed(b"data: {not json\n\n");
    assert!(decoder.next_response_from_buffer().is_none());
    decoder.feed(b"data: {\"choices\":[{\"delta\":{\"content\":\"ok\"}}]}\n\n");
    match decoder.next_response_from_buffer() {
        Some(ChatCompletionStreamResponse::Content(text)) => assert_eq!(text, "ok"),
        other => panic!("expected Content, got {:?}", other),
    }
}

#[test]
fn multi_line_data_join_fails_json_and_is_skipped() {
    let mut decoder = ChatCompletionStreamDecoder::new();
    decoder.feed(b"data: {\"a\":1}\ndata: more\n\n");
    assert!(decoder.next_response_from_buffer().is_none());
}

#[test]
fn split_delimiter_across_chunks() {
    let mut decoder = ChatCompletionStreamDecoder::new();
    decoder.feed(b"data: {\"choices\":[{\"delta\":{\"content\":\"x\"}}]}\n");
    assert!(decoder.next_response_from_buffer().is_none());
    decoder.feed(b"\n");
    match decoder.next_response_from_buffer() {
        Some(ChatCompletionStreamResponse::Content(text)) => assert_eq!(text, "x"),
        other => panic!("expected Content, got {:?}", other),
    }
}

#[test]
fn content_split_across_chunks() {
    let mut decoder = ChatCompletionStreamDecoder::new();
    decoder.feed(b"data: {\"choices\":[{\"delta\":{\"content\":\"He");
    assert!(decoder.next_response_from_buffer().is_none());
    decoder.feed(b"llo\"}}]}\n\n");
    match decoder.next_response_from_buffer() {
        Some(ChatCompletionStreamResponse::Content(text)) => assert_eq!(text, "Hello"),
        other => panic!("expected Content, got {:?}", other),
    }
    assert!(decoder.next_response_from_buffer().is_none());
}

#[test]
fn chunk_boundaries_do_not_matter() {
    let stream = b"data: {\"choices\":[{\"delta\":{\"content\":\"one\"}}]}\n\n\
: keep-alive comment\n\n\
data: {not json\n\n\
data: {\"choices\":[{\"delta\":{\"content\":\"two\"}}]}\r\n\r\n\
data: [DONE]\n\n";

    let mut whole = ChatCompletionStreamDecoder::new();
    whole.feed(stream);
    let expected = drain(&mut whole);

    let mut bytewise = ChatCompletionStreamDecoder::new();
    let mut got = Vec::new();
    for b in stream.iter() {
        bytewise.feed(&[*b]);
        got.extend(drain(&mut bytewise));
    }
    assert_eq!(format!("{:?}", got), format!("{:?}", expected));
    assert_eq!(got.len(), 3);

    let mut three = ChatCompletionStreamDecoder::new();
    let mut got3 = Vec::new();
    for chunk in stream.chunks(7) {
        three.feed(chunk);
        got3.extend(drain(&mut three));
    }
    assert_eq!(format!("{:?}", got3), format!("{:?}", expected));
}

#[test]
fn literal_newline_escapes_are_unescaped() {
    let mut decoder = ChatCompletionStreamDecoder::new();
    decoder.feed(b"data: {\"choices\":[{\"delta\":{\"content\":\"a\\\\nb\"}}]}\n\n");
    match decoder.next_response_from_buffer() {
        Some(ChatCompletionStreamResponse::Content(text)) => assert_eq!(text, "a\nb"),
        other => panic!("expected Content, got {:?}", other),
    }
}

#[test]
fn keep_alive_frames_produce_nothing() {
    let mut decoder = ChatCompletionStreamDecoder::new();
    decoder.feed(b": comment\nid: 7\nretry: 100\n\nevent: tick\n\ndata: [DONE]\n\n");
    assert!(matches!(
        decoder.next_response_from_buffer(),
        Some(ChatCompletionStreamResponse::Done)
    ));
    assert!(decoder.next_response_from_buffer().is_none());
}

#[test]
fn crlf_frames_decode_like_lf_frames() {
    let mut decoder = ChatCompletionStreamDecoder::new();
    decoder.feed(b"data: {\"choices\":[{\"delta\":{\"content\":\"crlf\"}}]}\r\n\r\n");
    match decoder.next_response_from_buffer() {
        Some(ChatCompletionStreamResponse::Content(text)) => assert_eq!(text, "crlf"),
        other => panic!("expected Content, got {:?}", other),
    }
}

#[test]
fn delta_without_known_fields_is_skipped() {
    let mut decoder = ChatCompletionStreamDecoder::new();
    decoder.feed(b"data: {\"choices\":[{\"delta\":{\"role\":\"assistant\"}}]}\n\n");
    assert!(decoder.next_response_from_buffer().is_none());
}
