use openai_api_rs::sse::{find_event_delimiter, next_frame, parse_frame};

#[test]
fn delimiter_prefers_the_earlier_occurrence() {
    assert_eq!(find_event_delimiter("abc"), None);
    assert_eq!(find_event_delimiter("ab\n\ncd"), Some((2, 2)));
    assert_eq!(find_event_delimiter("ab\r\n\r\ncd"), Some((2, 4)));
    assert_eq!(find_event_delimiter("a\n\nb\r\n\r\nc"), Some((1, 2)));
    assert_eq!(find_event_delimiter("a\r\n\r\nb\n\nc"), Some((1, 4)));
}

#[test]
fn next_frame_consumes_frame_and_delimiter() {
    let mut buffer = "one\n\ntwo\r\n\r\nrest".to_string();
    assert_eq!(next_frame(&mut buffer).as_deref(), Some("one"));
    assert_eq!(buffer, "two\r\n\r\nrest");
    assert_eq!(next_frame(&mut buffer).as_deref(), Some("two"));
    assert_eq!(buffer, "rest");
    assert_eq!(next_frame(&mut buffer), None);
    assert_eq!(buffer, "rest");
}

#[test]
fn frames_without_data_yield_no_event() {
    assert!(parse_frame("").is_none());
    assert!(parse_frame(": comment").is_none());
    assert!(parse_frame("id: 3\nretry: 100").is_none());
    assert!(parse_frame("event: named").is_none());
    assert!(parse_frame("data:").is_none());
    assert!(parse_frame("data: ").is_none());
}

#[test]
fn data_lines_accumulate_and_empty_ones_drop() {
    let ev = parse_frame("data:\ndata: a\ndata:b\ndata:").unwrap();
    assert_eq!(ev.data, "a\nb");
    assert_eq!(ev.name, None);
}

#[test]
fn event_name_is_trimmed_and_last_wins() {
    let ev = parse_frame("event:  spaced  \ndata: x").unwrap();
    assert_eq!(ev.name.as_deref(), Some("spaced"));
    let ev = parse_frame("event: a\nevent: b\ndata: x").unwrap();
    assert_eq!(ev.name.as_deref(), Some("b"));
}

#[test]
fn one_trailing_carriage_return_is_stripped_per_line() {
    let ev = parse_frame("event: tick\r\ndata: pay\r").unwrap();
    assert_eq!(ev.name.as_deref(), Some("tick"));
    assert_eq!(ev.data, "pay");
}
