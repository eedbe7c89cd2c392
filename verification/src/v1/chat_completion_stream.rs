//! Incremental decoder for the chat-completion streaming endpoint.
//!
//! Raw transport chunks are buffered as text; complete frames are split off,
//! parsed, and classified into text deltas, tool-call deltas, or the terminal
//! sentinel. Frames that carry no data, or whose payload neither is the
//! sentinel nor holds a recognized delta, are skipped without ending the
//! stream.

use crate::sse::{
    done_sentinel, is_done_payload, lemma_chunk_boundary_independence, lossy_decode, lossy_of,
    next_frame, parse_frame, spec_drain_events, spec_next_event, spec_trim,
    spec_unescape_newlines, unescape_newlines,
};
use crate::v1::chat_completion::{
    ToolCall, ToolCallFunction, ToolCallFunctionView, ToolCallView,
};
use vstd::prelude::*;

verus! {

/// One classified streaming event handed to the consumer.
#[derive(Debug, Clone)]
pub enum ChatCompletionStreamResponse {
    /// A plain text fragment to append to the growing answer.
    Content(String),
    /// One or more structured tool-call fragments.
    ToolCall(Vec<ToolCall>),
    /// The terminal sentinel: the provider has finished the answer.
    Done,
}

/// Mathematical model of a classified streaming event.
pub enum SpecChatEvent {
    Content(Seq<char>),
    ToolCalls(Seq<ToolCallView>),
    Done,
}

impl View for ChatCompletionStreamResponse {
    type V = SpecChatEvent;

    open spec fn view(&self) -> SpecChatEvent {
        match self {
            ChatCompletionStreamResponse::Content(s) => SpecChatEvent::Content(s@),
            ChatCompletionStreamResponse::ToolCall(ts) => SpecChatEvent::ToolCalls(
                ts@.map_values(|t: ToolCall| t@),
            ),
            ChatCompletionStreamResponse::Done => SpecChatEvent::Done,
        }
    }
}

/// The `content` string under `choices[0].delta` of a payload parsed as
/// JSON; `None` when the payload is not JSON or holds no such string. A
/// function of the payload text alone.
pub uninterp spec fn delta_content_of(payload: Seq<char>) -> Option<Seq<char>>;

/// The length of the array under `choices[0].delta.tool_calls` of a payload
/// parsed as JSON; zero when the payload is not JSON or holds no such array.
pub uninterp spec fn tool_calls_count_of(payload: Seq<char>) -> nat;

/// The `id` string of element `i` of that array; `None` when the element or
/// the field is missing or the field is not a string.
pub uninterp spec fn tool_call_id_of(payload: Seq<char>, i: int) -> Option<Seq<char>>;

/// The `type` string of element `i` of that array, under the same terms.
pub uninterp spec fn tool_call_kind_of(payload: Seq<char>, i: int) -> Option<Seq<char>>;

/// The `function` object of element `i` of that array, as its optional
/// `name` and `arguments` strings; `None` when the element or the object is
/// missing, or a present field is neither a string nor null.
pub uninterp spec fn tool_call_function_of(payload: Seq<char>, i: int) -> Option<
    (Option<Seq<char>>, Option<Seq<char>>),
>;

/// Relies on serde_json::from_str and serde_json::Value::get/as_str: reads
/// the string under `choices[0].delta.content`, a function of the payload
/// text alone.
#[verifier::external_body]
fn delta_content(payload: &str) -> (r: Option<String>)
    ensures
        r.deep_view() == delta_content_of(payload@),
{
    let json: serde_json::Value = serde_json::from_str(payload).ok()?;
    let content = json.get("choices")?.get(0)?.get("delta")?.get("content")?.as_str()?;
    Some(content.to_string())
}

/// Relies on serde_json::from_str and serde_json::Value::get/as_array: reads
/// the length of the array under `choices[0].delta.tool_calls`, a function of
/// the payload text alone.
#[verifier::external_body]
fn tool_calls_count(payload: &str) -> (r: usize)
    ensures
        r as nat == tool_calls_count_of(payload@),
{
    let count = serde_json::from_str::<serde_json::Value>(payload).ok().and_then(|json| {
        Some(json.get("choices")?.get(0)?.get("delta")?.get("tool_calls")?.as_array()?.len())
    });
    count.unwrap_or(0)
}

/// Relies on serde_json::from_str and serde_json::Value::get/as_str: reads
/// the `id` string of one element of `choices[0].delta.tool_calls`, a
/// function of the payload text alone.
#[verifier::external_body]
fn tool_call_id(payload: &str, i: usize) -> (r: Option<String>)
    ensures
        r.deep_view() == tool_call_id_of(payload@, i as int),
{
    let json: serde_json::Value = serde_json::from_str(payload).ok()?;
    let calls = json.get("choices")?.get(0)?.get("delta")?.get("tool_calls")?;
    Some(calls.get(i)?.get("id")?.as_str()?.to_string())
}

/// Relies on serde_json::from_str and serde_json::Value::get/as_str: reads
/// the `type` string of one element of `choices[0].delta.tool_calls`, a
/// function of the payload text alone.
#[verifier::external_body]
fn tool_call_kind(payload: &str, i: usize) -> (r: Option<String>)
    ensures
        r.deep_view() == tool_call_kind_of(payload@, i as int),
{
    let json: serde_json::Value = serde_json::from_str(payload).ok()?;
    let calls = json.get("choices")?.get(0)?.get("delta")?.get("tool_calls")?;
    Some(calls.get(i)?.get("type")?.as_str()?.to_string())
}

/// Relies on serde_json::from_str and serde_json::Value::get/as_object: reads
/// the `function` object of one element of `choices[0].delta.tool_calls` as
/// its optional `name` and `arguments` strings (absent and null both count as
/// absent; any other non-string value fails the element), a function of the
/// payload text alone.
#[verifier::external_body]
fn tool_call_function(payload: &str, i: usize) -> (r: Option<ToolCallFunction>)
    ensures
        r matches Some(f) ==> tool_call_function_of(payload@, i as int) == Some(
            (f.name.deep_view(), f.arguments.deep_view()),
        ),
        r is None ==> tool_call_function_of(payload@, i as int) is None,
{
    let json: serde_json::Value = serde_json::from_str(payload).ok()?;
    let calls = json.get("choices")?.get(0)?.get("delta")?.get("tool_calls")?;
    let obj = calls.get(i)?.get("function")?.as_object()?;
    let name = match obj.get("name") { None | Some(serde_json::Value::Null) => None, Some(serde_json::Value::String(s)) => Some(s.clone()), _ => return None };
    let arguments = match obj.get("arguments") { None | Some(serde_json::Value::Null) => None, Some(serde_json::Value::String(s)) => Some(s.clone()), _ => return None };
    Some(ToolCallFunction { name, arguments })
}

/// What element `i` of the payload's tool-call array converts to: all three
/// parts must be present, or the element is dropped.
pub open spec fn spec_tool_call_at(payload: Seq<char>, i: int) -> Option<ToolCallView> {
    match (tool_call_id_of(payload, i), tool_call_kind_of(payload, i), tool_call_function_of(
        payload,
        i,
    )) {
        (Some(id), Some(kind), Some(f)) => Some(
            ToolCallView {
                id,
                kind,
                function: ToolCallFunctionView { name: f.0, arguments: f.1 },
            },
        ),
        _ => None,
    }
}

/// The converted tool calls among the first `n` elements of the payload's
/// tool-call array, in order, elements that fail to convert dropped.
pub open spec fn spec_tool_calls_upto(payload: Seq<char>, n: int) -> Seq<ToolCallView>
    decreases n,
{
    if n <= 0 {
        Seq::empty()
    } else {
        match spec_tool_call_at(payload, n - 1) {
            Some(t) => spec_tool_calls_upto(payload, n - 1).push(t),
            None => spec_tool_calls_upto(payload, n - 1),
        }
    }
}

/// Every tool call the payload carries, converted, in order.
pub open spec fn spec_tool_calls(payload: Seq<char>) -> Seq<ToolCallView> {
    spec_tool_calls_upto(payload, tool_calls_count_of(payload) as int)
}

/// How the chat path classifies one data payload: the trimmed sentinel wins
/// over everything; then a non-empty converted tool-call list; then a content
/// string, with its literal newline escapes replaced; anything else is
/// skipped.
pub open spec fn spec_classify_chat(payload: Seq<char>) -> Option<SpecChatEvent> {
    if spec_trim(payload) == done_sentinel() {
        Some(SpecChatEvent::Done)
    } else if spec_tool_calls(payload).len() > 0 {
        Some(SpecChatEvent::ToolCalls(spec_tool_calls(payload)))
    } else {
        match delta_content_of(payload) {
            Some(c) => Some(SpecChatEvent::Content(spec_unescape_newlines(c))),
            None => None,
        }
    }
}

/// Convert the payload's tool-call array, dropping elements that fail.
fn collect_tool_calls(payload: &str) -> (r: Vec<ToolCall>)
    ensures
        r@.map_values(|t: ToolCall| t@) == spec_tool_calls(payload@),
{
    let count = tool_calls_count(payload);
    let mut calls: Vec<ToolCall> = Vec::new();
    let mut i: usize = 0;
    proof {
        assert(calls@.map_values(|t: ToolCall| t@) =~= spec_tool_calls_upto(payload@, 0));
    }
    while i < count
        invariant
            0 <= i <= count,
            count as nat == tool_calls_count_of(payload@),
            calls@.map_values(|t: ToolCall| t@) == spec_tool_calls_upto(payload@, i as int),
        decreases count - i,
    {
        let id_opt = tool_call_id(payload, i);
        let kind_opt = tool_call_kind(payload, i);
        let function_opt = tool_call_function(payload, i);
        match (id_opt, kind_opt, function_opt) {
            (Some(id), Some(kind), Some(function)) => {
                let call = ToolCall { id, kind, function };
                proof {
                    assert(calls@.map_values(|t: ToolCall| t@).push(call@) =~= calls@.push(
                        call,
                    ).map_values(|t: ToolCall| t@));
                }
                calls.push(call);
            },
            _ => {
                proof {
                    assert(spec_tool_call_at(payload@, i as int) is None);
                }
            },
        }
        i = i + 1;
    }
    calls
}

/// Classify one data payload on the chat path. The sentinel check comes
/// first; a payload that is not JSON, or whose JSON holds neither tool calls
/// nor content, yields nothing and the stream goes on.
pub fn classify_chat_payload(payload: &str) -> (r: Option<ChatCompletionStreamResponse>)
    ensures
        r matches Some(ev) ==> spec_classify_chat(payload@) == Some(ev@),
        r is None ==> spec_classify_chat(payload@) is None,
{
    if is_done_payload(payload) {
        return Some(ChatCompletionStreamResponse::Done);
    }
    let calls = collect_tool_calls(payload);
    if calls.len() > 0 {
        return Some(ChatCompletionStreamResponse::ToolCall(calls));
    }
    match delta_content(payload) {
        Some(content) => {
            let output = unescape_newlines(content.as_str());
            Some(ChatCompletionStreamResponse::Content(output))
        },
        None => None,
    }
}

/// The classifier of the chat path, as a function of a frame's parsed event:
/// the event name plays no part there.
pub open spec fn chat_classifier() -> spec_fn(Option<Seq<char>>, Seq<char>) -> Option<
    SpecChatEvent,
> {
    |name: Option<Seq<char>>, data: Seq<char>| spec_classify_chat(data)
}

/// Chunk-boundary independence of the chat stream: however the incoming text
/// is cut, the classified events come out the same. Draining a buffer,
/// appending the next piece of text to its residue and draining again yields
/// exactly the events — in order — of draining the concatenation in one
/// pass, with the same final residue.
pub proof fn lemma_chat_stream_chunk_independence(s: Seq<char>, t: Seq<char>)
    ensures
        spec_drain_events(s + t, chat_classifier()) == (
            spec_drain_events(s, chat_classifier()).0 + spec_drain_events(
                spec_drain_events(s, chat_classifier()).1 + t,
                chat_classifier(),
            ).0,
            spec_drain_events(spec_drain_events(s, chat_classifier()).1 + t, chat_classifier()).1,
        ),
{
    lemma_chunk_boundary_independence(s, t, chat_classifier());
}

/// Decoder state for the chat-completion stream: the unconsumed tail of all
/// text received so far, and whether the terminal sentinel has been emitted.
/// The sentinel ends the stream for good: once `done` is set, no further
/// event is ever produced.
pub struct ChatCompletionStreamDecoder {
    pub buffer: String,
    pub done: bool,
}

impl ChatCompletionStreamDecoder {
    /// A decoder with an empty buffer, not yet terminated.
    pub fn new() -> (r: Self)
        ensures
            r.buffer@ == Seq::<char>::empty(),
            !r.done,
    {
        ChatCompletionStreamDecoder { buffer: String::new(), done: false }
    }

    /// Append one transport chunk, decoded as text with lossy substitution;
    /// a chunk of valid UTF-8 is decoded exactly.
    pub fn feed(&mut self, chunk: &[u8])
        ensures
            final (self).buffer@ == old(self).buffer@ + lossy_of(chunk@),
            final (self).done == old(self).done,
            vstd::utf8::valid_utf8(chunk@) ==> final (self).buffer@ == old(self).buffer@
                + vstd::utf8::decode_utf8(chunk@),
    {
        let text = lossy_decode(chunk);
        self.buffer.append(text.as_str());
    }

    /// Produce the next classified event from already-buffered text, if a
    /// complete frame yields one; frames that yield nothing are consumed and
    /// skipped. Returns `None`, leaving any incomplete frame buffered, when
    /// more input is needed. The terminal sentinel is final: after a call has
    /// returned `Done`, every later call returns `None` and changes nothing,
    /// whatever else arrives.
    pub fn next_response_from_buffer(&mut self) -> (r: Option<ChatCompletionStreamResponse>)
        ensures
            old(self).done ==> r is None && *final (self) == *old(self),
            !old(self).done ==> ({
                let step = spec_next_event(old(self).buffer@, chat_classifier());
                final (self).buffer@ == step.1 && (match r {
                    Some(ev) => step.0 == Some(ev@),
                    None => step.0 is None,
                }) && (final (self).done <==> step.0 == Some(SpecChatEvent::Done))
            }),
    {
        if self.done {
            return None;
        }
        loop
            invariant
                !old(self).done,
                !self.done,
                spec_next_event(old(self).buffer@, chat_classifier()) == spec_next_event(
                    self.buffer@,
                    chat_classifier(),
                ),
            decreases self.buffer@.len(),
        {
            let ghost before = self.buffer@;
            match next_frame(&mut self.buffer) {
                None => {
                    return None;
                },
                Some(frame) => {
                    proof {
                        crate::sse::lemma_frame_split_shrinks(before);
                    }
                    match parse_frame(frame.as_str()) {
                        None => {},
                        Some(ev) => {
                            proof {
                                assert(chat_classifier()(
                                    ev.name.deep_view(),
                                    ev.data@,
                                ) == spec_classify_chat(ev.data@));
                            }
                            match classify_chat_payload(ev.data.as_str()) {
                                Some(response) => {
                                    if matches!(response, ChatCompletionStreamResponse::Done) {
                                        self.done = true;
                                    }
                                    return Some(response);
                                },
                                None => {},
                            }
                        },
                    }
                },
            }
        }
    }
}

} // verus!
