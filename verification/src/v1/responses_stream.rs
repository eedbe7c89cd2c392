//! Incremental decoder for the generic response-stream endpoint.
//!
//! Unlike the chat path, this path pre-classifies nothing: every frame that
//! carries data becomes an event holding the frame's name and its payload —
//! parsed as JSON when possible, kept as a raw string value otherwise — with
//! the one exception of the terminal sentinel.

use crate::sse::{
    done_sentinel, is_done_payload, lemma_chunk_boundary_independence, lossy_decode, lossy_of,
    next_frame, parse_frame, spec_drain_events, spec_next_event, spec_trim,
};
use vstd::prelude::*;

verus! {

#[verifier::external_type_specification]
#[verifier::external_body]
pub struct ExValue(serde_json::Value);

/// Relies on serde_json::from_str and serde_json::Value::String: the payload
/// parsed as a JSON value, or, when it does not parse, the payload itself as
/// a JSON string value.
#[verifier::external_body]
fn json_value_or_raw(payload: &str) -> serde_json::Value {
    serde_json::from_str(payload).unwrap_or_else(|_| serde_json::Value::String(payload.to_string()))
}

/// One event of the generic stream: the frame's optional event name and its
/// data payload as a JSON value.
#[derive(Debug)]
pub struct ResponseStreamEvent {
    pub event: Option<String>,
    pub data: serde_json::Value,
}

/// One classified item of the generic stream.
#[derive(Debug)]
pub enum ResponseStreamResponse {
    /// A named or unnamed event with its payload.
    Event(ResponseStreamEvent),
    /// The terminal sentinel: the provider has finished the stream.
    Done,
}

/// Mathematical model of a generic stream item: the payload value is carried
/// opaquely and does not take part in the decoder's contracts.
pub enum SpecResponseEvent {
    Event(Option<Seq<char>>),
    Done,
}

impl View for ResponseStreamResponse {
    type V = SpecResponseEvent;

    open spec fn view(&self) -> SpecResponseEvent {
        match self {
            ResponseStreamResponse::Event(ev) => SpecResponseEvent::Event(ev.event.deep_view()),
            ResponseStreamResponse::Done => SpecResponseEvent::Done,
        }
    }
}

/// How the generic path classifies one parsed event: the trimmed sentinel
/// ends the stream; every other data-carrying frame is handed on under its
/// name.
pub open spec fn spec_classify_response(name: Option<Seq<char>>, data: Seq<char>) -> Option<
    SpecResponseEvent,
> {
    if spec_trim(data) == done_sentinel() {
        Some(SpecResponseEvent::Done)
    } else {
        Some(SpecResponseEvent::Event(name))
    }
}

/// The classifier of the generic path, as a function of a frame's parsed
/// event.
pub open spec fn response_classifier() -> spec_fn(Option<Seq<char>>, Seq<char>) -> Option<
    SpecResponseEvent,
> {
    |name: Option<Seq<char>>, data: Seq<char>| spec_classify_response(name, data)
}

/// Chunk-boundary independence of the generic stream: however the incoming
/// text is cut, the events come out the same. Draining a buffer, appending
/// the next piece of text to its residue and draining again yields exactly
/// the events — in order — of draining the concatenation in one pass, with
/// the same final residue.
pub proof fn lemma_response_stream_chunk_independence(s: Seq<char>, t: Seq<char>)
    ensures
        spec_drain_events(s + t, response_classifier()) == (
            spec_drain_events(s, response_classifier()).0 + spec_drain_events(
                spec_drain_events(s, response_classifier()).1 + t,
                response_classifier(),
            ).0,
            spec_drain_events(
                spec_drain_events(s, response_classifier()).1 + t,
                response_classifier(),
            ).1,
        ),
{
    lemma_chunk_boundary_independence(s, t, response_classifier());
}

/// Decoder state for the generic response stream: the unconsumed tail of all
/// text received so far, and whether the terminal sentinel has been emitted.
/// The sentinel ends the stream for good: once `done` is set, no further
/// event is ever produced.
pub struct ResponseStreamDecoder {
    pub buffer: String,
    pub done: bool,
}

impl ResponseStreamDecoder {
    /// A decoder with an empty buffer, not yet terminated.
    pub fn new() -> (r: Self)
        ensures
            r.buffer@ == Seq::<char>::empty(),
            !r.done,
    {
        ResponseStreamDecoder { buffer: String::new(), done: false }
    }

    /// Append one transport chunk, decoded as text with lossy substitution;
    /// a chunk of valid UTF-8 is decoded exactly.
    pub fn feed(&mut self, chunk: &[u8])
        ensures
            final (self).buffer@ == old(self).buffer@ + lossy_of(chunk@),
            final (self).done == old(self).done,
            vstd::utf8::valid_utf8(chunk@) ==> final (self).buffer@ == old(self).buffer@
                + vstd::utf8::decode_utf8(chunk@),
    {
        let text = lossy_decode(chunk);
        self.buffer.append(text.as_str());
    }

    /// Produce the next event from already-buffered text, if a complete
    /// frame yields one; frames without data are consumed and skipped.
    /// Returns `None`, leaving any incomplete frame buffered, when more
    /// input is needed. The terminal sentinel is final: after a call has
    /// returned `Done`, every later call returns `None` and changes nothing,
    /// whatever else arrives.
    pub fn next_response_from_buffer(&mut self) -> (r: Option<ResponseStreamResponse>)
        ensures
            old(self).done ==> r is None && *final (self) == *old(self),
            !old(self).done ==> ({
                let step = spec_next_event(old(self).buffer@, response_classifier());
                final (self).buffer@ == step.1 && (match r {
                    Some(ev) => step.0 == Some(ev@),
                    None => step.0 is None,
                }) && (final (self).done <==> step.0 == Some(SpecResponseEvent::Done))
            }),
    {
        if self.done {
            return None;
        }
        loop
            invariant
                !old(self).done,
                !self.done,
                spec_next_event(old(self).buffer@, response_classifier()) == spec_next_event(
                    self.buffer@,
                    response_classifier(),
                ),
            decreases self.buffer@.len(),
        {
            let ghost before = self.buffer@;
            match next_frame(&mut self.buffer) {
                None => {
                    return None;
                },
                Some(frame) => {
                    proof {
                        crate::sse::lemma_frame_split_shrinks(before);
                    }
                    match parse_frame(frame.as_str()) {
                        None => {},
                        Some(ev) => {
                            proof {
                                assert(response_classifier()(
                                    ev.name.deep_view(),
                                    ev.data@,
                                ) == spec_classify_response(ev.name.deep_view(), ev.data@));
                            }
                            if is_done_payload(ev.data.as_str()) {
                                self.done = true;
                                return Some(ResponseStreamResponse::Done);
                            }
                            let parsed = json_value_or_raw(ev.data.as_str());
                            return Some(
                                ResponseStreamResponse::Event(
                                    ResponseStreamEvent { event: ev.name, data: parsed },
                                ),
                            );
                        },
                    }
                },
            }
        }
    }
}

} // verus!
