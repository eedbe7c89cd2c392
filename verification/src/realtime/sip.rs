//! Incoming-call events of the SIP realtime endpoint, and what the library
//! reads out of their headers.

use crate::realtime::types::RealtimeModel;
use crate::sse::{find_char_from, spec_find_from, str_eq};
use vstd::prelude::*;

verus! {

/// What a connection to an already-running call session is made from.
pub struct RealtimeSipClient {
    pub wss_url: String,
    pub api_key: String,
    pub call_id: String,
    pub model: RealtimeModel,
}

impl RealtimeSipClient {
    /// A client against the given endpoint.
    pub fn new_with_endpoint(
        wss_url: String,
        api_key: String,
        call_id: String,
        model: RealtimeModel,
    ) -> (r: Self)
        ensures
            r.wss_url == wss_url,
            r.api_key == api_key,
            r.call_id == call_id,
            r.model == model,
    {
        Self { wss_url, api_key, call_id, model }
    }
}

/// One SIP header of an incoming call.
#[derive(Debug, Clone)]
pub struct SipHeader {
    pub name: String,
    pub value: String,
}

/// The call-specific payload of an incoming-call event.
#[derive(Debug, Clone)]
pub struct RealTimeCallIncomingData {
    pub call_id: String,
    pub sip_headers: Vec<SipHeader>,
}

/// The webhook event sent when a call reaches the SIP endpoint. The
/// `event_type` field is the wire field `type`.
#[derive(Debug, Clone)]
pub struct RealtimeCallIncoming {
    pub id: String,
    pub object: String,
    pub created_at: i64,
    pub event_type: String,
    pub data: RealTimeCallIncomingData,
}

/// The value of the first header with the given name, if any.
pub open spec fn spec_header_value(headers: Seq<SipHeader>, name: Seq<char>) -> Option<Seq<char>>
    decreases headers.len(),
{
    if headers.len() == 0 {
        None
    } else if headers[0].name@ == name {
        Some(headers[0].value@)
    } else {
        spec_header_value(headers.drop_first(), name)
    }
}

/// The text between the first quote character and the next one, if both
/// exist.
pub open spec fn spec_quoted(v: Seq<char>) -> Option<Seq<char>> {
    match spec_find_from(v, seq!['"'], 0) {
        Some(start) => match spec_find_from(v, seq!['"'], start + 1) {
            Some(end) => Some(v.subrange(start + 1, end)),
            None => None,
        },
        None => None,
    }
}

/// The caller's number as carried by a `From` header: its first quoted part.
pub open spec fn spec_caller_number(headers: Seq<SipHeader>) -> Option<Seq<char>> {
    match spec_header_value(headers, "From"@) {
        Some(v) => spec_quoted(v),
        None => None,
    }
}

impl RealtimeCallIncoming {
    /// The call id to hand to the call-control endpoints.
    pub fn openai_call_id(&self) -> (r: &str)
        ensures
            r@ == self.data.call_id@,
    {
        self.data.call_id.as_str()
    }

    /// The value of the first header with the given name, if any.
    pub fn get_sip_header(&self, name: &str) -> (r: Option<&str>)
        ensures
            match r {
                Some(v) => spec_header_value(self.data.sip_headers@, name@) == Some(v@),
                None => spec_header_value(self.data.sip_headers@, name@) is None,
            },
    {
        let headers = &self.data.sip_headers;
        let n = headers.len();
        let mut i: usize = 0;
        proof {
            assert(headers@.subrange(0, n as int) =~= headers@);
        }
        while i < n
            invariant
                0 <= i <= n,
                headers@ == self.data.sip_headers@,
                n == headers@.len(),
                spec_header_value(headers@, name@) == spec_header_value(
                    headers@.subrange(i as int, n as int),
                    name@,
                ),
            decreases n - i,
        {
            proof {
                assert(headers@.subrange(i as int, n as int)[0] == headers@[i as int]);
                assert(headers@.subrange(i as int, n as int).drop_first() =~= headers@.subrange(
                    i + 1,
                    n as int,
                ));
            }
            let header = &headers[i];
            if str_eq(header.name.as_str(), name) {
                assert(spec_header_value(headers@.subrange(i as int, n as int), name@) == Some(
                    headers@[i as int].value@,
                ));
                return Some(header.value.as_str());
            }
            i = i + 1;
        }
        proof {
            assert(headers@.subrange(n as int, n as int).len() == 0);
        }
        None
    }

    /// The caller's number: the first quoted part of the `From` header.
    pub fn caller_number(&self) -> (r: Option<String>)
        ensures
            r.deep_view() == spec_caller_number(self.data.sip_headers@),
    {
        let value = match self.get_sip_header("From") {
            Some(v) => v,
            None => {
                return None;
            },
        };
        let value_len = value.unicode_len();
        let start = match find_char_from(value, '"', 0) {
            Some(i) => i,
            None => {
                return None;
            },
        };
        assert(start < value_len);
        let end = match find_char_from(value, '"', start + 1) {
            Some(i) => i,
            None => {
                return None;
            },
        };
        Some(String::from_str(value.substring_char(start + 1, end)))
    }

    /// The call identifier assigned by the telephony provider, from the
    /// `X-Twilio-CallSid` header.
    pub fn twilio_call_sid(&self) -> (r: Option<&str>)
        ensures
            match r {
                Some(v) => spec_header_value(self.data.sip_headers@, "X-Twilio-CallSid"@) == Some(
                    v@,
                ),
                None => spec_header_value(self.data.sip_headers@, "X-Twilio-CallSid"@) is None,
            },
    {
        self.get_sip_header("X-Twilio-CallSid")
    }

    /// The account identifier assigned by the telephony provider, from the
    /// `X-Twilio-AccountSid` header.
    pub fn twilio_account_sid(&self) -> (r: Option<&str>)
        ensures
            match r {
                Some(v) => spec_header_value(self.data.sip_headers@, "X-Twilio-AccountSid"@)
                    == Some(v@),
                None => spec_header_value(self.data.sip_headers@, "X-Twilio-AccountSid"@) is None,
            },
    {
        self.get_sip_header("X-Twilio-AccountSid")
    }
}

} // verus!
