use openai_api_rs::realtime::sip::{
    RealTimeCallIncomingData, RealtimeCallIncoming, SipHeader,
};

fn header(name: &str, value: &str) -> SipHeader {
    SipHeader { name: name.to_string(), value: value.to_string() }
}

#[test]
fn test_parse_twilio_event() {
    let event = RealtimeCallIncoming {
        id: "evt_68bc6828707881908be189456b84cc07".to_string(),
        object: "event".to_string(),
        created_at: 1757177896,
        event_type: "realtime.call.incoming".to_string(),
        data: RealTimeCallIncomingData {
            call_id: "rtc_c5b6f97fe96f4c809b78916a9ac15748".to_string(),
            sip_headers: vec![
                header(
                    "From",
                    "\"+48123123123\" <sip:+48123123123@pstn.twilio.com:5060>;tag=82568196_c3356d0b_03f1232a-01cf-4a4a-af25-bac077219d08",
                ),
                header("X-Twilio-CallSid", "CA080dd4bebc0320639d7ae33b82e80481"),
                header("X-Twilio-AccountSid", "fake_data"),
            ],
        },
    };

    assert_eq!(
        event.openai_call_id(),
        "rtc_c5b6f97fe96f4c809b78916a9ac15748"
    );
    assert_eq!(event.caller_number(), Some("+48123123123".to_string()));
    assert_eq!(
        event.twilio_call_sid(),
        Some("CA080dd4bebc0320639d7ae33b82e80481")
    );
    assert_eq!(event.twilio_account_sid(), Some("fake_data"));
}

#[test]
fn missing_headers_give_nothing() {
    let event = RealtimeCallIncoming {
        id: "evt".to_string(),
        object: "event".to_string(),
        created_at: 0,
        event_type: "realtime.call.incoming".to_string(),
        data: RealTimeCallIncomingData {
            call_id: "rtc".to_string(),
            sip_headers: vec![header("To", "someone")],
        },
    };
    assert_eq!(event.caller_number(), None);
    assert_eq!(event.twilio_call_sid(), None);
    assert_eq!(event.twilio_account_sid(), None);
    assert_eq!(event.get_sip_header("To"), Some("someone"));
    assert_eq!(event.get_sip_header("Via"), None);
}

#[test]
fn first_matching_header_wins() {
    let event = RealtimeCallIncoming {
        id: "evt".to_string(),
        object: "event".to_string(),
        created_at: 0,
        event_type: "realtime.call.incoming".to_string(),
        data: RealTimeCallIncomingData {
            call_id: "rtc".to_string(),
            sip_headers: vec![header("X", "first"), header("X", "second")],
        },
    };
    assert_eq!(event.get_sip_header("X"), Some("first"));
}

#[test]
fn caller_number_needs_both_quotes() {
    let event = RealtimeCallIncoming {
        id: "evt".to_string(),
        object: "event".to_string(),
        created_at: 0,
        event_type: "realtime.call.incoming".to_string(),
        data: RealTimeCallIncomingData {
            call_id: "rtc".to_string(),
            sip_headers: vec![header("From", "\"unterminated")],
        },
    };
    assert_eq!(event.caller_number(), None);
}
