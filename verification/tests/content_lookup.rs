use ethportal_api::types::enr::{generate_random_remote_enr, SszEnr};
use serde_json::Value;
use trin_beacon::dispatch::{complete_request, Event};
use trin_beacon::lookup::{
    after_probe, content_info, content_not_found, overlay_content, recursive_find_content,
    LookupOutcome, Step,
};
use trin_beacon::reply::Payload;
use trin_beacon::wire::marshal;

fn key_one() -> [u8; 32] {
    let mut id = [0u8; 32];
    id[31] = 1;
    id
}

fn local_node() -> SszEnr {
    let (_, enr) = generate_random_remote_enr();
    SszEnr::new(enr)
}

fn node_id_hex(enr: &SszEnr) -> String {
    let raw = enr.node_id().raw();
    let digits: Vec<String> = raw.iter().map(|b| format!("{:02x}", b)).collect();
    format!("0x{}", digits.concat())
}

#[test]
fn local_hit_untraced_returns_content_without_utp() {
    let step = complete_request(Event::RecursiveFindContent {
        probe: Ok(Some(vec![0xde, 0xad])),
        local_enr: local_node(),
        content_id: key_one(),
    });
    let reply = match step {
        Step::Reply(reply) => reply,
        other => panic!("unexpected step {:?}", other),
    };
    assert_eq!(
        reply,
        Ok(Payload::Content { content: "0xdead".to_string(), utp_transfer: false })
    );
    assert_eq!(marshal(reply), Ok("{\"content\":\"0xdead\",\"utpTransfer\":false}".to_string()));
}

#[test]
fn local_hit_traced_returns_content_with_a_trace_of_the_local_node() {
    let local = local_node();
    let step = complete_request(Event::TraceRecursiveFindContent {
        probe: Ok(Some(vec![0xde, 0xad])),
        local_enr: local.clone(),
        content_id: key_one(),
    });
    let (content, utp_transfer, trace) = match step {
        Step::Reply(Ok(Payload::TraceContent { content, utp_transfer, trace })) => {
            (content, utp_transfer, trace)
        }
        other => panic!("unexpected step {:?}", other),
    };
    assert_eq!(content, "0xdead");
    assert!(!utp_transfer);

    let trace: Value = serde_json::from_str(&trace).unwrap();
    let local_id = node_id_hex(&local);
    assert_eq!(trace["origin"], Value::String(local_id.clone()));
    assert_eq!(trace["received_content_from_node"], Value::String(local_id.clone()));
    assert!(trace["responses"].get(&local_id).is_some());
    assert_eq!(
        trace["responses"][&local_id]["responded_with"],
        Value::Array(vec![])
    );
    assert_eq!(
        trace["target_id"],
        Value::String(
            "0x0000000000000000000000000000000000000000000000000000000000000001".to_string()
        )
    );
}

#[test]
fn local_hit_traced_goes_on_the_wire_with_its_trace() {
    let step = recursive_find_content(Ok(Some(vec![0xde, 0xad])), true, &local_node(), key_one());
    let reply = match step {
        Step::Reply(reply) => reply,
        other => panic!("unexpected step {:?}", other),
    };
    let wire: Value = serde_json::from_str(&marshal(reply).unwrap()).unwrap();
    assert_eq!(wire["content"], Value::String("0xdead".to_string()));
    assert_eq!(wire["utpTransfer"], Value::Bool(false));
    assert!(wire["trace"].is_object());
    assert_eq!(wire.as_object().unwrap().len(), 3);
}

#[test]
fn local_hit_does_not_ask_the_overlay() {
    for is_trace in [false, true] {
        let step = recursive_find_content(Ok(Some(vec![1, 2, 3])), is_trace, &local_node(), key_one());
        assert!(matches!(step, Step::Reply(Ok(_))));
    }
}

#[test]
fn local_miss_asks_the_overlay_with_the_same_flag() {
    for is_trace in [false, true] {
        let step = recursive_find_content(Ok(None), is_trace, &local_node(), key_one());
        assert_eq!(step, Step::LookupContent { is_trace });
    }
}

#[test]
fn store_failure_during_probe_falls_through_to_the_overlay() {
    for is_trace in [false, true] {
        let step =
            recursive_find_content(Err("corrupt".to_string()), is_trace, &local_node(), key_one());
        assert_eq!(step, Step::LookupContent { is_trace });
    }
}

#[test]
fn after_probe_uses_the_trace_only_when_asked() {
    let trace = "{\"origin\":\"0x01\"}".to_string();
    assert_eq!(
        after_probe(Ok(Some(vec![0xaa])), true, Ok(trace.clone())),
        Step::Reply(Ok(Payload::TraceContent {
            content: "0xaa".to_string(),
            utp_transfer: false,
            trace: trace.clone(),
        }))
    );
    assert_eq!(
        after_probe(Ok(Some(vec![0xaa])), false, Ok(trace)),
        Step::Reply(Ok(Payload::Content { content: "0xaa".to_string(), utp_transfer: false }))
    );
}

#[test]
fn after_probe_reports_a_trace_that_could_not_be_written() {
    assert_eq!(
        after_probe(Ok(Some(vec![0xaa])), true, Err("clock before epoch".to_string())),
        Step::Reply(Err("clock before epoch".to_string()))
    );
    assert_eq!(
        after_probe(Ok(None), true, Err("clock before epoch".to_string())),
        Step::LookupContent { is_trace: true }
    );
}

#[test]
fn overlay_hit_untraced_is_content_without_trace() {
    let reply = overlay_content(
        LookupOutcome::Found {
            content: vec![0xca, 0xfe],
            utp_transfer: true,
            trace: Some("{}".to_string()),
        },
        false,
    );
    assert_eq!(reply, Ok(Payload::Content { content: "0xcafe".to_string(), utp_transfer: true }));
}

#[test]
fn overlay_hit_traced_carries_the_overlay_trace() {
    let reply = overlay_content(
        LookupOutcome::Found {
            content: vec![0xca, 0xfe],
            utp_transfer: true,
            trace: Some("{\"origin\":\"0x02\"}".to_string()),
        },
        true,
    );
    assert_eq!(
        reply,
        Ok(Payload::TraceContent {
            content: "0xcafe".to_string(),
            utp_transfer: true,
            trace: "{\"origin\":\"0x02\"}".to_string(),
        })
    );
}

#[test]
fn traced_lookup_without_trace_is_an_error() {
    let reply = overlay_content(
        LookupOutcome::Found { content: vec![1], utp_transfer: false, trace: None },
        true,
    );
    assert_eq!(reply, Err("Content query trace requested but none provided.".to_string()));
    assert_eq!(
        content_info(vec![1], false, None, true),
        Err("Content query trace requested but none provided.".to_string())
    );
}

#[test]
fn content_not_found_is_a_json_object_inside_the_error() {
    let trace = "{\"origin\":\"0x03\",\"responses\":{}}";
    let reply = overlay_content(
        LookupOutcome::NotFound {
            message: "no providers".to_string(),
            utp: false,
            trace_text: trace.to_string(),
        },
        true,
    );
    let error = reply.unwrap_err();
    assert_eq!(
        error,
        "{\"message\":\"no providers: utp: false\",\"trace\":{\"origin\":\"0x03\",\"responses\":{}}}"
    );
    let parsed: Value = serde_json::from_str(&error).unwrap();
    assert_eq!(parsed["message"], Value::String("no providers: utp: false".to_string()));
    let expected_trace: Value = serde_json::from_str(trace).unwrap();
    assert_eq!(parsed["trace"], expected_trace);
    assert_eq!(parsed.as_object().unwrap().len(), 2);
}

#[test]
fn content_not_found_quotes_the_message_as_json() {
    let reply = overlay_content(
        LookupOutcome::NotFound {
            message: "peer said \"no\"\n\\".to_string(),
            utp: true,
            trace_text: "null".to_string(),
        },
        false,
    );
    let error = reply.unwrap_err();
    assert_ne!(error, "peer said \"no\"\n\\: utp: true");
    let parsed: Value = serde_json::from_str(&error).unwrap();
    assert_eq!(parsed["message"], Value::String("peer said \"no\"\n\\: utp: true".to_string()));
    assert_eq!(parsed["trace"], Value::Null);
}

#[test]
fn content_not_found_frames_what_the_serializer_wrote() {
    assert_eq!(
        content_not_found(Ok("\"m\"".to_string()), "null"),
        "{\"message\":\"m\",\"trace\":null}"
    );
    assert_eq!(content_not_found(Err("key must be a string".to_string()), "null"), "key must be a string");
}

#[test]
fn other_lookup_failures_keep_their_text() {
    for is_trace in [false, true] {
        let reply = overlay_content(LookupOutcome::Failed("Timeout".to_string()), is_trace);
        assert_eq!(reply, Err("Timeout".to_string()));
    }
}

#[test]
fn lookup_event_is_always_answered() {
    let step = complete_request(Event::ContentLookup {
        is_trace: false,
        outcome: LookupOutcome::Found { content: vec![0xde, 0xad], utp_transfer: true, trace: None },
    });
    assert_eq!(
        step,
        Step::Reply(Ok(Payload::Content { content: "0xdead".to_string(), utp_transfer: true }))
    );
    let step = complete_request(Event::ContentLookup {
        is_trace: true,
        outcome: LookupOutcome::Failed("Timeout".to_string()),
    });
    assert_eq!(step, Step::Reply(Err("Timeout".to_string())));
}

#[test]
fn successful_lookups_have_the_shape_that_was_asked_for() {
    let outcomes = || {
        vec![
            LookupOutcome::Found { content: vec![1], utp_transfer: false, trace: None },
            LookupOutcome::Found {
                content: vec![1],
                utp_transfer: true,
                trace: Some("{}".to_string()),
            },
            LookupOutcome::NotFound {
                message: "m".to_string(),
                utp: false,
                trace_text: "null".to_string(),
            },
            LookupOutcome::Failed("f".to_string()),
        ]
    };
    for outcome in outcomes() {
        if let Ok(payload) = overlay_content(outcome, true) {
            assert!(matches!(payload, Payload::TraceContent { .. }));
        }
    }
    for outcome in outcomes() {
        if let Ok(payload) = overlay_content(outcome, false) {
            assert!(matches!(payload, Payload::Content { .. }));
        }
    }
}
