use ethportal_api::types::enr::{generate_random_remote_enr, SszEnr};
use trin_beacon::beacon::HeaderFetch;
use trin_beacon::dispatch::{complete_request, Event};
use trin_beacon::lookup::{LookupOutcome, Step};
use trin_beacon::peer::{PeerContent, Pong};

fn local_node() -> SszEnr {
    let (_, enr) = generate_random_remote_enr();
    SszEnr::new(enr)
}

fn events_answered_at_once() -> Vec<Event> {
    vec![
        Event::LocalContent { key: "k".to_string(), lookup: Ok(None) },
        Event::LocalContent { key: "k".to_string(), lookup: Err("e".to_string()) },
        Event::PaginateLocalContentKeys { offset: 1, limit: 2, page: Ok("{}".to_string()) },
        Event::PaginateLocalContentKeys { offset: 1, limit: 2, page: Err("e".to_string()) },
        Event::Store { put: Ok(()) },
        Event::Store { put: Err("e".to_string()) },
        Event::RecursiveFindContent {
            probe: Ok(Some(vec![1])),
            local_enr: local_node(),
            content_id: [7u8; 32],
        },
        Event::TraceRecursiveFindContent {
            probe: Ok(Some(vec![1])),
            local_enr: local_node(),
            content_id: [7u8; 32],
        },
        Event::ContentLookup {
            is_trace: true,
            outcome: LookupOutcome::Found { content: vec![1], utp_transfer: true, trace: None },
        },
        Event::ContentLookup {
            is_trace: false,
            outcome: LookupOutcome::NotFound {
                message: "m".to_string(),
                utp: true,
                trace_text: "null".to_string(),
            },
        },
        Event::ContentLookup { is_trace: false, outcome: LookupOutcome::Failed("e".to_string()) },
        Event::AddEnr { added: Ok(()) },
        Event::DataRadius { radius: "\"0x1\"".to_string() },
        Event::DeleteEnr { is_deleted: true },
        Event::FindContent { fetched: Ok((PeerContent::Content(vec![1]), false)) },
        Event::FindContent { fetched: Ok((PeerContent::ConnectionId(1), false)) },
        Event::FindNodes { found: Ok("[]".to_string()) },
        Event::GetEnr { found: Err("e".to_string()) },
        Event::Gossip { peers: 1 },
        Event::TraceGossip { record: "{}".to_string() },
        Event::LookupEnr { found: Ok("\"enr:\"".to_string()) },
        Event::Offer { accepted: Ok("\"0x01\"".to_string()) },
        Event::WireOffer { accepted: Ok("\"0x01\"".to_string()) },
        Event::Ping { answer: Ok(Pong { enr_seq: 1, data_radius: "\"0x1\"".to_string() }) },
        Event::RoutingTableInfo { table: Ok("{}".to_string()) },
        Event::RecursiveFindNodes { nodes: "[]".to_string() },
        Event::OptimisticStateRoot { fetch: HeaderFetch::Uninitialized },
        Event::FinalizedStateRoot { fetch: HeaderFetch::Fetched(Ok("\"0x00\"".to_string())) },
    ]
}

#[test]
fn every_event_but_a_missed_probe_is_answered_at_once() {
    for event in events_answered_at_once() {
        let shown = format!("{:?}", event);
        assert!(matches!(complete_request(event), Step::Reply(_)), "{}", shown);
    }
}

#[test]
fn a_missed_probe_is_answered_after_the_lookup() {
    for is_trace in [false, true] {
        let probe = |probe| {
            if is_trace {
                Event::TraceRecursiveFindContent {
                    probe,
                    local_enr: local_node(),
                    content_id: [7u8; 32],
                }
            } else {
                Event::RecursiveFindContent { probe, local_enr: local_node(), content_id: [7u8; 32] }
            }
        };
        for missed in [Ok(None), Err("e".to_string())] {
            let first = complete_request(probe(missed));
            assert_eq!(first, Step::LookupContent { is_trace });
            let second = complete_request(Event::ContentLookup {
                is_trace,
                outcome: LookupOutcome::Failed("Timeout".to_string()),
            });
            assert_eq!(second, Step::Reply(Err("Timeout".to_string())));
        }
    }
}
