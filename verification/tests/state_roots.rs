use trin_beacon::beacon::{state_root, HeaderFetch};
use trin_beacon::dispatch::{complete_request, Event};
use trin_beacon::lookup::Step;
use trin_beacon::reply::Payload;

#[test]
fn optimistic_state_root_without_beacon_client_fails() {
    let step = complete_request(Event::OptimisticStateRoot { fetch: HeaderFetch::Uninitialized });
    assert_eq!(step, Step::Reply(Err("Beacon client not initialized".to_string())));
}

#[test]
fn finalized_state_root_without_beacon_client_fails() {
    let step = complete_request(Event::FinalizedStateRoot { fetch: HeaderFetch::Uninitialized });
    assert_eq!(step, Step::Reply(Err("Beacon client not initialized".to_string())));
}

#[test]
fn state_root_is_the_root_of_the_header() {
    let root = "\"0x2a00000000000000000000000000000000000000000000000000000000000000\"".to_string();
    assert_eq!(state_root(HeaderFetch::Fetched(Ok(root.clone()))), Ok(Payload::Value(root.clone())));
    assert_eq!(
        complete_request(Event::FinalizedStateRoot { fetch: HeaderFetch::Fetched(Ok(root.clone())) }),
        Step::Reply(Ok(Payload::Value(root)))
    );
}

#[test]
fn state_root_reports_the_client_error_as_it_is() {
    assert_eq!(
        state_root(HeaderFetch::Fetched(Err("not synced".to_string()))),
        Err("not synced".to_string())
    );
    assert_eq!(
        complete_request(Event::OptimisticStateRoot {
            fetch: HeaderFetch::Fetched(Err("not synced".to_string()))
        }),
        Step::Reply(Err("not synced".to_string()))
    );
}
