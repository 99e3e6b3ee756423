use std::collections::HashMap;

use trin_beacon::dispatch::{complete_request, Event};
use trin_beacon::lookup::Step;
use trin_beacon::reply::{Payload, Reply};
use trin_beacon::store::{local_content, paginate_local_content_keys, store};

#[test]
fn local_content_returns_hex_of_stored_bytes() {
    let reply: Reply = local_content("key", Ok(Some(vec![0xde, 0xad])));
    assert_eq!(reply, Ok(Payload::Text("0xdead".to_string())));
}

#[test]
fn local_content_of_empty_content_is_the_bare_prefix() {
    assert_eq!(local_content("key", Ok(Some(vec![]))), Ok(Payload::Text("0x".to_string())));
}

#[test]
fn local_content_reports_missing_content() {
    let reply = local_content("key", Ok(None));
    assert_eq!(reply, Err("Content not found in local storage".to_string()));
}

#[test]
fn local_content_reports_store_failure_with_key_and_error() {
    let reply = local_content("LightClientBootstrap(0x01)", Err("disk gone".to_string()));
    assert_eq!(
        reply,
        Err("Database error while looking for content key in local storage: LightClientBootstrap(0x01), with error: disk gone".to_string())
    );
}

#[test]
fn paginate_passes_the_page_on() {
    let page = "{\"content_keys\":[],\"total_entries\":0}".to_string();
    let reply = paginate_local_content_keys(0, 10, Ok(page.clone()));
    assert_eq!(reply, Ok(Payload::Value(page)));
}

#[test]
fn paginate_reports_store_failure_with_offset_and_limit() {
    let reply = paginate_local_content_keys(120, u64::MAX, Err("locked".to_string()));
    assert_eq!(
        reply,
        Err("Database error while paginating local content keys with offset: 120, limit: 18446744073709551615. Error message: locked".to_string())
    );
}

#[test]
fn paginate_failure_prints_zero_offset_and_limit() {
    let reply = paginate_local_content_keys(0, 0, Err("x".to_string()));
    assert_eq!(
        reply,
        Err("Database error while paginating local content keys with offset: 0, limit: 0. Error message: x".to_string())
    );
}

#[test]
fn store_answers_true_on_success() {
    assert_eq!(store(Ok(())), Ok(Payload::Bool(true)));
}

#[test]
fn store_delivers_failure_as_successful_text() {
    let reply = store(Err("no space".to_string()));
    assert_eq!(reply, Ok(Payload::Text("no space".to_string())));
}

#[test]
fn store_then_local_content_returns_the_value_as_hex() {
    let mut contents: HashMap<Vec<u8>, Vec<u8>> = HashMap::new();
    let mut key = vec![0u8; 32];
    key[31] = 1;

    contents.insert(key.clone(), vec![0xbe, 0xef]);
    let stored = complete_request(Event::Store { put: Ok(()) });
    assert_eq!(stored, Step::Reply(Ok(Payload::Bool(true))));

    let loaded = complete_request(Event::LocalContent {
        key: "k".to_string(),
        lookup: Ok(contents.get(&key).cloned()),
    });
    assert_eq!(loaded, Step::Reply(Ok(Payload::Text("0xbeef".to_string()))));
}

#[test]
fn store_leaves_other_keys_missing() {
    let mut contents: HashMap<Vec<u8>, Vec<u8>> = HashMap::new();
    contents.insert(vec![1], vec![0xbe, 0xef]);
    let loaded = complete_request(Event::LocalContent {
        key: "other".to_string(),
        lookup: Ok(contents.get(&vec![2u8]).cloned()),
    });
    assert_eq!(
        loaded,
        Step::Reply(Err("Content not found in local storage".to_string()))
    );
}
