//! The dispatcher: from an endpoint and what its collaborator call returned
//! to the reply, or to the one call that may have to follow.

use vstd::prelude::*;
use crate::beacon::{state_root, state_root_reply, HeaderFetch, HeaderFetchView};
use crate::hex::{hex_text, lemma_hex_round_trip, parse_hex};
use crate::lookup::{
    content_reply, lookup_reply, overlay_content, probe_step, quoted_for,
    recursive_find_content,
    LookupOutcome, LookupOutcomeView, Step, StepView,
};
use crate::peer::{
    find_content, find_content_reply, find_content_view, find_nodes, find_nodes_reply, gossip,
    gossip_reply, offer, offer_reply, ping, ping_reply, ping_view, trace_gossip_reply,
    wire_offer, wire_offer_reply, GossipReport, PeerContent, PeerContentView, Pong, PongView,
};
use crate::reply::{reply_view, Payload, PayloadView, ReplyView};
use crate::routing::{
    add_enr, add_enr_reply, delete_enr, delete_enr_reply, get_enr, get_enr_reply, lookup_enr,
    lookup_enr_reply, recursive_find_nodes, recursive_find_nodes_reply,
};
use crate::store::{
    local_content, local_content_reply, lookup_view, paginate_local_content_keys,
    paginate_reply, store, store_reply,
};
use crate::text::{text_view, unit_view};
use crate::wire::payload_text;
use ethportal_api::types::enr::SszEnr;

verus! {

/// An endpoint together with what the call made for it returned.
///
/// Values that are passed on come as JSON text. Failures of the store and of
/// the beacon client come in printed form, those of the overlay in debug
/// form, as the replies quote them.
#[derive(Debug, PartialEq)]
pub enum Event {
    /// The store was read for the key, whose debug form is `key`.
    LocalContent { key: String, lookup: Result<Option<Vec<u8>>, String> },
    /// The store was asked for a page of keys.
    PaginateLocalContentKeys { offset: u64, limit: u64, page: Result<String, String> },
    /// The encoded value was put into the store.
    Store { put: Result<(), String> },
    /// The store was probed for content that is to be found. `local_enr` is
    /// the record of the local node, `content_id` the id of the content.
    RecursiveFindContent {
        probe: Result<Option<Vec<u8>>, String>,
        local_enr: SszEnr,
        content_id: [u8; 32],
    },
    /// The store was probed for content that is to be found with a trace.
    TraceRecursiveFindContent {
        probe: Result<Option<Vec<u8>>, String>,
        local_enr: SszEnr,
        content_id: [u8; 32],
    },
    /// The overlay looked content up, after a probe that found nothing.
    ContentLookup { is_trace: bool, outcome: LookupOutcome },
    /// The record was added to the routing table.
    AddEnr { added: Result<(), String> },
    /// The overlay reported its radius.
    DataRadius { radius: String },
    /// The record was deleted from the routing table, or was not there.
    DeleteEnr { is_deleted: bool },
    /// A peer was asked for content.
    FindContent { fetched: Result<(PeerContent, bool), String> },
    /// A peer was asked for nodes.
    FindNodes { found: Result<String, String> },
    /// The routing table was asked for a record.
    GetEnr { found: Result<String, String> },
    /// The encoded value was gossiped, to this many peers.
    Gossip { peers: u32 },
    /// The encoded value was gossiped with a trace.
    TraceGossip { record: String },
    /// The network was searched for a record.
    LookupEnr { found: Result<String, String> },
    /// A content item was offered to a peer.
    Offer { accepted: Result<String, String> },
    /// Content keys were offered to a peer.
    WireOffer { accepted: Result<String, String> },
    /// A peer was pinged.
    Ping { answer: Result<Pong, String> },
    /// The routing table was marshalled.
    RoutingTableInfo { table: Result<String, String> },
    /// The network was searched for the nodes nearest to a node id.
    RecursiveFindNodes { nodes: String },
    /// The beacon client was asked for its latest header.
    OptimisticStateRoot { fetch: HeaderFetch },
    /// The beacon client was asked for its finalized header.
    FinalizedStateRoot { fetch: HeaderFetch },
}

/// An event with its texts and bytes as sequences.
pub enum EventView {
    LocalContent { key: Seq<char>, lookup: Result<Option<Seq<u8>>, Seq<char>> },
    PaginateLocalContentKeys { offset: u64, limit: u64, page: Result<Seq<char>, Seq<char>> },
    Store { put: Result<(), Seq<char>> },
    RecursiveFindContent { probe: Result<Option<Seq<u8>>, Seq<char>> },
    TraceRecursiveFindContent { probe: Result<Option<Seq<u8>>, Seq<char>> },
    ContentLookup { is_trace: bool, outcome: LookupOutcomeView },
    AddEnr { added: Result<(), Seq<char>> },
    DataRadius { radius: Seq<char> },
    DeleteEnr { is_deleted: bool },
    FindContent { fetched: Result<(PeerContentView, bool), Seq<char>> },
    FindNodes { found: Result<Seq<char>, Seq<char>> },
    GetEnr { found: Result<Seq<char>, Seq<char>> },
    Gossip { peers: u32 },
    TraceGossip { record: Seq<char> },
    LookupEnr { found: Result<Seq<char>, Seq<char>> },
    Offer { accepted: Result<Seq<char>, Seq<char>> },
    WireOffer { accepted: Result<Seq<char>, Seq<char>> },
    Ping { answer: Result<PongView, Seq<char>> },
    RoutingTableInfo { table: Result<Seq<char>, Seq<char>> },
    RecursiveFindNodes { nodes: Seq<char> },
    OptimisticStateRoot { fetch: HeaderFetchView },
    FinalizedStateRoot { fetch: HeaderFetchView },
}

impl View for Event {
    type V = EventView;

    open spec fn view(&self) -> EventView {
        match *self {
            Event::LocalContent { key, lookup } => EventView::LocalContent {
                key: key@,
                lookup: lookup_view(lookup),
            },
            Event::PaginateLocalContentKeys { offset, limit, page } => {
                EventView::PaginateLocalContentKeys { offset, limit, page: text_view(page) }
            },
            Event::Store { put } => EventView::Store { put: unit_view(put) },
            Event::RecursiveFindContent { probe, local_enr, content_id } => {
                EventView::RecursiveFindContent { probe: lookup_view(probe) }
            },
            Event::TraceRecursiveFindContent { probe, local_enr, content_id } => {
                EventView::TraceRecursiveFindContent { probe: lookup_view(probe) }
            },
            Event::ContentLookup { is_trace, outcome } => EventView::ContentLookup {
                is_trace,
                outcome: outcome@,
            },
            Event::AddEnr { added } => EventView::AddEnr { added: unit_view(added) },
            Event::DataRadius { radius } => EventView::DataRadius { radius: radius@ },
            Event::DeleteEnr { is_deleted } => EventView::DeleteEnr { is_deleted },
            Event::FindContent { fetched } => EventView::FindContent {
                fetched: find_content_view(fetched),
            },
            Event::FindNodes { found } => EventView::FindNodes { found: text_view(found) },
            Event::GetEnr { found } => EventView::GetEnr { found: text_view(found) },
            Event::Gossip { peers } => EventView::Gossip { peers },
            Event::TraceGossip { record } => EventView::TraceGossip { record: record@ },
            Event::LookupEnr { found } => EventView::LookupEnr { found: text_view(found) },
            Event::Offer { accepted } => EventView::Offer { accepted: text_view(accepted) },
            Event::WireOffer { accepted } => EventView::WireOffer {
                accepted: text_view(accepted),
            },
            Event::Ping { answer } => EventView::Ping { answer: ping_view(answer) },
            Event::RoutingTableInfo { table } => EventView::RoutingTableInfo {
                table: text_view(table),
            },
            Event::RecursiveFindNodes { nodes } => EventView::RecursiveFindNodes { nodes: nodes@ },
            Event::OptimisticStateRoot { fetch } => EventView::OptimisticStateRoot {
                fetch: fetch@,
            },
            Event::FinalizedStateRoot { fetch } => EventView::FinalizedStateRoot { fetch: fetch@ },
        }
    }
}

/// The reply that carries the overlay's radius.
pub open spec fn data_radius_reply(radius: Seq<char>) -> ReplyView {
    Ok(PayloadView::Value(radius))
}

/// The reply that carries the routing table, or the marshaller's error.
pub open spec fn routing_table_info_reply(table: Result<Seq<char>, Seq<char>>) -> ReplyView {
    match table {
        Ok(table) => Ok(PayloadView::Value(table)),
        Err(fault) => Err(fault),
    }
}

/// What follows an event. Every event is answered with the reply of its
/// endpoint, but for a probe of the local store that found nothing: that one
/// is followed by the overlay's lookup. `written` is what the serializer
/// returned where the event needed it: the trace of a local hit, or the
/// quoted message of a lookup that found nothing. No other event reads it.
pub open spec fn next_step(event: EventView, written: Result<Seq<char>, Seq<char>>) -> StepView {
    match event {
        EventView::LocalContent { key, lookup } => StepView::Reply(
            local_content_reply(key, lookup),
        ),
        EventView::PaginateLocalContentKeys { offset, limit, page } => StepView::Reply(
            paginate_reply(offset, limit, page),
        ),
        EventView::Store { put } => StepView::Reply(store_reply(put)),
        EventView::RecursiveFindContent { probe } => probe_step(probe, false, written),
        EventView::TraceRecursiveFindContent { probe } => probe_step(probe, true, written),
        EventView::ContentLookup { is_trace, outcome } => StepView::Reply(
            lookup_reply(outcome, is_trace, written),
        ),
        EventView::AddEnr { added } => StepView::Reply(add_enr_reply(added)),
        EventView::DataRadius { radius } => StepView::Reply(data_radius_reply(radius)),
        EventView::DeleteEnr { is_deleted } => StepView::Reply(delete_enr_reply(is_deleted)),
        EventView::FindContent { fetched } => StepView::Reply(find_content_reply(fetched)),
        EventView::FindNodes { found } => StepView::Reply(find_nodes_reply(found)),
        EventView::GetEnr { found } => StepView::Reply(get_enr_reply(found)),
        EventView::Gossip { peers } => StepView::Reply(gossip_reply(peers)),
        EventView::TraceGossip { record } => StepView::Reply(trace_gossip_reply(record)),
        EventView::LookupEnr { found } => StepView::Reply(lookup_enr_reply(found)),
        EventView::Offer { accepted } => StepView::Reply(offer_reply(accepted)),
        EventView::WireOffer { accepted } => StepView::Reply(wire_offer_reply(accepted)),
        EventView::Ping { answer } => StepView::Reply(ping_reply(answer)),
        EventView::RoutingTableInfo { table } => StepView::Reply(
            routing_table_info_reply(table),
        ),
        EventView::RecursiveFindNodes { nodes } => StepView::Reply(
            recursive_find_nodes_reply(nodes),
        ),
        EventView::OptimisticStateRoot { fetch } => StepView::Reply(state_root_reply(fetch)),
        EventView::FinalizedStateRoot { fetch } => StepView::Reply(state_root_reply(fetch)),
    }
}

/// Whether `written` can be what the serializer returned for an event. Of a
/// trace nothing is known beforehand; a message it quotes, or fails.
pub open spec fn written_for(event: EventView, written: Result<Seq<char>, Seq<char>>) -> bool {
    event matches EventView::ContentLookup { is_trace, outcome } ==> quoted_for(outcome, written)
}

/// Decides what follows an event: the reply to send, or the lookup to make.
pub fn complete_request(event: Event) -> (step: Step)
    ensures
        exists|written: Result<Seq<char>, Seq<char>>|
            written_for(event@, written) && step@ == #[trigger] next_step(event@, written),
{
    let ghost mut witness: Result<Seq<char>, Seq<char>> = Err(Seq::empty());
    let step = match event {
        Event::LocalContent { key, lookup } => Step::Reply(local_content(key.as_str(), lookup)),
        Event::PaginateLocalContentKeys { offset, limit, page } => Step::Reply(
            paginate_local_content_keys(offset, limit, page),
        ),
        Event::Store { put } => Step::Reply(store(put)),
        Event::RecursiveFindContent { probe, local_enr, content_id } => {
            let step = recursive_find_content(probe, false, &local_enr, content_id);
            proof {
                witness = choose|local_trace: Result<Seq<char>, Seq<char>>|
                    step@ == #[trigger] probe_step(lookup_view(probe), false, local_trace);
            }
            step
        },
        Event::TraceRecursiveFindContent { probe, local_enr, content_id } => {
            let step = recursive_find_content(probe, true, &local_enr, content_id);
            proof {
                witness = choose|local_trace: Result<Seq<char>, Seq<char>>|
                    step@ == #[trigger] probe_step(lookup_view(probe), true, local_trace);
            }
            step
        },
        Event::ContentLookup { is_trace, outcome } => {
            let reply = overlay_content(outcome, is_trace);
            proof {
                witness = choose|quoted: Result<Seq<char>, Seq<char>>|
                    quoted_for(outcome@, quoted) && reply_view(reply) == #[trigger] lookup_reply(
                        outcome@,
                        is_trace,
                        quoted,
                    );
            }
            Step::Reply(reply)
        },
        Event::AddEnr { added } => Step::Reply(add_enr(added)),
        Event::DataRadius { radius } => Step::Reply(Ok(Payload::Value(radius))),
        Event::DeleteEnr { is_deleted } => Step::Reply(delete_enr(is_deleted)),
        Event::FindContent { fetched } => Step::Reply(find_content(fetched)),
        Event::FindNodes { found } => Step::Reply(find_nodes(found)),
        Event::GetEnr { found } => Step::Reply(get_enr(found)),
        Event::Gossip { peers } => Step::Reply(gossip(GossipReport::Peers(peers))),
        Event::TraceGossip { record } => Step::Reply(gossip(GossipReport::Trace(record))),
        Event::LookupEnr { found } => Step::Reply(lookup_enr(found)),
        Event::Offer { accepted } => Step::Reply(offer(accepted)),
        Event::WireOffer { accepted } => Step::Reply(wire_offer(accepted)),
        Event::Ping { answer } => Step::Reply(ping(answer)),
        Event::RoutingTableInfo { table } => Step::Reply(
            match table {
                Ok(table) => Ok(Payload::Value(table)),
                Err(fault) => Err(fault),
            },
        ),
        Event::RecursiveFindNodes { nodes } => Step::Reply(recursive_find_nodes(nodes)),
        Event::OptimisticStateRoot { fetch } => Step::Reply(state_root(fetch)),
        Event::FinalizedStateRoot { fetch } => Step::Reply(state_root(fetch)),
    };
    assert(written_for(event@, witness) && step@ == next_step(event@, witness));
    step
}

/// The replies that a request gets while it is handled: the step for the
/// event of its endpoint and, where that step asks for the overlay's lookup,
/// the step for what the lookup returned.
pub open spec fn session_replies(
    first: EventView,
    outcome: LookupOutcomeView,
    first_written: Result<Seq<char>, Seq<char>>,
    second_written: Result<Seq<char>, Seq<char>>,
) -> Seq<ReplyView> {
    match next_step(first, first_written) {
        StepView::Reply(reply) => seq![reply],
        StepView::LookupContent { is_trace } => match next_step(
            EventView::ContentLookup { is_trace, outcome },
            second_written,
        ) {
            StepView::Reply(reply) => seq![reply],
            StepView::LookupContent { is_trace } => Seq::empty(),
        },
    }
}

/// Every request gets exactly one reply, whatever its endpoint, whatever the
/// collaborators return and whether or not the serializer fails. The reply
/// comes with the first step, or with the second where the first asks for
/// the overlay's lookup, which only the probe of a content lookup does.
pub proof fn lemma_one_reply_per_request(
    first: EventView,
    outcome: LookupOutcomeView,
    first_written: Result<Seq<char>, Seq<char>>,
    second_written: Result<Seq<char>, Seq<char>>,
)
    ensures
        session_replies(first, outcome, first_written, second_written).len() == 1,
        next_step(first, first_written) is LookupContent ==> first is RecursiveFindContent
            || first is TraceRecursiveFindContent,
        next_step(EventView::ContentLookup { is_trace: true, outcome }, second_written) is Reply,
        next_step(EventView::ContentLookup { is_trace: false, outcome }, second_written) is Reply,
{
}

/// A content lookup whose probe hits the local store is answered at once:
/// neither endpoint asks the overlay then.
pub proof fn lemma_local_hit_is_answered(content: Seq<u8>, written: Result<Seq<char>, Seq<char>>)
    ensures
        next_step(EventView::RecursiveFindContent { probe: Ok(Some(content)) }, written)
            == StepView::Reply(
            Ok(PayloadView::Content { content: hex_text(content), utp_transfer: false }),
        ),
        next_step(
            EventView::TraceRecursiveFindContent { probe: Ok(Some(content)) },
            written,
        ) is Reply,
{
}

/// Binary payloads come back from their text: where a handler answers with
/// content, parsing the hex of the reply yields the bytes that the store, the
/// overlay or the peer handed in.
pub proof fn lemma_content_round_trip(
    key: Seq<char>,
    content: Seq<u8>,
    utp_transfer: bool,
    trace: Option<Seq<char>>,
    is_trace: bool,
)
    ensures
        local_content_reply(key, Ok(Some(content))) matches Ok(PayloadView::Text(text))
            && parse_hex(text) == Some(content),
        find_content_reply(Ok((PeerContentView::Content(content), utp_transfer))) matches Ok(
            PayloadView::Content { content: text, utp_transfer: _ },
        ) && parse_hex(text) == Some(content),
        content_reply(content, utp_transfer, trace, is_trace) matches Ok(payload) ==> parse_hex(
            payload_text(payload),
        ) == Some(content),
{
    lemma_hex_round_trip(content);
}

/// Without a beacon client both state root endpoints fail with the same
/// fixed message.
pub proof fn lemma_state_root_without_beacon_client(written: Result<Seq<char>, Seq<char>>)
    ensures
        next_step(
            EventView::OptimisticStateRoot { fetch: HeaderFetchView::Uninitialized },
            written,
        ) == StepView::Reply(Err("Beacon client not initialized"@)),
        next_step(
            EventView::FinalizedStateRoot { fetch: HeaderFetchView::Uninitialized },
            written,
        ) == StepView::Reply(Err("Beacon client not initialized"@)),
{
}

} // verus!
