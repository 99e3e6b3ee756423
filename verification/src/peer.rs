//! Replies for the endpoints that talk to one peer or push content to many.

use vstd::prelude::*;
use vstd::string::*;
use crate::hex::{encode_hex, hex_text};
use crate::reply::{reply_view, Payload, PayloadView, Reply, ReplyView};
use crate::text::{decimal, decimal_text, failure, text_view};

verus! {

/// What a peer answered to a request for content.
#[derive(Debug, PartialEq)]
pub enum PeerContent {
    /// The id of a uTP connection on which the content would follow.
    ConnectionId(u16),
    /// The content itself.
    Content(Vec<u8>),
    /// Records of nodes nearer to the content, as JSON text.
    Enrs(String),
}

/// A peer's answer with its content and records as sequences.
pub enum PeerContentView {
    ConnectionId(u16),
    Content(Seq<u8>),
    Enrs(Seq<char>),
}

impl View for PeerContent {
    type V = PeerContentView;

    open spec fn view(&self) -> PeerContentView {
        match *self {
            PeerContent::ConnectionId(id) => PeerContentView::ConnectionId(id),
            PeerContent::Content(content) => PeerContentView::Content(content@),
            PeerContent::Enrs(enrs) => PeerContentView::Enrs(enrs@),
        }
    }
}

/// What a peer answered to a ping: the sequence number of its record and, as
/// JSON text, the radius it advertises.
#[derive(Debug, PartialEq)]
pub struct Pong {
    pub enr_seq: u64,
    pub data_radius: String,
}

/// A pong with its radius as a character sequence.
pub struct PongView {
    pub enr_seq: u64,
    pub data_radius: Seq<char>,
}

impl View for Pong {
    type V = PongView;

    open spec fn view(&self) -> PongView {
        PongView { enr_seq: self.enr_seq, data_radius: self.data_radius@ }
    }
}

/// What gossiping content came to.
#[derive(Debug, PartialEq)]
pub enum GossipReport {
    /// Gossip without a trace: the number of peers the content went to.
    Peers(u32),
    /// Gossip with a trace: the trace record, as JSON text.
    Trace(String),
}

/// A gossip report with its record as a character sequence.
pub enum GossipReportView {
    Peers(u32),
    Trace(Seq<char>),
}

impl View for GossipReport {
    type V = GossipReportView;

    open spec fn view(&self) -> GossipReportView {
        match *self {
            GossipReport::Peers(peers) => GossipReportView::Peers(peers),
            GossipReport::Trace(record) => GossipReportView::Trace(record@),
        }
    }
}

/// What a request for content returned: the peer's answer and whether it
/// came over uTP, or the reason the request failed, in its debug form.
pub open spec fn find_content_view(found: Result<(PeerContent, bool), String>) -> Result<
    (PeerContentView, bool),
    Seq<char>,
> {
    match found {
        Ok((content, utp_transfer)) => Ok((content@, utp_transfer)),
        Err(reason) => Err(reason@),
    }
}

/// What a ping returned, with its texts as character sequences.
pub open spec fn ping_view(answer: Result<Pong, String>) -> Result<PongView, Seq<char>> {
    match answer {
        Ok(pong) => Ok(pong@),
        Err(reason) => Err(reason@),
    }
}

/// The reply to a request for content from one peer. Content and node
/// records are passed on; a connection id is an error at this layer, since
/// the transfer should have been carried out.
pub open spec fn find_content_reply(
    found: Result<(PeerContentView, bool), Seq<char>>,
) -> ReplyView {
    match found {
        Ok((PeerContentView::ConnectionId(id), _)) => Err(
            "FindContent request returned a connection id ("@ + decimal_text(id as nat)
                + ") instead of conducting utp transfer."@,
        ),
        Ok((PeerContentView::Content(content), utp_transfer)) => Ok(
            PayloadView::Content { content: hex_text(content), utp_transfer },
        ),
        Ok((PeerContentView::Enrs(enrs), _)) => Ok(PayloadView::Enrs { enrs }),
        Err(reason) => Err("FindContent request timeout: "@ + reason),
    }
}

/// The reply to a request for the nodes a peer knows at given distances.
pub open spec fn find_nodes_reply(found: Result<Seq<char>, Seq<char>>) -> ReplyView {
    match found {
        Ok(enrs) => Ok(PayloadView::Nodes { enrs }),
        Err(reason) => Err("FindNodes request timeout: "@ + reason),
    }
}

/// The reply to a request to gossip content: the number of peers it went to.
pub open spec fn gossip_reply(peers: u32) -> ReplyView {
    Ok(PayloadView::Count(peers))
}

/// The reply to a request to gossip content with a trace: the trace record.
pub open spec fn trace_gossip_reply(record: Seq<char>) -> ReplyView {
    Ok(PayloadView::Value(record))
}

/// The reply to an offer of one content item to a peer.
pub open spec fn offer_reply(accepted: Result<Seq<char>, Seq<char>>) -> ReplyView {
    match accepted {
        Ok(content_keys) => Ok(PayloadView::Accept { content_keys }),
        Err(reason) => Err("Offer request timeout: "@ + reason),
    }
}

/// The reply to an offer of content keys to a peer.
pub open spec fn wire_offer_reply(accepted: Result<Seq<char>, Seq<char>>) -> ReplyView {
    match accepted {
        Ok(content_keys) => Ok(PayloadView::Accept { content_keys }),
        Err(reason) => Err("WireOffer request timeout: "@ + reason),
    }
}

/// The reply to a ping.
pub open spec fn ping_reply(answer: Result<PongView, Seq<char>>) -> ReplyView {
    match answer {
        Ok(pong) => Ok(
            PayloadView::Pong { enr_seq: pong.enr_seq, data_radius: pong.data_radius },
        ),
        Err(reason) => Err("Ping request timeout: "@ + reason),
    }
}

/// Builds the reply to a request for content from one peer.
pub fn find_content(found: Result<(PeerContent, bool), String>) -> (reply: Reply)
    ensures
        reply_view(reply) == find_content_reply(find_content_view(found)),
{
    match found {
        Ok((content, utp_transfer)) => match content {
            PeerContent::ConnectionId(id) => {
                let mut message = String::from_str(
                    "FindContent request returned a connection id (",
                );
                message.append(decimal(id as u64).as_str());
                message.append(") instead of conducting utp transfer.");
                Err(message)
            },
            PeerContent::Content(content) => Ok(
                Payload::Content { content: encode_hex(&content), utp_transfer },
            ),
            PeerContent::Enrs(enrs) => Ok(Payload::Enrs { enrs }),
        },
        Err(reason) => Err(failure("FindContent request timeout: ", reason.as_str())),
    }
}

/// Builds the reply to a request for the nodes a peer knows.
pub fn find_nodes(found: Result<String, String>) -> (reply: Reply)
    ensures
        reply_view(reply) == find_nodes_reply(text_view(found)),
{
    match found {
        Ok(enrs) => Ok(Payload::Nodes { enrs }),
        Err(reason) => Err(failure("FindNodes request timeout: ", reason.as_str())),
    }
}

/// Builds the reply to a request to gossip content, with or without a
/// trace.
pub fn gossip(report: GossipReport) -> (reply: Reply)
    ensures
        reply_view(reply) == match report@ {
            GossipReportView::Peers(peers) => gossip_reply(peers),
            GossipReportView::Trace(record) => trace_gossip_reply(record),
        },
{
    match report {
        GossipReport::Peers(peers) => Ok(Payload::Count(peers)),
        GossipReport::Trace(record) => Ok(Payload::Value(record)),
    }
}

/// Builds the reply to an offer of one content item.
pub fn offer(accepted: Result<String, String>) -> (reply: Reply)
    ensures
        reply_view(reply) == offer_reply(text_view(accepted)),
{
    match accepted {
        Ok(content_keys) => Ok(Payload::Accept { content_keys }),
        Err(reason) => Err(failure("Offer request timeout: ", reason.as_str())),
    }
}

/// Builds the reply to an offer of content keys.
pub fn wire_offer(accepted: Result<String, String>) -> (reply: Reply)
    ensures
        reply_view(reply) == wire_offer_reply(text_view(accepted)),
{
    match accepted {
        Ok(content_keys) => Ok(Payload::Accept { content_keys }),
        Err(reason) => Err(failure("WireOffer request timeout: ", reason.as_str())),
    }
}

/// Builds the reply to a ping.
pub fn ping(answer: Result<Pong, String>) -> (reply: Reply)
    ensures
        reply_view(reply) == ping_reply(ping_view(answer)),
{
    match answer {
        Ok(pong) => Ok(Payload::Pong { enr_seq: pong.enr_seq, data_radius: pong.data_radius }),
        Err(reason) => Err(failure("Ping request timeout: ", reason.as_str())),
    }
}

} // verus!
