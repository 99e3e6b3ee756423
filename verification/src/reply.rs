//! What a handler hands back: a payload on success, a message on failure.

use vstd::prelude::*;

verus! {

/// The payload of a successful reply.
///
/// Values that the dispatcher passes on without looking inside (a node
/// record, a radius, a query trace, a page of content keys) are held in their
/// marshalled form, as JSON text.
#[derive(Debug, PartialEq)]
pub enum Payload {
    /// A flag.
    Bool(bool),
    /// A text: hex for a binary payload, or a message.
    Text(String),
    /// A number of peers.
    Count(u32),
    /// Content in hex, with the way it travelled.
    Content { content: String, utp_transfer: bool },
    /// Content in hex together with the trace of the query that found it.
    TraceContent { content: String, utp_transfer: bool, trace: String },
    /// The node records a peer answered with in place of content.
    Enrs { enrs: String },
    /// The node records that a peer returned for the distances asked.
    Nodes { enrs: String },
    /// Which of the offered keys the peer accepted.
    Accept { content_keys: String },
    /// A peer's answer to a ping.
    Pong { enr_seq: u64, data_radius: String },
    /// A marshalled value, passed on as it came.
    Value(String),
}

/// A payload with its texts as character sequences.
pub enum PayloadView {
    Bool(bool),
    Text(Seq<char>),
    Count(u32),
    Content { content: Seq<char>, utp_transfer: bool },
    TraceContent { content: Seq<char>, utp_transfer: bool, trace: Seq<char> },
    Enrs { enrs: Seq<char> },
    Nodes { enrs: Seq<char> },
    Accept { content_keys: Seq<char> },
    Pong { enr_seq: u64, data_radius: Seq<char> },
    Value(Seq<char>),
}

impl View for Payload {
    type V = PayloadView;

    open spec fn view(&self) -> PayloadView {
        match *self {
            Payload::Bool(flag) => PayloadView::Bool(flag),
            Payload::Text(text) => PayloadView::Text(text@),
            Payload::Count(count) => PayloadView::Count(count),
            Payload::Content { content, utp_transfer } => PayloadView::Content {
                content: content@,
                utp_transfer,
            },
            Payload::TraceContent { content, utp_transfer, trace } => PayloadView::TraceContent {
                content: content@,
                utp_transfer,
                trace: trace@,
            },
            Payload::Enrs { enrs } => PayloadView::Enrs { enrs: enrs@ },
            Payload::Nodes { enrs } => PayloadView::Nodes { enrs: enrs@ },
            Payload::Accept { content_keys } => PayloadView::Accept {
                content_keys: content_keys@,
            },
            Payload::Pong { enr_seq, data_radius } => PayloadView::Pong {
                enr_seq,
                data_radius: data_radius@,
            },
            Payload::Value(value) => PayloadView::Value(value@),
        }
    }
}

/// What the client receives for a request.
pub type Reply = Result<Payload, String>;

/// A reply with its texts as character sequences.
pub type ReplyView = Result<PayloadView, Seq<char>>;

/// The view of a reply.
pub open spec fn reply_view(reply: Reply) -> ReplyView {
    match reply {
        Ok(payload) => Ok(payload@),
        Err(message) => Err(message@),
    }
}

/// The reply that passes a marshalled value on, or fails with the reason
/// behind the name of what failed.
pub open spec fn value_reply(prefix: Seq<char>, outcome: Result<Seq<char>, Seq<char>>) -> ReplyView {
    match outcome {
        Ok(value) => Ok(PayloadView::Value(value)),
        Err(reason) => Err(prefix + reason),
    }
}

} // verus!
