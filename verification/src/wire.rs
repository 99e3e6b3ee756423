//! Replies on the wire: the JSON text of a payload.

use vstd::prelude::*;
use vstd::string::*;
use crate::json::{quote_json, quotes};
use crate::reply::{reply_view, Payload, PayloadView, Reply, ReplyView};
use crate::text::{bool_str, bool_text, decimal, decimal_text, text_view};

verus! {

/// The text of a payload that has to be quoted: its message or its content.
/// Payloads without one need no quoting.
pub open spec fn payload_text(payload: PayloadView) -> Seq<char> {
    match payload {
        PayloadView::Text(text) => text,
        PayloadView::Content { content, utp_transfer } => content,
        PayloadView::TraceContent { content, utp_transfer, trace } => content,
        _ => Seq::empty(),
    }
}

/// The JSON text of a payload, given what the serializer returned for the
/// text that has to be quoted. Flags and numbers are printed, marshalled
/// values are set in as they are, and records become objects with their
/// fields in camel case. Where quoting failed, the error is the serializer's.
pub open spec fn rendered(
    payload: PayloadView,
    quoted: Result<Seq<char>, Seq<char>>,
) -> Result<Seq<char>, Seq<char>> {
    match payload {
        PayloadView::Bool(flag) => Ok(bool_text(flag)),
        PayloadView::Text(text) => quoted,
        PayloadView::Count(count) => Ok(decimal_text(count as nat)),
        PayloadView::Content { content, utp_transfer } => match quoted {
            Ok(literal) => Ok(
                "{\"content\":"@ + literal + ",\"utpTransfer\":"@ + bool_text(utp_transfer) + "}"@,
            ),
            Err(fault) => Err(fault),
        },
        PayloadView::TraceContent { content, utp_transfer, trace } => match quoted {
            Ok(literal) => Ok(
                "{\"content\":"@ + literal + ",\"utpTransfer\":"@ + bool_text(utp_transfer)
                    + ",\"trace\":"@ + trace + "}"@,
            ),
            Err(fault) => Err(fault),
        },
        PayloadView::Enrs { enrs } => Ok("{\"enrs\":"@ + enrs + "}"@),
        PayloadView::Nodes { enrs } => Ok(enrs),
        PayloadView::Accept { content_keys } => Ok("{\"contentKeys\":"@ + content_keys + "}"@),
        PayloadView::Pong { enr_seq, data_radius } => Ok(
            "{\"enrSeq\":"@ + decimal_text(enr_seq as nat) + ",\"dataRadius\":"@ + data_radius
                + "}"@,
        ),
        PayloadView::Value(value) => Ok(value),
    }
}

/// Whether `quoted` can be what the serializer returned for a reply: for a
/// payload with a text, the quoted form of that text or an error. For any
/// other reply the serializer is not asked.
pub open spec fn quoted_for_reply(reply: ReplyView, quoted: Result<Seq<char>, Seq<char>>) -> bool {
    reply matches Ok(payload) ==> (payload is Text || payload is Content || payload is TraceContent)
        ==> quotes(quoted, payload_text(payload))
}

/// A reply as it goes to the client: the JSON text of its payload, or its
/// message.
pub open spec fn wire_reply(
    reply: ReplyView,
    quoted: Result<Seq<char>, Seq<char>>,
) -> Result<Seq<char>, Seq<char>> {
    match reply {
        Ok(payload) => rendered(payload, quoted),
        Err(message) => Err(message),
    }
}

/// Writes the JSON text of a payload round the quoted form of its text.
pub fn render(payload: Payload, quoted: Result<String, String>) -> (text: Result<String, String>)
    ensures
        text_view(text) == rendered(payload@, text_view(quoted)),
{
    match payload {
        Payload::Bool(flag) => Ok(String::from_str(bool_str(flag))),
        Payload::Text(text) => quoted,
        Payload::Count(count) => Ok(decimal(count as u64)),
        Payload::Content { content, utp_transfer } => match quoted {
            Ok(literal) => {
                let mut text = String::from_str("{\"content\":");
                text.append(literal.as_str());
                text.append(",\"utpTransfer\":");
                text.append(bool_str(utp_transfer));
                text.append("}");
                Ok(text)
            },
            Err(fault) => Err(fault),
        },
        Payload::TraceContent { content, utp_transfer, trace } => match quoted {
            Ok(literal) => {
                let mut text = String::from_str("{\"content\":");
                text.append(literal.as_str());
                text.append(",\"utpTransfer\":");
                text.append(bool_str(utp_transfer));
                text.append(",\"trace\":");
                text.append(trace.as_str());
                text.append("}");
                Ok(text)
            },
            Err(fault) => Err(fault),
        },
        Payload::Enrs { enrs } => {
            let mut text = String::from_str("{\"enrs\":");
            text.append(enrs.as_str());
            text.append("}");
            Ok(text)
        },
        Payload::Nodes { enrs } => Ok(enrs),
        Payload::Accept { content_keys } => {
            let mut text = String::from_str("{\"contentKeys\":");
            text.append(content_keys.as_str());
            text.append("}");
            Ok(text)
        },
        Payload::Pong { enr_seq, data_radius } => {
            let mut text = String::from_str("{\"enrSeq\":");
            text.append(decimal(enr_seq).as_str());
            text.append(",\"dataRadius\":");
            text.append(data_radius.as_str());
            text.append("}");
            Ok(text)
        },
        Payload::Value(value) => Ok(value),
    }
}

/// Puts a reply on the wire. The text of the payload, where it has one, is
/// quoted by the JSON serializer; the result is the rendering round what it
/// wrote, or its error. A failed reply keeps its message.
pub fn marshal(reply: Reply) -> (wire: Result<String, String>)
    ensures
        exists|quoted: Result<Seq<char>, Seq<char>>|
            quoted_for_reply(reply_view(reply), quoted) && text_view(wire)
                == #[trigger] wire_reply(reply_view(reply), quoted),
{
    match reply {
        Ok(payload) => {
            let quoted = match &payload {
                Payload::Text(text) => quote_json(text.as_str()),
                Payload::Content { content, utp_transfer } => quote_json(content.as_str()),
                Payload::TraceContent { content, utp_transfer, trace } => quote_json(
                    content.as_str(),
                ),
                _ => Err(String::new()),
            };
            let ghost witness = text_view(quoted);
            let wire = render(payload, quoted);
            assert(quoted_for_reply(reply_view(reply), witness) && text_view(wire)
                == wire_reply(reply_view(reply), witness));
            wire
        },
        Err(message) => {
            let wire = Err(message);
            assert(quoted_for_reply(reply_view(reply), Err(Seq::empty())) && text_view(wire)
                == wire_reply(reply_view(reply), Err(Seq::empty())));
            wire
        },
    }
}

} // verus!
