//! Replies for the endpoints that read and change the routing table.

use vstd::prelude::*;
use crate::reply::{reply_view, value_reply, Payload, PayloadView, Reply, ReplyView};
use crate::text::{failure, text_view, unit_view};

verus! {

/// The reply to a request to add a node record: `true`, or the overlay's
/// reason in its debug form.
pub open spec fn add_enr_reply(added: Result<(), Seq<char>>) -> ReplyView {
    match added {
        Ok(_) => Ok(PayloadView::Bool(true)),
        Err(reason) => Err("AddEnr failed: "@ + reason),
    }
}

/// The reply to a request for a node record from the routing table.
pub open spec fn get_enr_reply(found: Result<Seq<char>, Seq<char>>) -> ReplyView {
    value_reply("GetEnr failed: "@, found)
}

/// The reply to a request to delete a node record: whether one was deleted.
pub open spec fn delete_enr_reply(is_deleted: bool) -> ReplyView {
    Ok(PayloadView::Bool(is_deleted))
}

/// The reply to a request to look a node record up in the network.
pub open spec fn lookup_enr_reply(found: Result<Seq<char>, Seq<char>>) -> ReplyView {
    value_reply("LookupEnr failed: "@, found)
}

/// The reply to a recursive search for the nodes nearest to a node id: the
/// records found.
pub open spec fn recursive_find_nodes_reply(nodes: Seq<char>) -> ReplyView {
    Ok(PayloadView::Value(nodes))
}

/// Builds the reply to a request to add a node record.
pub fn add_enr(added: Result<(), String>) -> (reply: Reply)
    ensures
        reply_view(reply) == add_enr_reply(unit_view(added)),
{
    match added {
        Ok(_) => Ok(Payload::Bool(true)),
        Err(reason) => Err(failure("AddEnr failed: ", reason.as_str())),
    }
}

/// Builds the reply to a request for a node record from the routing table.
pub fn get_enr(found: Result<String, String>) -> (reply: Reply)
    ensures
        reply_view(reply) == get_enr_reply(text_view(found)),
{
    match found {
        Ok(enr) => Ok(Payload::Value(enr)),
        Err(reason) => Err(failure("GetEnr failed: ", reason.as_str())),
    }
}

/// Builds the reply to a request to delete a node record.
pub fn delete_enr(is_deleted: bool) -> (reply: Reply)
    ensures
        reply_view(reply) == delete_enr_reply(is_deleted),
{
    Ok(Payload::Bool(is_deleted))
}

/// Builds the reply to a request to look a node record up in the network.
pub fn lookup_enr(found: Result<String, String>) -> (reply: Reply)
    ensures
        reply_view(reply) == lookup_enr_reply(text_view(found)),
{
    match found {
        Ok(enr) => Ok(Payload::Value(enr)),
        Err(reason) => Err(failure("LookupEnr failed: ", reason.as_str())),
    }
}

/// Builds the reply to a recursive search for nodes.
pub fn recursive_find_nodes(nodes: String) -> (reply: Reply)
    ensures
        reply_view(reply) == recursive_find_nodes_reply(nodes@),
{
    Ok(Payload::Value(nodes))
}

} // verus!
