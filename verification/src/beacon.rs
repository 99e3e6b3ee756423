//! Replies for the endpoints that ask the beacon client for a state root.

use vstd::prelude::*;
use vstd::string::*;
use crate::reply::{reply_view, Payload, PayloadView, Reply, ReplyView};

verus! {

/// What asking the beacon client for a header came to.
#[derive(Debug, PartialEq)]
pub enum HeaderFetch {
    /// The node runs without a beacon client.
    Uninitialized,
    /// The client answered: the state root of the header as JSON text, or
    /// its error in printed form.
    Fetched(Result<String, String>),
}

/// A header fetch with its texts as character sequences.
pub enum HeaderFetchView {
    Uninitialized,
    Fetched(Result<Seq<char>, Seq<char>>),
}

impl View for HeaderFetch {
    type V = HeaderFetchView;

    open spec fn view(&self) -> HeaderFetchView {
        match *self {
            HeaderFetch::Uninitialized => HeaderFetchView::Uninitialized,
            HeaderFetch::Fetched(Ok(root)) => HeaderFetchView::Fetched(Ok(root@)),
            HeaderFetch::Fetched(Err(fault)) => HeaderFetchView::Fetched(Err(fault@)),
        }
    }
}

/// The reply to a request for a state root: the root of the header that the
/// beacon client returned, its error, or the fixed error of a node that has
/// no beacon client.
pub open spec fn state_root_reply(fetch: HeaderFetchView) -> ReplyView {
    match fetch {
        HeaderFetchView::Uninitialized => Err("Beacon client not initialized"@),
        HeaderFetchView::Fetched(Ok(root)) => Ok(PayloadView::Value(root)),
        HeaderFetchView::Fetched(Err(fault)) => Err(fault),
    }
}

/// Builds the reply to a request for a state root.
pub fn state_root(fetch: HeaderFetch) -> (reply: Reply)
    ensures
        reply_view(reply) == state_root_reply(fetch@),
{
    match fetch {
        HeaderFetch::Uninitialized => Err(String::from_str("Beacon client not initialized")),
        HeaderFetch::Fetched(Ok(root)) => Ok(Payload::Value(root)),
        HeaderFetch::Fetched(Err(fault)) => Err(fault),
    }
}

} // verus!
