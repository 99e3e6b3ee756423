//! Replies for the endpoints that read and write the local content store.

use vstd::prelude::*;
use vstd::string::*;
use crate::hex::{encode_hex, hex_text};
use crate::reply::{reply_view, Payload, PayloadView, Reply, ReplyView};
use crate::text::{decimal, decimal_text, text_view, unit_view};

verus! {

/// What the store returned for a key, with bytes and text as sequences.
pub open spec fn lookup_view(lookup: Result<Option<Vec<u8>>, String>) -> Result<
    Option<Seq<u8>>,
    Seq<char>,
> {
    match lookup {
        Ok(Some(content)) => Ok(Some(content@)),
        Ok(None) => Ok(None),
        Err(fault) => Err(fault@),
    }
}

/// The reply to a request for local content: the content in hex where the
/// store holds it, and otherwise an error that says whether the content is
/// missing or the store failed. `key` is the key as the node prints it for
/// debugging.
pub open spec fn local_content_reply(
    key: Seq<char>,
    lookup: Result<Option<Seq<u8>>, Seq<char>>,
) -> ReplyView {
    match lookup {
        Ok(Some(content)) => Ok(PayloadView::Text(hex_text(content))),
        Ok(None) => Err("Content not found in local storage"@),
        Err(fault) => Err(
            "Database error while looking for content key in local storage: "@ + key
                + ", with error: "@ + fault,
        ),
    }
}

/// The reply to a request for a page of local content keys: the page, or an
/// error that names the offset and the limit and carries the store's message.
pub open spec fn paginate_reply(
    offset: u64,
    limit: u64,
    page: Result<Seq<char>, Seq<char>>,
) -> ReplyView {
    match page {
        Ok(page) => Ok(PayloadView::Value(page)),
        Err(fault) => Err(
            "Database error while paginating local content keys with offset: "@ + decimal_text(
                offset as nat,
            ) + ", limit: "@ + decimal_text(limit as nat) + ". Error message: "@ + fault,
        ),
    }
}

/// The reply to a request to store content: `true` where the store took it.
/// A failure is no error: the reply succeeds and carries the store's message.
pub open spec fn store_reply(put: Result<(), Seq<char>>) -> ReplyView {
    match put {
        Ok(_) => Ok(PayloadView::Bool(true)),
        Err(fault) => Ok(PayloadView::Text(fault)),
    }
}

/// Builds the reply to a request for local content.
pub fn local_content(key: &str, lookup: Result<Option<Vec<u8>>, String>) -> (reply: Reply)
    ensures
        reply_view(reply) == local_content_reply(key@, lookup_view(lookup)),
{
    match lookup {
        Ok(Some(content)) => Ok(Payload::Text(encode_hex(&content))),
        Ok(None) => Err(String::from_str("Content not found in local storage")),
        Err(fault) => {
            let mut message = String::from_str(
                "Database error while looking for content key in local storage: ",
            );
            message.append(key);
            message.append(", with error: ");
            message.append(fault.as_str());
            Err(message)
        },
    }
}

/// Builds the reply to a request for a page of local content keys.
pub fn paginate_local_content_keys(offset: u64, limit: u64, page: Result<String, String>) -> (reply:
    Reply)
    ensures
        reply_view(reply) == paginate_reply(offset, limit, text_view(page)),
{
    match page {
        Ok(page) => Ok(Payload::Value(page)),
        Err(fault) => {
            let mut message = String::from_str(
                "Database error while paginating local content keys with offset: ",
            );
            message.append(decimal(offset).as_str());
            message.append(", limit: ");
            message.append(decimal(limit).as_str());
            message.append(". Error message: ");
            message.append(fault.as_str());
            Err(message)
        },
    }
}

/// Builds the reply to a request to store content.
pub fn store(put: Result<(), String>) -> (reply: Reply)
    ensures
        reply_view(reply) == store_reply(unit_view(put)),
{
    match put {
        Ok(_) => Ok(Payload::Bool(true)),
        Err(fault) => Ok(Payload::Text(fault)),
    }
}

/// The store as the dispatcher relies on it: content by key.
pub type Contents = Map<Seq<u8>, Seq<u8>>;

/// What a store with these contents returns for a key when it does not fail.
pub open spec fn stored(contents: Contents, key: Seq<u8>) -> Result<Option<Seq<u8>>, Seq<char>> {
    if contents.contains_key(key) {
        Ok(Some(contents[key]))
    } else {
        Ok(None)
    }
}

/// Content that was stored comes back. Where the store took `content` under
/// `key`, the request to store it is answered with `true`, and a request for
/// the local content of `key` that follows is answered with `content` in hex,
/// whatever the store held before.
pub proof fn lemma_store_then_local_content(
    contents: Contents,
    key: Seq<u8>,
    key_text: Seq<char>,
    content: Seq<u8>,
)
    ensures
        store_reply(Ok(())) == Ok::<PayloadView, Seq<char>>(PayloadView::Bool(true)),
        local_content_reply(key_text, stored(contents.insert(key, content), key)) == Ok::<
            PayloadView,
            Seq<char>,
        >(PayloadView::Text(hex_text(content))),
{
}

/// Storing leaves other keys alone: a request for the local content of a key
/// is answered the same before and after content is stored under another.
pub proof fn lemma_store_leaves_other_keys(
    contents: Contents,
    key: Seq<u8>,
    other: Seq<u8>,
    other_text: Seq<char>,
    content: Seq<u8>,
)
    requires
        key != other,
    ensures
        local_content_reply(other_text, stored(contents.insert(key, content), other))
            == local_content_reply(other_text, stored(contents, other)),
{
}

} // verus!
