//! Finding content: first in the local store, then through the overlay.

use vstd::prelude::*;
use vstd::string::*;
use crate::hex::{encode_hex, hex_text};
use crate::json::{quote_json, quotes};
use crate::reply::{reply_view, Payload, PayloadView, Reply, ReplyView};
use crate::store::lookup_view;
use crate::text::{bool_str, bool_text, text_view};
use crate::trace::local_trace;
use ethportal_api::types::enr::SszEnr;

verus! {

/// What the overlay's content lookup returned.
#[derive(Debug, PartialEq)]
pub enum LookupOutcome {
    /// The content, whether it came over uTP, and the JSON text of the trace
    /// if one was kept.
    Found { content: Vec<u8>, utp_transfer: bool, trace: Option<String> },
    /// No peer had the content. `trace_text` is the JSON text of the trace,
    /// `null` where none was kept.
    NotFound { message: String, utp: bool, trace_text: String },
    /// The lookup failed for another reason, given in its printed form.
    Failed(String),
}

/// A lookup outcome with its texts and bytes as sequences.
pub enum LookupOutcomeView {
    Found { content: Seq<u8>, utp_transfer: bool, trace: Option<Seq<char>> },
    NotFound { message: Seq<char>, utp: bool, trace_text: Seq<char> },
    Failed(Seq<char>),
}

impl View for LookupOutcome {
    type V = LookupOutcomeView;

    open spec fn view(&self) -> LookupOutcomeView {
        match *self {
            LookupOutcome::Found { content, utp_transfer, trace } => LookupOutcomeView::Found {
                content: content@,
                utp_transfer,
                trace: match trace {
                    Some(trace) => Some(trace@),
                    None => None,
                },
            },
            LookupOutcome::NotFound { message, utp, trace_text } => LookupOutcomeView::NotFound {
                message: message@,
                utp,
                trace_text: trace_text@,
            },
            LookupOutcome::Failed(reason) => LookupOutcomeView::Failed(reason@),
        }
    }
}

/// What follows an event: the reply, or one more call.
#[derive(Debug, PartialEq)]
pub enum Step {
    /// The request is answered with this reply.
    Reply(Reply),
    /// The overlay has to look the content up; its answer comes back as a
    /// lookup outcome, with the same flag.
    LookupContent { is_trace: bool },
}

/// A step with its reply viewed.
pub enum StepView {
    Reply(ReplyView),
    LookupContent { is_trace: bool },
}

impl View for Step {
    type V = StepView;

    open spec fn view(&self) -> StepView {
        match *self {
            Step::Reply(reply) => StepView::Reply(reply_view(reply)),
            Step::LookupContent { is_trace } => StepView::LookupContent { is_trace },
        }
    }
}

/// The reply for content that was found. Without tracing it is the content
/// alone; with tracing it carries the trace, and fails where there is none.
pub open spec fn content_reply(
    content: Seq<u8>,
    utp_transfer: bool,
    trace: Option<Seq<char>>,
    is_trace: bool,
) -> ReplyView {
    if !is_trace {
        Ok(PayloadView::Content { content: hex_text(content), utp_transfer })
    } else {
        match trace {
            Some(trace) => Ok(
                PayloadView::TraceContent { content: hex_text(content), utp_transfer, trace },
            ),
            None => Err("Content query trace requested but none provided."@),
        }
    }
}

/// What follows the probe of the local store. On a hit the request is
/// answered with the content, not over uTP; where tracing was asked for, with
/// `local_trace`, the trace written for the hit, or with the serializer's
/// error where writing it failed. Where the store does not hold the content,
/// or failed, the overlay's lookup follows.
pub open spec fn probe_step(
    lookup: Result<Option<Seq<u8>>, Seq<char>>,
    is_trace: bool,
    local_trace: Result<Seq<char>, Seq<char>>,
) -> StepView {
    match lookup {
        Ok(Some(content)) => if is_trace {
            match local_trace {
                Ok(trace) => StepView::Reply(content_reply(content, false, Some(trace), true)),
                Err(fault) => StepView::Reply(Err(fault)),
            }
        } else {
            StepView::Reply(content_reply(content, false, None, false))
        },
        _ => StepView::LookupContent { is_trace },
    }
}

/// The message of a lookup that found no content, with the way it looked.
pub open spec fn not_found_message(message: Seq<char>, utp: bool) -> Seq<char> {
    message + ": utp: "@ + bool_text(utp)
}

/// The error for content that no peer had: a JSON object in text, with the
/// quoted message under `message` and the trace under `trace`. Where the
/// message could not be quoted, the error is the serializer's.
pub open spec fn not_found_error(
    quoted: Result<Seq<char>, Seq<char>>,
    trace_text: Seq<char>,
) -> Seq<char> {
    match quoted {
        Ok(literal) => "{\"message\":"@ + literal + ",\"trace\":"@ + trace_text + "}"@,
        Err(fault) => fault,
    }
}

/// The reply for what the overlay returned, given the quoted form of the
/// message to use where no peer had the content.
pub open spec fn lookup_reply(
    outcome: LookupOutcomeView,
    is_trace: bool,
    quoted: Result<Seq<char>, Seq<char>>,
) -> ReplyView {
    match outcome {
        LookupOutcomeView::Found { content, utp_transfer, trace } => content_reply(
            content,
            utp_transfer,
            trace,
            is_trace,
        ),
        LookupOutcomeView::NotFound { message, utp, trace_text } => Err(
            not_found_error(quoted, trace_text),
        ),
        LookupOutcomeView::Failed(reason) => Err(reason),
    }
}

/// Whether `quoted` can be what the serializer returned for an outcome: for
/// a lookup that found nothing, the quoted form of its message or an error.
/// For any other outcome the serializer is not asked.
pub open spec fn quoted_for(outcome: LookupOutcomeView, quoted: Result<Seq<char>, Seq<char>>) -> bool {
    outcome matches LookupOutcomeView::NotFound { message, utp, trace_text } ==> quotes(
        quoted,
        not_found_message(message, utp),
    )
}

/// Builds the reply for content that was found.
pub fn content_info(
    content: Vec<u8>,
    utp_transfer: bool,
    trace: Option<String>,
    is_trace: bool,
) -> (reply: Reply)
    ensures
        reply_view(reply) == content_reply(
            content@,
            utp_transfer,
            match trace {
                Some(trace) => Some(trace@),
                None => None,
            },
            is_trace,
        ),
{
    let text = encode_hex(&content);
    if !is_trace {
        return Ok(Payload::Content { content: text, utp_transfer });
    }
    match trace {
        Some(trace) => Ok(Payload::TraceContent { content: text, utp_transfer, trace }),
        None => Err(String::from_str("Content query trace requested but none provided.")),
    }
}

/// Decides what follows the probe of the local store, given the trace
/// written for a hit.
pub fn after_probe(
    lookup: Result<Option<Vec<u8>>, String>,
    is_trace: bool,
    local_trace: Result<String, String>,
) -> (step: Step)
    ensures
        step@ == probe_step(lookup_view(lookup), is_trace, text_view(local_trace)),
{
    match lookup {
        Ok(Some(content)) => {
            if is_trace {
                match local_trace {
                    Ok(trace) => Step::Reply(content_info(content, false, Some(trace), true)),
                    Err(fault) => Step::Reply(Err(fault)),
                }
            } else {
                Step::Reply(content_info(content, false, None, false))
            }
        },
        Ok(None) => Step::LookupContent { is_trace },
        Err(_) => Step::LookupContent { is_trace },
    }
}

/// Decides what follows the probe of the local store for a content lookup.
///
/// On a hit with tracing, the trace is started at the local node, for the
/// content id, and records the local node as the one that served the
/// content. What the trace holds besides depends on the clock, so the reply
/// is stated for whatever text the trace came to.
pub fn recursive_find_content(
    lookup: Result<Option<Vec<u8>>, String>,
    is_trace: bool,
    local_enr: &SszEnr,
    content_id: [u8; 32],
) -> (step: Step)
    ensures
        exists|local_trace: Result<Seq<char>, Seq<char>>|
            step@ == #[trigger] probe_step(lookup_view(lookup), is_trace, local_trace),
{
    let is_hit = match &lookup {
        Ok(Some(_)) => true,
        _ => false,
    };
    let trace = if is_hit && is_trace {
        local_trace(local_enr, content_id)
    } else {
        Err(String::new())
    };
    let ghost witness = text_view(trace);
    let step = after_probe(lookup, is_trace, trace);
    assert(step@ == probe_step(lookup_view(lookup), is_trace, witness));
    step
}

/// Frames the error for content that no peer had.
pub fn content_not_found(quoted: Result<String, String>, trace_text: &str) -> (error: String)
    ensures
        error@ == not_found_error(text_view(quoted), trace_text@),
{
    match quoted {
        Ok(literal) => {
            let mut error = String::from_str("{\"message\":");
            error.append(literal.as_str());
            error.append(",\"trace\":");
            error.append(trace_text);
            error.append("}");
            error
        },
        Err(fault) => fault,
    }
}

/// Builds the reply for what the overlay's content lookup returned.
///
/// Where no peer had the content, the serializer quotes the message; the
/// reply is the error framed round what it wrote, or its own error. In every
/// other case the reply does not depend on the serializer.
pub fn overlay_content(outcome: LookupOutcome, is_trace: bool) -> (reply: Reply)
    ensures
        exists|quoted: Result<Seq<char>, Seq<char>>|
            quoted_for(outcome@, quoted) && reply_view(reply) == #[trigger] lookup_reply(
                outcome@,
                is_trace,
                quoted,
            ),
{
    match outcome {
        LookupOutcome::Found { content, utp_transfer, trace } => {
            let reply = content_info(content, utp_transfer, trace, is_trace);
            assert(quoted_for(outcome@, Err(Seq::empty())) && reply_view(reply)
                == lookup_reply(outcome@, is_trace, Err(Seq::empty())));
            reply
        },
        LookupOutcome::NotFound { message, utp, trace_text } => {
            let mut text = message;
            text.append(": utp: ");
            text.append(bool_str(utp));
            let quoted = quote_json(text.as_str());
            let ghost witness = text_view(quoted);
            let error = content_not_found(quoted, trace_text.as_str());
            let reply = Err(error);
            assert(quoted_for(outcome@, witness) && reply_view(reply) == lookup_reply(
                outcome@,
                is_trace,
                witness,
            ));
            reply
        },
        LookupOutcome::Failed(reason) => {
            let reply = Err(reason);
            assert(quoted_for(outcome@, Err(Seq::empty())) && reply_view(reply)
                == lookup_reply(outcome@, is_trace, Err(Seq::empty())));
            reply
        },
    }
}

/// Whether a payload has the shape that the flag asks for: content with a
/// trace where tracing was asked for, content without one where it was not.
pub open spec fn shaped_for(payload: PayloadView, is_trace: bool) -> bool {
    if is_trace {
        payload is TraceContent
    } else {
        payload is Content
    }
}

/// A lookup that succeeds answers in the shape that was asked for, at either
/// stage: after the probe of the local store and after the overlay's lookup.
/// With tracing every successful reply carries a trace; without, none does.
pub proof fn lemma_trace_presence(
    lookup: Result<Option<Seq<u8>>, Seq<char>>,
    outcome: LookupOutcomeView,
    is_trace: bool,
    local_trace: Result<Seq<char>, Seq<char>>,
    quoted: Result<Seq<char>, Seq<char>>,
)
    ensures
        probe_step(lookup, is_trace, local_trace) matches StepView::Reply(Ok(payload))
            ==> shaped_for(payload, is_trace),
        lookup_reply(outcome, is_trace, quoted) matches Ok(payload) ==> shaped_for(
            payload,
            is_trace,
        ),
{
}

/// The trace of a traced reply is the one that was written or handed in: a
/// local hit answers with the trace written for it, an overlay hit with the
/// overlay's, and an overlay hit without a trace fails.
pub proof fn lemma_trace_passed_on(content: Seq<u8>, utp_transfer: bool, trace: Seq<char>)
    ensures
        probe_step(Ok(Some(content)), true, Ok(trace)) == StepView::Reply(
            Ok(PayloadView::TraceContent { content: hex_text(content), utp_transfer: false, trace }),
        ),
        content_reply(content, utp_transfer, Some(trace), true) == Ok::<PayloadView, Seq<char>>(
            PayloadView::TraceContent { content: hex_text(content), utp_transfer, trace },
        ),
        content_reply(content, utp_transfer, None, true) is Err,
{
}

/// Content that the local store holds is answered from it: after a hit the
/// request has its reply and the overlay is not asked; without tracing the
/// reply is the content in hex, not over uTP. Only a probe that did not hit
/// leads to the overlay.
pub proof fn lemma_local_hit_skips_overlay(
    lookup: Result<Option<Seq<u8>>, Seq<char>>,
    is_trace: bool,
    local_trace: Result<Seq<char>, Seq<char>>,
)
    ensures
        lookup matches Ok(Some(content)) ==> probe_step(lookup, is_trace, local_trace) is Reply,
        lookup matches Ok(Some(content)) ==> !is_trace ==> probe_step(lookup, is_trace, local_trace)
            == StepView::Reply(
            Ok(PayloadView::Content { content: hex_text(content), utp_transfer: false }),
        ),
        !(lookup matches Ok(Some(content))) ==> probe_step(lookup, is_trace, local_trace) == (
        StepView::LookupContent { is_trace }),
{
}

} // verus!
