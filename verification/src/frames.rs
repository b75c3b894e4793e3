//! Outbound frames: streamed output and recoverable error notices, and
//! their JSON wire form `{"type":"output","data":...}` /
//! `{"type":"error","message":...}`.

use vstd::prelude::*;
use vstd::string::StringExecFns;
use crate::GatewayError;
use crate::trusted::{json_quote, json_string_lit, session_id_display, uuid_text};

verus! {

/// An outbound frame: process output streamed to the client, or a
/// recoverable error notice that leaves the connection open.
#[derive(Clone, PartialEq, Eq, Debug)]
pub enum Outgoing {
    Output { data: String },
    Error { message: String },
}

/// The notice text for each recoverable failure.
pub open spec fn error_text(e: GatewayError) -> Seq<char> {
    match e {
        GatewayError::HandshakeFailure => "handshake failed"@,
        GatewayError::SpawnFailure => "could not spawn the session process"@,
        GatewayError::SessionDead => "session is no longer alive"@,
        GatewayError::MalformedEnvelope => "malformed envelope"@,
        GatewayError::TransportError => "transport error"@,
        GatewayError::DuplicateSession => "session identifier already registered"@,
    }
}

/// The warning text for an envelope whose tag is recognized by nobody.
pub open spec fn unknown_tag_text(tag: Seq<char>) -> Seq<char> {
    "unknown envelope type: "@ + tag
}

/// The wire form of an output frame, over the already-quoted data.
pub open spec fn output_frame_text(quoted: Seq<char>) -> Seq<char> {
    "{\"type\":\"output\",\"data\":"@ + quoted + "}"@
}

/// The wire form of an error frame, over the already-quoted message.
pub open spec fn error_frame_text(quoted: Seq<char>) -> Seq<char> {
    "{\"type\":\"error\",\"message\":"@ + quoted + "}"@
}

/// The greeting streamed to a client right after its session is
/// registered, naming the session.
pub open spec fn welcome_text(id_text: Seq<char>) -> Seq<char> {
    "session "@ + id_text + "\n$ "@
}

/// The notice text for a recoverable failure, as a value.
pub fn error_message(e: GatewayError) -> (m: String)
    ensures
        m@ == error_text(e),
{
    match e {
        GatewayError::HandshakeFailure => String::from_str("handshake failed"),
        GatewayError::SpawnFailure => String::from_str("could not spawn the session process"),
        GatewayError::SessionDead => String::from_str("session is no longer alive"),
        GatewayError::MalformedEnvelope => String::from_str("malformed envelope"),
        GatewayError::TransportError => String::from_str("transport error"),
        GatewayError::DuplicateSession => String::from_str(
            "session identifier already registered",
        ),
    }
}

/// The warning message for an unrecognized envelope tag, as a value.
pub fn unknown_tag_message(tag: &str) -> (m: String)
    ensures
        m@ == unknown_tag_text(tag@),
{
    let mut m = String::from_str("unknown envelope type: ");
    m.append(tag);
    m
}

/// Build an output frame around data that is already a JSON string
/// literal.
pub fn compose_output_frame(quoted: &str) -> (r: String)
    ensures
        r@ == output_frame_text(quoted@),
{
    let mut r = String::from_str("{\"type\":\"output\",\"data\":");
    r.append(quoted);
    r.append("}");
    r
}

/// Build an error frame around a message that is already a JSON string
/// literal.
pub fn compose_error_frame(quoted: &str) -> (r: String)
    ensures
        r@ == error_frame_text(quoted@),
{
    let mut r = String::from_str("{\"type\":\"error\",\"message\":");
    r.append(quoted);
    r.append("}");
    r
}

/// The JSON wire form of a frame: its payload quoted as a JSON string
/// literal inside the matching envelope shape.
pub fn frame_json(f: &Outgoing) -> (r: String)
    ensures
        match *f {
            Outgoing::Output { data } => r@ == output_frame_text(json_string_lit(data@)),
            Outgoing::Error { message } => r@ == error_frame_text(json_string_lit(message@)),
        },
{
    match f {
        Outgoing::Output { data } => {
            let quoted = json_quote(data.as_str());
            compose_output_frame(quoted.as_str())
        },
        Outgoing::Error { message } => {
            let quoted = json_quote(message.as_str());
            compose_error_frame(quoted.as_str())
        },
    }
}

/// The greeting for a freshly registered session, as a value.
pub fn welcome_message(id: u128) -> (r: String)
    ensures
        r@ == welcome_text(uuid_text(id)),
{
    let id_text = session_id_display(id);
    let mut r = String::from_str("session ");
    r.append(id_text.as_str());
    r.append("\n$ ");
    r
}

/// Turn the chunks a process produced into output frames, one per chunk,
/// in exactly the order the process produced them: the frame at every
/// position carries the chunk at that position, so forwarding never
/// reorders output.
pub fn frames_for_output(chunks: &Vec<String>) -> (r: Vec<Outgoing>)
    ensures
        r@.len() == chunks@.len(),
        forall|i: int|
            0 <= i < r@.len() ==> (#[trigger] r@[i] matches Outgoing::Output { data }
                && data@ == chunks@[i]@),
{
    let mut r: Vec<Outgoing> = Vec::new();
    let mut k: usize = 0;
    while k < chunks.len()
        invariant
            k <= chunks@.len(),
            r@.len() == k,
            forall|i: int|
                0 <= i < k ==> (#[trigger] r@[i] matches Outgoing::Output { data } && data@
                    == chunks@[i]@),
        decreases chunks@.len() - k,
    {
        let data = chunks[k].clone();
        r.push(Outgoing::Output { data });
        k = k + 1;
    }
    r
}

} // verus!
