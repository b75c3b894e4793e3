//! The control-message router: for each inbound envelope, dispatch to the
//! matching session operation and translate the outcome into an outbound
//! frame. Unknown tags and malformed envelopes are reported and leave the
//! connection open; only an explicit close asks for teardown.

use vstd::prelude::*;
use vstd::string::StringExecFns;
use crate::GatewayError;
use crate::envelope::{classifies, decode_envelope, Envelope};
use crate::frames::{error_message, error_text, unknown_tag_message, unknown_tag_text, Outgoing};
use crate::session::Session;
use crate::trusted::{
    clock_display, clock_text, fresh_session_id, json_accepts, json_cols_of, json_data_of,
    json_rows_of, json_tag_of, now_unix, uuid_text,
};

verus! {

/// Timestamps are clamped to this bound (the last second of the year
/// 9999) before they are displayed.
pub const MAX_DISPLAY_SECS: i64 = 253402300799;

/// What routing one envelope asks of the connection: an optional frame to
/// send, and whether teardown should begin.
pub struct RouteResult {
    pub frame: Option<Outgoing>,
    pub teardown: bool,
}

/// The session state after one envelope is routed at time `now`: input
/// records activity on a live session, a resize updates the dimensions
/// and nothing else, a close begins teardown, and everything else leaves
/// the session as it is.
pub open spec fn route_session(s: Session, env: Envelope, now: i64) -> Session {
    match env {
        Envelope::Input { .. } => s.spec_input(now),
        Envelope::Resize { cols, rows } => s.spec_resize(cols, rows),
        Envelope::Close => s.spec_close(),
        Envelope::Unknown { .. } => s,
        Envelope::Malformed => s,
    }
}

/// The frame routing one envelope sends back, exactly: input on a live
/// session echoes the response with the prompt appended, input on a dead
/// one reports `SessionDead`, a resize and a close answer nothing, an
/// unknown tag draws a warning naming it, and a malformed envelope is
/// reported.
pub open spec fn route_frame(
    s: Session,
    env: Envelope,
    clock: Seq<char>,
    frame: Option<Outgoing>,
) -> bool {
    match env {
        Envelope::Input { data } => if s.is_live() {
            frame matches Some(f) && f matches Outgoing::Output { data: out } && out@
                == crate::session::response_text(data@, uuid_text(s.id), clock) + "$ "@
        } else {
            frame matches Some(f) && f matches Outgoing::Error { message } && message@
                == error_text(GatewayError::SessionDead)
        },
        Envelope::Resize { .. } => frame is None,
        Envelope::Close => frame is None,
        Envelope::Unknown { tag } => frame matches Some(f) && f matches Outgoing::Error { message }
            && message@ == unknown_tag_text(tag@),
        Envelope::Malformed => frame matches Some(f) && f matches Outgoing::Error { message }
            && message@ == error_text(GatewayError::MalformedEnvelope),
    }
}

/// Dispatch one envelope to the session it belongs to, at time `now` with
/// display form `clock`.
pub fn route(session: &mut Session, env: &Envelope, clock: &str, now: i64) -> (r: RouteResult)
    ensures
        *final(session) == route_session(*old(session), *env, now),
        route_frame(*old(session), *env, clock@, r.frame),
        r.teardown == (*env is Close),
{
    match env {
        Envelope::Input { data } => {
            match session.process_input(data.as_str(), clock, now) {
                Ok(out) => {
                    let mut with_prompt = out;
                    with_prompt.append("$ ");
                    RouteResult {
                        frame: Some(Outgoing::Output { data: with_prompt }),
                        teardown: false,
                    }
                },
                Err(e) => RouteResult {
                    frame: Some(Outgoing::Error { message: error_message(e) }),
                    teardown: false,
                },
            }
        },
        Envelope::Resize { cols, rows } => {
            session.resize(*cols, *rows);
            RouteResult { frame: None, teardown: false }
        },
        Envelope::Close => {
            session.close();
            RouteResult { frame: None, teardown: true }
        },
        Envelope::Unknown { tag } => RouteResult {
            frame: Some(Outgoing::Error { message: unknown_tag_message(tag.as_str()) }),
            teardown: false,
        },
        Envelope::Malformed => RouteResult {
            frame: Some(
                Outgoing::Error { message: error_message(GatewayError::MalformedEnvelope) },
            ),
            teardown: false,
        },
    }
}

/// Decode one inbound text and route it: the whole inbound step of a
/// connection. Text that serde_json refuses becomes a malformed-envelope
/// report; whatever the clock read, the session changed exactly as
/// `route_session` says of the returned envelope, the frame is exactly
/// what `route_frame` allows it, and teardown begins only on a close.
pub fn handle_text(session: &mut Session, text: &str) -> (r: (Envelope, RouteResult))
    ensures
        !json_accepts(text@) ==> r.0 == Envelope::Malformed,
        json_accepts(text@) ==> classifies(
            json_tag_of(text@),
            json_data_of(text@),
            json_cols_of(text@),
            json_rows_of(text@),
            r.0,
        ),
        exists|now: i64, secs: i64|
            {
                &&& 0 <= secs <= MAX_DISPLAY_SECS
                &&& *final(session) == route_session(*old(session), r.0, now)
                &&& route_frame(*old(session), r.0, clock_text(secs), r.1.frame)
            },
        r.1.teardown == (r.0 is Close),
        final(session).id == old(session).id,
        final(session).is_live() ==> old(session).is_live(),
{
    let env = decode_envelope(text);
    let now = now_unix();
    let secs: i64 = if 0 <= now && now <= MAX_DISPLAY_SECS {
        now
    } else {
        0
    };
    let clock = clock_display(secs);
    let out = route(session, &env, clock.as_str(), now);
    proof {
        assert(0 <= secs <= MAX_DISPLAY_SECS && *final(session) == route_session(
            *old(session),
            env,
            now,
        ) && route_frame(*old(session), env, clock_text(secs), out.frame));
    }
    (env, out)
}

/// A fresh session around a newly generated identifier, in the Created
/// state, stamped with the time of creation. Of the identifier itself
/// nothing is promised — uniqueness is enforced where the session is
/// registered, never assumed here.
pub fn create_session() -> (s: Session)
    ensures
        s.state is Created,
        s.cols == crate::session::DEFAULT_COLS,
        s.rows == crate::session::DEFAULT_ROWS,
        s.created_at == s.last_activity,
{
    let id = fresh_session_id();
    let now = now_unix();
    Session::new(id, now)
}

/// A resize envelope never kills a session: whatever non-negative
/// dimensions it carries, routing it preserves the lifecycle state, and
/// the frame it draws is never an error notice.
pub proof fn lemma_resize_never_kills(
    s: Session,
    cols: u64,
    rows: u64,
    now: i64,
    clock: Seq<char>,
    frame: Option<Outgoing>,
)
    requires
        route_frame(s, Envelope::Resize { cols, rows }, clock, frame),
    ensures
        route_session(s, Envelope::Resize { cols, rows }, now).state == s.state,
        route_session(s, Envelope::Resize { cols, rows }, now).is_live() == s.is_live(),
        frame is None,
{
}

/// Routing never invents a session or changes whose it is: the identifier
/// survives every envelope.
pub proof fn lemma_route_preserves_identity(s: Session, env: Envelope, now: i64)
    ensures
        route_session(s, env, now).id == s.id,
        route_session(s, env, now).created_at == s.created_at,
{
}

/// Routing any envelope respects the session lifecycle state machine; in
/// particular no envelope revives a terminal session.
pub proof fn lemma_route_respects_lifecycle(s: Session, env: Envelope, now: i64)
    ensures
        crate::session::valid_step(s.state, route_session(s, env, now).state),
{
}

} // verus!
