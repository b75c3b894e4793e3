//! One terminal session: its lifecycle state machine, its terminal
//! dimensions, and the operations a connection may perform on it.

use vstd::prelude::*;
use vstd::string::StringExecFns;
use crate::GatewayError;
use crate::trusted::{session_id_display, uuid_text};

verus! {

/// Default terminal width, in columns, until the client resizes.
pub const DEFAULT_COLS: u64 = 80;

/// Default terminal height, in rows, until the client resizes.
pub const DEFAULT_ROWS: u64 = 24;

/// Lifecycle of a session. A session is created at handshake, becomes
/// active once its backing process is confirmed running, enters closing
/// on an explicit close or a transport disconnect, and ends in one of the
/// two terminal states.
#[derive(Clone, Copy, PartialEq, Eq, Structural, Debug)]
pub enum SessionState {
    Created,
    Active,
    Closing,
    Closed,
    Crashed,
}

/// One session: an opaque generated identifier, the lifecycle state, the
/// current terminal dimensions, and activity timestamps in Unix seconds.
#[derive(Clone, Copy, PartialEq, Eq, Structural, Debug)]
pub struct Session {
    pub id: u128,
    pub state: SessionState,
    pub cols: u64,
    pub rows: u64,
    pub created_at: i64,
    pub last_activity: i64,
}

/// The text returned to the client for one processed line of input: it
/// names what was processed, the session it happened in, and when, and
/// ends with a newline.
pub open spec fn response_text(input: Seq<char>, id_text: Seq<char>, clock: Seq<char>) -> Seq<
    char,
> {
    "processed: "@ + input + "\nsession "@ + id_text + "\nat "@ + clock + "\n"@
}

impl Session {
    /// A session is live exactly while its backing process is running.
    pub open spec fn is_live(self) -> bool {
        self.state is Active
    }

    /// Closed and Crashed are terminal: no operation leaves them.
    pub open spec fn is_terminal(self) -> bool {
        self.state is Closed || self.state is Crashed
    }

    /// State after the backing process is confirmed running.
    pub open spec fn spec_activate(self) -> Session {
        if self.state is Created {
            Session { state: SessionState::Active, ..self }
        } else {
            self
        }
    }

    /// State after an explicit close or a transport disconnect begins
    /// teardown: Closing, unless the session is already terminal.
    pub open spec fn spec_close(self) -> Session {
        if self.is_terminal() {
            self
        } else {
            Session { state: SessionState::Closing, ..self }
        }
    }

    /// State after the child process has been signalled and the terminal
    /// released: Closed, unless the session is already terminal.
    pub open spec fn spec_terminate(self) -> Session {
        if self.is_terminal() {
            self
        } else {
            Session { state: SessionState::Closed, ..self }
        }
    }

    /// State after the backing process exits unexpectedly.
    pub open spec fn spec_crash(self) -> Session {
        if self.is_terminal() {
            self
        } else {
            Session { state: SessionState::Crashed, ..self }
        }
    }

    /// State after a window-size change from the client.
    pub open spec fn spec_resize(self, cols: u64, rows: u64) -> Session {
        Session { cols, rows, ..self }
    }

    /// State after one line of input is forwarded at time `now`: activity
    /// is recorded on a live session; a dead session is left unchanged.
    pub open spec fn spec_input(self, now: i64) -> Session {
        if self.is_live() {
            Session { last_activity: now, ..self }
        } else {
            self
        }
    }

    /// What forwarding input returns: the response text — naming this
    /// session — on a live session, `SessionDead` otherwise.
    pub open spec fn input_response(self, input: Seq<char>, clock: Seq<char>) -> Result<
        Seq<char>,
        GatewayError,
    > {
        if self.is_live() {
            Ok(response_text(input, uuid_text(self.id), clock))
        } else {
            Err(GatewayError::SessionDead)
        }
    }

    /// A fresh session in the Created state with default dimensions.
    pub fn new(id: u128, now: i64) -> (s: Session)
        ensures
            s == (Session {
                id,
                state: SessionState::Created,
                cols: DEFAULT_COLS,
                rows: DEFAULT_ROWS,
                created_at: now,
                last_activity: now,
            }),
    {
        Session {
            id,
            state: SessionState::Created,
            cols: DEFAULT_COLS,
            rows: DEFAULT_ROWS,
            created_at: now,
            last_activity: now,
        }
    }

    /// Mark the backing process as confirmed running.
    pub fn activate(&mut self)
        ensures
            *final(self) == old(self).spec_activate(),
    {
        if let SessionState::Created = self.state {
            self.state = SessionState::Active;
        }
    }

    /// Begin teardown on an explicit close or a disconnect.
    pub fn close(&mut self)
        ensures
            *final(self) == old(self).spec_close(),
    {
        if !self.is_terminal_now() {
            self.state = SessionState::Closing;
        }
    }

    /// Signal the child process and release the terminal. Safe to call
    /// any number of times: a terminal state is left as it is.
    pub fn terminate(&mut self)
        ensures
            *final(self) == old(self).spec_terminate(),
            !final(self).is_live(),
    {
        if !self.is_terminal_now() {
            self.state = SessionState::Closed;
        }
    }

    /// Record that the backing process exited on its own.
    pub fn crash(&mut self)
        ensures
            *final(self) == old(self).spec_crash(),
            !final(self).is_live(),
    {
        if !self.is_terminal_now() {
            self.state = SessionState::Crashed;
        }
    }

    /// Propagate a window-size change. The lifecycle state is untouched:
    /// a resize never kills a session.
    pub fn resize(&mut self, cols: u64, rows: u64)
        ensures
            *final(self) == old(self).spec_resize(cols, rows),
            final(self).state == old(self).state,
    {
        self.cols = cols;
        self.rows = rows;
    }

    /// Forward one line of input to the backing process at time `now`,
    /// with `clock` the display form of that time. On a live session the
    /// response text — carrying the input, this session's identifier and
    /// the clock, terminated by a newline — comes back and activity is
    /// recorded; on any other state the call fails with `SessionDead` and
    /// nothing changes.
    pub fn process_input(&mut self, input: &str, clock: &str, now: i64) -> (r: Result<
        String,
        GatewayError,
    >)
        ensures
            *final(self) == old(self).spec_input(now),
            old(self).is_live() ==> (r matches Ok(out) && out@ == response_text(
                input@,
                uuid_text(old(self).id),
                clock@,
            )),
            !old(self).is_live() ==> r == Err::<String, GatewayError>(GatewayError::SessionDead),
    {
        if self.is_live_now() {
            self.last_activity = now;
            let id_text = session_id_display(self.id);
            let mut out = String::from_str("processed: ");
            out.append(input);
            out.append("\nsession ");
            out.append(id_text.as_str());
            out.append("\nat ");
            out.append(clock);
            out.append("\n");
            Ok(out)
        } else {
            Err(GatewayError::SessionDead)
        }
    }

    /// Whether the session is live, at run time.
    pub fn is_live_now(&self) -> (r: bool)
        ensures
            r == self.is_live(),
    {
        matches!(self.state, SessionState::Active)
    }

    /// Whether the session is in a terminal state, at run time.
    pub fn is_terminal_now(&self) -> (r: bool)
        ensures
            r == self.is_terminal(),
    {
        matches!(self.state, SessionState::Closed | SessionState::Crashed)
    }
}

/// The lifecycle discipline, as one step: an operation either stands
/// still, confirms a created session as active, or moves a non-terminal
/// session toward Closing, Closed or Crashed. A terminal state is never
/// left.
pub open spec fn valid_step(pre: SessionState, post: SessionState) -> bool {
    ||| post == pre
    ||| (pre is Created && post is Active)
    ||| (!(pre is Closed || pre is Crashed) && (post is Closing || post is Closed
        || post is Crashed))
}

/// Every session operation respects the lifecycle state machine
/// `Created → Active → { Closing → Closed | Crashed }`: none of them can
/// leave a terminal state or skip the discipline above.
pub proof fn lemma_operations_respect_lifecycle(s: Session, cols: u64, rows: u64, now: i64)
    ensures
        valid_step(s.state, s.spec_activate().state),
        valid_step(s.state, s.spec_close().state),
        valid_step(s.state, s.spec_terminate().state),
        valid_step(s.state, s.spec_crash().state),
        valid_step(s.state, s.spec_resize(cols, rows).state),
        valid_step(s.state, s.spec_input(now).state),
{
}

/// The response to one line of input is never empty and ends with a
/// newline, whatever the input, identifier and clock; that it carries the
/// input and the session identifier is its very definition.
pub proof fn lemma_response_shape(input: Seq<char>, id_text: Seq<char>, clock: Seq<char>)
    ensures
        response_text(input, id_text, clock).len() > 0,
        response_text(input, id_text, clock).last() == '\n',
{
    reveal_strlit("processed: ");
    reveal_strlit("\nsession ");
    reveal_strlit("\nat ");
    reveal_strlit("\n");
    assert(("\n"@).len() == 1);
    assert(response_text(input, id_text, clock).last() == ("\n"@)[0]);
}

/// Termination is idempotent: signalling an already terminated session
/// changes nothing.
pub proof fn lemma_terminate_idempotent(s: Session)
    ensures
        s.spec_terminate().spec_terminate() == s.spec_terminate(),
{
}

/// After termination a session is dead, so any further input is refused
/// with `SessionDead` and the session does not change.
pub proof fn lemma_input_after_terminate(s: Session, input: Seq<char>, clock: Seq<char>, now: i64)
    ensures
        !s.spec_terminate().is_live(),
        s.spec_terminate().input_response(input, clock) == Err::<Seq<char>, GatewayError>(
            GatewayError::SessionDead,
        ),
        s.spec_terminate().spec_input(now) == s.spec_terminate(),
{
}

/// A resize never changes the lifecycle state: an active session stays
/// active under any non-negative dimensions.
pub proof fn lemma_resize_preserves_state(s: Session, cols: u64, rows: u64)
    ensures
        s.spec_resize(cols, rows).state == s.state,
        s.spec_resize(cols, rows).is_live() == s.is_live(),
{
}

} // verus!
