//! The session registry: the authoritative live mapping from generated
//! session identifiers to session state. Keys are unique; no ordering is
//! guaranteed; lookups of absent identifiers report not-found rather than
//! failing the caller.

use vstd::prelude::*;
use std::collections::HashMap;
use crate::GatewayError;
use crate::session::Session;

verus! {

broadcast use vstd::std_specs::hash::group_hash_axioms;

/// Maps session identifiers to live session state. An entry exists from
/// the moment a handshake completes until teardown runs.
pub struct Registry {
    sessions: HashMap<u128, Session>,
}

impl View for Registry {
    type V = Map<u128, Session>;

    closed spec fn view(&self) -> Map<u128, Session> {
        self.sessions@
    }
}

impl Registry {
    /// An empty registry.
    pub fn new() -> (r: Registry)
        ensures
            r@ == Map::<u128, Session>::empty(),
    {
        Registry { sessions: HashMap::new() }
    }

    /// The number of live entries. Observable for diagnostics only; never
    /// an input to a control decision.
    pub fn len(&self) -> (n: usize)
        ensures
            n == self@.len(),
    {
        self.sessions.len()
    }

    /// Whether an identifier is registered.
    pub fn contains(&self, id: u128) -> (r: bool)
        ensures
            r == self@.contains_key(id),
    {
        self.sessions.contains_key(&id)
    }

    /// Register a session under `id`. Fails with `DuplicateSession`, and
    /// changes nothing, exactly when the identifier is already taken.
    pub fn insert(&mut self, id: u128, session: Session) -> (r: Result<(), GatewayError>)
        ensures
            old(self)@.contains_key(id) ==> r == Err::<(), GatewayError>(
                GatewayError::DuplicateSession,
            ) && final(self)@ == old(self)@,
            !old(self)@.contains_key(id) ==> r == Ok::<(), GatewayError>(()) && final(self)@
                == old(self)@.insert(id, session),
    {
        if self.sessions.contains_key(&id) {
            Err(GatewayError::DuplicateSession)
        } else {
            self.sessions.insert(id, session);
            Ok(())
        }
    }

    /// Look up the session registered under `id`, if any.
    pub fn lookup(&self, id: u128) -> (r: Option<Session>)
        ensures
            r == if self@.contains_key(id) {
                Some(self@[id])
            } else {
                None::<Session>
            },
    {
        match self.sessions.get(&id) {
            Some(s) => Some(*s),
            None => None,
        }
    }

    /// Drop the entry under `id`, handing back the removed session.
    /// Idempotent: on an absent identifier nothing changes and `None`
    /// comes back.
    pub fn remove(&mut self, id: u128) -> (r: Option<Session>)
        ensures
            final(self)@ == old(self)@.remove(id),
            r == if old(self)@.contains_key(id) {
                Some(old(self)@[id])
            } else {
                None::<Session>
            },
    {
        let r = self.sessions.remove(&id);
        proof {
            if !old(self)@.contains_key(id) {
                assert(final(self)@ =~= old(self)@.remove(id));
            }
        }
        r
    }

    /// The single teardown routine every cleanup path converges on: drop
    /// the registry entry and terminate the removed session. Idempotent:
    /// a second call finds no entry and changes nothing.
    pub fn teardown(&mut self, id: u128) -> (r: Option<Session>)
        ensures
            final(self)@ == old(self)@.remove(id),
            old(self)@.contains_key(id) ==> r == Some(old(self)@[id].spec_terminate()),
            !old(self)@.contains_key(id) ==> r == None::<Session>,
            r matches Some(s) ==> !s.is_live(),
    {
        match self.remove(id) {
            Some(mut s) => {
                s.terminate();
                Some(s)
            },
            None => None,
        }
    }
}

/// Removing an identifier is idempotent: removing it twice leaves the
/// registry exactly as removing it once does.
pub proof fn lemma_remove_idempotent(m: Map<u128, Session>, id: u128)
    ensures
        m.remove(id).remove(id) == m.remove(id),
{
    assert(m.remove(id).remove(id) =~= m.remove(id));
}

/// Two sessions can never share an identifier: once one is registered
/// under `id`, the registry contains `id`, and by the contract of
/// `insert` a second insert under `id` fails with `DuplicateSession`.
pub proof fn lemma_duplicate_insert_refused(m: Map<u128, Session>, id: u128, s: Session)
    ensures
        m.insert(id, s).contains_key(id),
{
}

/// Concurrent creation of two sessions never leaves two sessions under
/// one identifier, whatever identifiers the generator handed out: with
/// distinct fresh identifiers both registrations succeed and each
/// identifier names its own session; with equal ones the first
/// registration already holds the identifier, so by the contract of
/// `insert` the second fails with `DuplicateSession`.
pub proof fn lemma_no_identifier_collision(
    m: Map<u128, Session>,
    a: u128,
    b: u128,
    s1: Session,
    s2: Session,
)
    requires
        !m.contains_key(a),
        !m.contains_key(b),
    ensures
        a != b ==> m.insert(a, s1).insert(b, s2)[a] == s1 && m.insert(a, s1).insert(b, s2)[b]
            == s2,
        a == b ==> m.insert(a, s1).contains_key(b),
{
}

/// Per-connection failures are isolated: registering, replacing or
/// removing one session's entry leaves every other session's entry
/// exactly as it was.
pub proof fn lemma_entries_independent(m: Map<u128, Session>, id: u128, s: Session, other: u128)
    requires
        other != id,
    ensures
        m.remove(id).contains_key(other) == m.contains_key(other),
        m.insert(id, s).contains_key(other) == m.contains_key(other),
        m.contains_key(other) ==> m.remove(id)[other] == m[other],
        m.contains_key(other) ==> m.insert(id, s)[other] == m[other],
{
}

} // verus!
