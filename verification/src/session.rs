//! The session registry: one entry for each open connection.

use crate::clock::{now, Timestamp};
use crate::ident::fresh_id;
use vstd::prelude::*;
use vstd::string::*;

verus! {

/// The mathematical value of a session.
pub struct SessionSpec {
    pub id: Seq<char>,
    pub connected_at: Timestamp,
    pub last_activity: Timestamp,
}

/// What the server knows of one connection: its identifier, when it opened
/// and when a message last came in on it.
#[derive(Debug)]
pub struct SessionState {
    pub id: String,
    pub connected_at: Timestamp,
    pub last_activity: Timestamp,
}

impl View for SessionState {
    type V = SessionSpec;

    open spec fn view(&self) -> SessionSpec {
        SessionSpec {
            id: self.id@,
            connected_at: self.connected_at,
            last_activity: self.last_activity,
        }
    }
}

impl Clone for SessionState {
    /// A copy of this session.
    fn clone(&self) -> (c: Self)
        ensures
            c@ == self@,
    {
        SessionState {
            id: self.id.clone(),
            connected_at: self.connected_at,
            last_activity: self.last_activity,
        }
    }
}

impl SessionSpec {
    /// A session that opened at `now`.
    pub open spec fn opened(id: Seq<char>, now: Timestamp) -> SessionSpec {
        SessionSpec { id, connected_at: now, last_activity: now }
    }

    /// This session after a message came in at `now`.
    pub open spec fn touched(self, now: Timestamp) -> SessionSpec {
        SessionSpec { last_activity: now, ..self }
    }
}

impl SessionState {
    /// A session that opened at `now`.
    pub fn opened(id: String, now: Timestamp) -> (s: Self)
        ensures
            s@ == SessionSpec::opened(id@, now),
    {
        SessionState { id, connected_at: now, last_activity: now }
    }

    /// This session after a message came in at `now`.
    pub fn touched(self, now: Timestamp) -> (s: Self)
        ensures
            s@ == self@.touched(now),
    {
        SessionState { id: self.id, connected_at: self.connected_at, last_activity: now }
    }

    /// The identifier of this session.
    pub fn id(&self) -> (id: &str)
        ensures
            id@ == self@.id,
    {
        self.id.as_str()
    }

    /// When this session opened.
    pub fn connected_at(&self) -> (t: &Timestamp)
        ensures
            *t == self@.connected_at,
    {
        &self.connected_at
    }
}

/// `dashmap::DashMap`, the concurrent hash map that holds the sessions.
#[verifier::external_type_specification]
#[verifier::external_body]
#[verifier::reject_recursive_types(K)]
#[verifier::reject_recursive_types(V)]
#[verifier::reject_recursive_types(S)]
pub struct ExDashMap<K, V, S>(dashmap::DashMap<K, V, S>);

/// The entries that a map of sessions holds, each under the text of its key.
pub uninterp spec fn entries(map: dashmap::DashMap<String, SessionState>) -> Map<
    Seq<char>,
    SessionSpec,
>;

/// The map without sessions.
pub open spec fn no_sessions() -> Map<Seq<char>, SessionSpec> {
    Map::empty()
}

/// What a map of sessions holds under `id`, if anything.
pub open spec fn session_at(m: Map<Seq<char>, SessionSpec>, id: Seq<char>) -> Option<
    SessionSpec,
> {
    if m.contains_key(id) {
        Some(m[id])
    } else {
        None
    }
}

/// The value of an optional session.
pub open spec fn session_of(s: Option<SessionState>) -> Option<SessionSpec> {
    match s {
        Some(state) => Some(state@),
        None => None,
    }
}

/// `DashMap::new`: a map without entries.
#[verifier::external_body]
fn map_new() -> (created: dashmap::DashMap<String, SessionState>)
    ensures
        entries(created) == no_sessions(),
{
    dashmap::DashMap::new()
}

/// `DashMap::insert`: stores `value` under `key`, in place of what was
/// stored under it. Trusted; the map is taken exclusively, so that no other
/// holder changes it during the call. The value that was replaced is dropped.
#[verifier::external_body]
fn map_insert(map: &mut dashmap::DashMap<String, SessionState>, key: String, value: SessionState)
    ensures
        entries(*final(map)) == entries(*old(map)).insert(key@, value@),
{
    map.insert(key, value);
}

/// `DashMap::remove`: takes out what is stored under `key`, if anything is.
/// Trusted; the map is taken exclusively. The entry that was taken out is
/// dropped.
#[verifier::external_body]
fn map_remove(map: &mut dashmap::DashMap<String, SessionState>, key: &str)
    ensures
        entries(*final(map)) == entries(*old(map)).remove(key@),
{
    map.remove(key);
}

/// `DashMap::get`, with `Ref::value` for the entry found: a copy of what is
/// stored under `key`, if anything is. Trusted.
#[verifier::external_body]
fn map_get(map: &dashmap::DashMap<String, SessionState>, key: &str) -> (found: Option<
    SessionState,
>)
    ensures
        session_of(found) == session_at(entries(*map), key@),
{
    map.get(key).map(|entry| entry.value().clone())
}

/// `DashMap::contains_key`: whether anything is stored under `key`. Trusted.
#[verifier::external_body]
fn map_contains(map: &dashmap::DashMap<String, SessionState>, key: &str) -> (b: bool)
    ensures
        b == entries(*map).contains_key(key@),
{
    map.contains_key(key)
}

/// The sessions of the open connections, by identifier.
pub struct SessionRegistry {
    sessions: dashmap::DashMap<String, SessionState>,
}

impl View for SessionRegistry {
    type V = Map<Seq<char>, SessionSpec>;

    closed spec fn view(&self) -> Map<Seq<char>, SessionSpec> {
        entries(self.sessions)
    }
}

impl SessionRegistry {
    /// A registry without sessions.
    pub fn new() -> (r: Self)
        ensures
            r@ == no_sessions(),
    {
        SessionRegistry { sessions: map_new() }
    }

    /// Registers a session under `id` that opened at `now`, and returns `id`.
    pub fn create_with(&mut self, id: String, now: Timestamp) -> (out: String)
        ensures
            out@ == id@,
            final(self)@ == old(self)@.insert(id@, SessionSpec::opened(id@, now)),
    {
        let session = SessionState::opened(id.clone(), now);
        map_insert(&mut self.sessions, id.clone(), session);
        id
    }

    /// Registers a session under a fresh identifier, opened at the current
    /// time, and returns the identifier.
    pub fn create(&mut self) -> (id: String)
        ensures
            exists|now: Timestamp|
                final(self)@ == old(self)@.insert(id@, SessionSpec::opened(id@, now)),
    {
        let id = fresh_id();
        let at = now();
        self.create_with(id, at)
    }

    /// Records that a message came in on the session `id` at `now`. Where
    /// there is no such session, nothing changes.
    pub fn touch_at(&mut self, id: &str, now: Timestamp)
        ensures
            old(self)@.contains_key(id@) ==> final(self)@ == old(self)@.insert(
                id@,
                old(self)@[id@].touched(now),
            ),
            !old(self)@.contains_key(id@) ==> final(self)@ == old(self)@,
    {
        match map_get(&self.sessions, id) {
            Some(session) => {
                map_insert(&mut self.sessions, String::from_str(id), session.touched(now));
            },
            None => {},
        }
    }

    /// Records that a message came in on the session `id` just now.
    pub fn touch(&mut self, id: &str)
        ensures
            old(self)@.contains_key(id@) ==> exists|now: Timestamp|
                final(self)@ == old(self)@.insert(id@, old(self)@[id@].touched(now)),
            !old(self)@.contains_key(id@) ==> final(self)@ == old(self)@,
    {
        let at = now();
        self.touch_at(id, at);
    }

    /// Takes out the session `id`, whether or not there is one.
    pub fn remove(&mut self, id: &str)
        ensures
            final(self)@ == old(self)@.remove(id@),
    {
        map_remove(&mut self.sessions, id);
    }

    /// Whether there is a session `id`.
    pub fn contains(&self, id: &str) -> (b: bool)
        ensures
            b == self@.contains_key(id@),
    {
        map_contains(&self.sessions, id)
    }

    /// A copy of the session `id`, if there is one.
    pub fn get(&self, id: &str) -> (found: Option<SessionState>)
        ensures
            session_of(found) == session_at(self@, id@),
    {
        map_get(&self.sessions, id)
    }
}

} // verus!
