//! The state that all clients share: the file system, the configuration and
//! the sessions.

use crate::config::{default_config, AppConfig};
use crate::session::{no_sessions, SessionRegistry, SessionSpec};
use crate::vfs::VirtualFileSystem;
use vstd::prelude::*;

verus! {

/// The state that all clients share. Each part can be put behind a lock of
/// its own: no operation needs two of them at once.
pub struct AppState {
    pub vfs: VirtualFileSystem,
    pub config: AppConfig,
    pub sessions: SessionRegistry,
}

impl AppState {
    /// The state around the file system `vfs`, with the configuration of a
    /// new installation and without sessions.
    pub fn new(vfs: VirtualFileSystem) -> (s: Self)
        ensures
            s.vfs == vfs,
            s.config@ == default_config(),
            s.sessions@ == no_sessions(),
    {
        AppState { vfs, config: AppConfig::default(), sessions: SessionRegistry::new() }
    }

    /// Registers a session for a new connection and returns its identifier.
    pub fn create_session(&mut self) -> (id: String)
        ensures
            exists|now: crate::clock::Timestamp|
                final(self).sessions@ == old(self).sessions@.insert(
                    id@,
                    SessionSpec::opened(id@, now),
                ),
            final(self).vfs == old(self).vfs,
            final(self).config == old(self).config,
    {
        self.sessions.create()
    }

    /// Records that a message just came in on the session `session_id`.
    /// Where there is no such session, nothing changes.
    pub fn update_session_activity(&mut self, session_id: &str)
        ensures
            old(self).sessions@.contains_key(session_id@) ==> exists|now: crate::clock::Timestamp|
                final(self).sessions@ == old(self).sessions@.insert(
                    session_id@,
                    old(self).sessions@[session_id@].touched(now),
                ),
            !old(self).sessions@.contains_key(session_id@) ==> final(self).sessions@ == old(
                self,
            ).sessions@,
            final(self).vfs == old(self).vfs,
            final(self).config == old(self).config,
    {
        self.sessions.touch(session_id);
    }
}

} // verus!
