//! The events that a hosted service body receives.

use vstd::prelude::*;

verus! {

/// Identifies the user session that a session-change notification is about.
#[derive(Clone, Copy, Debug, PartialEq, Eq, Structural)]
pub struct Session(pub u32);

impl Session {
    /// The identifier that the operating system gave the session.
    pub fn id(&self) -> (id: u32)
        ensures
            id == self.0,
    {
        self.0
    }
}

/// The events that can be sent to the service body.
///
/// Every variant but `Custom` is produced by the control handler alone; `Custom`
/// carries whatever the application sends to itself.
#[derive(Debug, PartialEq, Eq)]
pub enum ServiceEvent<T> {
    /// Continue a previously paused service
    Continue,
    /// Pause the service
    Pause,
    /// Stop the service
    Stop,
    /// A session was connected to the console terminal
    SessionConnect(Session),
    /// A session was disconnected from the console terminal
    SessionDisconnect(Session),
    /// A session was connected to the remote terminal
    SessionRemoteConnect(Session),
    /// A session was disconnected from the remote terminal
    SessionRemoteDisconnect(Session),
    /// A user has logged on to the session
    SessionLogon(Session),
    /// A user has logged off the session
    SessionLogoff(Session),
    /// The session has been locked
    SessionLock(Session),
    /// The session has been unlocked
    SessionUnlock(Session),
    /// A custom message for the service
    Custom(T),
}

impl<T> ServiceEvent<T> {
    /// The session that a session event is about.
    pub open spec fn spec_session(self) -> Option<Session> {
        match self {
            ServiceEvent::SessionConnect(s)
            | ServiceEvent::SessionDisconnect(s)
            | ServiceEvent::SessionRemoteConnect(s)
            | ServiceEvent::SessionRemoteDisconnect(s)
            | ServiceEvent::SessionLogon(s)
            | ServiceEvent::SessionLogoff(s)
            | ServiceEvent::SessionLock(s)
            | ServiceEvent::SessionUnlock(s) => Some(s),
            _ => None,
        }
    }

    /// The session that a session event is about, `None` for every other event.
    pub fn session(&self) -> (session: Option<Session>)
        ensures
            session == self.spec_session(),
    {
        match self {
            ServiceEvent::SessionConnect(s) => Some(*s),
            ServiceEvent::SessionDisconnect(s) => Some(*s),
            ServiceEvent::SessionRemoteConnect(s) => Some(*s),
            ServiceEvent::SessionRemoteDisconnect(s) => Some(*s),
            ServiceEvent::SessionLogon(s) => Some(*s),
            ServiceEvent::SessionLogoff(s) => Some(*s),
            ServiceEvent::SessionLock(s) => Some(*s),
            ServiceEvent::SessionUnlock(s) => Some(*s),
            _ => None,
        }
    }
}

} // verus!
