//! What the bus subscriptions match and what their events request.
use vstd::prelude::*;
use vstd::string::*;
use crate::coordinator::{Request, request_of};
use crate::session::SessionInfo;
use crate::text::str_equals;

verus! {

/// Which bus a subscription or an emission goes through.
#[derive(Clone, Copy, Debug, PartialEq, Eq, Structural)]
pub enum BusScope {
    /// The system-wide bus, where the session manager lives.
    System,
    /// The per-user session bus, where the daemon's own interface lives.
    Session,
}

/// `id` with every `-` written as `_`.
pub open spec fn dashes_to_underscores(id: Seq<char>) -> Seq<char> {
    id.map_values(|c: char| if c == '-' { '_' } else { c })
}

/// The daemon's object path for a session id.
pub open spec fn control_path_of(id: Seq<char>) -> Seq<char> {
    "/com/logind/IdleControl/session_"@ + dashes_to_underscores(id)
}

/// Relies on `str::replace`: every match of the pattern `-` is replaced by `_`.
#[verifier::external_body]
fn replace_dashes(s: &str) -> (r: String)
    ensures
        r@ == dashes_to_underscores(s@),
{
    s.replace('-', "_")
}

/// The object path at which the daemon of `session` listens and announces.
pub fn object_path_for_session(session: &SessionInfo) -> (r: String)
    ensures
        r@ == control_path_of(session.id@),
{
    let mut path = String::from_str("/com/logind/IdleControl/session_");
    let id = replace_dashes(session.id.as_str());
    path.append(id.as_str());
    path
}

/// A subscription's match criteria: an event passes when it comes from
/// `path` on `interface` and, where `member` is given, carries that member.
#[derive(Clone, Debug)]
pub struct MatchSpec {
    pub scope: BusScope,
    pub path: String,
    pub interface: String,
    pub member: Option<String>,
}

impl MatchSpec {
    /// The member the criteria name, if any.
    pub open spec fn member_view(&self) -> Option<Seq<char>> {
        match self.member {
            Some(m) => Some(m@),
            None => None,
        }
    }

    /// An event with this header passes the criteria.
    pub open spec fn admits(
        &self,
        path: Option<Seq<char>>,
        interface: Option<Seq<char>>,
        member: Option<Seq<char>>,
    ) -> bool {
        &&& path == Some(self.path@)
        &&& interface == Some(self.interface@)
        &&& member is Some
        &&& (self.member_view() is Some ==> member == self.member_view())
    }

    /// The daemon's control interface of `session`: any member.
    pub fn control(session: &SessionInfo) -> (r: MatchSpec)
        ensures
            r.scope == BusScope::Session,
            r.path@ == control_path_of(session.id@),
            r.interface@ == "com.logind.IdleControl"@,
            r.member_view() is None,
    {
        MatchSpec {
            scope: BusScope::Session,
            path: object_path_for_session(session),
            interface: String::from_str("com.logind.IdleControl"),
            member: None,
        }
    }

    /// The `StateChanged` announcements of the daemon of `session`.
    pub fn state_changes(session: &SessionInfo) -> (r: MatchSpec)
        ensures
            r.scope == BusScope::Session,
            r.path@ == control_path_of(session.id@),
            r.interface@ == "com.logind.IdleControl"@,
            r.member_view() == Some("StateChanged"@),
    {
        MatchSpec {
            scope: BusScope::Session,
            path: object_path_for_session(session),
            interface: String::from_str("com.logind.IdleControl"),
            member: Some(String::from_str("StateChanged")),
        }
    }

    /// The session manager's `member` signal on the object of `session`.
    pub fn session_signal(session: &SessionInfo, member: &str) -> (r: MatchSpec)
        ensures
            r.scope == BusScope::System,
            r.path@ == session.path@,
            r.interface@ == "org.freedesktop.login1.Session"@,
            r.member_view() == Some(member@),
    {
        MatchSpec {
            scope: BusScope::System,
            path: session.path.clone(),
            interface: String::from_str("org.freedesktop.login1.Session"),
            member: Some(String::from_str(member)),
        }
    }

    /// Whether an event with this header passes the criteria.
    pub fn accepts(&self, path: Option<&str>, interface: Option<&str>, member: Option<&str>) -> (r:
        bool)
        ensures
            r == self.admits(
                match path {
                    Some(p) => Some(p@),
                    None => None,
                },
                match interface {
                    Some(i) => Some(i@),
                    None => None,
                },
                match member {
                    Some(m) => Some(m@),
                    None => None,
                },
            ),
    {
        let path_ok = match path {
            Some(p) => str_equals(p, self.path.as_str()),
            None => false,
        };
        let interface_ok = match interface {
            Some(i) => str_equals(i, self.interface.as_str()),
            None => false,
        };
        let member_ok = match member {
            Some(m) => match &self.member {
                Some(want) => str_equals(m, want.as_str()),
                None => true,
            },
            None => false,
        };
        path_ok && interface_ok && member_ok
    }
}

/// The daemon's listeners, which differ only in what they subscribe to and
/// in the request their events make.
#[derive(Clone, Copy, Debug, PartialEq, Eq, Structural)]
pub enum Listener {
    /// `Enable`, `Disable` and `Toggle` sent to the daemon's own interface.
    Control,
    /// The session manager's `Lock`: always a request to disable.
    Lock,
    /// The session manager's `Unlock`: noted, never a transition.
    Unlock,
}

impl Listener {
    /// The request an accepted event with `member` makes.
    pub open spec fn request_spec(self, member: Seq<char>) -> Option<Request> {
        match self {
            Listener::Control => request_of(member),
            Listener::Lock => Some(Request::Disable),
            Listener::Unlock => None,
        }
    }

    pub fn request_for(&self, member: &str) -> (r: Option<Request>)
        ensures
            r == self.request_spec(member@),
    {
        match self {
            Listener::Control => Request::from_member(member),
            Listener::Lock => Some(Request::Disable),
            Listener::Unlock => None,
        }
    }

    /// What this listener subscribes to for `session`.
    pub fn subscription(&self, session: &SessionInfo) -> (r: MatchSpec)
        ensures
            *self == Listener::Control ==> r.scope == BusScope::Session && r.path@
                == control_path_of(session.id@) && r.interface@ == "com.logind.IdleControl"@
                && r.member_view() is None,
            *self != Listener::Control ==> r.scope == BusScope::System && r.path@ == session.path@
                && r.interface@ == "org.freedesktop.login1.Session"@,
            *self == Listener::Lock ==> r.member_view() == Some("Lock"@),
            *self == Listener::Unlock ==> r.member_view() == Some("Unlock"@),
    {
        match self {
            Listener::Control => MatchSpec::control(session),
            Listener::Lock => MatchSpec::session_signal(session, "Lock"),
            Listener::Unlock => MatchSpec::session_signal(session, "Unlock"),
        }
    }
}

} // verus!
