//! The serialized transition protocol: one owner of the idle state and of
//! the inhibitor grant, which every inbound request goes through.
use vstd::prelude::*;
use crate::state::State;
use crate::text::str_equals;

verus! {

/// A request to change the idle state, as named by a bus member.
#[derive(Clone, Copy, Debug, PartialEq, Eq, Structural)]
pub enum Request {
    Enable,
    Disable,
    Toggle,
}

/// The request a member name stands for; other names stand for none.
pub open spec fn request_of(member: Seq<char>) -> Option<Request> {
    if member == "Enable"@ {
        Some(Request::Enable)
    } else if member == "Disable"@ {
        Some(Request::Disable)
    } else if member == "Toggle"@ {
        Some(Request::Toggle)
    } else {
        None
    }
}

/// The state reached from `start` by applying `requests` from first to last.
pub open spec fn fold_requests(start: State, requests: Seq<Request>) -> State
    decreases requests.len(),
{
    if requests.len() == 0 {
        start
    } else {
        fold_requests(requests[0].apply(start), requests.drop_first())
    }
}

impl Request {
    /// The state that this request commits when the current state is `current`.
    pub open spec fn apply(self, current: State) -> State {
        match self {
            Request::Enable => State::Enabled,
            Request::Disable => State::Disabled,
            Request::Toggle => current.complement(),
        }
    }

    pub fn from_member(member: &str) -> (r: Option<Request>)
        ensures
            r == request_of(member@),
    {
        if str_equals(member, "Enable") {
            Some(Request::Enable)
        } else if str_equals(member, "Disable") {
            Some(Request::Disable)
        } else if str_equals(member, "Toggle") {
            Some(Request::Toggle)
        } else {
            None
        }
    }

    pub fn target(&self, current: State) -> (r: State)
        ensures
            r == self.apply(current),
    {
        match self {
            Request::Enable => State::Enabled,
            Request::Disable => State::Disabled,
            Request::Toggle => current.toggle(),
        }
    }
}

/// The committed state together with whether an inhibitor grant is held.
#[derive(Clone, Copy, Debug, PartialEq, Eq, Structural)]
pub struct Snapshot {
    pub state: State,
    pub holding: bool,
}

/// Committing a request: the new state, and the grant dropped unless that
/// state is enabled.
pub open spec fn after_request(v: Snapshot, request: Request) -> Snapshot {
    let s = request.apply(v.state);
    Snapshot { state: s, holding: s == State::Enabled && v.holding }
}

/// Committing `requests` one at a time, first to last, from `v`.
pub open spec fn after_requests(v: Snapshot, requests: Seq<Request>) -> Snapshot
    decreases requests.len(),
{
    if requests.len() == 0 {
        v
    } else {
        after_request(after_requests(v, requests.drop_last()), requests.last())
    }
}

/// A grant is to be asked for: the state is enabled and none is held.
pub open spec fn needs_grant(v: Snapshot) -> bool {
    v.state == State::Enabled && !v.holding
}

/// The outcome of an acquisition attempt: a grant is kept only where the
/// state is enabled; a failure leaves things as they were.
pub open spec fn after_acquire(v: Snapshot, granted: bool) -> Snapshot {
    Snapshot { state: v.state, holding: v.holding || (v.state == State::Enabled && granted) }
}

/// What one committed transition asks of the caller.
#[derive(Clone, Copy, Debug, PartialEq, Eq, Structural)]
pub struct Commit {
    /// The committed state: to be stored, and to be announced.
    pub state: State,
    /// Whether a grant is to be acquired (and handed to `install`).
    pub acquire: bool,
}

impl Commit {
    /// The `StateChanged` payload that announces this transition.
    pub fn payload(&self) -> (r: bool)
        ensures
            r == (self.state == State::Enabled),
    {
        self.state.is_enabled()
    }
}

/// The idle state and the inhibitor grant `H`, owned together so that
/// every change to one is made with the other in view.
pub struct Coordinator<H> {
    state: State,
    inhibitor: Option<H>,
}

impl<H> View for Coordinator<H> {
    type V = Snapshot;

    closed spec fn view(&self) -> Snapshot {
        Snapshot { state: self.state, holding: self.inhibitor is Some }
    }
}

impl<H> Coordinator<H> {
    /// Starts from a loaded state, holding no grant.
    pub fn new(initial: State) -> (r: Self)
        ensures
            r@ == (Snapshot { state: initial, holding: false }),
    {
        Coordinator { state: initial, inhibitor: None }
    }

    pub fn state(&self) -> (r: State)
        ensures
            r == self@.state,
    {
        self.state
    }

    pub fn holds_inhibitor(&self) -> (r: bool)
        ensures
            r == self@.holding,
    {
        self.inhibitor.is_some()
    }

    pub fn snapshot(&self) -> (r: Snapshot)
        ensures
            r == self@,
    {
        Snapshot { state: self.state, holding: self.inhibitor.is_some() }
    }

    /// Commits `request`: writes the new state and releases any grant when
    /// that state is disabled. The result says whether a grant is wanted.
    pub fn handle(&mut self, request: Request) -> (r: Commit)
        ensures
            final(self)@ == after_request(old(self)@, request),
            r.state == final(self)@.state,
            r.acquire == needs_grant(final(self)@),
    {
        let next = request.target(self.state);
        self.state = next;
        let acquire = match next {
            State::Enabled => self.inhibitor.is_none(),
            State::Disabled => {
                self.inhibitor = None;
                false
            },
        };
        Commit { state: next, acquire }
    }

    /// Commits the request that `member` names; an unrecognised member
    /// changes nothing and yields `None`.
    pub fn handle_member(&mut self, member: &str) -> (r: Option<Commit>)
        ensures
            match request_of(member@) {
                None => r is None && final(self)@ == old(self)@,
                Some(q) => r is Some && final(self)@ == after_request(old(self)@, q)
                    && r->0.state == final(self)@.state && r->0.acquire == needs_grant(
                    final(self)@,
                ),
            },
    {
        match Request::from_member(member) {
            Some(q) => Some(self.handle(q)),
            None => None,
        }
    }

    /// Takes the outcome of an acquisition attempt. A grant is kept only when
    /// the state is enabled and none is held yet; otherwise it is dropped.
    pub fn install(&mut self, acquired: Option<H>)
        ensures
            final(self)@ == after_acquire(old(self)@, acquired is Some),
    {
        if self.inhibitor.is_none() {
            if let State::Enabled = self.state {
                self.inhibitor = acquired;
            }
        }
    }

    /// Drops any grant held, leaving the state as it is (used at shutdown).
    pub fn release(&mut self)
        ensures
            final(self)@ == (Snapshot { state: old(self)@.state, holding: false }),
    {
        self.inhibitor = None;
    }
}

} // verus!
