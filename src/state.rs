//! The idle-inhibition flag and its one-token stored form.
use vstd::prelude::*;
use vstd::string::*;
use crate::text::{char_is_white_space, is_white_space};

verus! {

/// Whether idle inhibition is requested.
#[derive(Clone, Copy, Debug, PartialEq, Eq, Structural)]
pub enum State {
    Enabled,
    Disabled,
}

/// `content` is the token `1` with nothing but white space around it.
pub open spec fn holds_enabled_token(content: Seq<char>) -> bool {
    exists|i: int|
        0 <= i < content.len() && content[i] == '1' && (forall|j: int|
            0 <= j < content.len() && j != i ==> is_white_space(#[trigger] content[j]))
}

/// The file name, inside the runtime directory, under which the state of
/// the session `session_id` is kept (one shared name when no session is known).
pub open spec fn state_file_name_of(session_id: Option<Seq<char>>) -> Seq<char> {
    match session_id {
        Some(id) => "logind-idle-control-session-"@ + id + ".state"@,
        None => "logind-idle-control.state"@,
    }
}

impl State {
    /// The other value.
    pub open spec fn complement(self) -> State {
        match self {
            State::Enabled => State::Disabled,
            State::Disabled => State::Enabled,
        }
    }

    /// The stored token: `1` for enabled, `0` for disabled.
    pub open spec fn token(self) -> Seq<char> {
        match self {
            State::Enabled => seq!['1'],
            State::Disabled => seq!['0'],
        }
    }

    /// What stored content reads as: enabled only for the token `1`
    /// (white space around it aside); anything else is disabled.
    pub open spec fn decoded(content: Seq<char>) -> State {
        if holds_enabled_token(content) {
            State::Enabled
        } else {
            State::Disabled
        }
    }

    /// What a load yields: disabled when nothing was stored.
    pub open spec fn loaded(stored: Option<Seq<char>>) -> State {
        match stored {
            Some(content) => State::decoded(content),
            None => State::Disabled,
        }
    }

    pub fn toggle(&self) -> (r: State)
        ensures
            r == self.complement(),
    {
        match self {
            State::Enabled => State::Disabled,
            State::Disabled => State::Enabled,
        }
    }

    pub fn is_enabled(&self) -> (r: bool)
        ensures
            r == (*self == State::Enabled),
    {
        matches!(self, State::Enabled)
    }

    /// The state that a `StateChanged(enabled)` payload reports.
    pub fn from_enabled(enabled: bool) -> (r: State)
        ensures
            (r == State::Enabled) == enabled,
    {
        if enabled {
            State::Enabled
        } else {
            State::Disabled
        }
    }

    /// The token written to the state file, also the text shown for the state.
    pub fn as_token(&self) -> (r: &'static str)
        ensures
            r@ == self.token(),
    {
        proof {
            reveal_strlit("1");
            reveal_strlit("0");
        }
        match self {
            State::Enabled => "1",
            State::Disabled => "0",
        }
    }

    /// Reads stored content; never fails, unrecognised content is disabled.
    pub fn from_content(content: &str) -> (r: State)
        ensures
            r == State::decoded(content@),
    {
        let n = content.unicode_len();
        let mut first: Option<usize> = None;
        for i in 0..n
            invariant
                n == content@.len(),
                match first {
                    None => forall|j: int| 0 <= j < i ==> is_white_space(#[trigger] content@[j]),
                    Some(p) => p < i && !is_white_space(content@[p as int]) && forall|j: int|
                        0 <= j < i && j != p ==> is_white_space(#[trigger] content@[j]),
                },
        {
            let c = content.get_char(i);
            if !char_is_white_space(c) {
                match first {
                    None => {
                        first = Some(i);
                    },
                    Some(p) => {
                        assert(!holds_enabled_token(content@)) by {
                            if holds_enabled_token(content@) {
                                let w = choose|w: int|
                                    0 <= w < content@.len() && content@[w] == '1' && (forall|j: int|
                                        0 <= j < content@.len() && j != w ==> is_white_space(
                                            #[trigger] content@[j],
                                        ));
                                assert(w == p as int);
                                assert(w == i as int);
                            }
                        }
                        return State::Disabled;
                    },
                }
            }
        }
        match first {
            None => {
                assert(!holds_enabled_token(content@)) by {
                    if holds_enabled_token(content@) {
                        let w = choose|w: int|
                            0 <= w < content@.len() && content@[w] == '1' && (forall|j: int|
                                0 <= j < content@.len() && j != w ==> is_white_space(
                                    #[trigger] content@[j],
                                ));
                        assert(is_white_space(content@[w]));
                    }
                }
                State::Disabled
            },
            Some(p) => {
                if content.get_char(p) == '1' {
                    assert(holds_enabled_token(content@));
                    State::Enabled
                } else {
                    assert(!holds_enabled_token(content@)) by {
                        if holds_enabled_token(content@) {
                            let w = choose|w: int|
                                0 <= w < content@.len() && content@[w] == '1' && (forall|j: int|
                                    0 <= j < content@.len() && j != w ==> is_white_space(
                                        #[trigger] content@[j],
                                    ));
                            assert(w == p as int);
                        }
                    }
                    State::Disabled
                }
            },
        }
    }

    /// The state a load yields from what was stored, if anything was.
    pub fn from_stored(stored: Option<&str>) -> (r: State)
        ensures
            r == State::loaded(
                match stored {
                    Some(c) => Some(c@),
                    None => None,
                },
            ),
    {
        match stored {
            Some(content) => State::from_content(content),
            None => State::Disabled,
        }
    }
}

/// Builds the state file name for `session_id`.
pub fn state_file_name(session_id: Option<&str>) -> (r: String)
    ensures
        r@ == state_file_name_of(
            match session_id {
                Some(id) => Some(id@),
                None => None,
            },
        ),
{
    match session_id {
        Some(id) => {
            let mut name = String::from_str("logind-idle-control-session-");
            name.append(id);
            name.append(".state");
            name
        },
        None => String::from_str("logind-idle-control.state"),
    }
}

/// Writing a state's token and reading it back gives the same state; an
/// absent record, an empty one and any unrecognised one read as disabled.
pub proof fn lemma_token_round_trip(s: State, content: Seq<char>)
    ensures
        State::loaded(Some(s.token())) == s,
        State::loaded(None) == State::Disabled,
        State::loaded(Some(Seq::empty())) == State::Disabled,
        !holds_enabled_token(content) ==> State::loaded(Some(content)) == State::Disabled,
{
    match s {
        State::Enabled => {
            let t = s.token();
            assert(t[0] == '1');
            assert(holds_enabled_token(t));
        },
        State::Disabled => {
            let t = s.token();
            assert(!holds_enabled_token(t)) by {
                if holds_enabled_token(t) {
                    let w = choose|w: int|
                        0 <= w < t.len() && t[w] == '1' && (forall|j: int|
                            0 <= j < t.len() && j != w ==> is_white_space(#[trigger] t[j]));
                    assert(w == 0);
                }
            }
        },
    }
}

} // verus!
