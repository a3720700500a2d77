//! The daemon's settings and their defaults.
use vstd::prelude::*;
use vstd::string::*;
use crate::bus::Listener;

verus! {

/// The daemon's settings.
#[derive(Clone, Debug)]
pub struct Config {
    /// The state to start in when none is stored.
    pub state_on_start: bool,
    /// Whether a session lock disables idle inhibition.
    pub disable_on_lock: bool,
    /// The log filter directive.
    pub log_level: String,
}

pub fn default_state_on_start() -> (r: bool)
    ensures
        r == false,
{
    false
}

pub fn default_disable_on_lock() -> (r: bool)
    ensures
        r == true,
{
    true
}

pub fn default_log_level() -> (r: String)
    ensures
        r@ == "info"@,
{
    String::from_str("info")
}

impl Default for Config {
    fn default() -> (r: Self)
        ensures
            r.state_on_start == false,
            r.disable_on_lock == true,
            r.log_level@ == "info"@,
    {
        Config {
            state_on_start: default_state_on_start(),
            disable_on_lock: default_disable_on_lock(),
            log_level: default_log_level(),
        }
    }
}

impl Config {
    /// The listeners the daemon runs under these settings: the control
    /// listener, the lock listener only where a lock is to disable, and the
    /// unlock listener.
    pub fn listeners(&self) -> (r: Vec<Listener>)
        ensures
            self.disable_on_lock ==> r@ == seq![Listener::Control, Listener::Lock, Listener::Unlock],
            !self.disable_on_lock ==> r@ == seq![Listener::Control, Listener::Unlock],
    {
        let mut r: Vec<Listener> = Vec::new();
        r.push(Listener::Control);
        if self.disable_on_lock {
            r.push(Listener::Lock);
        }
        r.push(Listener::Unlock);
        proof {
            if self.disable_on_lock {
                assert(r@ =~= seq![Listener::Control, Listener::Lock, Listener::Unlock]);
            } else {
                assert(r@ =~= seq![Listener::Control, Listener::Unlock]);
            }
        }
        r
    }
}

} // verus!
