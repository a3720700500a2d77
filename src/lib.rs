//! Idle-inhibition control for a graphical login session: the two-valued
//! idle state and its stored token, the match filters of the bus
//! subscriptions, and the serialized transition protocol that keeps the
//! inhibitor grant in step with the state.
pub mod bus;
pub mod config;
pub mod coordinator;
pub mod laws;
pub mod session;
pub mod state;
pub mod text;

pub use state::State;
pub use config::Config;
pub use session::SessionInfo;
