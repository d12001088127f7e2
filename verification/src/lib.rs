//! A stream correlation engine: it groups the messages of a stream into
//! windows that open and close by configured conditions, and fires the
//! configured actions when a window closes.
use vstd::prelude::*;

pub mod action;
pub mod conditions;
pub mod config;
pub mod context;
pub mod correlator;
pub mod dispatcher;
pub mod laws;
pub mod message;
pub mod state;
pub mod test_utils;

pub use action::{Action, ActionCommand, Alert, MessageAction, MessageActionBuilder};
pub use conditions::{Conditions, ConditionsBuilder};
pub use correlator::Correlator;
pub use dispatcher::{Request, Response, ResponseHandle};
pub use message::{Message, MessageBuilder};
pub use state::State;

verus! {

/// Milliseconds, the unit in which every duration of the engine is counted.
pub type MiliSec = u64;

} // verus!
