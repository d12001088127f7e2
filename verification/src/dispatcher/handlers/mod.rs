//! The handlers that the reactor gives its requests to, one for each kind.
pub mod exit;
pub mod message;
pub mod timer;
