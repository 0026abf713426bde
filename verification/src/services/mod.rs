//! The responder's side of a flow: its state machine and the router that
//! finds the handler of an incoming start message.

pub mod router;
