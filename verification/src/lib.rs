//! Core of a desktop client for an anonymous one-on-one chat service.
//!
//! The library is the session controller: a message-driven state machine
//! that owns the chat session lifecycle, the message log and the typing
//! debounce policy.  Every external stimulus (user input, timer tick,
//! completion of an asynchronous operation) arrives as one [`message::AppMessage`];
//! the controller updates its state synchronously and hands back the
//! asynchronous operations to run as [`message::AppEffect`] values.  The
//! unverified front end executes those effects against the transport and
//! feeds their outcomes back in as new messages.

pub mod controller;
pub mod interests;
pub mod laws;
pub mod message;
pub mod notices;
pub mod style;
