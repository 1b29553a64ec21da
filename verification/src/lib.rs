//! A verified input dispatcher: the coordination task of an interactive,
//! multi-threaded application that turns the first incoming input event into
//! an ordered, multi-party shutdown handshake.
//!
//! The dispatcher registers itself with the OS-event subsystem, waits for the
//! first input event, and then, strictly in order: notifies the application
//! model, asks the compositor to exit (handing it a one-shot confirmation
//! channel), waits for the confirmation, and finally tells the OS-event
//! subsystem to exit.
//!
//! The library holds the protocol itself: the message kinds, the dispatcher's
//! state machine, and the ordering and once-only guarantees, all verified.
//! The channel plumbing that carries the messages between threads lives
//! outside the library.

pub mod dispatcher;
pub mod laws;
pub mod messages;
