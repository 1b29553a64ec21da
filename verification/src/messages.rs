//! The messages of the shutdown protocol.
//!
//! The dispatcher exchanges messages with three peers: the OS-event
//! subsystem, the compositor, and the application model. In the running
//! system two of the outbound messages carry a channel endpoint as payload
//! (the registration carries the sender half of the fresh event channel, the
//! exit request carries the sender half of a fresh one-shot confirmation
//! channel). The endpoints themselves are plumbing owned by the surrounding
//! system; the protocol's logic depends only on which kind of message is
//! sent, and in what order, so the library models each outbound message by
//! its kind.

use vstd::prelude::*;

verus! {

/// One OS-level input occurrence. Its payload is opaque to the dispatcher:
/// any event, whatever its `code`, triggers the shutdown handshake.
#[derive(PartialEq, Eq, Structural, Clone, Copy, Debug)]
pub struct InputEvent {
    pub code: u64,
}

/// The kinds of message the dispatcher sends, one variant per peer-bound
/// message of the protocol.
#[derive(PartialEq, Eq, Structural, Clone, Copy, Debug)]
pub enum Outbound {
    /// To the OS-event subsystem: register for input-event delivery. In the
    /// running system this carries the sender half of the dispatcher's fresh
    /// event channel.
    RegisterHandler,
    /// To the application model: the content-free "teardown is starting"
    /// notification. Fire-and-forget; no acknowledgment is awaited.
    Notify,
    /// To the compositor: request teardown. In the running system this
    /// carries the sender half of a fresh one-shot confirmation channel.
    ExitRequest,
    /// To the OS-event subsystem: the dispatcher is terminating; no further
    /// event deliveries are expected.
    OsExit,
}

/// The occurrences the dispatcher can observe: an input event delivered on
/// the registered event channel, or the compositor's confirmation delivered
/// on the one-shot channel that the exit request handed out.
#[derive(PartialEq, Eq, Structural, Clone, Copy, Debug)]
pub enum Event {
    Input(InputEvent),
    ExitConfirmation,
}

} // verus!
