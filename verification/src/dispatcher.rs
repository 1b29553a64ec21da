//! The dispatcher's state machine.
//!
//! The dispatcher moves through four phases: it registers with the OS-event
//! subsystem, listens for the first input event, runs the shutdown handshake
//! until the compositor confirms, and terminates. Every message it ever
//! sends is recorded, in send order, in a ghost log; the phase alone
//! determines the whole log, which is what the ordering and once-only
//! guarantees rest on.

use crate::messages::{Event, InputEvent, Outbound};
use vstd::prelude::*;

verus! {

/// The dispatcher's control state.
///
/// `ShuttingDown` is the phase in which the model has been notified and the
/// exit request has been issued, and the dispatcher is suspended awaiting
/// the compositor's confirmation. `Terminated` is terminal: no transition
/// leaves it.
#[derive(PartialEq, Eq, Structural, Clone, Copy, Debug)]
pub enum Phase {
    Registering,
    Listening,
    ShuttingDown,
    Terminated,
}

/// The mathematical model of a dispatcher: its phase and the log of every
/// outbound message so far, in send order.
pub ghost struct DispatcherModel {
    pub phase: Phase,
    pub log: Seq<Outbound>,
}

/// The full message log a dispatcher has produced once it reaches phase `p`.
pub open spec fn trace_for(p: Phase) -> Seq<Outbound> {
    match p {
        Phase::Registering => seq![],
        Phase::Listening => seq![Outbound::RegisterHandler],
        Phase::ShuttingDown => seq![
            Outbound::RegisterHandler,
            Outbound::Notify,
            Outbound::ExitRequest,
        ],
        Phase::Terminated => seq![
            Outbound::RegisterHandler,
            Outbound::Notify,
            Outbound::ExitRequest,
            Outbound::OsExit,
        ],
    }
}

/// Well-formedness: the message log is exactly the one the phase accounts
/// for. `Dispatcher::new` establishes it and every transition preserves it.
pub open spec fn model_wf(m: DispatcherModel) -> bool {
    m.log == trace_for(m.phase)
}

/// What observing `ev` does to a dispatcher in model state `m`: the next
/// model state and the messages sent in reaction, in send order.
///
/// Only two observations cause any action: the first input event while
/// listening (which commits the dispatcher to the handshake and sends the
/// model notification followed by the compositor exit request), and the
/// compositor's confirmation while shutting down (which releases the final
/// exit message to the OS-event subsystem). Every other observation, in
/// particular any further input event after the first, changes nothing.
pub open spec fn step(m: DispatcherModel, ev: Event) -> (DispatcherModel, Seq<Outbound>) {
    if m.phase is Listening && ev is Input {
        (
            DispatcherModel {
                phase: Phase::ShuttingDown,
                log: m.log + seq![Outbound::Notify, Outbound::ExitRequest],
            },
            seq![Outbound::Notify, Outbound::ExitRequest],
        )
    } else if m.phase is ShuttingDown && ev is ExitConfirmation {
        (
            DispatcherModel { phase: Phase::Terminated, log: m.log + seq![Outbound::OsExit] },
            seq![Outbound::OsExit],
        )
    } else {
        (m, seq![])
    }
}

/// The dispatcher. Its executable state is the phase; the log of sent
/// messages is ghost, kept only so that contracts can speak of it.
pub struct Dispatcher {
    phase: Phase,
    sent: Ghost<Seq<Outbound>>,
}

impl View for Dispatcher {
    type V = DispatcherModel;

    closed spec fn view(&self) -> DispatcherModel {
        DispatcherModel { phase: self.phase, log: self.sent@ }
    }
}

impl Dispatcher {
    /// Well-formedness of the dispatcher, as `model_wf` of its model.
    pub open spec fn wf(self) -> bool {
        model_wf(self@)
    }

    /// A fresh dispatcher: nothing sent yet, registration still to do.
    pub fn new() -> (d: Dispatcher)
        ensures
            d@.phase is Registering,
            d@.log == Seq::<Outbound>::empty(),
            d.wf(),
    {
        Dispatcher { phase: Phase::Registering, sent: Ghost(Seq::empty()) }
    }

    /// The phase the dispatcher is currently in.
    pub fn current_phase(&self) -> (p: Phase)
        ensures
            p == self@.phase,
    {
        self.phase
    }

    /// Registration: the one message that precedes all event handling. The
    /// caller hands the returned `RegisterHandler` message, together with
    /// the sender half of the fresh event channel, to the OS-event
    /// subsystem, and the dispatcher starts listening.
    pub fn register(&mut self) -> (m: Outbound)
        requires
            old(self)@.phase is Registering,
        ensures
            m is RegisterHandler,
            final(self)@.phase is Listening,
            final(self)@.log == old(self)@.log.push(Outbound::RegisterHandler),
            old(self).wf() ==> final(self).wf(),
    {
        self.phase = Phase::Listening;
        proof {
            self.sent@ = self.sent@.push(Outbound::RegisterHandler);
        }
        Outbound::RegisterHandler
    }

    /// Observe one event and react to it, exactly as `step` prescribes. The
    /// returned messages are to be delivered to their peers in order: first
    /// the model notification, then the compositor exit request; or the
    /// final exit message to the OS-event subsystem. An event that the
    /// current phase does not await — in particular any input event after
    /// the first — is ignored: the dispatcher consumes exactly one.
    pub fn handle(&mut self, ev: &Event) -> (out: Vec<Outbound>)
        ensures
            final(self)@ == step(old(self)@, *ev).0,
            out@ == step(old(self)@, *ev).1,
            final(self)@.log == old(self)@.log + out@,
            old(self).wf() ==> final(self).wf(),
    {
        proof {
            if old(self).wf() {
                crate::laws::lemma_step_preserves_wf(old(self)@, *ev);
            }
        }
        match (self.phase, ev) {
            (Phase::Listening, Event::Input(_)) => {
                self.phase = Phase::ShuttingDown;
                proof {
                    self.sent@ = self.sent@ + seq![Outbound::Notify, Outbound::ExitRequest];
                }
                let mut out: Vec<Outbound> = Vec::new();
                out.push(Outbound::Notify);
                out.push(Outbound::ExitRequest);
                assert(out@ =~= seq![Outbound::Notify, Outbound::ExitRequest]);
                out
            },
            (Phase::ShuttingDown, Event::ExitConfirmation) => {
                self.phase = Phase::Terminated;
                proof {
                    self.sent@ = self.sent@ + seq![Outbound::OsExit];
                }
                let mut out: Vec<Outbound> = Vec::new();
                out.push(Outbound::OsExit);
                assert(out@ =~= seq![Outbound::OsExit]);
                out
            },
            _ => {
                let out: Vec<Outbound> = Vec::new();
                assert(self@.log =~= old(self)@.log + out@);
                out
            },
        }
    }
}

/// The outcome of one whole dispatcher run against a given environment.
pub struct RunOutcome {
    /// Every message the dispatcher sent, in send order.
    pub trace: Vec<Outbound>,
    /// How many input events the dispatcher consumed.
    pub consumed: usize,
    /// How many delivered input events it left unread in the channel.
    pub unread: usize,
    /// The phase the dispatcher ended in. Anything other than `Terminated`
    /// means the run is suspended there, waiting on a peer that never spoke.
    pub phase: Phase,
}

/// One whole dispatcher lifetime, run against a modelled environment:
/// `events` are the input events the OS-event subsystem will deliver on the
/// registered channel, in order, and `compositor_confirms` says whether the
/// compositor ever answers the exit request on its one-shot channel.
///
/// The dispatcher registers, consumes the first event if one ever arrives
/// (its payload does not matter: any event is the shutdown trigger), leaves
/// every later event unread, and runs the handshake as far as the
/// environment lets it. With no event it stays suspended listening; with an
/// event but no confirmation it stays suspended shutting down, and the
/// OS-event subsystem is never told to exit.
pub fn run(events: &Vec<InputEvent>, compositor_confirms: bool) -> (o: RunOutcome)
    ensures
        o.phase == (if events@.len() == 0 {
            Phase::Listening
        } else if compositor_confirms {
            Phase::Terminated
        } else {
            Phase::ShuttingDown
        }),
        o.trace@ == trace_for(o.phase),
        o.consumed == (if events@.len() == 0 {
            0int
        } else {
            1int
        }),
        o.unread == events@.len() - o.consumed,
{
    let mut d = Dispatcher::new();
    let mut trace: Vec<Outbound> = Vec::new();
    let first = d.register();
    trace.push(first);
    let mut consumed: usize = 0;
    if events.len() > 0 {
        let trigger = events[0];
        consumed = 1;
        let mut reaction = d.handle(&Event::Input(trigger));
        trace.append(&mut reaction);
        if compositor_confirms {
            let mut last = d.handle(&Event::ExitConfirmation);
            trace.append(&mut last);
        }
    }
    let phase = d.current_phase();
    assert(trace@ =~= trace_for(d@.phase));
    RunOutcome { trace, consumed, unread: events.len() - consumed, phase }
}

} // verus!
