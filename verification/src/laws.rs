//! The protocol's guarantees, stated and proved once and for all.

use crate::dispatcher::{model_wf, step, trace_for, DispatcherModel, Phase};
use crate::messages::{Event, Outbound};
use vstd::prelude::*;

verus! {

/// Every transition only appends to the message log, and appends exactly
/// the messages it reports sending, in order: nothing sent is ever unsent
/// or reordered.
pub proof fn lemma_step_extends_log(m: DispatcherModel, ev: Event)
    ensures
        step(m, ev).0.log == m.log + step(m, ev).1,
{
    if m.phase is Listening && ev is Input {
    } else if m.phase is ShuttingDown && ev is ExitConfirmation {
    } else {
        assert(step(m, ev).0.log =~= m.log + step(m, ev).1);
    }
}

/// Well-formedness is preserved by every transition.
pub proof fn lemma_step_preserves_wf(m: DispatcherModel, ev: Event)
    requires
        model_wf(m),
    ensures
        model_wf(step(m, ev).0),
{
    if m.phase is Listening && ev is Input {
        assert(step(m, ev).0.log =~= trace_for(Phase::ShuttingDown));
    } else if m.phase is ShuttingDown && ev is ExitConfirmation {
        assert(step(m, ev).0.log =~= trace_for(Phase::Terminated));
    }
}

/// Registration comes first: whenever a well-formed dispatcher has sent
/// anything at all, its very first message was the registration; and an
/// input event is consumed (causes any reaction) only while listening, a
/// phase registration alone reaches.
pub proof fn lemma_registration_precedes_consumption(m: DispatcherModel, ev: Event)
    requires
        model_wf(m),
    ensures
        m.log.len() > 0 ==> m.log[0] is RegisterHandler,
        ev is Input && step(m, ev).1.len() > 0 ==> m.phase is Listening && m.log[0]
            is RegisterHandler,
{
}

/// The model hears of the shutdown strictly before the compositor does:
/// wherever the exit request stands in a well-formed dispatcher's log, the
/// model notification stands at an earlier position.
pub proof fn lemma_notify_precedes_exit_request(m: DispatcherModel)
    requires
        model_wf(m),
    ensures
        forall|j: int|
            0 <= j < m.log.len() && m.log[j] is ExitRequest ==> exists|i: int|
                0 <= i < j && #[trigger] m.log[i] is Notify,
{
    assert forall|j: int| 0 <= j < m.log.len() && m.log[j] is ExitRequest implies exists|i: int|
        0 <= i < j && #[trigger] m.log[i] is Notify by {
        assert(m.phase is ShuttingDown || m.phase is Terminated);
        assert(j == 2);
        assert(0 <= 1 < j && m.log[1] is Notify);
    }
}

/// The OS-event subsystem is told to exit only after the compositor has
/// confirmed: the one transition that emits the final exit message is the
/// one that consumes the confirmation, and a well-formed log containing
/// that message belongs to a terminated dispatcher.
pub proof fn lemma_os_exit_only_after_confirmation(m: DispatcherModel, ev: Event)
    requires
        model_wf(m),
    ensures
        step(m, ev).1.contains(Outbound::OsExit) ==> ev is ExitConfirmation && m.phase
            is ShuttingDown,
        m.log.contains(Outbound::OsExit) ==> m.phase is Terminated,
{
    if m.phase is Listening && ev is Input {
        assert(!step(m, ev).1.contains(Outbound::OsExit));
    }
    if m.phase !is Terminated {
        assert(!m.log.contains(Outbound::OsExit));
    }
}

/// How many times message `k` occurs in the log `log`.
pub open spec fn occurrences(log: Seq<Outbound>, k: Outbound) -> nat
    decreases log.len(),
{
    if log.len() == 0 {
        0
    } else {
        occurrences(log.drop_last(), k) + if log.last() == k {
            1nat
        } else {
            0nat
        }
    }
}

/// Counting distributes over appending one message.
pub proof fn lemma_occurrences_push(log: Seq<Outbound>, x: Outbound, k: Outbound)
    ensures
        occurrences(log.push(x), k) == occurrences(log, k) + if x == k {
            1nat
        } else {
            0nat
        },
{
    assert(log.push(x).drop_last() =~= log);
}

/// No message kind is ever sent twice, and a full run sends each of the
/// four exactly once: a well-formed dispatcher's log holds every kind at
/// most once, and a terminated dispatcher's log holds each kind exactly
/// once.
pub proof fn lemma_each_message_at_most_once(m: DispatcherModel, k: Outbound)
    requires
        model_wf(m),
    ensures
        occurrences(m.log, k) <= 1,
        m.phase is Terminated ==> occurrences(m.log, k) == 1,
{
    let empty: Seq<Outbound> = seq![];
    let l1 = empty.push(Outbound::RegisterHandler);
    let l2 = l1.push(Outbound::Notify);
    let l3 = l2.push(Outbound::ExitRequest);
    let l4 = l3.push(Outbound::OsExit);
    lemma_occurrences_push(empty, Outbound::RegisterHandler, k);
    lemma_occurrences_push(l1, Outbound::Notify, k);
    lemma_occurrences_push(l2, Outbound::ExitRequest, k);
    lemma_occurrences_push(l3, Outbound::OsExit, k);
    assert(trace_for(Phase::Listening) =~= l1);
    assert(trace_for(Phase::ShuttingDown) =~= l3);
    assert(trace_for(Phase::Terminated) =~= l4);
}

/// One-shot consumption: once the dispatcher has left the listening phase —
/// it has already consumed its one input event, or has not yet registered —
/// a further input event is a no-op: no message is sent and nothing in the
/// dispatcher changes.
pub proof fn lemma_extra_input_ignored(m: DispatcherModel, ev: Event)
    requires
        m.phase !is Listening,
        ev is Input,
    ensures
        step(m, ev).0 == m,
        step(m, ev).1 == Seq::<Outbound>::empty(),
{
    assert(step(m, ev).1 =~= Seq::<Outbound>::empty());
}

} // verus!
