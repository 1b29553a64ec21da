use input_dispatcher::dispatcher::{run, Dispatcher, Phase};
use input_dispatcher::messages::{Event, InputEvent, Outbound};

fn count(trace: &[Outbound], k: Outbound) -> usize {
    let mut n = 0;
    for m in trace {
        if *m == k {
            n += 1;
        }
    }
    n
}

fn position(trace: &[Outbound], k: Outbound) -> Option<usize> {
    let mut i = 0;
    for m in trace {
        if *m == k {
            return Some(i);
        }
        i += 1;
    }
    None
}

#[test]
fn full_run_happy_path() {
    // Mock OS subsystem delivers one input event; mock compositor replies
    // at once on the confirmation channel handed to it.
    let events = vec![InputEvent { code: 42 }];
    let o = run(&events, true);
    assert_eq!(
        o.trace,
        vec![
            Outbound::RegisterHandler,
            Outbound::Notify,
            Outbound::ExitRequest,
            Outbound::OsExit,
        ]
    );
    assert_eq!(o.phase, Phase::Terminated);
    assert_eq!(o.consumed, 1);
    assert_eq!(o.unread, 0);
}

#[test]
fn full_run_step_by_step() {
    // The same scenario driven one observation at a time.
    let mut d = Dispatcher::new();
    assert_eq!(d.current_phase(), Phase::Registering);
    let mut trace = Vec::new();
    trace.push(d.register());
    assert_eq!(d.current_phase(), Phase::Listening);
    trace.extend(d.handle(&Event::Input(InputEvent { code: 7 })));
    assert_eq!(d.current_phase(), Phase::ShuttingDown);
    trace.extend(d.handle(&Event::ExitConfirmation));
    assert_eq!(d.current_phase(), Phase::Terminated);
    assert_eq!(
        trace,
        vec![
            Outbound::RegisterHandler,
            Outbound::Notify,
            Outbound::ExitRequest,
            Outbound::OsExit,
        ]
    );
}

#[test]
fn compositor_never_confirms() {
    // The compositor mock never replies: the dispatcher stays suspended
    // after the exit request and the OS subsystem never hears an exit.
    let events = vec![InputEvent { code: 1 }];
    let o = run(&events, false);
    assert_eq!(o.phase, Phase::ShuttingDown);
    assert_eq!(
        o.trace,
        vec![Outbound::RegisterHandler, Outbound::Notify, Outbound::ExitRequest]
    );
    assert_eq!(count(&o.trace, Outbound::OsExit), 0);
}

#[test]
fn consumes_only_the_first_event() {
    let events = vec![
        InputEvent { code: 3 },
        InputEvent { code: 4 },
        InputEvent { code: 5 },
    ];
    let o = run(&events, true);
    assert_eq!(o.consumed, 1);
    assert_eq!(o.unread, 2);
    assert_eq!(o.phase, Phase::Terminated);
}

#[test]
fn no_event_means_listening_forever() {
    let events = Vec::new();
    let o = run(&events, true);
    assert_eq!(o.phase, Phase::Listening);
    assert_eq!(o.trace, vec![Outbound::RegisterHandler]);
    assert_eq!(o.consumed, 0);
    assert_eq!(o.unread, 0);
}

#[test]
fn each_message_kind_exactly_once() {
    let events = vec![InputEvent { code: 99 }];
    let o = run(&events, true);
    assert_eq!(count(&o.trace, Outbound::RegisterHandler), 1);
    assert_eq!(count(&o.trace, Outbound::Notify), 1);
    assert_eq!(count(&o.trace, Outbound::ExitRequest), 1);
    assert_eq!(count(&o.trace, Outbound::OsExit), 1);
}

#[test]
fn notify_observed_before_exit_request() {
    let events = vec![InputEvent { code: 2 }];
    let o = run(&events, true);
    let notify_at = position(&o.trace, Outbound::Notify).unwrap();
    let exit_request_at = position(&o.trace, Outbound::ExitRequest).unwrap();
    assert!(notify_at < exit_request_at);
}

#[test]
fn os_exit_only_after_confirmation() {
    // Without the confirmation the final exit message never appears; with
    // it, the message appears after the exit request.
    let events = vec![InputEvent { code: 8 }];
    let without = run(&events, false);
    assert_eq!(position(&without.trace, Outbound::OsExit), None);
    let with = run(&events, true);
    let exit_request_at = position(&with.trace, Outbound::ExitRequest).unwrap();
    let os_exit_at = position(&with.trace, Outbound::OsExit).unwrap();
    assert!(exit_request_at < os_exit_at);
}

#[test]
fn second_input_event_is_a_no_op() {
    let mut d = Dispatcher::new();
    d.register();
    d.handle(&Event::Input(InputEvent { code: 1 }));
    assert_eq!(d.current_phase(), Phase::ShuttingDown);
    let out = d.handle(&Event::Input(InputEvent { code: 2 }));
    assert!(out.is_empty());
    assert_eq!(d.current_phase(), Phase::ShuttingDown);
}

#[test]
fn input_after_termination_is_a_no_op() {
    let mut d = Dispatcher::new();
    d.register();
    d.handle(&Event::Input(InputEvent { code: 1 }));
    d.handle(&Event::ExitConfirmation);
    assert_eq!(d.current_phase(), Phase::Terminated);
    let out = d.handle(&Event::Input(InputEvent { code: 2 }));
    assert!(out.is_empty());
    assert_eq!(d.current_phase(), Phase::Terminated);
    let out2 = d.handle(&Event::ExitConfirmation);
    assert!(out2.is_empty());
    assert_eq!(d.current_phase(), Phase::Terminated);
}

#[test]
fn early_confirmation_is_ignored() {
    // A confirmation can only arrive on the channel the exit request hands
    // out; one observed while still listening changes nothing.
    let mut d = Dispatcher::new();
    d.register();
    let out = d.handle(&Event::ExitConfirmation);
    assert!(out.is_empty());
    assert_eq!(d.current_phase(), Phase::Listening);
}

#[test]
fn any_payload_triggers_shutdown() {
    // The dispatcher does not inspect the event: every payload gives the
    // same trace.
    let small = run(&vec![InputEvent { code: 0 }], true);
    let large = run(&vec![InputEvent { code: u64::MAX }], true);
    assert_eq!(small.trace, large.trace);
    assert_eq!(small.phase, Phase::Terminated);
    assert_eq!(large.phase, Phase::Terminated);
}

#[test]
fn register_reports_registration() {
    let mut d = Dispatcher::new();
    let m = d.register();
    assert_eq!(m, Outbound::RegisterHandler);
    assert_eq!(d.current_phase(), Phase::Listening);
}
