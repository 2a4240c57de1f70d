use expectrl::error::{Cause, Error};
use expectrl::interact::{Action, Event, Interact, InteractOptions, Phase, ESCAPE, TICK};
use expectrl::session::Session;
use expectrl::stream::ReadOutcome;

fn session_with(left_over: &[u8]) -> Session<(), ()> {
    let mut session = Session::new((), ());
    if !left_over.is_empty() {
        assert!(session.feed(ReadOutcome::Bytes(left_over.to_vec()), 0).is_none());
    }
    session
}

fn bridging(session: &mut Session<(), ()>, options: InteractOptions) -> Interact {
    let mut bridge = Interact::new(options);
    assert!(matches!(session.interact(&mut bridge, Event::Start), Action::GetEcho));
    match session.interact(&mut bridge, Event::Echo(true)) {
        Action::Wait { tick } => assert_eq!(tick, TICK),
        other => panic!("should wait: {:?}", other),
    }
    assert_eq!(bridge.phase(), Phase::Bridging);
    bridge
}

#[test]
fn the_default_escape_is_ctrl_bracket() {
    let options = InteractOptions::default();
    assert_eq!(options.escape, vec![0x1D]);
    assert_eq!(ESCAPE, 0x1D);
    assert!(!options.input_filter);
    assert!(!options.output_filter);
    assert!(options.patterns.is_empty());
    let options = options.escape_character(3).on_output(b"$ ".to_vec()).output_filter(true);
    assert_eq!(options.escape, vec![3]);
    assert_eq!(options.patterns, vec![b"$ ".to_vec()]);
    assert!(options.output_filter);
    let options = options.escape_sequence(b"~.".to_vec()).input_filter(true);
    assert_eq!(options.escape, b"~.");
    assert!(options.input_filter);
    assert!(options.output_filter);
}

#[test]
fn echo_that_was_on_is_left_alone() {
    let mut session = session_with(b"");
    let mut bridge = bridging(&mut session, InteractOptions::default());
    match session.interact(&mut bridge, Event::Exited) {
        Action::Finish(Ok(())) => {}
        other => panic!("should finish: {:?}", other),
    }
    assert!(bridge.is_finished());
    assert!(session.is_eof());
}

#[test]
fn echo_that_was_off_is_switched_off_again() {
    let mut session = session_with(b"");
    let mut bridge = Interact::new(InteractOptions::default());
    assert!(matches!(session.interact(&mut bridge, Event::Start), Action::GetEcho));
    assert!(matches!(session.interact(&mut bridge, Event::Echo(false)), Action::SetEcho(true)));
    assert_eq!(bridge.phase(), Phase::Enabling);
    assert!(matches!(session.interact(&mut bridge, Event::Done), Action::Wait { .. }));
    assert!(matches!(session.interact(&mut bridge, Event::Idle), Action::Wait { .. }));
    assert!(matches!(session.interact(&mut bridge, Event::Stop), Action::SetEcho(false)));
    assert_eq!(bridge.phase(), Phase::Restoring);
    assert!(!bridge.is_finished());
    assert!(matches!(session.interact(&mut bridge, Event::Done), Action::Finish(Ok(()))));
    assert!(bridge.is_finished());
    assert!(!session.is_eof());
    assert!(matches!(session.interact(&mut bridge, Event::Idle), Action::Finish(Ok(()))));
}

#[test]
fn echo_is_restored_after_a_failure_too() {
    let mut session = session_with(b"");
    let mut bridge = Interact::new(InteractOptions::default());
    session.interact(&mut bridge, Event::Start);
    session.interact(&mut bridge, Event::Echo(false));
    session.interact(&mut bridge, Event::Failed(Cause::new(Some(5), "set echo")));
    assert_eq!(bridge.phase(), Phase::Bridging);
    let cause = Cause::new(Some(32), "write");
    assert!(matches!(
        session.interact(&mut bridge, Event::Failed(cause.clone())),
        Action::SetEcho(false)
    ));
    match session.interact(&mut bridge, Event::Done) {
        Action::Finish(Err(Error::Io(c))) => assert_eq!(c, cause),
        other => panic!("should hand on the failure: {:?}", other),
    }
    assert!(bridge.is_finished());
}

#[test]
fn a_failure_to_read_the_echo_ends_the_interaction() {
    let mut session = session_with(b"left");
    let mut bridge = Interact::new(InteractOptions::default());
    session.interact(&mut bridge, Event::Start);
    assert!(matches!(session.interact(&mut bridge, Event::Idle), Action::GetEcho));
    let cause = Cause::new(Some(25), "tcgetattr");
    match session.interact(&mut bridge, Event::Failed(cause.clone())) {
        Action::Finish(Err(Error::Unknown { message, cause: c })) => {
            assert_eq!(message, "failed to get echo");
            assert_eq!(c, cause);
        }
        other => panic!("should fail: {:?}", other),
    }
    assert!(bridge.is_finished());
    assert_eq!(session.buffer(), b"left");
}

#[test]
fn input_goes_to_the_child_up_to_the_escape() {
    let mut session = session_with(b"");
    let mut bridge = bridging(&mut session, InteractOptions::default());
    match session.interact(&mut bridge, Event::Input(b"ls -l\r".to_vec())) {
        Action::WriteChild(bytes) => assert_eq!(bytes, b"ls -l\r"),
        other => panic!("should forward: {:?}", other),
    }
    assert!(matches!(session.interact(&mut bridge, Event::Done), Action::Wait { .. }));
    assert!(matches!(session.interact(&mut bridge, Event::Input(Vec::new())), Action::Wait { .. }));
    match session.interact(&mut bridge, Event::Input(vec![b'e', b'x', 0x1D, b'i', b't'])) {
        Action::WriteChild(bytes) => assert_eq!(bytes, b"ex"),
        other => panic!("should forward what was typed before: {:?}", other),
    }
    assert_eq!(bridge.phase(), Phase::Leaving);
    assert!(matches!(session.interact(&mut bridge, Event::Done), Action::Finish(Ok(()))));
}

#[test]
fn an_escape_typed_first_ends_at_once() {
    let mut session = session_with(b"");
    let mut bridge = bridging(&mut session, InteractOptions::default().escape_sequence(b"~.".to_vec()));
    match session.interact(&mut bridge, Event::Input(b"~x".to_vec())) {
        Action::WriteChild(bytes) => assert_eq!(bytes, b"~x"),
        other => panic!("should forward: {:?}", other),
    }
    session.interact(&mut bridge, Event::Done);
    assert!(matches!(
        session.interact(&mut bridge, Event::Input(b"~.rest".to_vec())),
        Action::Finish(Ok(()))
    ));
    assert!(bridge.is_finished());
}

#[test]
fn a_failed_last_write_is_reported() {
    let mut session = session_with(b"");
    let mut bridge = bridging(&mut session, InteractOptions::default());
    session.interact(&mut bridge, Event::Input(vec![b'a', 0x1D]));
    let cause = Cause::new(Some(5), "write");
    match session.interact(&mut bridge, Event::Failed(cause.clone())) {
        Action::Finish(Err(Error::Io(c))) => assert_eq!(c, cause),
        other => panic!("should fail: {:?}", other),
    }
}

#[test]
fn output_goes_to_the_terminal_as_it_is() {
    let mut session = session_with(b"");
    let mut bridge = bridging(&mut session, InteractOptions::default());
    match session.interact(&mut bridge, Event::Output(vec![0x1D, b'o', b'k', 0x1B])) {
        Action::WriteHost(bytes) => assert_eq!(bytes, vec![0x1D, b'o', b'k', 0x1B]),
        other => panic!("should forward: {:?}", other),
    }
    assert!(matches!(session.interact(&mut bridge, Event::Done), Action::Wait { .. }));
    assert!(matches!(
        session.interact(&mut bridge, Event::Output(Vec::new())),
        Action::Finish(Ok(()))
    ));
    assert!(session.is_eof());
}

#[test]
fn what_was_left_over_reaches_the_terminal_first() {
    let mut session = session_with(b"$ ");
    let mut bridge = Interact::new(InteractOptions::default());
    session.interact(&mut bridge, Event::Start);
    match session.interact(&mut bridge, Event::Echo(true)) {
        Action::WriteHost(bytes) => assert_eq!(bytes, b"$ "),
        other => panic!("should write what was left over: {:?}", other),
    }
    assert_eq!(session.buffer(), b"");
    assert!(matches!(session.interact(&mut bridge, Event::Done), Action::Wait { .. }));
}

#[test]
fn filters_stand_before_the_escape_and_the_terminal() {
    let mut session = session_with(b"");
    let options = InteractOptions::default().input_filter(true).output_filter(true);
    let mut bridge = bridging(&mut session, options);
    match session.interact(&mut bridge, Event::Input(b"abc".to_vec())) {
        Action::FilterInput(bytes) => assert_eq!(bytes, b"abc"),
        other => panic!("should filter: {:?}", other),
    }
    assert_eq!(bridge.phase(), Phase::FilteringInput);
    match session.interact(&mut bridge, Event::Filtered(b"ABC".to_vec())) {
        Action::WriteChild(bytes) => assert_eq!(bytes, b"ABC"),
        other => panic!("should forward: {:?}", other),
    }
    session.interact(&mut bridge, Event::Done);
    match session.interact(&mut bridge, Event::Output(b"out".to_vec())) {
        Action::FilterOutput(bytes) => assert_eq!(bytes, b"out"),
        other => panic!("should filter: {:?}", other),
    }
    assert_eq!(bridge.phase(), Phase::FilteringOutput);
    match session.interact(&mut bridge, Event::Filtered(b"OUT".to_vec())) {
        Action::WriteHost(bytes) => assert_eq!(bytes, b"OUT"),
        other => panic!("should forward: {:?}", other),
    }
    session.interact(&mut bridge, Event::Done);
    session.interact(&mut bridge, Event::Output(b"gone".to_vec()));
    assert!(matches!(
        session.interact(&mut bridge, Event::Filtered(Vec::new())),
        Action::Wait { .. }
    ));
    session.interact(&mut bridge, Event::Input(b"q".to_vec()));
    assert!(matches!(
        session.interact(&mut bridge, Event::Filtered(vec![0x1D])),
        Action::Finish(Ok(()))
    ));
}

#[test]
fn a_failed_filter_ends_the_interaction() {
    let mut session = session_with(b"");
    let mut bridge = bridging(&mut session, InteractOptions::default().input_filter(true));
    session.interact(&mut bridge, Event::Input(b"abc".to_vec()));
    let cause = Cause::new(None, "filter");
    match session.interact(&mut bridge, Event::Failed(cause.clone())) {
        Action::Finish(Err(Error::Io(c))) => assert_eq!(c, cause),
        other => panic!("should fail: {:?}", other),
    }
}

#[test]
fn callbacks_run_in_order_before_the_output_is_forwarded() {
    let mut session = session_with(b"");
    let options = InteractOptions::default()
        .on_output(b"login:".to_vec())
        .on_output(b"absent".to_vec())
        .on_output(b"in".to_vec());
    let mut bridge = bridging(&mut session, options);
    match session.interact(&mut bridge, Event::Output(b"login: ".to_vec())) {
        Action::Invoke { pattern } => assert_eq!(pattern, 0),
        other => panic!("should call back: {:?}", other),
    }
    assert_eq!(bridge.phase(), Phase::Notifying);
    match session.interact(&mut bridge, Event::Done) {
        Action::Invoke { pattern } => assert_eq!(pattern, 2),
        other => panic!("should call back: {:?}", other),
    }
    match session.interact(&mut bridge, Event::Done) {
        Action::WriteHost(bytes) => assert_eq!(bytes, b"login: "),
        other => panic!("should forward: {:?}", other),
    }
    assert_eq!(bridge.phase(), Phase::Bridging);
    match session.interact(&mut bridge, Event::Output(b"password".to_vec())) {
        Action::WriteHost(bytes) => assert_eq!(bytes, b"password"),
        other => panic!("should forward: {:?}", other),
    }
}

#[test]
fn a_failed_callback_ends_the_interaction() {
    let mut session = session_with(b"ab");
    let mut bridge = Interact::new(InteractOptions::default().on_output(b"b".to_vec()));
    session.interact(&mut bridge, Event::Start);
    assert!(matches!(
        session.interact(&mut bridge, Event::Echo(false)),
        Action::SetEcho(true)
    ));
    match session.interact(&mut bridge, Event::Done) {
        Action::Invoke { pattern } => assert_eq!(pattern, 0),
        other => panic!("should call back: {:?}", other),
    }
    assert!(matches!(
        session.interact(&mut bridge, Event::Failed(Cause::new(None, "callback"))),
        Action::SetEcho(false)
    ));
    assert!(matches!(
        session.interact(&mut bridge, Event::Done),
        Action::Finish(Err(Error::Io(_)))
    ));
}

#[test]
fn step_can_be_driven_without_a_session() {
    let mut bridge = Interact::new(InteractOptions::default());
    let mut carry = b"old".to_vec();
    let mut eof = false;
    bridge.step(Event::Start, &mut carry, &mut eof);
    match bridge.step(Event::Echo(true), &mut carry, &mut eof) {
        Action::WriteHost(bytes) => assert_eq!(bytes, b"old"),
        other => panic!("should write what was left over: {:?}", other),
    }
    assert!(carry.is_empty());
    bridge.step(Event::Exited, &mut carry, &mut eof);
    assert!(eof);
}
