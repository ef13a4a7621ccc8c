use cmdutils::outcome::ExitOutcome;
use cmdutils::run::{RunAction, RunError, RunEvent, RunState, WaitMode};
use cmdutils::status::{CommandFailure, SinkReply, SinkRequest};
use cmdutils::structured::{
    run_and_parse_json, ParseAction, ParseError, ParseEvent, ParseState, ParseStep,
};

/// An operating system made of plain values. Its decoder is serde_json.
struct FakeHost {
    output_sink: Result<(), String>,
    success: bool,
    stdout: Vec<u8>,
    stderr: Vec<u8>,
    rewind: Result<(), String>,
    asked: Vec<ParseAction>,
}

impl FakeHost {
    fn printing(success: bool, stdout: &[u8], stderr: &[u8]) -> FakeHost {
        FakeHost {
            output_sink: Ok(()),
            success,
            stdout: stdout.to_vec(),
            stderr: stderr.to_vec(),
            rewind: Ok(()),
            asked: Vec::new(),
        }
    }

    fn answer_run(&self, action: RunAction) -> RunEvent<String> {
        match action {
            RunAction::CreateSink => RunEvent::SinkCreated(Ok(())),
            RunAction::Spawn => RunEvent::Spawned(Ok(())),
            RunAction::Wait(_) => RunEvent::Exited(Ok(ExitOutcome {
                success: self.success,
                debug: if self.success {
                    "ExitStatus(unix_wait_status(0))".to_string()
                } else {
                    "ExitStatus(unix_wait_status(256))".to_string()
                },
            })),
            RunAction::AskSink(SinkRequest::Size) => {
                RunEvent::SinkReplied(SinkReply::Size(Some(self.stderr.len() as u64)))
            }
            RunAction::AskSink(SinkRequest::Tail { len }) => RunEvent::SinkReplied(SinkReply::Tail(
                Some(self.stderr[self.stderr.len() - len as usize..].to_vec()),
            )),
        }
    }

    fn answer(
        &mut self,
        action: ParseAction,
    ) -> ParseEvent<serde_json::Value, String, serde_json::Error> {
        self.asked.push(action);
        match action {
            ParseAction::CreateOutputSink => ParseEvent::OutputSinkCreated(self.output_sink.clone()),
            ParseAction::Run(action) => ParseEvent::Ran(self.answer_run(action)),
            ParseAction::Rewind => ParseEvent::Rewound(self.rewind.clone()),
            ParseAction::Decode => ParseEvent::Decoded(serde_json::from_slice(&self.stdout)),
        }
    }
}

fn drive(
    host: &mut FakeHost,
) -> Result<serde_json::Value, ParseError<String, serde_json::Error>> {
    let mut state = run_and_parse_json();
    for _ in 0..100 {
        let event = host.answer(state.action());
        match state.step(event) {
            ParseStep::Next(next) => state = next,
            ParseStep::Done(result) => return result,
        }
    }
    panic!("the run did not end");
}

#[test]
fn command_run_ext_json() {
    // What `echo` prints for this argument.
    let mut host = FakeHost::printing(true, b"{\"a\": \"somevalue\", \"b\": 42}\n", b"");
    let v = drive(&mut host).unwrap();
    assert_eq!(v["a"].as_str(), Some("somevalue"));
    assert_eq!(v["b"].as_u64(), Some(42));
}

#[test]
fn structured_run_asks_for_each_action_in_turn() {
    let mut host = FakeHost::printing(true, b"[1, 2]", b"");
    drive(&mut host).unwrap();
    assert_eq!(
        host.asked,
        vec![
            ParseAction::CreateOutputSink,
            ParseAction::Run(RunAction::CreateSink),
            ParseAction::Run(RunAction::Spawn),
            ParseAction::Run(RunAction::Wait(WaitMode::Blocking)),
            ParseAction::Rewind,
            ParseAction::Decode,
        ]
    );
}

#[test]
fn output_of_a_failed_command_is_not_decoded() {
    let mut host = FakeHost::printing(false, b"{\"a\": \"somevalue\", \"b\": 42}\n", b"oops\n");
    let result = drive(&mut host);
    match result {
        Err(ParseError::Run(RunError::Failed(failure))) => {
            assert_eq!(
                failure,
                CommandFailure {
                    outcome: ExitOutcome {
                        success: false,
                        debug: "ExitStatus(unix_wait_status(256))".to_string(),
                    },
                    stderr_tail: Some(b"oops\n".to_vec()),
                }
            );
            assert_eq!(
                failure.message(),
                "Subprocess failed: ExitStatus(unix_wait_status(256))\noops\n"
            );
        }
        other => panic!("not a failure of the command: {:?}", other),
    }
    assert!(!host.asked.contains(&ParseAction::Rewind));
    assert!(!host.asked.contains(&ParseAction::Decode));
}

#[test]
fn malformed_output_is_a_decode_error() {
    let mut host = FakeHost::printing(true, b"{\"a\": \"somevalue\", ", b"");
    match drive(&mut host) {
        Err(ParseError::Decode(e)) => assert!(e.is_eof()),
        other => panic!("not a decode error: {:?}", other),
    }
    let mut host = FakeHost::printing(true, b"not json\n", b"");
    match drive(&mut host) {
        Err(ParseError::Decode(e)) => assert!(e.is_syntax()),
        other => panic!("not a decode error: {:?}", other),
    }
}

#[test]
fn empty_output_is_a_decode_error() {
    let mut host = FakeHost::printing(true, b"", b"");
    assert!(matches!(drive(&mut host), Err(ParseError::Decode(_))));
}

#[test]
fn rewind_error_is_a_seek_error() {
    let mut host = FakeHost::printing(true, b"{}", b"");
    host.rewind = Err("illegal seek".to_string());
    match drive(&mut host) {
        Err(ParseError::Seek(e)) => assert_eq!(e, "illegal seek"),
        other => panic!("not a seek error: {:?}", other),
    }
    assert!(!host.asked.contains(&ParseAction::Decode));
}

#[test]
fn output_sink_error_ends_the_run_before_the_command() {
    let mut host = FakeHost::printing(true, b"{}", b"");
    host.output_sink = Err("too many open files".to_string());
    match drive(&mut host) {
        Err(ParseError::OutputSink(e)) => assert_eq!(e, "too many open files"),
        other => panic!("not a sink error: {:?}", other),
    }
    assert_eq!(host.asked, vec![ParseAction::CreateOutputSink]);
}

#[test]
fn error_of_the_run_is_carried_unchanged() {
    let state = ParseState::Running(RunState::Spawning(WaitMode::Blocking));
    let next = state.step(ParseEvent::<u32, String, String>::Ran(RunEvent::Spawned(Err(
        "permission denied".to_string(),
    ))));
    assert_eq!(
        next,
        ParseStep::Done(Err(ParseError::Run(RunError::Spawn("permission denied".to_string()))))
    );
}

#[test]
fn structured_run_runs_the_command_blocking() {
    let state = run_and_parse_json();
    assert_eq!(state, ParseState::CreatingOutputSink);
    let next = state.step(ParseEvent::<u32, String, String>::OutputSinkCreated(Ok(())));
    assert_eq!(
        next,
        ParseStep::Next(ParseState::Running(RunState::CreatingSink(WaitMode::Blocking)))
    );
}

#[test]
fn decoded_value_is_the_result() {
    let next = ParseState::Decoding.step(ParseEvent::<u32, String, String>::Decoded(Ok(42)));
    assert_eq!(next, ParseStep::Done(Ok(42)));
    let next = ParseState::Decoding
        .step(ParseEvent::<u32, String, String>::Decoded(Err("expected value".to_string())));
    assert_eq!(next, ParseStep::Done(Err(ParseError::Decode("expected value".to_string()))));
}

#[test]
fn structured_run_keeps_waiting_on_an_event_for_another_action() {
    let next = ParseState::Rewinding.step(ParseEvent::<u32, String, String>::Decoded(Ok(42)));
    assert_eq!(next, ParseStep::Next(ParseState::Rewinding));
    let next = ParseState::CreatingOutputSink
        .step(ParseEvent::<u32, String, String>::Rewound(Ok(())));
    assert_eq!(next, ParseStep::Next(ParseState::CreatingOutputSink));
    let next = ParseState::Decoding.step(ParseEvent::<u32, String, String>::Ran(
        RunEvent::SinkCreated(Ok(())),
    ));
    assert_eq!(next, ParseStep::Next(ParseState::Decoding));
}
