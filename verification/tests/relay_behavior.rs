use kubelingo::relay::{InputAction, OutputAction, ReadEvent, RelayResult, RelayState};

fn forward(state: &mut RelayState, chunk: &[u8]) -> (Vec<u8>, bool) {
    match state.on_input_read(ReadEvent::Data(chunk.to_vec())) {
        InputAction::ForwardToPty { data, to_transcript } => (data, to_transcript),
        InputAction::StopInput => panic!("a data chunk must be forwarded"),
    }
}

fn deliver(state: &mut RelayState, chunk: &[u8]) -> (Vec<u8>, bool) {
    match state.on_output_read(ReadEvent::Data(chunk.to_vec())) {
        OutputAction::DeliverToOutput { data, to_transcript } => (data, to_transcript),
        OutputAction::StopOutput => panic!("a data chunk must be delivered"),
    }
}

#[test]
fn plain_session_forwards_input_unchanged() {
    // No transcript configured: the session is a plain interactive relay.
    let mut state = RelayState::new(false);
    let (data, to_transcript) = forward(&mut state, b"echo hi\n");
    assert_eq!(data, b"echo hi\n");
    assert!(!to_transcript);
    let (data, to_transcript) = deliver(&mut state, b"echo hi\r\nhi\r\n");
    assert_eq!(data, b"echo hi\r\nhi\r\n");
    assert!(!to_transcript);
}

#[test]
fn input_chunks_keep_their_order() {
    let mut state = RelayState::new(false);
    let mut pty_bound: Vec<u8> = Vec::new();
    for chunk in [b"ec".as_slice(), b"ho ", b"hi\n"] {
        let (data, _) = forward(&mut state, chunk);
        pty_bound.extend_from_slice(&data);
    }
    assert_eq!(pty_bound, b"echo hi\n");
}

#[test]
fn transcript_collects_both_directions_in_arrival_order() {
    let mut state = RelayState::new(true);
    let mut transcript: Vec<u8> = Vec::new();
    let mut sent: usize = 0;
    let mut received: usize = 0;

    let (data, to_transcript) = deliver(&mut state, b"(kubelingo-sandbox)$ ");
    received += data.len();
    assert!(to_transcript);
    transcript.extend_from_slice(&data);

    let (data, to_transcript) = forward(&mut state, b"exit\n");
    sent += data.len();
    assert!(to_transcript);
    transcript.extend_from_slice(&data);

    let (data, to_transcript) = deliver(&mut state, b"exit\r\n");
    received += data.len();
    assert!(to_transcript);
    transcript.extend_from_slice(&data);

    assert_eq!(transcript, b"(kubelingo-sandbox)$ exit\nexit\r\n");
    assert_eq!(transcript.len(), sent + received);
}

#[test]
fn end_of_stream_stops_a_direction() {
    let mut state = RelayState::new(false);
    assert!(matches!(state.on_input_read(ReadEvent::Eof), InputAction::StopInput));
    assert!(!state.input_open);
    assert!(!state.input_failed);
    assert!(matches!(state.on_output_read(ReadEvent::Eof), OutputAction::StopOutput));
    assert!(!state.output_open);
    assert!(!state.output_failed);
}

#[test]
fn read_errors_stop_only_their_direction() {
    let mut state = RelayState::new(false);
    assert!(matches!(state.on_output_read(ReadEvent::ReadError), OutputAction::StopOutput));
    assert!(!state.output_open);
    assert!(state.output_failed);
    // The input direction still runs and still forwards.
    assert!(state.input_open);
    let (data, _) = forward(&mut state, b"still here\n");
    assert_eq!(data, b"still here\n");
}

#[test]
fn session_succeeds_exactly_when_child_status_was_retrieved() {
    let mut state = RelayState::new(false);
    // Even after a mid-session error the session completes if the child's
    // exit status could be retrieved.
    state.on_input_read(ReadEvent::ReadError);
    assert_eq!(state.finish(true), RelayResult::Completed);
    assert_eq!(state.finish(false), RelayResult::ChildWaitError);
}

#[test]
fn closed_pty_write_handle_completes_the_input_direction() {
    let mut state = RelayState::new(false);
    state.on_pty_write_closed();
    assert!(!state.input_open);
    assert!(!state.input_failed);
    assert!(state.output_open);
}

#[test]
fn failed_output_write_is_an_error_on_that_direction_only() {
    let mut state = RelayState::new(false);
    state.on_output_write_failed();
    assert!(!state.output_open);
    assert!(state.output_failed);
    assert!(state.input_open);
    assert!(!state.input_failed);
}
