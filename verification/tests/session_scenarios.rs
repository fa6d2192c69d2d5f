use std::io::{Read, Write};

use kubelingo::launch::default_session_config;
use kubelingo::relay::{InputAction, OutputAction, ReadEvent, RelayResult, RelayState};
use kubelingo::script::{generate, WrapRequest};

/// Spawn the configured shell on a pseudoterminal reading the given
/// start-up script, feed it the given input through the relay machine, and
/// run the output direction until end-of-stream. Returns the bytes sent to
/// the pseudoterminal, the bytes delivered to the real output, the bytes
/// appended to the transcript, and the session result.
fn run_session(
    script_path: &str,
    input: &[&[u8]],
    transcript_enabled: bool,
) -> (Vec<u8>, Vec<u8>, Vec<u8>, RelayResult) {
    let config = default_session_config(None, None);
    let pty = portable_pty::native_pty_system();
    let pair = pty
        .openpty(portable_pty::PtySize {
            rows: config.size.rows,
            cols: config.size.cols,
            pixel_width: config.size.pixel_width,
            pixel_height: config.size.pixel_height,
        })
        .expect("pty allocation");
    let plan = kubelingo::launch::build_launch_plan(&config, script_path);
    let mut cmd = portable_pty::CommandBuilder::new(&plan.program);
    for arg in &plan.args {
        cmd.arg(arg);
    }
    for (key, value) in &plan.env {
        cmd.env(key, value);
    }
    let mut child = pair.slave.spawn_command(cmd).expect("spawn shell");
    drop(pair.slave);

    let mut relay = RelayState::new(transcript_enabled);
    let mut transcript: Vec<u8> = Vec::new();
    let mut sent: Vec<u8> = Vec::new();
    let mut delivered: Vec<u8> = Vec::new();

    let mut writer = pair.master.take_writer().expect("controlling-side writer");
    for chunk in input {
        match relay.on_input_read(ReadEvent::Data(chunk.to_vec())) {
            InputAction::ForwardToPty { data, to_transcript } => {
                writer.write_all(&data).expect("write to pty");
                sent.extend_from_slice(&data);
                assert_eq!(to_transcript, transcript_enabled);
                if to_transcript {
                    transcript.extend_from_slice(&data);
                }
            }
            InputAction::StopInput => panic!("input chunks must be forwarded"),
        }
    }

    let mut reader = pair.master.try_clone_reader().expect("controlling-side reader");
    let mut buf = [0u8; 1024];
    loop {
        let ev = match reader.read(&mut buf) {
            Ok(0) => ReadEvent::Eof,
            Ok(n) => ReadEvent::Data(buf[..n].to_vec()),
            Err(_) => ReadEvent::Eof,
        };
        match relay.on_output_read(ev) {
            OutputAction::DeliverToOutput { data, to_transcript } => {
                delivered.extend_from_slice(&data);
                assert_eq!(to_transcript, transcript_enabled);
                if to_transcript {
                    transcript.extend_from_slice(&data);
                }
            }
            OutputAction::StopOutput => break,
        }
    }

    let result = relay.finish(child.wait().is_ok());
    (sent, delivered, transcript, result)
}

#[test]
fn plain_session_runs_a_command_and_shows_its_output() {
    // Scenario: no transcript or command log configured. The session is a
    // plain interactive shell: "echo hi" typed on the real input yields
    // "hi" (plus shell echo and prompt) on the real output.
    let prompt = String::from("(kubelingo-sandbox)$ ");
    let script = generate(Some(&prompt), None).expect("script creation");
    let (sent, delivered, transcript, result) =
        run_session(&script.path, &[b"echo hi\n", b"exit\n"], false);

    assert_eq!(sent, b"echo hi\nexit\n");
    assert_eq!(result, RelayResult::Completed);
    assert!(transcript.is_empty());
    let text = String::from_utf8_lossy(&delivered).into_owned();
    assert!(
        text.lines().any(|line| line == "hi"),
        "the command's output must reach the real output: {text:?}"
    );
    assert!(
        text.contains("(kubelingo-sandbox)$ "),
        "the configured prompt must reach the real output: {text:?}"
    );
}

#[test]
fn transcripted_session_captures_both_directions_and_the_prompt() {
    // Scenario: a transcript sink is configured. After sending "exit" the
    // child terminates, and the transcript holds the full sent and received
    // byte stream, including the prompt set by the start-up file generator.
    let prompt = String::from("(kubelingo-sandbox)$ ");
    let script = generate(Some(&prompt), None).expect("script creation");
    let (sent, delivered, transcript, result) = run_session(&script.path, &[b"exit\n"], true);

    assert_eq!(result, RelayResult::Completed);
    assert_eq!(transcript.len(), sent.len() + delivered.len());
    let text = String::from_utf8_lossy(&transcript).into_owned();
    assert!(
        text.contains("(kubelingo-sandbox)$ "),
        "the transcript must hold the generated prompt: {text:?}"
    );
    assert!(text.contains("exit"), "the transcript must hold the sent bytes: {text:?}");
}

#[test]
fn wrapped_command_is_aliased_only_inside_the_session() {
    // Isolation of the wrapped command: inside the session the wrapped name
    // is an alias that routes through the log flag; any other name is not.
    let prompt = String::from("(kubelingo-sandbox)$ ");
    let wrap = WrapRequest {
        command: String::from("vim"),
        log_path: String::from("/tmp/kubelingo-vim.log"),
    };
    let script = generate(Some(&prompt), Some(&wrap)).expect("script creation");
    let (_, delivered, _, result) = run_session(
        &script.path,
        &[b"alias vim\n", b"alias cat\n", b"exit\n"],
        false,
    );

    assert_eq!(result, RelayResult::Completed);
    let text = String::from_utf8_lossy(&delivered).into_owned();
    assert!(
        text.contains("alias vim='vim -W /tmp/kubelingo-vim.log'"),
        "the wrapped command must be redefined inside the session: {text:?}"
    );
    assert!(
        text.lines().any(|line| line.contains("alias: cat: not found")
            || line.contains("not found")),
        "an unwrapped command must have no alias: {text:?}"
    );
}
