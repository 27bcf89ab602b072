use ssh_exec::errors::describe_for_command;
use ssh_exec::errors::ExecError;
use ssh_exec::exec::decode_output;
use ssh_exec::exec::ExecMachine;
use ssh_exec::exec::ExecPhase;
use ssh_exec::exec::OpenOutcome;

fn drain(chunks: &[&[u8]]) -> ExecMachine {
    let mut m = ExecMachine::new();
    m.on_open(OpenOutcome::Opened);
    for chunk in chunks {
        m.on_data(chunk);
    }
    m.on_eof();
    m
}

#[test]
fn echo_hello_returns_raw_bytes() {
    let m = drain(&[b"hello\n"]);
    assert_eq!(m.into_output().unwrap(), b"hello\n".to_vec());
}

#[test]
fn echo_hello_returns_text() {
    let m = drain(&[b"hello\n"]);
    assert_eq!(m.into_text().unwrap(), "hello\n".to_string());
}

#[test]
fn chunked_output_is_concatenated_in_order() {
    let m = drain(&[b"hel", b"lo", b"\n"]);
    assert_eq!(m.into_output().unwrap(), b"hello\n".to_vec());
}

#[test]
fn empty_output_is_empty() {
    let m = drain(&[]);
    assert_eq!(m.into_output().unwrap(), Vec::<u8>::new());
}

#[test]
fn non_utf8_output_succeeds_raw() {
    let m = drain(&[&[0xff, 0xfe, 0x68, 0x69]]);
    assert_eq!(m.into_output().unwrap(), vec![0xff, 0xfe, 0x68, 0x69]);
}

#[test]
fn non_utf8_output_fails_as_text() {
    let m = drain(&[&[0xff, 0xfe, 0x68, 0x69]]);
    assert_eq!(m.into_text(), Err(ExecError::InvalidUtf8));
}

#[test]
fn multibyte_text_is_decoded_not_copied() {
    // Multi-byte UTF-8: the decoded string differs from its raw bytes.
    let bytes = "h\u{e9}llo \u{1f680}\n".as_bytes();
    let m = drain(&[bytes]);
    let text = m.into_text().unwrap();
    assert_eq!(text, "h\u{e9}llo \u{1f680}\n".to_string());
    assert_eq!(text.chars().count(), 8);
    assert_eq!(bytes.len(), 12);
}

#[test]
fn decode_output_rejects_exactly_non_utf8() {
    assert_eq!(decode_output(b"plain".to_vec()).unwrap(), "plain".to_string());
    assert_eq!(decode_output(vec![0xc3, 0x28]), Err(ExecError::InvalidUtf8));
}

#[test]
fn open_failure_reports_exec_open_error() {
    let mut m = ExecMachine::new();
    m.on_open(OpenOutcome::Failed);
    assert_eq!(m.phase, ExecPhase::Failed(ExecError::OpenFailed));
    assert_eq!(m.into_output(), Err(ExecError::OpenFailed));
}

#[test]
fn read_failure_reports_exec_read_error() {
    let mut m = ExecMachine::new();
    m.on_open(OpenOutcome::Opened);
    m.on_data(b"partial");
    m.on_read_error();
    assert_eq!(m.phase, ExecPhase::Failed(ExecError::ReadFailed));
    // No partial result: the failure is all the caller gets.
    assert_eq!(m.into_output(), Err(ExecError::ReadFailed));
}

#[test]
fn read_failure_fails_text_too() {
    let mut m = ExecMachine::new();
    m.on_open(OpenOutcome::Opened);
    m.on_read_error();
    assert_eq!(m.into_text(), Err(ExecError::ReadFailed));
}

#[test]
fn two_sequential_commands_do_not_leak_state() {
    let first = drain(&[b"first command output\n"]);
    assert_eq!(first.into_output().unwrap(), b"first command output\n".to_vec());

    // The second command starts from a fresh machine with an empty buffer:
    // its output holds no trace of the first command's.
    let second = drain(&[b"second\n"]);
    let out = second.into_output().unwrap();
    assert_eq!(out, b"second\n".to_vec());
}

#[test]
fn exec_error_messages() {
    assert_eq!(ExecError::OpenFailed.describe(), "failed to execute command");
    assert_eq!(ExecError::ReadFailed.describe(), "failed to read stdout of command");
    assert_eq!(ExecError::InvalidUtf8.describe(), "invalid utf-8 in command output");
}

#[test]
fn exec_error_messages_quote_the_command() {
    assert_eq!(
        describe_for_command(&ExecError::OpenFailed, "echo hello"),
        "failed to execute command 'echo hello'"
    );
    assert_eq!(
        describe_for_command(&ExecError::ReadFailed, "cat log"),
        "failed to read stdout of command 'cat log'"
    );
    assert_eq!(
        describe_for_command(&ExecError::InvalidUtf8, "cat raw"),
        "invalid utf-8 in command output"
    );
}
