use yes::control::{exit_status, transition, LoopState, WriteEvent};
use yes::line::{repeat_line, stream_prefix};

fn bytes(s: &str) -> Vec<u8> {
    s.as_bytes().to_vec()
}

#[test]
fn line_from_argument_appends_one_newline() {
    assert_eq!(repeat_line(Some(bytes("hi"))), bytes("hi\n"));
}

#[test]
fn line_from_empty_argument_is_just_newline() {
    assert_eq!(repeat_line(Some(Vec::new())), bytes("\n"));
}

#[test]
fn line_keeps_arbitrary_bytes_verbatim() {
    let arg = vec![0xffu8, 0x00, 0x7f, b' '];
    let mut expected = arg.clone();
    expected.push(b'\n');
    assert_eq!(repeat_line(Some(arg)), expected);
}

#[test]
fn default_line_is_y_newline() {
    assert_eq!(repeat_line(None), bytes("y\n"));
}

#[test]
fn seven_bytes_of_hi() {
    let ln = repeat_line(Some(bytes("hi")));
    assert_eq!(stream_prefix(&ln, 7), bytes("hi\nhi\nh"));
}

#[test]
fn four_bytes_of_default() {
    let ln = repeat_line(None);
    assert_eq!(stream_prefix(&ln, 4), bytes("y\ny\n"));
}

#[test]
fn zero_bytes_of_any_line_is_empty() {
    let ln = repeat_line(Some(bytes("anything")));
    assert_eq!(stream_prefix(&ln, 0), Vec::<u8>::new());
}

#[test]
fn prefix_shorter_than_line() {
    let ln = repeat_line(Some(bytes("long text")));
    assert_eq!(stream_prefix(&ln, 4), bytes("long"));
}

#[test]
fn single_byte_line_repeats_that_byte() {
    let ln = repeat_line(Some(Vec::new()));
    assert_eq!(stream_prefix(&ln, 5), bytes("\n\n\n\n\n"));
}

#[test]
fn shorter_prefix_is_prefix_of_longer() {
    let ln = repeat_line(Some(bytes("abc")));
    let long = stream_prefix(&ln, 22);
    let short = stream_prefix(&ln, 9);
    assert_eq!(short.as_slice(), &long[..9]);
}

#[test]
fn stream_bytes_come_from_the_line_cyclically() {
    let ln = repeat_line(Some(bytes("ab")));
    let out = stream_prefix(&ln, 10);
    for (i, b) in out.iter().enumerate() {
        assert_eq!(*b, ln[i % ln.len()]);
    }
}

#[test]
fn accepted_write_keeps_running() {
    assert_eq!(
        transition(LoopState::Running, WriteEvent::Accepted),
        LoopState::Running
    );
}

#[test]
fn broken_pipe_ends_cleanly() {
    assert_eq!(
        transition(LoopState::Running, WriteEvent::ReaderClosed),
        LoopState::Done
    );
}

#[test]
fn other_write_error_is_fatal() {
    assert_eq!(
        transition(LoopState::Running, WriteEvent::WriteError),
        LoopState::Failed
    );
}

#[test]
fn clean_stop_exits_zero() {
    assert_eq!(exit_status(LoopState::Done), 0);
}

#[test]
fn fatal_error_exits_nonzero() {
    assert_eq!(exit_status(LoopState::Failed), 1);
}
