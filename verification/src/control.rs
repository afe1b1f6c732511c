//! The write loop as a state machine.
//!
//! The loop starts in `Running`. Each iteration attempts one write of the
//! repeat line and reports a [`WriteEvent`]; [`transition`] maps the event to
//! the next state. A closed downstream reader is the expected way to stop and
//! leads to a successful exit; every other failure is fatal.

use vstd::prelude::*;

verus! {

/// The outcome of one attempt to write the whole repeat line.
#[derive(Clone, Copy, Debug, PartialEq, Eq, Structural)]
pub enum WriteEvent {
    /// The output stream accepted every byte of the line.
    Accepted,
    /// The downstream reader closed its end of the stream (broken pipe).
    ReaderClosed,
    /// Any other failure while writing.
    WriteError,
}

/// The state of the write loop.
#[derive(Clone, Copy, Debug, PartialEq, Eq, Structural)]
pub enum LoopState {
    /// Still writing; another iteration follows.
    Running,
    /// Terminated cleanly because the reader went away.
    Done,
    /// Terminated on a fatal write error.
    Failed,
}

/// One step of the loop: from `Running`, the event decides the next state.
///
/// A write that was accepted keeps the loop running; a broken pipe ends it
/// cleanly; any other error ends it as a failure. These are the only three
/// transitions the repeater has.
pub fn transition(state: LoopState, event: WriteEvent) -> (next: LoopState)
    requires
        state is Running,
    ensures
        next is Running <==> event is Accepted,
        next is Done <==> event is ReaderClosed,
        next is Failed <==> event is WriteError,
{
    match event {
        WriteEvent::Accepted => LoopState::Running,
        WriteEvent::ReaderClosed => LoopState::Done,
        WriteEvent::WriteError => LoopState::Failed,
    }
}

/// The process exit status for a terminal loop state: 0 after a clean stop,
/// 1 after a fatal error.
pub fn exit_status(state: LoopState) -> (code: i32)
    requires
        state is Done || state is Failed,
    ensures
        state is Done ==> code == 0,
        state is Failed ==> code == 1,
{
    match state {
        LoopState::Done => 0,
        _ => 1,
    }
}

} // verus!
