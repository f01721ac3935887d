//! Decisions of the background task that forwards PTY output to the channel.
//!
//! One such task runs per opened shell channel: it reads a bounded chunk from
//! the PTY, classifies the outcome, and this module says what to do with it.
//! The task owns nothing but the PTY read end and the channel handle.

use vstd::prelude::*;

verus! {

/// Most bytes one PTY read may hand over in a single chunk.
pub const PTY_READ_CHUNK: usize = 4096;

/// Outcome of one read from the PTY output end, as classified by the reader.
#[derive(Debug)]
pub enum PtyReadResult {
    /// Clean end of stream: the child side is gone.
    Eof,
    /// A chunk of output bytes.
    Output(Vec<u8>),
    /// Nothing available right now; not an error.
    WouldBlock,
    /// Any other read error.
    ReadError,
}

/// What the forwarding task does after one read.
#[derive(Debug)]
pub enum ForwardAction {
    /// Close the channel and end the task.
    CloseAndStop,
    /// Send exactly these bytes to the channel as channel data.
    Send(Vec<u8>),
    /// Read again without forwarding anything.
    Retry,
}

/// Whether the forwarding task keeps running after it tried to send.
#[derive(Clone, Copy, Debug, PartialEq, Eq)]
pub enum ForwardControl {
    /// Keep reading.
    Proceed,
    /// End the task; the peer is gone, so nothing is closed for it.
    Stop,
}

/// The forwarding rule: end of stream and read errors close the channel and
/// end the task, output is forwarded byte for byte, and a would-block
/// condition only retries.
pub open spec fn spec_forward_step(result: PtyReadResult) -> ForwardAction {
    match result {
        PtyReadResult::Eof => ForwardAction::CloseAndStop,
        PtyReadResult::Output(bytes) => ForwardAction::Send(bytes),
        PtyReadResult::WouldBlock => ForwardAction::Retry,
        PtyReadResult::ReadError => ForwardAction::CloseAndStop,
    }
}

/// Decide what the forwarding task does with one read outcome.
pub fn forward_step(result: PtyReadResult) -> (action: ForwardAction)
    ensures
        action == spec_forward_step(result),
        result matches PtyReadResult::Output(bytes) ==> action == ForwardAction::Send(bytes),
{
    match result {
        PtyReadResult::Eof => ForwardAction::CloseAndStop,
        PtyReadResult::Output(bytes) => ForwardAction::Send(bytes),
        PtyReadResult::WouldBlock => ForwardAction::Retry,
        PtyReadResult::ReadError => ForwardAction::CloseAndStop,
    }
}

/// Decide whether the task continues after a send: a failed send means the
/// peer is gone, and the task ends without closing anything.
pub fn after_send(sent_ok: bool) -> (k: ForwardControl)
    ensures
        sent_ok ==> k == ForwardControl::Proceed,
        !sent_ok ==> k == ForwardControl::Stop,
{
    if sent_ok {
        ForwardControl::Proceed
    } else {
        ForwardControl::Stop
    }
}

} // verus!
