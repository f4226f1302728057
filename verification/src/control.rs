//! The receiver's lifecycle control flag.
//!
//! The flag is one of three states.  `Run` lets the receiver accept
//! connections and process transfers.  `Stop` finishes the active
//! transfer, if any, and exits the accept loop on its next poll.
//! `StopNow` aborts the active transfer's read loop on its next
//! iteration and exits without a final acknowledgement.
//!
//! The flag is shared across threads as an atomic integer; this module
//! fixes the encoding and proves it faithful in both directions.
use vstd::prelude::*;

verus! {

/// The tri-state lifecycle command for a receiver.
#[derive(Clone, Copy, PartialEq, Eq, Structural, Debug)]
pub enum Control {
    /// Accept new connections and process active transfers.
    Run,
    /// Finish the active transfer, then exit the accept loop. (Graceful.)
    Stop,
    /// Abort the active transfer's inner loop and exit. (Abrupt.)
    StopNow,
}

/// The integer code a control state is stored under in the shared
/// atomic cell.
pub open spec fn spec_control_code(c: Control) -> usize {
    match c {
        Control::Run => 0,
        Control::Stop => 1,
        Control::StopNow => 2,
    }
}

/// Encodes a control state as its integer code.
pub fn control_code(c: Control) -> (code: usize)
    ensures
        code == spec_control_code(c),
{
    match c {
        Control::Run => 0,
        Control::Stop => 1,
        Control::StopNow => 2,
    }
}

/// The control state a stored integer code stands for.  Codes that no
/// control state encodes to read as `Stop`, the conservative state; the
/// cell is only ever written through `control_code`, so they never
/// occur.
pub open spec fn spec_control_of_code(code: usize) -> Control {
    if code == 0 {
        Control::Run
    } else if code == 2 {
        Control::StopNow
    } else {
        Control::Stop
    }
}

/// Decodes a stored integer code back into a control state.
pub fn control_of_code(code: usize) -> (c: Control)
    ensures
        c == spec_control_of_code(code),
{
    if code == 0 {
        Control::Run
    } else if code == 2 {
        Control::StopNow
    } else {
        Control::Stop
    }
}

/// Encoding then decoding a control state gives the state back: every
/// store through the encoding is read back unchanged.
pub proof fn lemma_control_code_round_trip(c: Control)
    ensures
        spec_control_of_code(spec_control_code(c)) == c,
{
}

/// Whether the accept loop keeps polling: only `Run` does.
pub open spec fn spec_allows_accept(c: Control) -> bool {
    c == Control::Run
}

/// Decides whether the receiver's accept loop keeps polling for
/// connections.  Anything other than `Run` ends the loop.
pub fn allows_accept(c: Control) -> (keep: bool)
    ensures
        keep == spec_allows_accept(c),
{
    c == Control::Run
}

/// Whether an in-flight transfer must abort before its next read:
/// only `StopNow` does; `Stop` lets the transfer finish.
pub open spec fn spec_aborts_transfer(c: Control) -> bool {
    c == Control::StopNow
}

/// Decides whether an in-flight transfer aborts before its next read.
pub fn aborts_transfer(c: Control) -> (abort: bool)
    ensures
        abort == spec_aborts_transfer(c),
{
    c == Control::StopNow
}

} // verus!
