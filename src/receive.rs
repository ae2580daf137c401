use crate::codec::{decode_frame, decoded};
use vstd::prelude::*;

verus! {

/// Seconds that must pass between two debug reports of received byte counts.
pub const REPORT_INTERVAL_SECS: u64 = 5;

/// Settings of the receive loop, resolved once at start-up.
#[derive(Debug, Clone, Copy, PartialEq, Eq, Structural)]
pub struct ReceiveConfig {
    /// Whether received byte counts are reported, at most once per interval.
    pub debug: bool,
}

/// What one non-blocking receive on the socket gave.
#[derive(Debug, Clone, Copy, PartialEq, Eq, Structural)]
pub enum RecvEvent {
    /// A datagram of `len` bytes now sits at the start of the buffer.
    Received { len: usize },
    /// No datagram was waiting.
    WouldBlock,
    /// The socket failed with any other error.
    Failed,
}

/// What the loop does next.
#[derive(Debug)]
pub enum LoopAction {
    /// Nothing arrived: poll again.
    Poll,
    /// The datagram is refused as a whole; report that and poll again.
    Skip { len: usize, report: bool },
    /// Append `frame` to the transfer queue and poll again; when `report`
    /// is set, report the datagram's byte count first.
    Deliver { frame: Vec<u32>, report: bool },
    /// The session cannot go on: end the loop with a failure.
    Stop,
}

/// Whether a datagram that arrived `secs_since_report` seconds after the last
/// report is to be reported.
pub open spec fn report_due(config: ReceiveConfig, secs_since_report: u64) -> bool {
    config.debug && secs_since_report > REPORT_INTERVAL_SECS
}

/// Decides what the receive loop does with the outcome of one receive into
/// `buf`. A malformed datagram is skipped, never fatal; only a socket failure
/// ends the loop.
pub fn on_event(config: ReceiveConfig, event: RecvEvent, buf: &[u8], secs_since_report: u64) -> (r: LoopAction)
    requires
        event matches RecvEvent::Received { len } ==> len <= buf@.len(),
    ensures
        event is Failed ==> r is Stop,
        event is WouldBlock ==> r is Poll,
        event matches RecvEvent::Received { len } ==> {
            &&& len == 0 ==> r is Poll
            &&& len > 0 && len % 4 != 0 ==> (r matches LoopAction::Skip { len: l, report }
                && l == len && report == report_due(config, secs_since_report))
            &&& len > 0 && len % 4 == 0 ==> (r matches LoopAction::Deliver { frame, report }
                && frame@ == decoded(buf@.subrange(0, len as int))
                && report == report_due(config, secs_since_report))
        },
{
    match event {
        RecvEvent::Failed => LoopAction::Stop,
        RecvEvent::WouldBlock => LoopAction::Poll,
        RecvEvent::Received { len } => {
            if len == 0 {
                return LoopAction::Poll;
            }
            let report = config.debug && secs_since_report > REPORT_INTERVAL_SECS;
            match decode_frame(buf, len) {
                Ok(frame) => LoopAction::Deliver { frame, report },
                Err(_) => LoopAction::Skip { len, report },
            }
        },
    }
}

} // verus!
