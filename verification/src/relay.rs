//! Relay session: the state machine that stands between one spawned Git
//! subprocess and one SSH channel.
//!
//! The session owns no I/O. The surrounding loop feeds it what happened —
//! subprocess output, client data, subprocess exit, client disconnect —
//! and performs the actions it hands back: forward bytes, feed the
//! subprocess, terminate it, close the channel with a status. Every exit
//! path ends in `TerminateSubprocess` or `CloseChannel`, so the subprocess
//! handle is released whichever side gives up first.

use vstd::prelude::*;
use crate::pktline::PktScanner;
use crate::pktline::ScanMode;
use crate::pktline::ScanState;
use crate::pktline::initial_state;
use crate::pktline::scan_seq;

verus! {

/// What the relay does when the scanner reaches a flush marker. Git uses
/// the marker both as the end of the initial ref advertisement and as an
/// internal phase separator, so the choice is an explicit policy, not a
/// byte-counting accident.
#[derive(Clone, Copy, Debug, PartialEq, Eq, Structural)]
pub enum FlushPolicy {
    /// Stop at the first flush marker: serve the ref advertisement only.
    AdvertisementOnly,
    /// Keep streaming across flush markers until the subprocess exits.
    FullStream,
}

/// Exit status reported when the subprocess output violates the pkt-line
/// framing.
pub const FRAMING_ERROR_STATUS: u32 = 128;

/// Exit status reported when the subprocess could not be spawned at all.
pub const SPAWN_FAILURE_STATUS: u32 = 127;

/// One instruction to the surrounding I/O loop.
#[derive(Clone, Debug, PartialEq, Eq)]
pub enum RelayAction {
    /// Write these bytes to the channel as data frames.
    Forward(Vec<u8>),
    /// Write these bytes to the subprocess's standard input.
    SendToSubprocess(Vec<u8>),
    /// Terminate the subprocess promptly and release its handle.
    TerminateSubprocess,
    /// Report this exit status to the client and close the channel.
    CloseChannel(u32),
}

/// Transient state of one subprocess-to-channel relay.
#[derive(Debug)]
pub struct RelaySession {
    scanner: PktScanner,
    policy: FlushPolicy,
    finished: bool,
}

impl RelaySession {
    /// Representation invariant.
    pub closed spec fn wf(self) -> bool {
        self.scanner.wf()
    }

    /// The scanner's abstract state.
    pub closed spec fn scanner_state(self) -> ScanState {
        self.scanner@
    }

    /// The flush policy the session was created with.
    pub closed spec fn policy(self) -> FlushPolicy {
        self.policy
    }

    /// Whether the session is over: every later event is answered with no
    /// action.
    pub closed spec fn is_finished(self) -> bool {
        self.finished
    }

    /// A fresh session for one command dispatch.
    pub fn new(policy: FlushPolicy) -> (s: RelaySession)
        ensures
            s.wf(),
            s.scanner_state() == initial_state(),
            s.policy() == policy,
            !s.is_finished(),
    {
        RelaySession { scanner: PktScanner::new(), policy, finished: false }
    }

    /// Whether the session is over.
    pub fn is_done(&self) -> (done: bool)
        ensures
            done == self.is_finished(),
    {
        self.finished
    }

    /// The subprocess wrote `chunk` on its standard output: scan it,
    /// forward what was scanned unchanged and in order, and react to a
    /// flush marker or a framing error. Returns the actions and how many
    /// bytes of the chunk were scanned.
    pub fn on_subprocess_output(&mut self, chunk: &Vec<u8>) -> (r: (Vec<RelayAction>, usize))
        requires
            old(self).wf(),
        ensures
            final(self).wf(),
            final(self).policy() == old(self).policy(),
            old(self).is_finished() ==> *final(self) == *old(self) && r.0@.len() == 0 && r.1 == 0,
            !old(self).is_finished() ==> ({
                let actions = r.0;
                let consumed = r.1 as int;
                let stop_at_flush = old(self).policy() is AdvertisementOnly;
                let st1 = scan_seq(old(self).scanner_state(), chunk@.take(consumed));
                &&& 0 <= consumed <= chunk@.len()
                &&& final(self).scanner_state() == st1
                &&& (consumed < chunk@.len() ==> (st1.mode is Failed || (stop_at_flush
                    && st1.mode is AtFlush)))
                &&& forall|j: int|
                    0 <= j < consumed ==> !((#[trigger] scan_seq(
                        old(self).scanner_state(),
                        chunk@.take(j),
                    ).mode) is Failed) && (stop_at_flush ==> !(scan_seq(
                        old(self).scanner_state(),
                        chunk@.take(j),
                    ).mode is AtFlush))
                &&& (if st1.mode is Failed {
                    &&& actions@.len() == 2
                    &&& actions@[0] is TerminateSubprocess
                    &&& actions@[1] == RelayAction::CloseChannel(FRAMING_ERROR_STATUS)
                    &&& final(self).is_finished()
                } else {
                    let base: int = if consumed > 0 {
                        1
                    } else {
                        0
                    };
                    &&& (consumed > 0 ==> actions@[0] is Forward && actions@[0]->Forward_0@
                        == chunk@.take(consumed))
                    &&& (if stop_at_flush && st1.mode is AtFlush {
                        &&& actions@.len() == base + 2
                        &&& actions@[base] is TerminateSubprocess
                        &&& actions@[base + 1] == RelayAction::CloseChannel(0u32)
                        &&& final(self).is_finished()
                    } else {
                        &&& actions@.len() == base
                        &&& !final(self).is_finished()
                    })
                })
            }),
    {
        if self.finished {
            return (Vec::new(), 0);
        }
        let stop_at_flush = match self.policy {
            FlushPolicy::AdvertisementOnly => true,
            FlushPolicy::FullStream => false,
        };
        let mut out: Vec<u8> = Vec::new();
        let consumed = self.scanner.scan_chunk(chunk, &mut out, stop_at_flush);
        let mut actions: Vec<RelayAction> = Vec::new();
        let mode = self.scanner.current_mode();
        if matches!(mode, ScanMode::Failed) {
            self.finished = true;
            actions.push(RelayAction::TerminateSubprocess);
            actions.push(RelayAction::CloseChannel(FRAMING_ERROR_STATUS));
        } else {
            if out.len() > 0 {
                actions.push(RelayAction::Forward(out));
            }
            if stop_at_flush && matches!(mode, ScanMode::AtFlush) {
                self.finished = true;
                actions.push(RelayAction::TerminateSubprocess);
                actions.push(RelayAction::CloseChannel(0));
            }
        }
        (actions, consumed)
    }

    /// The client sent `data` on the channel after the command: negotiation
    /// input, owed verbatim to the subprocess's standard input.
    pub fn on_client_data(&mut self, data: Vec<u8>) -> (actions: Vec<RelayAction>)
        requires
            old(self).wf(),
        ensures
            final(self).wf(),
            *final(self) == *old(self),
            old(self).is_finished() ==> actions@.len() == 0,
            !old(self).is_finished() ==> actions@.len() == 1 && actions@[0] is SendToSubprocess
                && actions@[0]->SendToSubprocess_0@ == data@,
    {
        let mut actions: Vec<RelayAction> = Vec::new();
        if !self.finished {
            actions.push(RelayAction::SendToSubprocess(data));
        }
        actions
    }

    /// The subprocess exited: its status becomes the channel's exit status
    /// and the session is over.
    pub fn on_subprocess_exit(&mut self, status: u32) -> (actions: Vec<RelayAction>)
        requires
            old(self).wf(),
        ensures
            final(self).wf(),
            old(self).is_finished() ==> *final(self) == *old(self) && actions@.len() == 0,
            !old(self).is_finished() ==> actions@.len() == 1 && actions@[0]
                == RelayAction::CloseChannel(status) && final(self).is_finished(),
    {
        let mut actions: Vec<RelayAction> = Vec::new();
        if !self.finished {
            self.finished = true;
            actions.push(RelayAction::CloseChannel(status));
        }
        actions
    }

    /// The client went away mid-stream: the subprocess is terminated at
    /// once, on this and every other exit path, so no orphan survives the
    /// session.
    pub fn on_client_disconnect(&mut self) -> (actions: Vec<RelayAction>)
        requires
            old(self).wf(),
        ensures
            final(self).wf(),
            final(self).is_finished(),
            old(self).is_finished() ==> *final(self) == *old(self) && actions@.len() == 0,
            !old(self).is_finished() ==> actions@.len() == 1 && actions@[0]
                is TerminateSubprocess,
    {
        let mut actions: Vec<RelayAction> = Vec::new();
        if !self.finished {
            self.finished = true;
            actions.push(RelayAction::TerminateSubprocess);
        }
        actions
    }

    /// The subprocess could not be spawned: the failure is the channel's
    /// exit status, never a crash of the server.
    pub fn on_spawn_failure(&mut self) -> (actions: Vec<RelayAction>)
        requires
            old(self).wf(),
        ensures
            final(self).wf(),
            final(self).is_finished(),
            old(self).is_finished() ==> *final(self) == *old(self) && actions@.len() == 0,
            !old(self).is_finished() ==> actions@.len() == 1 && actions@[0]
                == RelayAction::CloseChannel(SPAWN_FAILURE_STATUS),
    {
        let mut actions: Vec<RelayAction> = Vec::new();
        if !self.finished {
            self.finished = true;
            actions.push(RelayAction::CloseChannel(SPAWN_FAILURE_STATUS));
        }
        actions
    }
}

} // verus!
