//! Sender state machine (host role): drives the full handshake, transmits
//! the size field and the payload in chunks, and retries per chunk on
//! timeout.
//!
//! The machine is pure: it decides, and the surrounding program performs.
//! `action` says what to do in the current phase — write bytes, or scan the
//! incoming stream for a token, bounded or unbounded — and `on_event` takes
//! the outcome of that action and moves to the next phase. Every fatal wait
//! (size ack, size ok, image ok) aborts the transfer; only the per-chunk
//! acknowledgement wait is locally recovered, by rewriting the identical
//! chunk without bound.

use vstd::prelude::*;

use crate::checksum::checksum;
use crate::checksum::crc16_x25_of;
use crate::chunks::CHUNK_SIZE;
use crate::chunks::chunk;
use crate::chunks::num_chunks;
use crate::chunks::spec_chunk;
use crate::chunks::spec_num_chunks;
use crate::size_field::encode_size;
use crate::size_field::spec_size_field;
use crate::token::ack_token;
use crate::token::encode_ack;
use crate::token::encode_ok;
use crate::token::encode_rdy;
use crate::token::ok_token;
use crate::token::rdy_token;

verus! {

/// Why a transfer aborted. A checksum disagreement is not a distinct,
/// detectable kind: it surfaces only as a timeout, because the receiver's
/// reported checksum digits never match what the sender is scanning for.
#[derive(Clone, Copy, Debug, PartialEq, Eq, Structural)]
pub enum TransferError {
    /// A bounded scan exhausted its budget without a match.
    Timeout,
    /// The channel failed while writing.
    Transport,
}

/// The sender's protocol phase, strictly sequential but for the per-chunk
/// retry loop.
#[derive(Clone, Copy, Debug, PartialEq, Eq, Structural)]
pub enum SenderState {
    /// Unbounded scan for `RDY(256)`: nothing else can proceed first.
    AwaitReady,
    /// Write the 8-byte big-endian length once, unconditionally.
    SendSize,
    /// Bounded scan for `ACK(0)`, the size field's sole chunk. Timeout here
    /// is fatal: there is no retry path for loss of the size
    /// acknowledgement.
    AwaitSizeAck,
    /// Bounded scan for `OK(checksum(size bytes))`. Timeout is fatal.
    AwaitSizeOk,
    /// Write chunk `index` of the image.
    SendChunk { index: usize },
    /// Bounded scan for `ACK(index)`; on timeout, rewrite the identical
    /// chunk — the protocol's only self-healing retry.
    AwaitChunkAck { index: usize },
    /// Bounded scan, with a wider budget, for `OK(checksum(image))`.
    /// Timeout is fatal.
    AwaitImageOk,
    /// Transfer complete.
    Done,
    /// Transfer aborted.
    Failed { error: TransferError },
}

/// The outcome of the most recently requested action, reported back to the
/// machine.
#[derive(Clone, Copy, Debug, PartialEq, Eq, Structural)]
pub enum SenderEvent {
    /// The requested scan found its target.
    ScanMatched,
    /// The requested bounded scan exhausted its budget without a match.
    ScanTimedOut,
    /// The requested write completed.
    WriteDone,
    /// The requested write failed.
    WriteFailed,
}

/// What the sender asks its environment to do next.
#[derive(Debug)]
pub enum SenderAction {
    /// Scan the incoming bytes for `target` with no budget.
    ScanUnbounded { target: Vec<u8> },
    /// Scan the incoming bytes for `target` under a budget; `wide` asks for
    /// the wider, final-confirmation budget.
    ScanBounded { target: Vec<u8>, wide: bool },
    /// Write these bytes to the channel.
    Write { data: Vec<u8> },
    /// Nothing more to do: the transfer completed.
    Finish,
    /// Nothing more to do: the transfer aborted.
    Abort { error: TransferError },
}

/// The sender's transition function: from phase and event to next phase, for
/// an image of `n_chunks` chunks. An event that could not arise from the
/// phase's own action leaves the phase unchanged.
pub open spec fn sender_next(state: SenderState, n_chunks: nat, ev: SenderEvent) -> SenderState {
    match state {
        SenderState::AwaitReady => match ev {
            SenderEvent::ScanMatched => SenderState::SendSize,
            _ => state,
        },
        SenderState::SendSize => match ev {
            SenderEvent::WriteDone => SenderState::AwaitSizeAck,
            SenderEvent::WriteFailed => (SenderState::Failed { error: TransferError::Transport }),
            _ => state,
        },
        SenderState::AwaitSizeAck => match ev {
            SenderEvent::ScanMatched => SenderState::AwaitSizeOk,
            SenderEvent::ScanTimedOut => (SenderState::Failed { error: TransferError::Timeout }),
            _ => state,
        },
        SenderState::AwaitSizeOk => match ev {
            SenderEvent::ScanMatched => if n_chunks == 0 {
                SenderState::AwaitImageOk
            } else {
                (SenderState::SendChunk { index: 0 })
            },
            SenderEvent::ScanTimedOut => (SenderState::Failed { error: TransferError::Timeout }),
            _ => state,
        },
        SenderState::SendChunk { index } => match ev {
            SenderEvent::WriteDone => (SenderState::AwaitChunkAck { index }),
            SenderEvent::WriteFailed => (SenderState::AwaitChunkAck { index }),
            _ => state,
        },
        SenderState::AwaitChunkAck { index } => match ev {
            SenderEvent::ScanMatched => if index + 1 < n_chunks {
                (SenderState::SendChunk { index: (index + 1) as usize })
            } else {
                SenderState::AwaitImageOk
            },
            SenderEvent::ScanTimedOut => (SenderState::SendChunk { index }),
            _ => state,
        },
        SenderState::AwaitImageOk => match ev {
            SenderEvent::ScanMatched => SenderState::Done,
            SenderEvent::ScanTimedOut => (SenderState::Failed { error: TransferError::Timeout }),
            _ => state,
        },
        SenderState::Done => state,
        SenderState::Failed { .. } => state,
    }
}

/// The sender role: owns the source image, read-only, for the transfer's
/// duration.
pub struct Sender {
    /// The image being transferred.
    pub image: Vec<u8>,
    /// The current protocol phase.
    pub state: SenderState,
}

impl Sender {
    /// Number of chunks the image splits into.
    pub open spec fn n_chunks(self) -> nat {
        spec_num_chunks(self.image@.len() as nat)
    }

    /// Any chunk index held in the phase is a real chunk of the image.
    pub open spec fn wf(self) -> bool {
        match self.state {
            SenderState::SendChunk { index } => (index as nat) < self.n_chunks(),
            SenderState::AwaitChunkAck { index } => (index as nat) < self.n_chunks(),
            _ => true,
        }
    }

    /// A sender for `image`, ready to begin the handshake.
    pub fn new(image: Vec<u8>) -> (r: Sender)
        ensures
            r.image@ == image@,
            r.state == SenderState::AwaitReady,
            r.wf(),
    {
        Sender { image, state: SenderState::AwaitReady }
    }

    /// What the environment must do in phase `state` for an image like this
    /// one: which bytes to write, or which token bytes to scan for and under
    /// which kind of budget.
    pub open spec fn action_matches(self, a: SenderAction) -> bool {
        match self.state {
            SenderState::AwaitReady => a matches SenderAction::ScanUnbounded { target }
                && target@ == rdy_token(256),
            SenderState::SendSize => a matches SenderAction::Write { data } && data@
                == spec_size_field(self.image@.len() as u64),
            SenderState::AwaitSizeAck => a matches SenderAction::ScanBounded { target, wide }
                && target@ == ack_token(0) && !wide,
            SenderState::AwaitSizeOk => a matches SenderAction::ScanBounded { target, wide }
                && target@ == ok_token(
                crc16_x25_of(spec_size_field(self.image@.len() as u64)) as nat,
            ) && !wide,
            SenderState::SendChunk { index } => a matches SenderAction::Write { data } && data@
                == spec_chunk(self.image@, index as nat),
            SenderState::AwaitChunkAck { index } => a matches SenderAction::ScanBounded {
                target,
                wide,
            } && target@ == ack_token(index as nat) && !wide,
            SenderState::AwaitImageOk => a matches SenderAction::ScanBounded { target, wide }
                && target@ == ok_token(crc16_x25_of(self.image@) as nat) && wide,
            SenderState::Done => a matches SenderAction::Finish,
            SenderState::Failed { error } => a matches SenderAction::Abort { error: e } && e
                == error,
        }
    }

    /// The action for the current phase.
    pub fn action(&self) -> (a: SenderAction)
        requires
            self.wf(),
        ensures
            self.action_matches(a),
    {
        match self.state {
            SenderState::AwaitReady => SenderAction::ScanUnbounded {
                target: encode_rdy(CHUNK_SIZE as u64),
            },
            SenderState::SendSize => SenderAction::Write { data: encode_size(self.image.len() as u64) },
            SenderState::AwaitSizeAck => SenderAction::ScanBounded {
                target: encode_ack(0),
                wide: false,
            },
            SenderState::AwaitSizeOk => {
                let size = encode_size(self.image.len() as u64);
                let c = checksum(size.as_slice());
                SenderAction::ScanBounded { target: encode_ok(c), wide: false }
            },
            SenderState::SendChunk { index } => SenderAction::Write {
                data: chunk(&self.image, index),
            },
            SenderState::AwaitChunkAck { index } => SenderAction::ScanBounded {
                target: encode_ack(index as u64),
                wide: false,
            },
            SenderState::AwaitImageOk => {
                let c = checksum(self.image.as_slice());
                SenderAction::ScanBounded { target: encode_ok(c), wide: true }
            },
            SenderState::Done => SenderAction::Finish,
            SenderState::Failed { error } => SenderAction::Abort { error },
        }
    }

    /// Which events the current phase's action can report back.
    pub open spec fn event_fits(self, ev: SenderEvent) -> bool {
        match self.state {
            SenderState::AwaitReady => ev == SenderEvent::ScanMatched,
            SenderState::SendSize | SenderState::SendChunk { .. } => ev == SenderEvent::WriteDone
                || ev == SenderEvent::WriteFailed,
            SenderState::AwaitSizeAck | SenderState::AwaitSizeOk | SenderState::AwaitChunkAck {
                ..
            } | SenderState::AwaitImageOk => ev == SenderEvent::ScanMatched || ev
                == SenderEvent::ScanTimedOut,
            SenderState::Done | SenderState::Failed { .. } => false,
        }
    }

    /// Take the outcome of the current phase's action and move to the next
    /// phase, exactly as `sender_next` says; the image never changes.
    pub fn on_event(&mut self, ev: SenderEvent)
        requires
            old(self).wf(),
            old(self).event_fits(ev),
        ensures
            final(self).image@ == old(self).image@,
            final(self).state == sender_next(old(self).state, old(self).n_chunks(), ev),
            final(self).wf(),
    {
        let n = num_chunks(self.image.len());
        match self.state {
            SenderState::AwaitReady => {
                self.state = SenderState::SendSize;
            },
            SenderState::SendSize => {
                self.state = match ev {
                    SenderEvent::WriteDone => SenderState::AwaitSizeAck,
                    _ => SenderState::Failed { error: TransferError::Transport },
                };
            },
            SenderState::AwaitSizeAck => {
                self.state = match ev {
                    SenderEvent::ScanMatched => SenderState::AwaitSizeOk,
                    _ => SenderState::Failed { error: TransferError::Timeout },
                };
            },
            SenderState::AwaitSizeOk => {
                self.state = match ev {
                    SenderEvent::ScanMatched => if n == 0 {
                        SenderState::AwaitImageOk
                    } else {
                        SenderState::SendChunk { index: 0 }
                    },
                    _ => SenderState::Failed { error: TransferError::Timeout },
                };
            },
            SenderState::SendChunk { index } => {
                self.state = SenderState::AwaitChunkAck { index };
            },
            SenderState::AwaitChunkAck { index } => {
                self.state = match ev {
                    SenderEvent::ScanMatched => if index + 1 < n {
                        SenderState::SendChunk { index: index + 1 }
                    } else {
                        SenderState::AwaitImageOk
                    },
                    _ => SenderState::SendChunk { index },
                };
            },
            SenderState::AwaitImageOk => {
                self.state = match ev {
                    SenderEvent::ScanMatched => SenderState::Done,
                    _ => SenderState::Failed { error: TransferError::Timeout },
                };
            },
            SenderState::Done => {},
            SenderState::Failed { .. } => {},
        }
    }
}

/// The phase after feeding a whole sequence of events, oldest first, through
/// `sender_next`.
pub open spec fn sender_run(
    state: SenderState,
    n_chunks: nat,
    evs: Seq<SenderEvent>,
) -> SenderState
    decreases evs.len(),
{
    if evs.len() == 0 {
        state
    } else {
        sender_next(sender_run(state, n_chunks, evs.drop_last()), n_chunks, evs.last())
    }
}

/// If `ACK(index)` never appears — no scan in the chunk phase ever matches —
/// then however many events arrive, the sender only alternates between
/// rewriting chunk `index` and waiting for its acknowledgement: it
/// retransmits indefinitely and never advances past that chunk, and never
/// aborts.
pub proof fn lemma_unacked_chunk_never_advances(
    index: usize,
    n_chunks: nat,
    evs: Seq<SenderEvent>,
)
    requires
        forall|k: int| 0 <= k < evs.len() ==> evs[k] != SenderEvent::ScanMatched,
    ensures
        sender_run((SenderState::SendChunk { index }), n_chunks, evs) == (SenderState::SendChunk {
            index,
        }) || sender_run((SenderState::SendChunk { index }), n_chunks, evs)
            == (SenderState::AwaitChunkAck { index }),
    decreases evs.len(),
{
    if evs.len() > 0 {
        lemma_unacked_chunk_never_advances(index, n_chunks, evs.drop_last());
    }
}

} // verus!
