//! Receiver state machine (firmware role): requests a transfer, receives the
//! size field and the payload in chunks with per-chunk acknowledgement,
//! reports checksums, and on completion hands the assembled buffer to the
//! boot-chain collaborator.
//!
//! The machine is pure: `action` says what the environment must do in the
//! current phase — emit a token, or perform a blocking read of the current
//! region — and `on_event` takes the outcome and moves on. Reads are retried
//! indefinitely on failure: the receiver trusts the link to eventually
//! deliver and has no independent notion of elapsed time. Failure to emit an
//! acknowledgement or checksum token is ignored; it never gates progress.
//! The receiver never compares its own checksum against anything; it only
//! reports it, so integrity verification is entirely sender-side.

use vstd::prelude::*;

use crate::checksum::checksum;
use crate::checksum::crc16_x25_of;
use crate::chunks::CHUNK_SIZE;
use crate::chunks::chunk_end;
use crate::chunks::chunk_start;
use crate::chunks::num_chunks;
use crate::chunks::spec_num_chunks;
use crate::size_field::decode_size;
use crate::size_field::spec_size_value;
use crate::token::ack_token;
use crate::token::encode_ack;
use crate::token::encode_ok;
use crate::token::encode_rdy;
use crate::token::ok_token;
use crate::token::rdy_token;

verus! {

/// Why the receiver halted the boot attempt.
#[derive(Clone, Copy, Debug, PartialEq, Eq, Structural)]
pub enum ReceiverFailure {
    /// The readiness request could not be written to the channel.
    Transport,
    /// No buffer of the declared size can be obtained here.
    Allocation,
}

/// The receiver's protocol phase, strictly sequential.
#[derive(Clone, Copy, Debug, PartialEq, Eq, Structural)]
pub enum ReceiverState {
    /// Emit `RDY(256)` once to request the transfer.
    Request,
    /// Blocking read of the 8-byte size region; on failure, retry the same
    /// read indefinitely.
    ReceiveSize,
    /// Emit `ACK(0)` for the size field's sole chunk.
    AckSize,
    /// Emit `OK(checksum(size bytes))`.
    ConfirmSize,
    /// Blocking read of image chunk `index`; on failure, retry indefinitely.
    ReceiveChunk { index: usize },
    /// Emit `ACK(index)` for the chunk just stored.
    AckChunk { index: usize },
    /// Emit `OK(checksum(image))`.
    ConfirmImage,
    /// Hand the assembled buffer to the boot invoker.
    HandOff,
    /// Unrecoverable; halt the boot attempt.
    Failed { reason: ReceiverFailure },
}

/// The outcome of the most recently requested action, reported back to the
/// machine.
#[derive(Debug)]
pub enum ReceiverEvent {
    /// The requested token write completed.
    EmitDone,
    /// The requested token write failed.
    EmitFailed,
    /// The requested region read completed with exactly these bytes.
    RegionRead { data: Vec<u8> },
    /// The requested region read failed.
    ReadFailed,
}

/// What the receiver asks its environment to do next.
#[derive(Debug)]
pub enum ReceiverAction {
    /// Write these token bytes to the channel.
    EmitToken { data: Vec<u8> },
    /// Blocking read of exactly `len` bytes.
    ReadRegion { len: usize },
    /// Hand the assembled buffer over; the transfer is complete.
    YieldImage,
    /// Unrecoverable failure; halt.
    Halt { reason: ReceiverFailure },
}

/// Abstract receiver state: the phase, the received size field, and the
/// image bytes assembled so far. The declared length is what the size field
/// decodes to.
pub struct ReceiverModel {
    /// The current protocol phase.
    pub state: ReceiverState,
    /// The received 8-byte size field (empty until received).
    pub size_bytes: Seq<u8>,
    /// The image bytes assembled so far, in arrival order.
    pub image: Seq<u8>,
}

impl ReceiverModel {
    /// The image length the size field declared.
    pub open spec fn declared_len(self) -> u64 {
        spec_size_value(self.size_bytes)
    }

    /// Number of chunks the declared image splits into.
    pub open spec fn n_chunks(self) -> nat {
        spec_num_chunks(self.declared_len() as nat)
    }

    /// How many bytes the current phase's blocking read must deliver.
    pub open spec fn region_len(self) -> nat {
        match self.state {
            ReceiverState::ReceiveSize => 8,
            ReceiverState::ReceiveChunk { index } => (chunk_end(
                self.declared_len() as nat,
                index as nat,
            ) - chunk_start(index as nat)) as nat,
            _ => 0,
        }
    }
}

/// The phase after the size checksum was reported: straight to the image
/// checksum report for a zero-length image, a halt when no buffer of the
/// declared size can exist on this machine, otherwise the first image chunk.
pub open spec fn after_confirm_size(m: ReceiverModel) -> ReceiverState {
    if m.declared_len() == 0 {
        ReceiverState::ConfirmImage
    } else if m.declared_len() > usize::MAX as u64 {
        (ReceiverState::Failed { reason: ReceiverFailure::Allocation })
    } else {
        (ReceiverState::ReceiveChunk { index: 0 })
    }
}

/// The receiver's transition function: from abstract state and event to the
/// next abstract state. A failed read leaves the phase unchanged — the same
/// read is retried — and a failed token emission is ignored everywhere but
/// for the readiness request, whose loss is fatal.
pub open spec fn receiver_next(m: ReceiverModel, ev: ReceiverEvent) -> ReceiverModel {
    match m.state {
        ReceiverState::Request => ReceiverModel {
            state: if ev is EmitDone {
                ReceiverState::ReceiveSize
            } else {
                (ReceiverState::Failed { reason: ReceiverFailure::Transport })
            },
            ..m
        },
        ReceiverState::ReceiveSize => match ev {
            ReceiverEvent::RegionRead { data } => ReceiverModel {
                state: ReceiverState::AckSize,
                size_bytes: data@,
                ..m
            },
            _ => m,
        },
        ReceiverState::AckSize => ReceiverModel { state: ReceiverState::ConfirmSize, ..m },
        ReceiverState::ConfirmSize => ReceiverModel { state: after_confirm_size(m), ..m },
        ReceiverState::ReceiveChunk { index } => match ev {
            ReceiverEvent::RegionRead { data } => ReceiverModel {
                state: (ReceiverState::AckChunk { index }),
                image: m.image + data@,
                ..m
            },
            _ => m,
        },
        ReceiverState::AckChunk { index } => ReceiverModel {
            state: if index + 1 < m.n_chunks() {
                (ReceiverState::ReceiveChunk { index: (index + 1) as usize })
            } else {
                ReceiverState::ConfirmImage
            },
            ..m
        },
        ReceiverState::ConfirmImage => ReceiverModel { state: ReceiverState::HandOff, ..m },
        ReceiverState::HandOff => m,
        ReceiverState::Failed { .. } => m,
    }
}

/// The receiver role: exclusively owns the destination buffer it assembles,
/// until hand-off.
pub struct Receiver {
    /// The current protocol phase.
    pub state: ReceiverState,
    /// The received size field.
    pub size_bytes: Vec<u8>,
    /// Cached decoding of the size field.
    pub declared_len: u64,
    /// The image bytes assembled so far.
    pub image: Vec<u8>,
}

impl Receiver {
    /// The abstract state this receiver stands in.
    pub open spec fn model(self) -> ReceiverModel {
        ReceiverModel { state: self.state, size_bytes: self.size_bytes@, image: self.image@ }
    }

    /// Phase-wise well-formedness: the size field, once received, is 8 bytes
    /// and its cached decoding agrees; chunk indices stay in range; the
    /// assembled bytes cover exactly the chunks so far.
    pub open spec fn wf(self) -> bool {
        let m = self.model();
        match self.state {
            ReceiverState::Request | ReceiverState::ReceiveSize => m.image.len() == 0,
            ReceiverState::AckSize | ReceiverState::ConfirmSize => m.size_bytes.len() == 8
                && self.declared_len == m.declared_len() && m.image.len() == 0,
            ReceiverState::ReceiveChunk { index } => m.size_bytes.len() == 8 && self.declared_len
                == m.declared_len() && 0 < m.declared_len() <= usize::MAX as u64 && (index as nat)
                < m.n_chunks() && m.image.len() == chunk_start(index as nat),
            ReceiverState::AckChunk { index } => m.size_bytes.len() == 8 && self.declared_len
                == m.declared_len() && 0 < m.declared_len() <= usize::MAX as u64 && (index as nat)
                < m.n_chunks() && m.image.len() == chunk_end(m.declared_len() as nat, index as nat),
            ReceiverState::ConfirmImage | ReceiverState::HandOff => m.size_bytes.len() == 8
                && self.declared_len == m.declared_len() && m.image.len() == m.declared_len(),
            ReceiverState::Failed { .. } => true,
        }
    }

    /// A receiver about to request a transfer, with nothing received yet.
    pub fn new() -> (r: Receiver)
        ensures
            r.wf(),
            r.model().state == ReceiverState::Request,
            r.model().size_bytes == Seq::<u8>::empty(),
            r.model().image == Seq::<u8>::empty(),
    {
        Receiver { state: ReceiverState::Request, size_bytes: Vec::new(), declared_len: 0, image: Vec::new() }
    }

    /// What the environment must do in phase `state`: which token bytes to
    /// emit, or how many bytes the current region read must deliver.
    pub open spec fn action_matches(self, a: ReceiverAction) -> bool {
        let m = self.model();
        match self.state {
            ReceiverState::Request => a matches ReceiverAction::EmitToken { data } && data@
                == rdy_token(256),
            ReceiverState::ReceiveSize => a matches ReceiverAction::ReadRegion { len } && len == 8,
            ReceiverState::AckSize => a matches ReceiverAction::EmitToken { data } && data@
                == ack_token(0),
            ReceiverState::ConfirmSize => a matches ReceiverAction::EmitToken { data } && data@
                == ok_token(crc16_x25_of(m.size_bytes) as nat),
            ReceiverState::ReceiveChunk { .. } => a matches ReceiverAction::ReadRegion { len }
                && len as nat == m.region_len(),
            ReceiverState::AckChunk { index } => a matches ReceiverAction::EmitToken { data }
                && data@ == ack_token(index as nat),
            ReceiverState::ConfirmImage => a matches ReceiverAction::EmitToken { data } && data@
                == ok_token(crc16_x25_of(m.image) as nat),
            ReceiverState::HandOff => a matches ReceiverAction::YieldImage,
            ReceiverState::Failed { reason } => a matches ReceiverAction::Halt { reason: r } && r
                == reason,
        }
    }

    /// The action for the current phase.
    pub fn action(&self) -> (a: ReceiverAction)
        requires
            self.wf(),
        ensures
            self.action_matches(a),
    {
        match self.state {
            ReceiverState::Request => ReceiverAction::EmitToken {
                data: encode_rdy(CHUNK_SIZE as u64),
            },
            ReceiverState::ReceiveSize => ReceiverAction::ReadRegion { len: 8 },
            ReceiverState::AckSize => ReceiverAction::EmitToken { data: encode_ack(0) },
            ReceiverState::ConfirmSize => {
                let c = checksum(self.size_bytes.as_slice());
                ReceiverAction::EmitToken { data: encode_ok(c) }
            },
            ReceiverState::ReceiveChunk { .. } => {
                let filled = self.image.len();
                let total = self.declared_len as usize;
                let remaining = total - filled;
                let len = if remaining > CHUNK_SIZE {
                    CHUNK_SIZE
                } else {
                    remaining
                };
                ReceiverAction::ReadRegion { len }
            },
            ReceiverState::AckChunk { index } => ReceiverAction::EmitToken {
                data: encode_ack(index as u64),
            },
            ReceiverState::ConfirmImage => {
                let c = checksum(self.image.as_slice());
                ReceiverAction::EmitToken { data: encode_ok(c) }
            },
            ReceiverState::HandOff => ReceiverAction::YieldImage,
            ReceiverState::Failed { reason } => ReceiverAction::Halt { reason },
        }
    }

    /// Which events the current phase's action can report back: emission
    /// outcomes for token phases, a read of exactly the region's length or a
    /// read failure for receiving phases.
    pub open spec fn event_fits(self, ev: ReceiverEvent) -> bool {
        match self.state {
            ReceiverState::Request | ReceiverState::AckSize | ReceiverState::ConfirmSize
                | ReceiverState::AckChunk { .. } | ReceiverState::ConfirmImage => ev is EmitDone
                || ev is EmitFailed,
            ReceiverState::ReceiveSize | ReceiverState::ReceiveChunk { .. } => (ev
                matches ReceiverEvent::RegionRead { data } && data@.len()
                == self.model().region_len()) || ev is ReadFailed,
            ReceiverState::HandOff | ReceiverState::Failed { .. } => false,
        }
    }

    /// Take the outcome of the current phase's action and move on, exactly
    /// as `receiver_next` says.
    pub fn on_event(&mut self, ev: ReceiverEvent)
        requires
            old(self).wf(),
            old(self).event_fits(ev),
        ensures
            final(self).wf(),
            final(self).model() == receiver_next(old(self).model(), ev),
    {
        match self.state {
            ReceiverState::Request => {
                self.state = match ev {
                    ReceiverEvent::EmitDone => ReceiverState::ReceiveSize,
                    _ => ReceiverState::Failed { reason: ReceiverFailure::Transport },
                };
            },
            ReceiverState::ReceiveSize => {
                match ev {
                    ReceiverEvent::RegionRead { data } => {
                        self.size_bytes = data;
                        self.declared_len = decode_size(self.size_bytes.as_slice());
                        self.state = ReceiverState::AckSize;
                    },
                    _ => {},
                }
            },
            ReceiverState::AckSize => {
                self.state = ReceiverState::ConfirmSize;
            },
            ReceiverState::ConfirmSize => {
                self.state = if self.declared_len == 0 {
                    ReceiverState::ConfirmImage
                } else if self.declared_len > usize::MAX as u64 {
                    ReceiverState::Failed { reason: ReceiverFailure::Allocation }
                } else {
                    ReceiverState::ReceiveChunk { index: 0 }
                };
            },
            ReceiverState::ReceiveChunk { index } => {
                match ev {
                    ReceiverEvent::RegionRead { data } => {
                        let mut data = data;
                        self.image.append(&mut data);
                        self.state = ReceiverState::AckChunk { index };
                    },
                    _ => {},
                }
            },
            ReceiverState::AckChunk { index } => {
                let n = num_chunks(self.declared_len as usize);
                self.state = if index + 1 < n {
                    ReceiverState::ReceiveChunk { index: index + 1 }
                } else {
                    ReceiverState::ConfirmImage
                };
            },
            ReceiverState::ConfirmImage => {
                self.state = ReceiverState::HandOff;
            },
            ReceiverState::HandOff => {},
            ReceiverState::Failed { .. } => {},
        }
    }

    /// Hand the assembled, fully-owned buffer over: exactly the declared
    /// number of bytes, the received chunks in arrival order. Ownership
    /// transfers to the boot invoker and the receiver never touches the
    /// buffer again.
    pub fn take_image(self) -> (r: Vec<u8>)
        requires
            self.wf(),
            self.state is HandOff,
        ensures
            r@ == self.model().image,
            r@.len() == self.model().declared_len(),
    {
        self.image
    }
}

} // verus!
