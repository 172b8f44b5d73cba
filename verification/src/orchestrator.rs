//! The download orchestrator: an explicit state machine that sequences
//! pairing, the firmware-version check, the data-range query and the
//! packet-by-packet bulk transfer, and accumulates the flash image.
//!
//! The machine is driven from outside: the transport owner feeds it one
//! event at a time (link up, one inbound 20-byte frame, link loss) and
//! performs the single action each step returns (send a frame, await the
//! next frame, hand the finished image to the storage sink, or stop).
//! Every decoding or reassembly fault aborts the whole session; there is
//! no retry at any layer.

use vstd::prelude::*;
use crate::block::{block_payload, block_wf, reassemble, BLOCK_LEN};
use crate::datainfo::{check_data_range, parse_data_info, parse_data_info_spec, range_supported};
use crate::errors::ProtocolError;
use crate::frame::{
    command_encoding, data_command_base, decode, decode_spec, encode, gen_data_command,
    packed_frame, Command, Response,
};

verus! {

/// The observable session state, published to the external observer on
/// every transition and never read back by the engine.
#[derive(Clone, Copy, Debug, PartialEq, Eq, Structural)]
pub enum SessionState {
    Pairing,
    Connected,
    Ready,
    Receiving,
    Disconnected,
}

/// The engine's internal position in the protocol sequence.
#[derive(Clone, Copy, Debug, PartialEq, Eq, Structural)]
pub enum Phase {
    /// Waiting for the transport to report a link-level connection.
    AwaitLink,
    /// `GetVersion` sent, waiting for the firmware-version response.
    AwaitFwVersion,
    /// `NewPairing` sent, waiting for the pairing confirmation.
    AwaitPairOk,
    /// `GetDataInfo` sent, waiting for the advertised data range.
    AwaitDataInfo,
    /// Bulk transfer: collecting the frames of the current block.
    Transfer,
    /// Download finished and the image handed out.
    Complete,
    /// A fatal protocol fault ended the session.
    Aborted,
    /// The transport reported link loss.
    Lost,
}

/// One input to the state machine.
pub enum Event {
    /// The transport established the link.
    LinkUp,
    /// One inbound 20-byte frame.
    Frame(Vec<u8>),
    /// The transport lost the link.
    LinkDown,
}

/// The single action the caller must perform after a step.
#[derive(Debug)]
pub enum Action {
    /// Write this frame to the transport, then await the next inbound frame.
    Send(Vec<u8>),
    /// Await the next inbound frame.
    AwaitFrame,
    /// Hand the finished flash image to the storage sink.
    Persist(Vec<u8>),
    /// The session is over; nothing more to do.
    Halt,
}

/// A phase in which the session is over and every further event is ignored.
pub open spec fn terminal(p: Phase) -> bool {
    p == Phase::Complete || p == Phase::Aborted || p == Phase::Lost
}

/// The download orchestrator. `image` accumulates one 4096-byte payload
/// per reassembled block, in block-index order; `block_buf` collects the
/// frames of the block currently in transfer.
pub struct Downloader {
    pub state: SessionState,
    pub phase: Phase,
    pub data_end: u16,
    pub block_index: u16,
    pub block_buf: Vec<u8>,
    pub image: Vec<u8>,
}

/// Neither buffers nor transfer position changed between two machine values.
pub open spec fn same_progress(pre: Downloader, post: Downloader) -> bool {
    &&& post.data_end == pre.data_end
    &&& post.block_index == pre.block_index
    &&& post.block_buf@ == pre.block_buf@
    &&& post.image@ == pre.image@
}

/// Nothing at all changed between two machine values.
pub open spec fn unchanged(pre: Downloader, post: Downloader) -> bool {
    &&& post.phase == pre.phase
    &&& post.state == pre.state
    &&& same_progress(pre, post)
}

impl Downloader {
    /// Well-formedness: the observable state matches the phase, the block
    /// buffer holds whole frames of an unfinished block, and the image
    /// holds exactly the payloads of the blocks already reassembled.
    pub open spec fn wf(self) -> bool {
        match self.phase {
            Phase::AwaitLink => self.state == SessionState::Pairing && self.block_buf@.len() == 0
                && self.image@.len() == 0,
            Phase::AwaitFwVersion => self.state == SessionState::Connected
                && self.block_buf@.len() == 0 && self.image@.len() == 0,
            Phase::AwaitPairOk => self.state == SessionState::Connected
                && self.block_buf@.len() == 0 && self.image@.len() == 0,
            Phase::AwaitDataInfo => self.state == SessionState::Ready && self.block_buf@.len() == 0
                && self.image@.len() == 0,
            Phase::Transfer => self.state == SessionState::Receiving
                && self.block_index < self.data_end && self.block_buf@.len() % 20 == 0
                && self.block_buf@.len() < BLOCK_LEN
                && self.image@.len() == self.block_index * 4096,
            Phase::Complete => self.state == SessionState::Ready && self.block_buf@.len() == 0
                && self.image@.len() == self.data_end * 4096,
            Phase::Aborted => true,
            Phase::Lost => self.state == SessionState::Disconnected,
        }
    }

    /// A fresh session: the entry transition into `Pairing` has happened
    /// and the machine waits for the link.
    pub fn new() -> (d: Downloader)
        ensures
            d.wf(),
            d.phase == Phase::AwaitLink,
            d.state == SessionState::Pairing,
            d.image@.len() == 0,
    {
        Downloader {
            state: SessionState::Pairing,
            phase: Phase::AwaitLink,
            data_end: 0,
            block_index: 0,
            block_buf: Vec::new(),
            image: Vec::new(),
        }
    }

    /// Feeds one event to the state machine and returns the action to
    /// perform, or the fatal error that ends the session.
    ///
    /// The clauses below are the complete transition relation: link loss
    /// is terminal from every phase; the handshake is strictly sequential
    /// with any mismatch fatal; a valid data range starts the bulk loop;
    /// during transfer each frame extends the block buffer, and every
    /// 206th frame completes a block that must reassemble or the whole
    /// download aborts.
    pub fn step(&mut self, event: Event) -> (r: Result<Action, ProtocolError>)
        requires
            old(self).wf(),
            event matches Event::Frame(f) ==> f@.len() == 20,
        ensures
            final(self).wf(),
            event is LinkDown ==> ({
                let pre = *old(self);
                let post = *final(self);
                &&& post.phase == Phase::Lost
                &&& post.state == SessionState::Disconnected
                &&& same_progress(pre, post)
                &&& (r matches Ok(a) && a is Halt)
            }),
            event is LinkUp && old(self).phase == Phase::AwaitLink ==> ({
                let pre = *old(self);
                let post = *final(self);
                &&& post.phase == Phase::AwaitFwVersion
                &&& post.state == SessionState::Connected
                &&& same_progress(pre, post)
                &&& (r matches Ok(Action::Send(p)) && p@ == packed_frame(
                    command_encoding(Command::GetVersion).unwrap(),
                ))
            }),
            event is LinkUp && old(self).phase != Phase::AwaitLink ==> ({
                let pre = *old(self);
                let post = *final(self);
                &&& unchanged(pre, post)
                &&& (if terminal(pre.phase) {
                    r matches Ok(a) && a is Halt
                } else {
                    r matches Ok(a) && a is AwaitFrame
                })
            }),
            event is Frame && terminal(old(self).phase) ==> ({
                &&& unchanged(*old(self), *final(self))
                &&& (r matches Ok(a) && a is Halt)
            }),
            event is Frame && old(self).phase == Phase::AwaitLink ==> ({
                &&& unchanged(*old(self), *final(self))
                &&& (r matches Ok(a) && a is AwaitFrame)
            }),
            event matches Event::Frame(f) ==> (old(self).phase == Phase::AwaitFwVersion ==> {
                let pre = *old(self);
                let post = *final(self);
                if decode_spec(f@) == Ok::<Response, crate::errors::FrameError>(
                    Response::FwVersion,
                ) {
                    &&& post.phase == Phase::AwaitPairOk
                    &&& post.state == SessionState::Connected
                    &&& same_progress(pre, post)
                    &&& (r matches Ok(Action::Send(p)) && p@ == packed_frame(
                        command_encoding(Command::NewPairing).unwrap(),
                    ))
                } else {
                    &&& post.phase == Phase::Aborted
                    &&& post.state == pre.state
                    &&& same_progress(pre, post)
                    &&& (r matches Err(e) && e == ProtocolError::HandshakeFailed)
                }
            }),
            event matches Event::Frame(f) ==> (old(self).phase == Phase::AwaitPairOk ==> {
                let pre = *old(self);
                let post = *final(self);
                if decode_spec(f@) == Ok::<Response, crate::errors::FrameError>(Response::PairOk) {
                    &&& post.phase == Phase::AwaitDataInfo
                    &&& post.state == SessionState::Ready
                    &&& same_progress(pre, post)
                    &&& (r matches Ok(Action::Send(p)) && p@ == packed_frame(
                        command_encoding(Command::GetDataInfo).unwrap(),
                    ))
                } else {
                    &&& post.phase == Phase::Aborted
                    &&& post.state == pre.state
                    &&& same_progress(pre, post)
                    &&& (r matches Err(e) && e == ProtocolError::HandshakeFailed)
                }
            }),
            event matches Event::Frame(f) ==> (old(self).phase == Phase::AwaitDataInfo ==> {
                let pre = *old(self);
                let post = *final(self);
                match parse_data_info_spec(f@) {
                    Ok(info) => {
                        if !range_supported(info) {
                            &&& post.phase == Phase::Aborted
                            &&& post.state == pre.state
                            &&& same_progress(pre, post)
                            &&& (r matches Err(e) && e == (ProtocolError::UnsupportedDataRange {
                                data_start: info.data_start,
                                data_end: info.data_end,
                            }))
                        } else if info.data_end == 0 {
                            &&& post.phase == Phase::Complete
                            &&& post.state == SessionState::Ready
                            &&& post.image@.len() == 0
                            &&& (r matches Ok(Action::Persist(img)) && img@ == Seq::<u8>::empty())
                        } else {
                            &&& post.phase == Phase::Transfer
                            &&& post.state == SessionState::Receiving
                            &&& post.data_end == info.data_end
                            &&& post.block_index == 0
                            &&& post.block_buf@.len() == 0
                            &&& post.image@.len() == 0
                            &&& (r matches Ok(Action::Send(p)) && p@ == packed_frame(
                                data_command_base(0, 1),
                            ))
                        }
                    },
                    Err(_) => {
                        &&& post.phase == Phase::Aborted
                        &&& post.state == pre.state
                        &&& same_progress(pre, post)
                        &&& (r matches Err(e) && e == ProtocolError::HandshakeFailed)
                    },
                }
            }),
            event matches Event::Frame(f) ==> (old(self).phase == Phase::Transfer ==> {
                let pre = *old(self);
                let post = *final(self);
                let buf1 = pre.block_buf@ + f@;
                if buf1.len() < BLOCK_LEN {
                    &&& post.phase == Phase::Transfer
                    &&& post.state == SessionState::Receiving
                    &&& post.data_end == pre.data_end
                    &&& post.block_index == pre.block_index
                    &&& post.block_buf@ == buf1
                    &&& post.image@ == pre.image@
                    &&& (r matches Ok(a) && a is AwaitFrame)
                } else if block_wf(buf1) {
                    &&& post.image@ == pre.image@ + block_payload(buf1)
                    &&& post.block_buf@.len() == 0
                    &&& post.data_end == pre.data_end
                    &&& (if pre.block_index + 1 < pre.data_end {
                        &&& post.phase == Phase::Transfer
                        &&& post.state == SessionState::Receiving
                        &&& post.block_index == pre.block_index + 1
                        &&& (r matches Ok(Action::Send(p)) && p@ == packed_frame(
                            data_command_base((pre.block_index + 1) as u16, 1),
                        ))
                    } else {
                        &&& post.phase == Phase::Complete
                        &&& post.state == SessionState::Ready
                        &&& (r matches Ok(Action::Persist(img)) && img@ == pre.image@
                            + block_payload(buf1))
                    })
                } else {
                    &&& post.phase == Phase::Aborted
                    &&& post.state == pre.state
                    &&& post.image@ == pre.image@
                    &&& (r matches Err(e) && e == (ProtocolError::BlockTransferFailed {
                        block_index: pre.block_index,
                    }))
                }
            }),
    {
        match event {
            Event::LinkDown => {
                self.phase = Phase::Lost;
                self.state = SessionState::Disconnected;
                Ok(Action::Halt)
            },
            Event::LinkUp => {
                match self.phase {
                    Phase::AwaitLink => {
                        self.phase = Phase::AwaitFwVersion;
                        self.state = SessionState::Connected;
                        Ok(Action::Send(must_encode(Command::GetVersion)))
                    },
                    Phase::Complete | Phase::Aborted | Phase::Lost => Ok(Action::Halt),
                    _ => Ok(Action::AwaitFrame),
                }
            },
            Event::Frame(f) => {
                match self.phase {
                    Phase::Complete | Phase::Aborted | Phase::Lost => Ok(Action::Halt),
                    Phase::AwaitLink => Ok(Action::AwaitFrame),
                    Phase::AwaitFwVersion => {
                        match decode(f.as_slice()) {
                            Ok(Response::FwVersion) => {
                                self.phase = Phase::AwaitPairOk;
                                Ok(Action::Send(must_encode(Command::NewPairing)))
                            },
                            _ => {
                                self.phase = Phase::Aborted;
                                Err(ProtocolError::HandshakeFailed)
                            },
                        }
                    },
                    Phase::AwaitPairOk => {
                        match decode(f.as_slice()) {
                            Ok(Response::PairOk) => {
                                self.phase = Phase::AwaitDataInfo;
                                self.state = SessionState::Ready;
                                Ok(Action::Send(must_encode(Command::GetDataInfo)))
                            },
                            _ => {
                                self.phase = Phase::Aborted;
                                Err(ProtocolError::HandshakeFailed)
                            },
                        }
                    },
                    Phase::AwaitDataInfo => {
                        match parse_data_info(f.as_slice()) {
                            Ok(info) => {
                                match check_data_range(&info) {
                                    Err(e) => {
                                        self.phase = Phase::Aborted;
                                        Err(e)
                                    },
                                    Ok(()) => {
                                        if info.data_end == 0 {
                                            self.phase = Phase::Complete;
                                            self.data_end = 0;
                                            Ok(Action::Persist(Vec::new()))
                                        } else {
                                            self.phase = Phase::Transfer;
                                            self.state = SessionState::Receiving;
                                            self.data_end = info.data_end;
                                            self.block_index = 0;
                                            Ok(Action::Send(gen_data_command(0, 1)))
                                        }
                                    },
                                }
                            },
                            Err(_) => {
                                self.phase = Phase::Aborted;
                                Err(ProtocolError::HandshakeFailed)
                            },
                        }
                    },
                    Phase::Transfer => {
                        append_bytes(&mut self.block_buf, f.as_slice());
                        if self.block_buf.len() < BLOCK_LEN {
                            return Ok(Action::AwaitFrame);
                        }
                        match reassemble(self.block_buf.as_slice()) {
                            Ok(payload) => {
                                append_bytes(&mut self.image, payload.as_slice());
                                self.block_buf.clear();
                                if self.block_index + 1 < self.data_end {
                                    self.block_index = self.block_index + 1;
                                    Ok(Action::Send(gen_data_command(self.block_index, 1)))
                                } else {
                                    self.phase = Phase::Complete;
                                    self.state = SessionState::Ready;
                                    Ok(Action::Persist(
                                        vstd::slice::slice_to_vec(self.image.as_slice()),
                                    ))
                                }
                            },
                            Err(_) => {
                                self.phase = Phase::Aborted;
                                Err(ProtocolError::BlockTransferFailed {
                                    block_index: self.block_index,
                                })
                            },
                        }
                    },
                }
            },
        }
    }
}

/// Encodes a command that is known to carry a wire encoding, so the
/// `UnsupportedCommand` case cannot arise.
fn must_encode(c: Command) -> (r: Vec<u8>)
    requires
        command_encoding(c) is Some,
    ensures
        r@ == packed_frame(command_encoding(c).unwrap()),
{
    match encode(c) {
        Ok(p) => p,
        Err(_) => Vec::new(),  // never reached: every encodable command encodes
    }
}

/// Appends every byte of `src` to `dst`, in order.
fn append_bytes(dst: &mut Vec<u8>, src: &[u8])
    ensures
        final(dst)@ == old(dst)@ + src@,
{
    let ghost dst0: Seq<u8> = dst@;
    let n: usize = src.len();
    for i in 0..n
        invariant
            n == src@.len(),
            dst@ == dst0 + src@.subrange(0, i as int),
    {
        dst.push(src[i]);
        assert(dst@ =~= dst0 + src@.subrange(0, i + 1));
    }
    assert(dst0 + src@.subrange(0, n as int) =~= dst0 + src@);
}

/// The progress observation of the bulk loop: how many of the expected
/// packets have arrived, in whole percent, exactly as the driver reports
/// it after each inbound packet.
pub fn progress_percent(block_index: u16, packets_received: usize, block_count: u16) -> (r: u64)
    requires
        block_count > 0,
        block_index < block_count,
        packets_received <= 206,
    ensures
        r == ((packets_received + 206 * block_index) * 100) as int / (206 * block_count) as int,
{
    ((packets_received as u64 + 206 * (block_index as u64)) * 100) / (206 * (block_count as u64))
}

} // verus!
