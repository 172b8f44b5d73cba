//! Error taxonomy of the protocol engine. Every decoding and reassembly
//! failure is a typed value; the orchestrator decides that any of them
//! aborts the running download session.

use vstd::prelude::*;

verus! {

/// A fault found while validating or decoding a single 20-byte frame.
#[derive(Clone, Copy, Debug, PartialEq, Eq, Structural)]
pub enum FrameError {
    /// The buffer is not exactly 20 bytes long.
    BadLength { len: usize },
    /// Byte 0 is not the fixed frame tag `0x7E`.
    BadTag { tag: u8 },
    /// The trailing two bytes do not hold the checksum of bytes 1..18.
    /// `expected` is the checksum computed over the frame body, `actual`
    /// the value the frame carries.
    CrcMismatch { expected: u16, actual: u16 },
    /// The opcode byte names no known response.
    UnrecognizedOpcode { opcode: u8 },
    /// The opcode is only valid in a dedicated path (data-info parsing or
    /// block reassembly), not where it was seen.
    MisroutedOpcode { opcode: u8 },
}

/// A fault found while validating a reassembled 4120-byte block.
#[derive(Clone, Copy, Debug, PartialEq, Eq, Structural)]
pub enum BlockError {
    /// Byte 0 is not the fixed frame tag `0x7E`.
    BadTag { tag: u8 },
    /// Byte 1 is not the data-block opcode `6`.
    BadOpcode { opcode: u8 },
    /// Bytes 4100..4102 do not hold the checksum of bytes 1..4100.
    /// `expected` is the checksum computed over the block body, `actual`
    /// the value the block carries.
    CrcMismatch { expected: u16, actual: u16 },
}

/// A fault in the command/response sequence of a download session.
#[derive(Clone, Copy, Debug, PartialEq, Eq, Structural)]
pub enum ProtocolError {
    /// The requested command variant has no wire encoding defined.
    UnsupportedCommand,
    /// A handshake step got a malformed frame or the wrong response.
    HandshakeFailed,
    /// The device advertised a data range the engine cannot download:
    /// the range must start at 0 and end within the flash size.
    UnsupportedDataRange { data_start: u16, data_end: u16 },
    /// A block failed to reassemble; the whole download is aborted.
    BlockTransferFailed { block_index: u16 },
}

} // verus!
