//! The block reassembler. A block is 206 consecutive 20-byte frames
//! concatenated into one 4120-byte buffer: tag, data-block opcode, two
//! reserved header bytes, 4096 bytes of flash payload, and a big-endian
//! CRC-16 checksum of bytes 1..4100 stored at bytes 4100..4102.
//!
//! The caller concatenates the frames in arrival order before validation.
//! Arrival order is not re-validated here: frame sequencing is left to the
//! transport, so a transport that reordered frames within a block would
//! corrupt the image undetected. That gap is deliberate and documented
//! rather than papered over with sequence numbers the device never sends.

use vstd::prelude::*;
use crate::crc::{crc16, compute_crc16};
use crate::errors::BlockError;
use crate::frame::{be16_at, FRAME_TAG};

verus! {

/// Number of consecutive frames that form one block.
pub const PACKETS_IN_BLOCK: usize = 206;

/// Bytes of flash payload carried by one block.
pub const BLOCK_SIZE: usize = 4096;

/// Total length of a concatenated block buffer.
pub const BLOCK_LEN: usize = PACKETS_IN_BLOCK * 20;

/// Offset of the block's checksum trailer.
pub const CRC_INDEX: usize = (PACKETS_IN_BLOCK - 1) * 20;

/// Opcode byte identifying a data-block frame.
pub const BLOCK_OPCODE: u8 = 6;

/// The checksum trailer sits directly after the header and payload:
/// four bytes of framing plus 4096 bytes of payload.
pub proof fn lemma_block_layout()
    ensures
        BLOCK_LEN == 4120,
        CRC_INDEX == 4100,
        CRC_INDEX == BLOCK_SIZE + 4,
{
}

/// The checksum a well-formed block must carry: CRC-16 of bytes 1..4100.
pub open spec fn block_crc(s: Seq<u8>) -> u16
    recommends
        s.len() == 4120,
{
    crc16(s.subrange(1, 4100))
}

/// The checksum value a block actually carries at bytes 4100..4102.
pub open spec fn block_stored_crc(s: Seq<u8>) -> u16
    recommends
        s.len() == 4120,
{
    be16_at(s, 4100)
}

/// The 4096-byte flash payload of a block: bytes 4..4100, unchanged.
pub open spec fn block_payload(s: Seq<u8>) -> Seq<u8>
    recommends
        s.len() == 4120,
{
    s.subrange(4, 4100)
}

/// A block buffer that passes every validation step: tag, opcode and
/// checksum.
pub open spec fn block_wf(s: Seq<u8>) -> bool {
    &&& s.len() == 4120
    &&& s[0] == FRAME_TAG
    &&& s[1] == BLOCK_OPCODE
    &&& block_stored_crc(s) == block_crc(s)
}

/// Corrupting any single payload byte of a well-formed block breaks the
/// block's checksum: the corrupted buffer still carries the right tag and
/// opcode, but its stored checksum no longer matches, so `reassemble` can
/// only report `CrcMismatch` on it. Flipping a single payload bit is the
/// special case where the new byte differs from the old in that bit.
pub proof fn lemma_payload_corruption_is_crc_mismatch(s: Seq<u8>, i: int, b: u8)
    requires
        block_wf(s),
        4 <= i < 4100,
        b != s[i],
    ensures
        ({
            let c = s.update(i, b);
            &&& c[0] == FRAME_TAG
            &&& c[1] == BLOCK_OPCODE
            &&& block_stored_crc(c) != block_crc(c)
            &&& !block_wf(c)
        }),
{
    let c = s.update(i, b);
    let body1 = s.subrange(1, 4100);
    let body2 = c.subrange(1, 4100);
    assert(body2 =~= body1.update(i - 1, b));
    assert(forall|j: int| 0 <= j < body1.len() && j != i - 1 ==> body1[j] == body2[j]);
    crate::crc::lemma_crc16_detects_single_byte_change(body1, body2, i - 1);
    assert(c[4100] == s[4100] && c[4101] == s[4101]);
}

/// Validates a concatenated 4120-byte block buffer and extracts its
/// 4096-byte flash payload. Checks run in order: tag, opcode, checksum;
/// on success the payload comes out byte for byte unchanged.
pub fn reassemble(data: &[u8]) -> (r: Result<Vec<u8>, BlockError>)
    requires
        data@.len() == 4120,
    ensures
        r is Ok <==> block_wf(data@),
        r matches Ok(p) ==> p@ == block_payload(data@),
        data@[0] != FRAME_TAG ==> (r matches Err(e) && e == (BlockError::BadTag {
            tag: data@[0],
        })),
        data@[0] == FRAME_TAG && data@[1] != BLOCK_OPCODE ==> (r matches Err(e) && e == (
        BlockError::BadOpcode { opcode: data@[1] })),
        data@[0] == FRAME_TAG && data@[1] == BLOCK_OPCODE && block_stored_crc(data@) != block_crc(
            data@,
        ) ==> (r matches Err(e) && e == (BlockError::CrcMismatch {
            expected: block_crc(data@),
            actual: block_stored_crc(data@),
        })),
{
    if data[0] != FRAME_TAG {
        return Err(BlockError::BadTag { tag: data[0] });
    }
    if data[1] != BLOCK_OPCODE {
        return Err(BlockError::BadOpcode { opcode: data[1] });
    }
    let computed: u16 = compute_crc16(vstd::slice::slice_subrange(data, 1, CRC_INDEX));
    let stored: u16 = ((data[CRC_INDEX] as u16) << 8) | (data[CRC_INDEX + 1] as u16);
    if stored != computed {
        return Err(BlockError::CrcMismatch { expected: computed, actual: stored });
    }
    let mut payload: Vec<u8> = Vec::new();
    for i in 4..CRC_INDEX
        invariant
            data@.len() == 4120,
            payload@ == data@.subrange(4, i as int),
    {
        payload.push(data[i]);
        assert(payload@ =~= data@.subrange(4, i + 1));
    }
    Ok(payload)
}

} // verus!
