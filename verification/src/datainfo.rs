//! The data-info parser. A data-info frame (opcode 5) shares the outer
//! framing of every response frame but carries three big-endian 16-bit
//! fields describing the downloadable flash range; it is routed through
//! this dedicated parser, never through the generic response decoder.

use vstd::prelude::*;
use crate::crc::compute_crc16;
use crate::errors::{FrameError, ProtocolError};
use crate::frame::{be16_at, frame_crc, frame_stored_crc, FRAME_LEN, FRAME_TAG};

verus! {

/// Opcode byte identifying a data-info frame.
pub const DATA_INFO_OPCODE: u8 = 5;

/// The downloadable flash range a device advertises: the first and one-past
/// the-last block index of the stored data, and the device's flash size,
/// all counted in blocks.
#[derive(Clone, Copy, Debug, PartialEq, Eq, Structural)]
pub struct DataInfo {
    pub data_start: u16,
    pub data_end: u16,
    pub flash_size: u16,
}

/// The complete outcome of parsing a byte buffer as a data-info frame:
/// length, header and checksum checks, then the three big-endian fields
/// at payload offsets 2, 4 and 6.
pub open spec fn parse_data_info_spec(s: Seq<u8>) -> Result<DataInfo, FrameError> {
    if s.len() != 20 {
        Err(FrameError::BadLength { len: s.len() as usize })
    } else if s[0] != FRAME_TAG {
        Err(FrameError::BadTag { tag: s[0] })
    } else if s[1] != DATA_INFO_OPCODE {
        Err(FrameError::MisroutedOpcode { opcode: s[1] })
    } else if frame_stored_crc(s) != frame_crc(s) {
        Err(FrameError::CrcMismatch { expected: frame_crc(s), actual: frame_stored_crc(s) })
    } else {
        Ok(DataInfo { data_start: be16_at(s, 2), data_end: be16_at(s, 4), flash_size: be16_at(s, 6) })
    }
}

/// The range invariant the orchestrator enforces before a download:
/// the data must start at block 0 and end within the flash size.
pub open spec fn range_supported(info: DataInfo) -> bool {
    info.data_start == 0 && info.data_end <= info.flash_size
}

/// Parses a byte buffer as a data-info frame, exactly as
/// `parse_data_info_spec` states. The header checks come before the
/// checksum check, mirroring the frame decoder's dedicated-path routing.
pub fn parse_data_info(data: &[u8]) -> (r: Result<DataInfo, FrameError>)
    ensures
        r == parse_data_info_spec(data@),
{
    if data.len() != FRAME_LEN {
        return Err(FrameError::BadLength { len: data.len() });
    }
    if data[0] != FRAME_TAG {
        return Err(FrameError::BadTag { tag: data[0] });
    }
    if data[1] != DATA_INFO_OPCODE {
        return Err(FrameError::MisroutedOpcode { opcode: data[1] });
    }
    let computed: u16 = compute_crc16(vstd::slice::slice_subrange(data, 1, 18));
    let stored: u16 = ((data[18] as u16) << 8) | (data[19] as u16);
    if stored != computed {
        return Err(FrameError::CrcMismatch { expected: computed, actual: stored });
    }
    Ok(DataInfo {
        data_start: ((data[2] as u16) << 8) | (data[3] as u16),
        data_end: ((data[4] as u16) << 8) | (data[5] as u16),
        flash_size: ((data[6] as u16) << 8) | (data[7] as u16),
    })
}

/// Checks the advertised range against the invariant the download loop
/// depends on, reporting `UnsupportedDataRange` exactly when it fails.
pub fn check_data_range(info: &DataInfo) -> (r: Result<(), ProtocolError>)
    ensures
        r is Ok <==> range_supported(*info),
        !range_supported(*info) ==> r == Err::<(), ProtocolError>(
            ProtocolError::UnsupportedDataRange {
                data_start: info.data_start,
                data_end: info.data_end,
            },
        ),
{
    if info.data_start != 0 || info.data_end > info.flash_size {
        Err(ProtocolError::UnsupportedDataRange {
            data_start: info.data_start,
            data_end: info.data_end,
        })
    } else {
        Ok(())
    }
}

} // verus!
