//! The 20-byte frame codec: packing outgoing commands into framed, checksummed
//! wire frames, and validating and routing incoming response frames.
//!
//! Frame layout: byte 0 is the fixed tag `0x7E`; bytes 1..18 hold the opcode
//! byte sequence, right-padded with `0xFF`; bytes 18..20 hold the big-endian
//! CRC-16 checksum of bytes 1..18.

use vstd::prelude::*;
use crate::crc::{crc16, crc_hi, crc_lo, compute_crc16};
use crate::errors::{FrameError, ProtocolError};

verus! {

/// Every frame on the wire is exactly this long.
pub const FRAME_LEN: usize = 20;

/// Fixed tag carried in byte 0 of every frame.
pub const FRAME_TAG: u8 = 126;

/// Byte written into every body position the opcode sequence leaves open.
pub const FRAME_PAD: u8 = 255;

/// The closed set of commands the device understands. Only a subset carries
/// a defined wire encoding; requesting any other variant is reported as
/// `ProtocolError::UnsupportedCommand` rather than aborting anything.
#[derive(Clone, Copy, Debug, PartialEq, Eq, Structural)]
pub enum Command {
    Reset,
    SendTime,
    GetBattery,
    GetTime,
    GetVersion,
    Test,
    GetAddress,
    ModeFunc,
    ModeFuncState,
    PhoneSwitch,
    GetCalInfo,
    GetHistory,
    ClearHistory,
    GetSedentaryTime,
    SetAlarm,
    SetUserInfo,
    SetRightHand,
    ForceSleep,
    NewPairing,
    GetData,
    GetDataInfo,
    GetDataFinish,
}

/// A decoded response frame, identified by its opcode byte. Data-info and
/// data-block frames (opcodes 5 and 6) never come out of the generic
/// decoder: they belong to the dedicated data-info parser and the block
/// reassembler, and the decoder reports them as misrouted.
#[derive(Clone, Copy, Debug, PartialEq, Eq, Structural)]
pub enum Response {
    PairOk,
    FwVersion,
    DataInfo,
    DataFinishOk,
}

/// The fixed opcode byte sequence of a command, or `None` for the variants
/// without a wire encoding. `GetData` and `GetDataFinish` take parameters
/// and are built by `gen_data_command` and `gen_data_finish_command`.
pub open spec fn command_encoding(c: Command) -> Option<Seq<u8>> {
    match c {
        Command::Reset => Some(seq![19u8, 0u8]),
        Command::GetBattery => Some(seq![20u8]),
        Command::GetTime => Some(seq![17u8]),
        Command::NewPairing => Some(seq![65u8, 160u8, 161u8]),
        Command::GetVersion => Some(seq![18u8]),
        Command::GetHistory => Some(seq![35u8]),
        Command::GetDataInfo => Some(seq![21u8]),
        _ => None,
    }
}

/// The 17-byte frame body: the opcode byte sequence, right-padded with `0xFF`.
pub open spec fn frame_body(base: Seq<u8>) -> Seq<u8>
    recommends
        base.len() <= 17,
{
    base + Seq::new((17 - base.len()) as nat, |i: int| FRAME_PAD)
}

/// The complete 20-byte frame packed from an opcode byte sequence:
/// tag, body, and the body's checksum in big-endian order.
pub open spec fn packed_frame(base: Seq<u8>) -> Seq<u8>
    recommends
        base.len() <= 17,
{
    seq![FRAME_TAG] + frame_body(base)
        + seq![crc_hi(crc16(frame_body(base))), crc_lo(crc16(frame_body(base)))]
}

/// The opcode byte sequence of a `GetData` request: opcode 22, then the
/// block start index and the file index, each big-endian.
pub open spec fn data_command_base(start: u16, file: u16) -> Seq<u8> {
    seq![22u8, (start >> 8) as u8, start as u8, (file >> 8) as u8, file as u8]
}

/// The opcode byte sequence of a `GetDataFinish` request: opcode 23, then
/// the same two big-endian parameters.
pub open spec fn data_finish_command_base(start: u16, file: u16) -> Seq<u8> {
    seq![23u8, (start >> 8) as u8, start as u8, (file >> 8) as u8, file as u8]
}

/// The big-endian 16-bit value stored at positions `i`, `i + 1` of `s`.
pub open spec fn be16_at(s: Seq<u8>, i: int) -> u16
    recommends
        0 <= i,
        i + 2 <= s.len(),
{
    (((s[i] as u16) << 8) | (s[i + 1] as u16)) as u16
}

/// The checksum a well-formed frame must carry: CRC-16 of bytes 1..18.
pub open spec fn frame_crc(s: Seq<u8>) -> u16
    recommends
        s.len() == 20,
{
    crc16(s.subrange(1, 18))
}

/// The checksum value a frame actually carries in bytes 18..20.
pub open spec fn frame_stored_crc(s: Seq<u8>) -> u16
    recommends
        s.len() == 20,
{
    be16_at(s, 18)
}

/// How the generic decoder routes a validated frame by its opcode byte.
pub open spec fn response_for_opcode(op: u8) -> Result<Response, FrameError> {
    if op == 73 {
        Ok(Response::PairOk)
    } else if op == 2 {
        Ok(Response::FwVersion)
    } else if op == 7 {
        Ok(Response::DataFinishOk)
    } else if op == 5 || op == 6 {
        Err(FrameError::MisroutedOpcode { opcode: op })
    } else {
        Err(FrameError::UnrecognizedOpcode { opcode: op })
    }
}

/// The complete outcome of decoding a byte buffer as a response frame:
/// length, tag and checksum checks, then opcode routing.
pub open spec fn decode_spec(s: Seq<u8>) -> Result<Response, FrameError> {
    if s.len() != 20 {
        Err(FrameError::BadLength { len: s.len() as usize })
    } else if s[0] != FRAME_TAG {
        Err(FrameError::BadTag { tag: s[0] })
    } else if frame_stored_crc(s) != frame_crc(s) {
        Err(FrameError::CrcMismatch { expected: frame_crc(s), actual: frame_stored_crc(s) })
    } else {
        response_for_opcode(s[1])
    }
}

/// Packs an opcode byte sequence of at most 17 bytes into a complete
/// 20-byte frame: tag, right-padded body, big-endian checksum trailer.
pub fn pack_command(base: &[u8]) -> (r: Vec<u8>)
    requires
        base@.len() <= 17,
    ensures
        r@ == packed_frame(base@),
        r@.len() == 20,
{
    let mut body: Vec<u8> = Vec::new();
    let n: usize = base.len();
    for i in 0..n
        invariant
            n == base@.len() <= 17,
            body@ == base@.subrange(0, i as int),
    {
        body.push(base[i]);
        assert(body@ =~= base@.subrange(0, i + 1));
    }
    assert(base@.subrange(0, n as int) =~= base@);
    while body.len() < 17
        invariant
            base@.len() <= body@.len() <= 17,
            body@.subrange(0, base@.len() as int) == base@,
            forall|j: int| base@.len() <= j < body@.len() ==> body@[j] == FRAME_PAD,
        decreases 17 - body.len(),
    {
        body.push(FRAME_PAD);
        assert(body@.subrange(0, base@.len() as int) =~= base@);
    }
    assert(body@ =~= frame_body(base@));
    let c: u16 = compute_crc16(body.as_slice());
    let mut r: Vec<u8> = Vec::new();
    r.push(FRAME_TAG);
    let m: usize = body.len();
    for i in 0..m
        invariant
            m == body@.len() == 17,
            r@ == seq![FRAME_TAG] + body@.subrange(0, i as int),
    {
        r.push(body[i]);
        assert(r@ =~= seq![FRAME_TAG] + body@.subrange(0, i + 1));
    }
    assert(body@.subrange(0, 17) =~= body@);
    r.push((c >> 8) as u8);
    r.push(c as u8);
    assert(r@ =~= packed_frame(base@));
    r
}

/// Encodes a command into its 20-byte wire frame, or reports
/// `UnsupportedCommand` for the variants without a defined encoding.
pub fn encode(c: Command) -> (r: Result<Vec<u8>, ProtocolError>)
    ensures
        command_encoding(c) matches Some(b) ==> r matches Ok(f) && f@ == packed_frame(b),
        command_encoding(c) is None ==> r == Err::<Vec<u8>, ProtocolError>(
            ProtocolError::UnsupportedCommand,
        ),
{
    let mut base: Vec<u8> = Vec::new();
    match c {
        Command::Reset => {
            base.push(19);
            base.push(0);
        },
        Command::GetBattery => {
            base.push(20);
        },
        Command::GetTime => {
            base.push(17);
        },
        Command::NewPairing => {
            base.push(65);
            base.push(160);
            base.push(161);
        },
        Command::GetVersion => {
            base.push(18);
        },
        Command::GetHistory => {
            base.push(35);
        },
        Command::GetDataInfo => {
            base.push(21);
        },
        _ => {
            return Err(ProtocolError::UnsupportedCommand);
        },
    }
    assert(base@ =~= command_encoding(c).unwrap());
    Ok(pack_command(base.as_slice()))
}

/// Builds the `GetData` request frame for one block: opcode 22, then the
/// block start index and the file index, each big-endian.
pub fn gen_data_command(start: u16, file: u16) -> (r: Vec<u8>)
    ensures
        r@ == packed_frame(data_command_base(start, file)),
{
    let mut base: Vec<u8> = Vec::new();
    base.push(22);
    base.push((start >> 8) as u8);
    base.push(start as u8);
    base.push((file >> 8) as u8);
    base.push(file as u8);
    assert(base@ =~= data_command_base(start, file));
    pack_command(base.as_slice())
}

/// Builds the `GetDataFinish` frame: opcode 23, then the same two
/// big-endian parameters as `gen_data_command`.
pub fn gen_data_finish_command(start: u16, file: u16) -> (r: Vec<u8>)
    ensures
        r@ == packed_frame(data_finish_command_base(start, file)),
{
    let mut base: Vec<u8> = Vec::new();
    base.push(23);
    base.push((start >> 8) as u8);
    base.push(start as u8);
    base.push((file >> 8) as u8);
    base.push(file as u8);
    assert(base@ =~= data_finish_command_base(start, file));
    pack_command(base.as_slice())
}

/// Round trip of the codec: every frame the packer emits passes the
/// decoder's length, tag and checksum checks, and the decoder's outcome
/// is exactly the opcode routing of the first body byte (the padding
/// byte when the opcode sequence is empty). In particular the decoder
/// never reports a checksum error on a packed frame.
pub proof fn lemma_packed_frame_round_trip(base: Seq<u8>)
    requires
        base.len() <= 17,
    ensures
        packed_frame(base).len() == 20,
        decode_spec(packed_frame(base)) == response_for_opcode(
            if base.len() > 0 {
                base[0]
            } else {
                FRAME_PAD
            },
        ),
        !(decode_spec(packed_frame(base)) matches Err(FrameError::BadLength { .. })),
        !(decode_spec(packed_frame(base)) matches Err(FrameError::BadTag { .. })),
        !(decode_spec(packed_frame(base)) matches Err(FrameError::CrcMismatch { .. })),
{
    let f = packed_frame(base);
    let c = crc16(frame_body(base));
    assert(f.subrange(1, 18) =~= frame_body(base));
    assert(f[18] == crc_hi(c));
    assert(f[19] == crc_lo(c));
    crate::crc::lemma_crc_split_join(c);
    assert(frame_stored_crc(f) == c);
    assert(f[1] == (if base.len() > 0 {
        base[0]
    } else {
        FRAME_PAD
    }));
}

/// A 20-byte frame with the right tag whose trailing checksum byte does
/// not match the body's checksum always decodes to `CrcMismatch`: never
/// to another error kind and never to a response. Corrupting the last
/// byte of any valid frame produces exactly such a buffer.
pub proof fn lemma_corrupted_trailer_is_crc_mismatch(s: Seq<u8>)
    requires
        s.len() == 20,
        s[0] == FRAME_TAG,
        s[19] != crc_lo(frame_crc(s)),
    ensures
        decode_spec(s) matches Err(FrameError::CrcMismatch { .. }),
{
    let stored = frame_stored_crc(s);
    let c = frame_crc(s);
    let hi = s[18];
    let lo = s[19];
    assert(((((hi as u16) << 8) | (lo as u16)) as u8) == lo) by (bit_vector);
    assert(stored as u8 == s[19]);
    if stored == c {
        assert(s[19] == crc_lo(c));
    }
    assert(stored != c);
}

/// Validates a byte buffer as a response frame and routes it by opcode,
/// exactly as `decode_spec` states: length, tag, checksum, then routing.
pub fn decode(frame: &[u8]) -> (r: Result<Response, FrameError>)
    ensures
        r == decode_spec(frame@),
{
    if frame.len() != FRAME_LEN {
        return Err(FrameError::BadLength { len: frame.len() });
    }
    if frame[0] != FRAME_TAG {
        return Err(FrameError::BadTag { tag: frame[0] });
    }
    let computed: u16 = compute_crc16(vstd::slice::slice_subrange(frame, 1, 18));
    let stored: u16 = ((frame[18] as u16) << 8) | (frame[19] as u16);
    if stored != computed {
        return Err(FrameError::CrcMismatch { expected: computed, actual: stored });
    }
    let op: u8 = frame[1];
    if op == 73 {
        Ok(Response::PairOk)
    } else if op == 2 {
        Ok(Response::FwVersion)
    } else if op == 7 {
        Ok(Response::DataFinishOk)
    } else if op == 5 || op == 6 {
        Err(FrameError::MisroutedOpcode { opcode: op })
    } else {
        Err(FrameError::UnrecognizedOpcode { opcode: op })
    }
}

} // verus!
