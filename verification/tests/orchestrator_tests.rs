use tracker_engine::block::{BLOCK_LEN, BLOCK_SIZE, CRC_INDEX, PACKETS_IN_BLOCK};
use tracker_engine::crc::compute_crc16;
use tracker_engine::errors::ProtocolError;
use tracker_engine::frame::{gen_data_command, pack_command};
use tracker_engine::orchestrator::{
    progress_percent, Action, Downloader, Event, Phase, SessionState,
};

fn block_frames(payload: &[u8]) -> Vec<Vec<u8>> {
    assert_eq!(payload.len(), BLOCK_SIZE);
    let mut block = vec![126u8, 6, 0, 0];
    block.extend_from_slice(payload);
    let c = compute_crc16(&block[1..CRC_INDEX]);
    block.push((c >> 8) as u8);
    block.push(c as u8);
    while block.len() < BLOCK_LEN {
        block.push(0);
    }
    block.chunks(20).map(|ch| ch.to_vec()).collect()
}

fn payload_pattern(seed: usize) -> Vec<u8> {
    (0..BLOCK_SIZE).map(|i| (i * 11 + seed) as u8).collect()
}

/// Runs the handshake up to and including the data-info response, checking
/// every emitted request and state transition on the way.
fn run_handshake(d: &mut Downloader, data_info: &[u8]) -> Result<Action, ProtocolError> {
    assert_eq!(d.state, SessionState::Pairing);

    let a = d.step(Event::LinkUp).unwrap();
    assert_eq!(d.state, SessionState::Connected);
    match a {
        Action::Send(f) => assert_eq!(f, pack_command(&[18])),
        _ => panic!("expected a GetVersion request"),
    }

    let a = d.step(Event::Frame(pack_command(&[2]))).unwrap();
    assert_eq!(d.state, SessionState::Connected);
    match a {
        Action::Send(f) => assert_eq!(f, pack_command(&[65, 160, 161])),
        _ => panic!("expected a NewPairing request"),
    }

    let a = d.step(Event::Frame(pack_command(&[73]))).unwrap();
    assert_eq!(d.state, SessionState::Ready);
    match a {
        Action::Send(f) => assert_eq!(f, pack_command(&[21])),
        _ => panic!("expected a GetDataInfo request"),
    }

    d.step(Event::Frame(pack_command(data_info)))
}

#[test]
fn full_download_of_one_block() {
    let mut d = Downloader::new();
    // The device advertises one block of data within a one-block flash.
    let a = run_handshake(&mut d, &[5, 0, 0, 0, 1, 0, 1]).unwrap();
    assert_eq!(d.state, SessionState::Receiving);
    match a {
        Action::Send(f) => assert_eq!(f, gen_data_command(0, 1)),
        _ => panic!("expected a GetData request"),
    }

    let payload = payload_pattern(3);
    let frames = block_frames(&payload);
    assert_eq!(frames.len(), PACKETS_IN_BLOCK);

    let mut persisted: Option<Vec<u8>> = None;
    for (i, frame) in frames.into_iter().enumerate() {
        let a = d.step(Event::Frame(frame)).unwrap();
        if i + 1 < PACKETS_IN_BLOCK {
            assert!(matches!(a, Action::AwaitFrame));
        } else {
            match a {
                Action::Persist(img) => persisted = Some(img),
                _ => panic!("expected the image after the final frame"),
            }
        }
    }

    // The session went Pairing -> Connected -> Ready -> Receiving -> Ready,
    // and persisted exactly the one block's payload.
    assert_eq!(d.state, SessionState::Ready);
    assert_eq!(d.phase, Phase::Complete);
    assert_eq!(persisted.unwrap(), payload);
}

#[test]
fn full_download_of_two_blocks_concatenates_in_order() {
    let mut d = Downloader::new();
    let a = run_handshake(&mut d, &[5, 0, 0, 0, 2, 0, 2]).unwrap();
    match a {
        Action::Send(f) => assert_eq!(f, gen_data_command(0, 1)),
        _ => panic!("expected the first GetData request"),
    }

    let first = payload_pattern(1);
    let second = payload_pattern(2);

    let mut last = None;
    for frame in block_frames(&first) {
        last = Some(d.step(Event::Frame(frame)).unwrap());
    }
    match last.unwrap() {
        Action::Send(f) => assert_eq!(f, gen_data_command(1, 1)),
        _ => panic!("expected the second GetData request"),
    }

    let mut last = None;
    for frame in block_frames(&second) {
        last = Some(d.step(Event::Frame(frame)).unwrap());
    }
    match last.unwrap() {
        Action::Persist(img) => {
            let mut expected = first.clone();
            expected.extend_from_slice(&second);
            assert_eq!(img, expected);
        },
        _ => panic!("expected the image after the last block"),
    }
    assert_eq!(d.state, SessionState::Ready);
}

#[test]
fn corrupted_frame_in_block_aborts_without_persisting() {
    let mut d = Downloader::new();
    run_handshake(&mut d, &[5, 0, 0, 0, 1, 0, 1]).unwrap();

    let payload = payload_pattern(3);
    let mut frames = block_frames(&payload);
    // Corrupt one payload byte of the 50th frame so the block checksum fails.
    frames[49][10] ^= 0x01;

    for (i, frame) in frames.into_iter().enumerate() {
        let r = d.step(Event::Frame(frame));
        if i + 1 < PACKETS_IN_BLOCK {
            assert!(matches!(r, Ok(Action::AwaitFrame)));
        } else {
            assert_eq!(r.unwrap_err(), ProtocolError::BlockTransferFailed { block_index: 0 });
        }
    }
    assert_eq!(d.phase, Phase::Aborted);
}

#[test]
fn unsupported_data_range_aborts() {
    let mut d = Downloader::new();
    let r = run_handshake(&mut d, &[5, 0, 0, 0, 25, 0, 20]);
    assert_eq!(
        r.unwrap_err(),
        ProtocolError::UnsupportedDataRange { data_start: 0, data_end: 25 }
    );
    assert_eq!(d.phase, Phase::Aborted);
}

#[test]
fn wrong_handshake_response_is_fatal() {
    let mut d = Downloader::new();
    d.step(Event::LinkUp).unwrap();
    // The device answers the version request with a pairing confirmation.
    let r = d.step(Event::Frame(pack_command(&[73])));
    assert_eq!(r.unwrap_err(), ProtocolError::HandshakeFailed);
    assert_eq!(d.phase, Phase::Aborted);
}

#[test]
fn malformed_data_info_is_fatal() {
    let mut d = Downloader::new();
    d.step(Event::LinkUp).unwrap();
    d.step(Event::Frame(pack_command(&[2]))).unwrap();
    d.step(Event::Frame(pack_command(&[73]))).unwrap();
    let mut bad = pack_command(&[5, 0, 0, 0, 1, 0, 1]);
    bad[19] ^= 1;
    let r = d.step(Event::Frame(bad));
    assert_eq!(r.unwrap_err(), ProtocolError::HandshakeFailed);
    assert_eq!(d.phase, Phase::Aborted);
}

#[test]
fn empty_data_range_persists_an_empty_image() {
    let mut d = Downloader::new();
    let a = run_handshake(&mut d, &[5, 0, 0, 0, 0, 0, 1]).unwrap();
    match a {
        Action::Persist(img) => assert!(img.is_empty()),
        _ => panic!("expected an immediate empty image"),
    }
    assert_eq!(d.state, SessionState::Ready);
}

#[test]
fn link_loss_disconnects_from_any_state() {
    let mut d = Downloader::new();
    let a = d.step(Event::LinkDown).unwrap();
    assert!(matches!(a, Action::Halt));
    assert_eq!(d.state, SessionState::Disconnected);

    let mut d = Downloader::new();
    d.step(Event::LinkUp).unwrap();
    d.step(Event::LinkDown).unwrap();
    assert_eq!(d.state, SessionState::Disconnected);
}

#[test]
fn progress_matches_the_drivers_formula() {
    assert_eq!(progress_percent(0, 0, 1), 0);
    assert_eq!(progress_percent(0, 103, 1), 50);
    assert_eq!(progress_percent(0, 206, 1), 100);
    assert_eq!(progress_percent(1, 0, 2), 50);
    // The report after `p` packets of block `b` out of `n` blocks is
    // ((p + 206 * b) * 100) / (206 * n), in whole percent.
    assert_eq!(progress_percent(2, 51, 4), ((51 + 206 * 2) * 100 / (206 * 4)) as u64);
}
