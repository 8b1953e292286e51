use usbip_core::driver::{
    chunk_step, step, ChunkState, ConnectionMode, DriverState, ReadEvent, CHUNK_READ_LEN,
};
use usbip_core::header::{decode_header, HeaderError, USBIPHeader};

fn expect_header(state: &DriverState) -> USBIPHeader {
    match state {
        DriverState::HeaderReady(h) => *h,
        other => panic!("expected HeaderReady, got {:?}", other),
    }
}

#[test]
fn single_full_read_decodes_header() {
    let s = DriverState::init();
    assert_eq!(s.bytes_needed(), 8);
    let s = step(
        s,
        ReadEvent::Data(vec![0x01, 0x01, 0x00, 0x01, 0x00, 0x00, 0x00, 0x2B]),
    );
    let h = expect_header(&s);
    assert_eq!(h.version, 0x0101);
    assert_eq!(h.command_code, 0x0001);
    assert_eq!(h.status, 0x0000002B);
}

#[test]
fn split_reads_decode_same_header_as_one_read() {
    let bytes = vec![0x01u8, 0x01, 0x00, 0x01, 0x00, 0x00, 0x00, 0x2B];

    let one = step(DriverState::init(), ReadEvent::Data(bytes.clone()));

    let mut split = DriverState::init();
    split = step(split, ReadEvent::Data(bytes[0..3].to_vec()));
    assert!(split.is_awaiting());
    assert_eq!(split.bytes_needed(), 5);
    split = step(split, ReadEvent::Data(bytes[3..8].to_vec()));

    assert_eq!(expect_header(&one), expect_header(&split));
}

#[test]
fn byte_at_a_time_reads_decode_same_header() {
    let bytes = vec![0xDEu8, 0xAD, 0xBE, 0xEF, 0x00, 0x11, 0x22, 0x33];

    let one = step(DriverState::init(), ReadEvent::Data(bytes.clone()));

    let mut split = DriverState::init();
    for (i, b) in bytes.iter().enumerate() {
        assert!(split.is_awaiting());
        assert_eq!(split.bytes_needed(), 8 - i);
        split = step(split, ReadEvent::Data(vec![*b]));
    }

    assert_eq!(expect_header(&one), expect_header(&split));
}

#[test]
fn close_after_partial_header_is_truncated() {
    let mut s = DriverState::init();
    s = step(s, ReadEvent::Data(vec![0x01, 0x01, 0x00, 0x01]));
    assert!(s.is_awaiting());
    s = step(s, ReadEvent::Closed);
    assert_eq!(s, DriverState::Failed(HeaderError::TruncatedHeader));
}

#[test]
fn immediate_close_is_truncated() {
    let s = step(DriverState::init(), ReadEvent::Closed);
    assert_eq!(s, DriverState::Failed(HeaderError::TruncatedHeader));
}

#[test]
fn transport_failure_is_io_error() {
    let mut s = DriverState::init();
    s = step(s, ReadEvent::Data(vec![0x01]));
    s = step(s, ReadEvent::IoError);
    assert_eq!(s, DriverState::Failed(HeaderError::IoError));
}

#[test]
fn terminal_states_absorb_events() {
    let bytes = vec![0x00u8, 0x01, 0x00, 0x02, 0x00, 0x00, 0x00, 0x03];
    let mut s = step(DriverState::init(), ReadEvent::Data(bytes));
    let h = expect_header(&s);
    s = step(s, ReadEvent::Data(vec![0xFF, 0xFF]));
    assert_eq!(expect_header(&s), h);
    s = step(s, ReadEvent::Closed);
    assert_eq!(expect_header(&s), h);

    let mut f = step(DriverState::init(), ReadEvent::IoError);
    f = step(f, ReadEvent::Data(vec![0x00; 8]));
    assert_eq!(f, DriverState::Failed(HeaderError::IoError));
}

#[test]
fn driver_agrees_with_decoder() {
    let bytes = vec![0x12u8, 0x34, 0x56, 0x78, 0x9A, 0xBC, 0xDE, 0xF0];
    let via_driver = expect_header(&step(DriverState::init(), ReadEvent::Data(bytes.clone())));
    let via_decoder = decode_header(&bytes).unwrap();
    assert_eq!(via_driver, via_decoder);
}

#[test]
fn chunk_loop_reports_one_chunk_then_ends() {
    let (s, report) = chunk_step(
        ChunkState::Streaming,
        ReadEvent::Data(vec![0x41, 0x42, 0x43, 0x44]),
    );
    assert_eq!(s, ChunkState::Streaming);
    assert_eq!(report, Some(vec![0x41, 0x42, 0x43, 0x44]));

    let (s, report) = chunk_step(s, ReadEvent::Closed);
    assert_eq!(s, ChunkState::Done);
    assert_eq!(report, None);
}

#[test]
fn chunk_loop_zero_byte_read_ends_cleanly() {
    let (s, report) = chunk_step(ChunkState::Streaming, ReadEvent::Data(Vec::new()));
    assert_eq!(s, ChunkState::Done);
    assert_eq!(report, None);
}

#[test]
fn chunk_loop_transport_failure() {
    let (s, report) = chunk_step(ChunkState::Streaming, ReadEvent::IoError);
    assert_eq!(s, ChunkState::Failed);
    assert_eq!(report, None);
}

#[test]
fn chunk_loop_terminal_states_absorb_events() {
    let (s, report) = chunk_step(ChunkState::Done, ReadEvent::Data(vec![0x01]));
    assert_eq!(s, ChunkState::Done);
    assert_eq!(report, None);

    let (s, report) = chunk_step(ChunkState::Failed, ReadEvent::Closed);
    assert_eq!(s, ChunkState::Failed);
    assert_eq!(report, None);
}

#[test]
fn chunk_read_len_matches_design() {
    assert_eq!(CHUNK_READ_LEN, 4);
}

#[test]
fn connection_modes_are_distinct() {
    assert_ne!(ConnectionMode::SingleHeader, ConnectionMode::RawChunks);
}
