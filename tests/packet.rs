use onestep::packet::{
    build_sync_frame, create_sync_msg, parse_frame, ptp_peer_multicast, write_sync_frame,
    ClockIdentity, DecodeError, MacAddress, PortIdentity, Timestamp, WireError, SYNC_FRAME_LEN,
};

fn example_frame() -> Vec<u8> {
    build_sync_frame(
        MacAddress([0x02, 0x00, 0x00, 0x00, 0x00, 0x01]),
        MacAddress([0x01, 0x80, 0xc2, 0x00, 0x00, 0x0e]),
        23,
        -3,
        0,
    )
}

#[test]
fn clock_identity_from_mac() {
    let c = ClockIdentity::from_mac(MacAddress([0xaa, 0xbb, 0xcc, 0xdd, 0xee, 0xff]));
    assert_eq!(c.0, [0xaa, 0xbb, 0xcc, 0xff, 0xfe, 0xdd, 0xee, 0xff]);
    let again = ClockIdentity::from_mac(MacAddress([0xaa, 0xbb, 0xcc, 0xdd, 0xee, 0xff]));
    assert_eq!(c, again);
}

#[test]
fn constructors_keep_fields() {
    let c = ClockIdentity::new(1, 2, 3, 4, 5, 6, 7, 8);
    assert_eq!(c.0, [1, 2, 3, 4, 5, 6, 7, 8]);
    let p = PortIdentity::new(1, 2, 3, 4, 5, 6, 7, 8, 9);
    assert_eq!(p.clockIdentity, c);
    assert_eq!(p.portNumber, 9);
    let t = Timestamp::new(1, 2, 3);
    assert_eq!((t.seconds_msb, t.seconds_lsb, t.nanoseconds), (1, 2, 3));
}

#[test]
fn frame_is_58_bytes_with_message_length_44() {
    for (seq, interval) in [(0u16, 0i8), (23, -3), (0xffff, 127), (0x1234, -128)] {
        let f = build_sync_frame(
            MacAddress([1, 2, 3, 4, 5, 6]),
            ptp_peer_multicast(),
            seq,
            interval,
            7,
        );
        assert_eq!(f.len(), 58);
        assert_eq!(SYNC_FRAME_LEN, 58);
        assert_eq!(u16::from_be_bytes([f[16], f[17]]), 44);
        assert_eq!(u16::from_be_bytes([f[44], f[45]]), seq);
        assert_eq!(f[47], interval as u8);
        assert_eq!(f[18], 7);
    }
}

#[test]
fn byte_exact_example_frame() {
    let f = example_frame();
    assert_eq!(
        &f[..14],
        &[0x01, 0x80, 0xc2, 0x00, 0x00, 0x0e, 0x02, 0x00, 0x00, 0x00, 0x00, 0x01, 0x88, 0xf7]
    );
    assert_eq!(f[14], 0x10);
    assert_eq!(f[47], 0xfd);
    let expected: Vec<u8> = vec![
        0x01, 0x80, 0xc2, 0x00, 0x00, 0x0e, 0x02, 0x00, 0x00, 0x00, 0x00, 0x01, 0x88, 0xf7,
        0x10, 0x12, 0x00, 0x2c, 0x00, 0x00, 0x00, 0x00, 0x00, 0x00, 0x00, 0x00, 0x00, 0x00,
        0x00, 0x00, 0x00, 0x00, 0x00, 0x00, 0x02, 0x00, 0x00, 0xff, 0xfe, 0x00, 0x00, 0x01,
        0x00, 0x01, 0x00, 0x17, 0x00, 0xfd, 0x00, 0x00, 0x00, 0x00, 0x00, 0x00, 0x00, 0x00,
        0x00, 0x00,
    ];
    assert_eq!(f, expected);
}

#[test]
fn building_twice_gives_same_bytes() {
    assert_eq!(example_frame(), example_frame());
}

#[test]
fn parse_recovers_built_fields() {
    let src = MacAddress([0xaa, 0xbb, 0xcc, 0xdd, 0xee, 0xff]);
    let f = build_sync_frame(src, ptp_peer_multicast(), 0xbeef, -5, 42);
    let p = parse_frame(&f).unwrap();
    assert_eq!(p.destination, ptp_peer_multicast());
    assert_eq!(p.source, src);
    assert_eq!(p.ethertype, 0x88f7);
    let h = p.header;
    assert_eq!((h.majorSdoId, h.messageType, h.minorVersionPtp, h.versionPtp), (1, 0, 1, 2));
    assert_eq!(h.messageLength, 44);
    assert_eq!(h.domainNumber, 42);
    assert_eq!((h.minorSdoId, h.flags, h.correctionField, h.messageTypeSpecific), (0, 0, 0, 0));
    assert_eq!(h.portIdentity.clockIdentity, ClockIdentity::from_mac(src));
    assert_eq!(h.portIdentity.portNumber, 1);
    assert_eq!(h.sequenceId, 0xbeef);
    assert_eq!(h.controlField, 0);
    assert_eq!(h.logMessageInterval as i8, -5);
    assert_eq!(p.body.originTimestamp, Timestamp::new(0, 0, 0));
}

#[test]
fn parse_reads_multibyte_fields_big_endian() {
    let mut f = example_frame();
    f[22..30].copy_from_slice(&0x0102030405060708u64.to_be_bytes());
    f[48..50].copy_from_slice(&0x0a0bu16.to_be_bytes());
    f[50..54].copy_from_slice(&0x0c0d0e0fu32.to_be_bytes());
    f[54..58].copy_from_slice(&0x10111213u32.to_be_bytes());
    let p = parse_frame(&f).unwrap();
    assert_eq!(p.header.correctionField, 0x0102030405060708);
    assert_eq!(p.body.originTimestamp, Timestamp::new(0x0a0b, 0x0c0d0e0f, 0x10111213));
}

#[test]
fn parse_rejects_short_frame() {
    let mut f = example_frame();
    f.pop();
    assert_eq!(parse_frame(&f).unwrap_err(), DecodeError::TooShort);
    assert_eq!(parse_frame(&Vec::new()).unwrap_err(), DecodeError::TooShort);
}

#[test]
fn parse_rejects_other_version() {
    let mut f = example_frame();
    f[15] = 0x11;
    assert_eq!(parse_frame(&f).unwrap_err(), DecodeError::UnsupportedVersion);
}

#[test]
fn write_rejects_small_buffer() {
    let mut buf = vec![9u8; 57];
    let r = write_sync_frame(&mut buf, MacAddress([1; 6]), ptp_peer_multicast(), 1, 0, 0);
    assert_eq!(r, Err(WireError::BufferTooSmall));
    assert_eq!(buf, vec![9u8; 57]);
}

#[test]
fn write_keeps_bytes_after_frame() {
    let mut buf = vec![9u8; 60];
    let src = MacAddress([0x02, 0, 0, 0, 0, 0x01]);
    assert_eq!(create_sync_msg(src, &mut buf), Ok(()));
    assert_eq!(&buf[..58], &example_frame()[..]);
    assert_eq!(&buf[58..], &[9, 9]);
}
