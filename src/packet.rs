use vstd::prelude::*;

verus! {

/// A 48-bit hardware address.
#[derive(Clone, Copy, Debug, PartialEq, Eq)]
pub struct MacAddress(pub [u8; 6]);

/// The 8-byte identity of a PTP clock.
#[derive(Clone, Copy, Debug, PartialEq, Eq, PartialOrd, Ord, Hash)]
pub struct ClockIdentity(pub [u8; 8]);

/// The EUI-64 style expansion of a hardware address into a clock identity.
pub open spec fn clock_identity_of(m: Seq<u8>) -> Seq<u8> {
    seq![m[0], m[1], m[2], 0xffu8, 0xfeu8, m[3], m[4], m[5]]
}

impl ClockIdentity {
    pub fn new(a: u8, b: u8, c: u8, d: u8, e: u8, f: u8, g: u8, h: u8) -> (r: Self)
        ensures
            r.0@ == seq![a, b, c, d, e, f, g, h],
    {
        let r = ClockIdentity([a, b, c, d, e, f, g, h]);
        assert(r.0@ =~= seq![a, b, c, d, e, f, g, h]);
        r
    }

    /// The clock identity that a hardware address expands to.
    pub fn from_mac(mac: MacAddress) -> (r: Self)
        ensures
            r.0@ == clock_identity_of(mac.0@),
    {
        let m = mac.0;
        Self::new(m[0], m[1], m[2], 0xff, 0xfe, m[3], m[4], m[5])
    }
}

/// A port of a PTP clock.
#[allow(non_snake_case)]
#[derive(Clone, Copy, Debug, PartialEq, Eq, PartialOrd, Ord, Hash)]
pub struct PortIdentity {
    pub clockIdentity: ClockIdentity,
    pub portNumber: u16,
}

impl PortIdentity {
    pub fn new(a: u8, b: u8, c: u8, d: u8, e: u8, f: u8, g: u8, h: u8, i: u16) -> (r: Self)
        ensures
            r.clockIdentity.0@ == seq![a, b, c, d, e, f, g, h],
            r.portNumber == i,
    {
        PortIdentity { clockIdentity: ClockIdentity::new(a, b, c, d, e, f, g, h), portNumber: i }
    }
}

/// An 80-bit PTP timestamp: 48 bits of seconds and 32 bits of nanoseconds.
#[derive(Clone, Copy, Debug, PartialEq, Eq, PartialOrd, Ord, Hash)]
pub struct Timestamp {
    pub seconds_msb: u16,
    pub seconds_lsb: u32,
    pub nanoseconds: u32,
}

impl Timestamp {
    pub fn new(a: u16, b: u32, c: u32) -> (r: Self)
        ensures
            r == (Timestamp { seconds_msb: a, seconds_lsb: b, nanoseconds: c }),
    {
        Timestamp { seconds_msb: a, seconds_lsb: b, nanoseconds: c }
    }
}

/// The 34-byte PTP common header. The first four fields are 4 bits wide.
#[allow(non_snake_case)]
#[derive(Clone, Copy, Debug, PartialEq, Eq)]
pub struct Ptp {
    pub majorSdoId: u8,
    pub messageType: u8,
    pub minorVersionPtp: u8,
    pub versionPtp: u8,
    pub messageLength: u16,
    pub domainNumber: u8,
    pub minorSdoId: u8,
    pub flags: u16,
    pub correctionField: u64,
    pub messageTypeSpecific: u32,
    pub portIdentity: PortIdentity,
    pub sequenceId: u16,
    pub controlField: u8,
    pub logMessageInterval: u8,
}

/// What a PTP header holds, with the clock identity as a sequence of bytes.
pub struct PtpView {
    pub major_sdo_id: u8,
    pub message_type: u8,
    pub minor_version_ptp: u8,
    pub version_ptp: u8,
    pub message_length: u16,
    pub domain_number: u8,
    pub minor_sdo_id: u8,
    pub flags: u16,
    pub correction_field: u64,
    pub message_type_specific: u32,
    pub clock_identity: Seq<u8>,
    pub port_number: u16,
    pub sequence_id: u16,
    pub control_field: u8,
    pub log_message_interval: u8,
}

impl PtpView {
    /// The four nibble fields fit in 4 bits and the clock identity has 8 bytes.
    pub open spec fn wf(self) -> bool {
        &&& self.major_sdo_id < 16
        &&& self.message_type < 16
        &&& self.minor_version_ptp < 16
        &&& self.version_ptp < 16
        &&& self.clock_identity.len() == 8
    }
}

impl View for Ptp {
    type V = PtpView;

    open spec fn view(&self) -> PtpView {
        PtpView {
            major_sdo_id: self.majorSdoId,
            message_type: self.messageType,
            minor_version_ptp: self.minorVersionPtp,
            version_ptp: self.versionPtp,
            message_length: self.messageLength,
            domain_number: self.domainNumber,
            minor_sdo_id: self.minorSdoId,
            flags: self.flags,
            correction_field: self.correctionField,
            message_type_specific: self.messageTypeSpecific,
            clock_identity: self.portIdentity.clockIdentity.0@,
            port_number: self.portIdentity.portNumber,
            sequence_id: self.sequenceId,
            control_field: self.controlField,
            log_message_interval: self.logMessageInterval,
        }
    }
}

/// The 10-byte body of a Sync message.
#[allow(non_snake_case)]
#[derive(Clone, Copy, Debug, PartialEq, Eq)]
pub struct Sync {
    pub originTimestamp: Timestamp,
}

pub const ETHERNET_HEADER_LEN: usize = 14;
pub const PTP_HEADER_LEN: usize = 34;
pub const SYNC_BODY_LEN: usize = 10;
pub const SYNC_FRAME_LEN: usize = 58;

/// Length of a Sync message without TLVs: header and body.
pub const SYNC_MESSAGE_LEN: u16 = 44;
/// The IEEE-assigned EtherType of PTP over Ethernet.
pub const ETHERTYPE_PTP: u16 = 0x88f7;
pub const MESSAGE_TYPE_SYNC: u8 = 0;
pub const PTP_VERSION: u8 = 2;
pub const PTP_MINOR_VERSION: u8 = 1;
pub const MAJOR_SDO_ID: u8 = 1;
pub const PORT_NUMBER: u16 = 1;

/// The non-forwardable peer-delay multicast address 01:80:C2:00:00:0E.
pub open spec fn ptp_peer_multicast_spec() -> Seq<u8> {
    seq![0x01u8, 0x80u8, 0xc2u8, 0x00u8, 0x00u8, 0x0eu8]
}

pub fn ptp_peer_multicast() -> (r: MacAddress)
    ensures
        r.0@ == ptp_peer_multicast_spec(),
{
    let r = MacAddress([0x01, 0x80, 0xc2, 0x00, 0x00, 0x0e]);
    assert(r.0@ =~= ptp_peer_multicast_spec());
    r
}

/// Network byte order: the most significant byte first.
pub open spec fn be16(x: u16) -> Seq<u8> {
    seq![(x >> 8u16) as u8, x as u8]
}

pub open spec fn be32(x: u32) -> Seq<u8> {
    seq![(x >> 24u32) as u8, (x >> 16u32) as u8, (x >> 8u32) as u8, x as u8]
}

pub open spec fn be64(x: u64) -> Seq<u8> {
    be32((x >> 32u64) as u32) + be32(x as u32)
}

/// Two 4-bit fields packed in one byte, the first in the high nibble.
pub open spec fn nibble_pair(hi: u8, lo: u8) -> u8 {
    (((hi & 0xfu8) << 4u8) | (lo & 0xfu8)) as u8
}

pub open spec fn ethernet_header_bytes(dst: Seq<u8>, src: Seq<u8>, ethertype: u16) -> Seq<u8> {
    dst + src + be16(ethertype)
}

pub open spec fn ptp_header_bytes(h: PtpView) -> Seq<u8> {
    seq![nibble_pair(h.major_sdo_id, h.message_type), nibble_pair(h.minor_version_ptp, h.version_ptp)]
        + be16(h.message_length) + seq![h.domain_number, h.minor_sdo_id] + be16(h.flags)
        + be64(h.correction_field) + be32(h.message_type_specific) + h.clock_identity
        + be16(h.port_number) + be16(h.sequence_id) + seq![h.control_field, h.log_message_interval]
}

pub open spec fn timestamp_bytes(t: Timestamp) -> Seq<u8> {
    be16(t.seconds_msb) + be32(t.seconds_lsb) + be32(t.nanoseconds)
}

/// The header of a Sync message sent by the clock of `src`.
pub open spec fn sync_header_spec(
    src: Seq<u8>,
    sequence_id: u16,
    log_message_interval: i8,
    domain_number: u8,
) -> PtpView {
    PtpView {
        major_sdo_id: MAJOR_SDO_ID,
        message_type: MESSAGE_TYPE_SYNC,
        minor_version_ptp: PTP_MINOR_VERSION,
        version_ptp: PTP_VERSION,
        message_length: SYNC_MESSAGE_LEN,
        domain_number: domain_number,
        minor_sdo_id: 0,
        flags: 0,
        correction_field: 0,
        message_type_specific: 0,
        clock_identity: clock_identity_of(src),
        port_number: PORT_NUMBER,
        sequence_id: sequence_id,
        control_field: 0,
        log_message_interval: log_message_interval as u8,
    }
}

/// The origin timestamp of a one-step Sync: all zero, the hardware stamps it.
pub open spec fn zero_timestamp() -> Timestamp {
    Timestamp { seconds_msb: 0, seconds_lsb: 0, nanoseconds: 0 }
}

/// The whole Sync frame: Ethernet header, PTP header and Sync body.
#[verifier::opaque]
pub open spec fn sync_frame_bytes(
    src: Seq<u8>,
    dst: Seq<u8>,
    sequence_id: u16,
    log_message_interval: i8,
    domain_number: u8,
) -> Seq<u8> {
    ethernet_header_bytes(dst, src, ETHERTYPE_PTP) + ptp_header_bytes(
        sync_header_spec(src, sequence_id, log_message_interval, domain_number),
    ) + timestamp_bytes(zero_timestamp())
}

pub fn push_be16(buf: &mut Vec<u8>, x: u16)
    ensures
        final(buf)@ == old(buf)@ + be16(x),
{
    buf.push((x >> 8) as u8);
    buf.push(x as u8);
    assert(buf@ =~= old(buf)@ + be16(x));
}

pub fn push_be32(buf: &mut Vec<u8>, x: u32)
    ensures
        final(buf)@ == old(buf)@ + be32(x),
{
    buf.push((x >> 24) as u8);
    buf.push((x >> 16) as u8);
    buf.push((x >> 8) as u8);
    buf.push(x as u8);
    assert(buf@ =~= old(buf)@ + be32(x));
}

pub fn push_be64(buf: &mut Vec<u8>, x: u64)
    ensures
        final(buf)@ == old(buf)@ + be64(x),
{
    push_be32(buf, (x >> 32) as u32);
    push_be32(buf, x as u32);
    assert(buf@ =~= old(buf)@ + be64(x));
}

pub fn push_mac(buf: &mut Vec<u8>, mac: &MacAddress)
    ensures
        final(buf)@ == old(buf)@ + mac.0@,
{
    let mut i: usize = 0;
    while i < 6
        invariant
            i <= 6,
            buf@ == old(buf)@ + mac.0@.take(i as int),
        decreases 6 - i,
    {
        buf.push(mac.0[i]);
        i = i + 1;
        assert(buf@ =~= old(buf)@ + mac.0@.take(i as int));
    }
    assert(mac.0@.take(6) =~= mac.0@);
}

/// Appends the 34 bytes of a PTP header.
pub fn encode_ptp_header(buf: &mut Vec<u8>, h: &Ptp)
    ensures
        final(buf)@ == old(buf)@ + ptp_header_bytes(h@),
{
    buf.push(((h.majorSdoId & 0xf) << 4) | (h.messageType & 0xf));
    buf.push(((h.minorVersionPtp & 0xf) << 4) | (h.versionPtp & 0xf));
    push_be16(buf, h.messageLength);
    buf.push(h.domainNumber);
    buf.push(h.minorSdoId);
    push_be16(buf, h.flags);
    push_be64(buf, h.correctionField);
    push_be32(buf, h.messageTypeSpecific);
    let c = h.portIdentity.clockIdentity.0;
    let mut i: usize = 0;
    let ghost before = buf@;
    while i < 8
        invariant
            i <= 8,
            buf@ == before + c@.take(i as int),
        decreases 8 - i,
    {
        buf.push(c[i]);
        i = i + 1;
        assert(buf@ =~= before + c@.take(i as int));
    }
    assert(c@.take(8) =~= c@);
    push_be16(buf, h.portIdentity.portNumber);
    push_be16(buf, h.sequenceId);
    buf.push(h.controlField);
    buf.push(h.logMessageInterval);
    assert(buf@ =~= old(buf)@ + ptp_header_bytes(h@));
}

/// Appends the 10 bytes of a timestamp.
pub fn encode_timestamp(buf: &mut Vec<u8>, t: &Timestamp)
    ensures
        final(buf)@ == old(buf)@ + timestamp_bytes(*t),
{
    push_be16(buf, t.seconds_msb);
    push_be32(buf, t.seconds_lsb);
    push_be32(buf, t.nanoseconds);
    assert(buf@ =~= old(buf)@ + timestamp_bytes(*t));
}

/// The header of a Sync message sent from port 1 of the clock of `source`.
pub fn sync_header(source: MacAddress, sequence_id: u16, log_message_interval: i8, domain_number: u8) -> (r: Ptp)
    ensures
        r@ == sync_header_spec(source.0@, sequence_id, log_message_interval, domain_number),
{
    Ptp {
        majorSdoId: MAJOR_SDO_ID,
        messageType: MESSAGE_TYPE_SYNC,
        minorVersionPtp: PTP_MINOR_VERSION,
        versionPtp: PTP_VERSION,
        messageLength: SYNC_MESSAGE_LEN,
        domainNumber: domain_number,
        minorSdoId: 0,
        flags: 0,
        correctionField: 0,
        messageTypeSpecific: 0,
        portIdentity: PortIdentity {
            clockIdentity: ClockIdentity::from_mac(source),
            portNumber: PORT_NUMBER,
        },
        sequenceId: sequence_id,
        controlField: 0,
        logMessageInterval: log_message_interval as u8,
    }
}

/// The 58-byte Sync frame from `source` to `destination`.
pub fn build_sync_frame(
    source: MacAddress,
    destination: MacAddress,
    sequence_id: u16,
    log_message_interval: i8,
    domain_number: u8,
) -> (r: Vec<u8>)
    ensures
        r@ == sync_frame_bytes(source.0@, destination.0@, sequence_id, log_message_interval, domain_number),
        r@.len() == SYNC_FRAME_LEN,
{
    let mut buf: Vec<u8> = Vec::new();
    push_mac(&mut buf, &destination);
    push_mac(&mut buf, &source);
    push_be16(&mut buf, ETHERTYPE_PTP);
    let h = sync_header(source, sequence_id, log_message_interval, domain_number);
    encode_ptp_header(&mut buf, &h);
    let body = Sync { originTimestamp: Timestamp::new(0, 0, 0) };
    encode_timestamp(&mut buf, &body.originTimestamp);
    reveal(sync_frame_bytes);
    assert(buf@ =~= sync_frame_bytes(source.0@, destination.0@, sequence_id, log_message_interval, domain_number));
    buf
}

#[derive(Clone, Copy, Debug, PartialEq, Eq)]
pub enum WireError {
    /// The destination buffer cannot hold a whole frame.
    BufferTooSmall,
}

/// Writes the Sync frame over the first 58 bytes of `buf`; the bytes after
/// them are left as they were.
pub fn write_sync_frame(
    buf: &mut Vec<u8>,
    source: MacAddress,
    destination: MacAddress,
    sequence_id: u16,
    log_message_interval: i8,
    domain_number: u8,
) -> (r: Result<(), WireError>)
    ensures
        r is Err <==> old(buf)@.len() < SYNC_FRAME_LEN,
        r == Err::<(), WireError>(WireError::BufferTooSmall) <==> old(buf)@.len() < SYNC_FRAME_LEN,
        r is Err ==> final(buf)@ == old(buf)@,
        r is Ok ==> final(buf)@ == sync_frame_bytes(
            source.0@,
            destination.0@,
            sequence_id,
            log_message_interval,
            domain_number,
        ) + old(buf)@.skip(SYNC_FRAME_LEN as int),
{
    if buf.len() < SYNC_FRAME_LEN {
        return Err(WireError::BufferTooSmall);
    }
    let frame = build_sync_frame(source, destination, sequence_id, log_message_interval, domain_number);
    let mut i: usize = 0;
    while i < SYNC_FRAME_LEN
        invariant
            i <= SYNC_FRAME_LEN,
            frame@.len() == SYNC_FRAME_LEN,
            buf@.len() == old(buf)@.len(),
            SYNC_FRAME_LEN <= buf@.len(),
            forall|j: int| 0 <= j < i ==> buf@[j] == frame@[j],
            forall|j: int| i <= j < buf@.len() ==> buf@[j] == old(buf)@[j],
        decreases SYNC_FRAME_LEN - i,
    {
        buf.set(i, frame[i]);
        i = i + 1;
    }
    assert(buf@ =~= frame@ + old(buf)@.skip(SYNC_FRAME_LEN as int));
    Ok(())
}

/// Sequence number that a transmit run puts in its Sync message.
pub const DEFAULT_SEQUENCE_ID: u16 = 23;
/// Log2 of the message interval of a transmit run (125 ms).
pub const DEFAULT_LOG_MESSAGE_INTERVAL: i8 = -3;
pub const DEFAULT_DOMAIN_NUMBER: u8 = 0;

/// Writes the Sync frame of a transmit run from `source_addr` to the peer
/// multicast address into `buf`.
pub fn create_sync_msg(source_addr: MacAddress, buf: &mut Vec<u8>) -> (r: Result<(), WireError>)
    ensures
        r is Err <==> old(buf)@.len() < SYNC_FRAME_LEN,
        r is Err ==> final(buf)@ == old(buf)@,
        r is Ok ==> final(buf)@ == sync_frame_bytes(
            source_addr.0@,
            ptp_peer_multicast_spec(),
            DEFAULT_SEQUENCE_ID,
            DEFAULT_LOG_MESSAGE_INTERVAL,
            DEFAULT_DOMAIN_NUMBER,
        ) + old(buf)@.skip(SYNC_FRAME_LEN as int),
{
    write_sync_frame(
        buf,
        source_addr,
        ptp_peer_multicast(),
        DEFAULT_SEQUENCE_ID,
        DEFAULT_LOG_MESSAGE_INTERVAL,
        DEFAULT_DOMAIN_NUMBER,
    )
}

pub open spec fn u16_of(hi: u8, lo: u8) -> u16 {
    ((hi as u16) << 8u16) | (lo as u16)
}

/// The big-endian integers read from the first 2, 4 and 8 bytes of `b`.
pub open spec fn u16_at(b: Seq<u8>, i: int) -> u16 {
    u16_of(b[i], b[i + 1])
}

pub open spec fn u32_at(b: Seq<u8>, i: int) -> u32 {
    ((u16_at(b, i) as u32) << 16u32) | (u16_at(b, i + 2) as u32)
}

pub open spec fn u64_at(b: Seq<u8>, i: int) -> u64 {
    ((u32_at(b, i) as u64) << 32u64) | (u32_at(b, i + 4) as u64)
}

/// The PTP header that 34 bytes hold.
pub open spec fn ptp_view_of(b: Seq<u8>) -> PtpView {
    PtpView {
        major_sdo_id: b[0] >> 4u8,
        message_type: b[0] & 0xfu8,
        minor_version_ptp: b[1] >> 4u8,
        version_ptp: b[1] & 0xfu8,
        message_length: u16_at(b, 2),
        domain_number: b[4],
        minor_sdo_id: b[5],
        flags: u16_at(b, 6),
        correction_field: u64_at(b, 8),
        message_type_specific: u32_at(b, 16),
        clock_identity: b.subrange(20, 28),
        port_number: u16_at(b, 28),
        sequence_id: u16_at(b, 30),
        control_field: b[32],
        log_message_interval: b[33],
    }
}

/// The timestamp that 10 bytes hold.
pub open spec fn timestamp_of(b: Seq<u8>) -> Timestamp {
    Timestamp { seconds_msb: u16_at(b, 0), seconds_lsb: u32_at(b, 2), nanoseconds: u32_at(b, 6) }
}

/// A received Sync frame.
#[derive(Clone, Copy, Debug)]
pub struct ParsedFrame {
    pub destination: MacAddress,
    pub source: MacAddress,
    pub ethertype: u16,
    pub header: Ptp,
    pub body: Sync,
}

pub struct ParsedFrameView {
    pub destination: Seq<u8>,
    pub source: Seq<u8>,
    pub ethertype: u16,
    pub header: PtpView,
    pub body: Sync,
}

impl View for ParsedFrame {
    type V = ParsedFrameView;

    open spec fn view(&self) -> ParsedFrameView {
        ParsedFrameView {
            destination: self.destination.0@,
            source: self.source.0@,
            ethertype: self.ethertype,
            header: self.header@,
            body: self.body,
        }
    }
}

/// The fields that the first 58 bytes of a frame hold.
#[verifier::opaque]
pub open spec fn frame_view_of(b: Seq<u8>) -> ParsedFrameView {
    ParsedFrameView {
        destination: b.subrange(0, 6),
        source: b.subrange(6, 12),
        ethertype: u16_at(b, 12),
        header: ptp_view_of(b.subrange(14, 48)),
        body: Sync { originTimestamp: timestamp_of(b.subrange(48, 58)) },
    }
}

/// The PTP version nibble of a frame.
pub open spec fn frame_version(b: Seq<u8>) -> u8 {
    b[15] & 0xfu8
}

#[derive(Clone, Copy, Debug, PartialEq, Eq)]
pub enum DecodeError {
    /// Fewer bytes than a Sync frame.
    TooShort,
    /// The header names a PTP version other than 2.
    UnsupportedVersion,
}

fn read_u16(b: &Vec<u8>, i: usize) -> (r: u16)
    requires
        i + 2 <= b.len(),
    ensures
        r == u16_at(b@, i as int),
{
    ((b[i] as u16) << 8) | (b[i + 1] as u16)
}

fn read_u32(b: &Vec<u8>, i: usize) -> (r: u32)
    requires
        i + 4 <= b.len(),
    ensures
        r == u32_at(b@, i as int),
{
    ((read_u16(b, i) as u32) << 16) | (read_u16(b, i + 2) as u32)
}

fn read_u64(b: &Vec<u8>, i: usize) -> (r: u64)
    requires
        i + 8 <= b.len(),
    ensures
        r == u64_at(b@, i as int),
{
    ((read_u32(b, i) as u64) << 32) | (read_u32(b, i + 4) as u64)
}

fn read_mac(b: &Vec<u8>, i: usize) -> (r: MacAddress)
    requires
        i + 6 <= b.len(),
    ensures
        r.0@ == b@.subrange(i as int, i + 6),
{
    let r = MacAddress([b[i], b[i + 1], b[i + 2], b[i + 3], b[i + 4], b[i + 5]]);
    assert(r.0@ =~= b@.subrange(i as int, i + 6));
    r
}

/// Decodes an Ethernet frame that carries a PTP Sync message.
pub fn parse_frame(bytes: &Vec<u8>) -> (r: Result<ParsedFrame, DecodeError>)
    ensures
        r is Ok <==> (bytes@.len() >= SYNC_FRAME_LEN && frame_version(bytes@) == PTP_VERSION),
        r == Err::<ParsedFrame, DecodeError>(DecodeError::TooShort) <==> bytes@.len() < SYNC_FRAME_LEN,
        r == Err::<ParsedFrame, DecodeError>(DecodeError::UnsupportedVersion) <==> (bytes@.len() >= SYNC_FRAME_LEN
            && frame_version(bytes@) != PTP_VERSION),
        r matches Ok(f) ==> f@ == frame_view_of(bytes@) && f@.header.wf(),
{
    if bytes.len() < SYNC_FRAME_LEN {
        return Err(DecodeError::TooShort);
    }
    if bytes[15] & 0xf != PTP_VERSION {
        return Err(DecodeError::UnsupportedVersion);
    }
    let h: usize = ETHERNET_HEADER_LEN;
    let clock = ClockIdentity::new(
        bytes[h + 20],
        bytes[h + 21],
        bytes[h + 22],
        bytes[h + 23],
        bytes[h + 24],
        bytes[h + 25],
        bytes[h + 26],
        bytes[h + 27],
    );
    let header = Ptp {
        majorSdoId: bytes[h] >> 4,
        messageType: bytes[h] & 0xf,
        minorVersionPtp: bytes[h + 1] >> 4,
        versionPtp: bytes[h + 1] & 0xf,
        messageLength: read_u16(bytes, h + 2),
        domainNumber: bytes[h + 4],
        minorSdoId: bytes[h + 5],
        flags: read_u16(bytes, h + 6),
        correctionField: read_u64(bytes, h + 8),
        messageTypeSpecific: read_u32(bytes, h + 16),
        portIdentity: PortIdentity { clockIdentity: clock, portNumber: read_u16(bytes, h + 28) },
        sequenceId: read_u16(bytes, h + 30),
        controlField: bytes[h + 32],
        logMessageInterval: bytes[h + 33],
    };
    let t: usize = ETHERNET_HEADER_LEN + PTP_HEADER_LEN;
    let body = Sync {
        originTimestamp: Timestamp::new(read_u16(bytes, t), read_u32(bytes, t + 2), read_u32(bytes, t + 6)),
    };
    let f = ParsedFrame {
        destination: read_mac(bytes, 0),
        source: read_mac(bytes, 6),
        ethertype: read_u16(bytes, 12),
        header,
        body,
    };
    let ghost b = bytes@;
    reveal(frame_view_of);
    assert(f@.header.clock_identity =~= ptp_view_of(b.subrange(14, 48)).clock_identity);
    assert(f@.header =~= ptp_view_of(b.subrange(14, 48)));
    let ghost (b0, b1) = (bytes@[14], bytes@[15]);
    assert(b0 >> 4u8 < 16 && b0 & 0xfu8 < 16 && b1 >> 4u8 < 16 && b1 & 0xfu8 < 16) by (bit_vector);
    assert(f@.body =~= frame_view_of(b).body);
    Ok(f)
}

proof fn lemma_u16_at(b: Seq<u8>, i: int, x: u16)
    requires
        0 <= i,
        i + 2 <= b.len(),
        b.subrange(i, i + 2) == be16(x),
    ensures
        u16_at(b, i) == x,
{
    assert(b[i] == b.subrange(i, i + 2)[0]);
    assert(b[i + 1] == b.subrange(i, i + 2)[1]);
    assert(u16_of((x >> 8u16) as u8, x as u8) == x) by (bit_vector);
}

proof fn lemma_u32_at(b: Seq<u8>, i: int, x: u32)
    requires
        0 <= i,
        i + 4 <= b.len(),
        b.subrange(i, i + 4) == be32(x),
    ensures
        u32_at(b, i) == x,
{
    let s = b.subrange(i, i + 4);
    assert(b[i] == s[0] && b[i + 1] == s[1] && b[i + 2] == s[2] && b[i + 3] == s[3]);
    assert(((u16_of((x >> 24u32) as u8, (x >> 16u32) as u8) as u32) << 16u32) | (u16_of(
        (x >> 8u32) as u8,
        x as u8,
    ) as u32) == x) by (bit_vector);
}

proof fn lemma_u64_at(b: Seq<u8>, i: int, x: u64)
    requires
        0 <= i,
        i + 8 <= b.len(),
        b.subrange(i, i + 8) == be64(x),
    ensures
        u64_at(b, i) == x,
{
    let s = b.subrange(i, i + 8);
    assert(b.subrange(i, i + 4) =~= s.subrange(0, 4));
    assert(b.subrange(i + 4, i + 8) =~= s.subrange(4, 8));
    assert(s.subrange(0, 4) =~= be32((x >> 32u64) as u32));
    assert(s.subrange(4, 8) =~= be32(x as u32));
    lemma_u32_at(b, i, (x >> 32u64) as u32);
    lemma_u32_at(b, i + 4, x as u32);
    assert(((((x >> 32u64) as u32) as u64) << 32u64) | ((x as u32) as u64) == x) by (bit_vector);
}

proof fn lemma_nibble_pair(hi: u8, lo: u8)
    requires
        hi < 16,
        lo < 16,
    ensures
        nibble_pair(hi, lo) >> 4u8 == hi,
        nibble_pair(hi, lo) & 0xfu8 == lo,
{
    assert((((hi & 0xfu8) << 4u8) | (lo & 0xfu8)) as u8 >> 4u8 == hi) by (bit_vector)
        requires
            hi < 16,
    ;
    assert((((hi & 0xfu8) << 4u8) | (lo & 0xfu8)) as u8 & 0xfu8 == lo) by (bit_vector)
        requires
            lo < 16,
    ;
}

/// Decoding the bytes of a well-formed PTP header gives back every field.
pub proof fn lemma_header_round_trip(h: PtpView)
    requires
        h.wf(),
    ensures
        ptp_header_bytes(h).len() == PTP_HEADER_LEN,
        ptp_view_of(ptp_header_bytes(h)) == h,
{
    let b = ptp_header_bytes(h);
    assert(b.len() == 34);
    lemma_nibble_pair(h.major_sdo_id, h.message_type);
    lemma_nibble_pair(h.minor_version_ptp, h.version_ptp);
    assert(b.subrange(2, 4) =~= be16(h.message_length));
    lemma_u16_at(b, 2, h.message_length);
    assert(b.subrange(6, 8) =~= be16(h.flags));
    lemma_u16_at(b, 6, h.flags);
    assert(b.subrange(8, 16) =~= be64(h.correction_field));
    lemma_u64_at(b, 8, h.correction_field);
    assert(b.subrange(16, 20) =~= be32(h.message_type_specific));
    lemma_u32_at(b, 16, h.message_type_specific);
    assert(b.subrange(20, 28) =~= h.clock_identity);
    assert(b.subrange(28, 30) =~= be16(h.port_number));
    lemma_u16_at(b, 28, h.port_number);
    assert(b.subrange(30, 32) =~= be16(h.sequence_id));
    lemma_u16_at(b, 30, h.sequence_id);
    assert(ptp_view_of(b) =~= h);
}

/// Decoding the bytes of a timestamp gives back its three fields.
pub proof fn lemma_timestamp_round_trip(t: Timestamp)
    ensures
        timestamp_bytes(t).len() == SYNC_BODY_LEN,
        timestamp_of(timestamp_bytes(t)) == t,
{
    let b = timestamp_bytes(t);
    assert(b.subrange(0, 2) =~= be16(t.seconds_msb));
    lemma_u16_at(b, 0, t.seconds_msb);
    assert(b.subrange(2, 6) =~= be32(t.seconds_lsb));
    lemma_u32_at(b, 2, t.seconds_lsb);
    assert(b.subrange(6, 10) =~= be32(t.nanoseconds));
    lemma_u32_at(b, 6, t.nanoseconds);
}

/// Decoding a built Sync frame recovers every field that went into it:
/// the addresses, the EtherType, each header field and the timestamp.
pub proof fn lemma_sync_frame_round_trip(
    src: Seq<u8>,
    dst: Seq<u8>,
    sequence_id: u16,
    log_message_interval: i8,
    domain_number: u8,
)
    requires
        src.len() == 6,
        dst.len() == 6,
    ensures
        ({
            let b = sync_frame_bytes(src, dst, sequence_id, log_message_interval, domain_number);
            &&& b.len() == SYNC_FRAME_LEN
            &&& frame_version(b) == PTP_VERSION
            &&& frame_view_of(b) == (ParsedFrameView {
                destination: dst,
                source: src,
                ethertype: ETHERTYPE_PTP,
                header: sync_header_spec(src, sequence_id, log_message_interval, domain_number),
                body: Sync { originTimestamp: zero_timestamp() },
            })
            &&& frame_view_of(b).header.log_message_interval as i8 == log_message_interval
        }),
{
    reveal(sync_frame_bytes);
    reveal(frame_view_of);
    let h = sync_header_spec(src, sequence_id, log_message_interval, domain_number);
    let b = sync_frame_bytes(src, dst, sequence_id, log_message_interval, domain_number);
    lemma_header_round_trip(h);
    lemma_timestamp_round_trip(zero_timestamp());
    assert(b.subrange(0, 6) =~= dst);
    assert(b.subrange(6, 12) =~= src);
    assert(b.subrange(12, 14) =~= be16(ETHERTYPE_PTP));
    lemma_u16_at(b, 12, ETHERTYPE_PTP);
    assert(b.subrange(14, 48) =~= ptp_header_bytes(h));
    assert(b.subrange(48, 58) =~= timestamp_bytes(zero_timestamp()));
    assert(b[15] == ptp_header_bytes(h)[1]);
    lemma_nibble_pair(PTP_MINOR_VERSION, PTP_VERSION);
    assert(frame_view_of(b) =~= (ParsedFrameView {
        destination: dst,
        source: src,
        ethertype: ETHERTYPE_PTP,
        header: h,
        body: Sync { originTimestamp: zero_timestamp() },
    }));
    assert((log_message_interval as u8) as i8 == log_message_interval) by (bit_vector);
}

/// Every built Sync frame has 58 bytes and its messageLength field reads 44,
/// whatever the sequence number, message interval and domain.
pub proof fn lemma_sync_frame_message_length(
    src: Seq<u8>,
    dst: Seq<u8>,
    sequence_id: u16,
    log_message_interval: i8,
    domain_number: u8,
)
    requires
        src.len() == 6,
        dst.len() == 6,
    ensures
        sync_frame_bytes(src, dst, sequence_id, log_message_interval, domain_number).len()
            == SYNC_FRAME_LEN,
        u16_at(sync_frame_bytes(src, dst, sequence_id, log_message_interval, domain_number), 16)
            == SYNC_MESSAGE_LEN,
{
    let b = sync_frame_bytes(src, dst, sequence_id, log_message_interval, domain_number);
    lemma_sync_frame_round_trip(src, dst, sequence_id, log_message_interval, domain_number);
    reveal(frame_view_of);
    let h = b.subrange(14, 48);
    assert(h[2] == b[16] && h[3] == b[17]);
}

/// The clock identity is a function of the hardware address alone, has
/// 8 bytes with FF FE in the middle, and different addresses give
/// different identities.
pub proof fn lemma_clock_identity_of(m1: Seq<u8>, m2: Seq<u8>)
    requires
        m1.len() == 6,
        m2.len() == 6,
    ensures
        m1 == m2 ==> clock_identity_of(m1) == clock_identity_of(m2),
        clock_identity_of(m1).len() == 8,
        clock_identity_of(m1)[3] == 0xff && clock_identity_of(m1)[4] == 0xfe,
        clock_identity_of(m1) == clock_identity_of(m2) ==> m1 == m2,
{
    if clock_identity_of(m1) == clock_identity_of(m2) {
        let c1 = clock_identity_of(m1);
        let c2 = clock_identity_of(m2);
        assert(c1[0] == c2[0] && c1[1] == c2[1] && c1[2] == c2[2]);
        assert(c1[5] == c2[5] && c1[6] == c2[6] && c1[7] == c2[7]);
        assert(m1 =~= m2);
    }
}

/// The frame bytes depend on the inputs alone: equal inputs give equal
/// frames, and the sequence number is carried into the frame.
pub proof fn lemma_sync_frame_deterministic(
    src: Seq<u8>,
    dst: Seq<u8>,
    sequence_id: u16,
    other_sequence_id: u16,
    log_message_interval: i8,
    domain_number: u8,
)
    requires
        src.len() == 6,
        dst.len() == 6,
    ensures
        sync_frame_bytes(src, dst, sequence_id, log_message_interval, domain_number)
            == sync_frame_bytes(src, dst, sequence_id, log_message_interval, domain_number),
        sequence_id != other_sequence_id ==> sync_frame_bytes(
            src,
            dst,
            sequence_id,
            log_message_interval,
            domain_number,
        ) != sync_frame_bytes(src, dst, other_sequence_id, log_message_interval, domain_number),
{
    lemma_sync_frame_round_trip(src, dst, sequence_id, log_message_interval, domain_number);
    lemma_sync_frame_round_trip(src, dst, other_sequence_id, log_message_interval, domain_number);
}

} // verus!
