//! The NTP packet and its fixed wire layout.
//!
//! Layout, big-endian, most significant bit first in the first octet:
//! leap indicator (2 bits), version (3 bits), mode (3 bits); stratum; poll;
//! precision; root delay (4 bytes); dispersion (4 bytes); reference
//! identifier (4 bytes); then the reference, origin, receive and transmit
//! timestamps (8 bytes each, NTP form). A 12-byte authenticator may follow;
//! it is carried but never checked.
//!
//! In memory the four timestamps are Unix time in nanoseconds, 0 meaning
//! unset; the codec converts them to and from NTP form.

use vstd::prelude::*;
use vstd::utf8::{decode_utf8, decode_utf8_encode_utf8, encode_utf8, valid_utf8};

use crate::error::ClockError;
use crate::timestamp::{
    ntp_to_unix_nanos, spec_ntp_to_unix_nanos, spec_unix_nanos_to_ntp, unix_nanos_to_ntp,
    NTP_ERA_END_UNIX_NANOS,
};

verus! {

/// Length of a packet without its authenticator.
pub const NTP_MIN_PACKET_LEN: usize = 48;

/// Length of a packet with its authenticator.
pub const NTP_PACKET_LEN: usize = 60;

/// The association mode carried in the low three bits of the first octet.
#[derive(Clone, Copy, Debug, PartialEq, Eq, Structural)]
pub enum NtpMode {
    Reserved,
    SymmetricActive,
    SymmetricPassive,
    Client,
    Server,
    Broadcast,
    ReservedForNtpControlMessages,
    ReservedForPrivateUse,
}

impl NtpMode {
    /// The mode that a three-bit field value stands for.
    pub open spec fn spec_from_bits(bits: u8) -> NtpMode {
        if bits == 0 {
            NtpMode::Reserved
        } else if bits == 1 {
            NtpMode::SymmetricActive
        } else if bits == 2 {
            NtpMode::SymmetricPassive
        } else if bits == 3 {
            NtpMode::Client
        } else if bits == 4 {
            NtpMode::Server
        } else if bits == 5 {
            NtpMode::Broadcast
        } else if bits == 6 {
            NtpMode::ReservedForNtpControlMessages
        } else {
            NtpMode::ReservedForPrivateUse
        }
    }

    /// The three-bit field value of a mode.
    pub open spec fn spec_bits(self) -> u8 {
        match self {
            NtpMode::Reserved => 0,
            NtpMode::SymmetricActive => 1,
            NtpMode::SymmetricPassive => 2,
            NtpMode::Client => 3,
            NtpMode::Server => 4,
            NtpMode::Broadcast => 5,
            NtpMode::ReservedForNtpControlMessages => 6,
            NtpMode::ReservedForPrivateUse => 7,
        }
    }

    /// Reads a mode from a three-bit field value.
    pub fn from_bits(bits: u8) -> (mode: NtpMode)
        requires
            bits < 8,
        ensures
            mode == NtpMode::spec_from_bits(bits),
            mode.spec_bits() == bits,
    {
        if bits == 0 {
            NtpMode::Reserved
        } else if bits == 1 {
            NtpMode::SymmetricActive
        } else if bits == 2 {
            NtpMode::SymmetricPassive
        } else if bits == 3 {
            NtpMode::Client
        } else if bits == 4 {
            NtpMode::Server
        } else if bits == 5 {
            NtpMode::Broadcast
        } else if bits == 6 {
            NtpMode::ReservedForNtpControlMessages
        } else {
            NtpMode::ReservedForPrivateUse
        }
    }

    /// The three-bit field value of this mode.
    pub fn bits(self) -> (bits: u8)
        ensures
            bits == self.spec_bits(),
            bits < 8,
            NtpMode::spec_from_bits(bits) == self,
    {
        match self {
            NtpMode::Reserved => 0,
            NtpMode::SymmetricActive => 1,
            NtpMode::SymmetricPassive => 2,
            NtpMode::Client => 3,
            NtpMode::Server => 4,
            NtpMode::Broadcast => 5,
            NtpMode::ReservedForNtpControlMessages => 6,
            NtpMode::ReservedForPrivateUse => 7,
        }
    }
}

/// One NTP packet, request or reply. Timestamps are Unix nanoseconds, 0 when unset.
#[derive(Clone, Copy, Debug, PartialEq, Eq)]
pub struct NtpPacket {
    /// Two bits: warning of a leap second in the last minute of the day.
    pub leap_indicator: u8,
    /// Three bits: protocol version, 1 to 4 in a valid packet.
    pub version: u8,
    /// Association mode.
    pub mode: NtpMode,
    /// Distance from the reference clock; 0 means unspecified.
    pub stratum: u8,
    /// Maximum interval between messages, log2 seconds.
    pub poll: i8,
    /// Precision of the sender's clock, log2 seconds.
    pub precision: i8,
    /// Round-trip delay to the reference: signed 16.16 fixed-point seconds.
    pub root_delay_ms: [u8; 4],
    /// Dispersion to the reference, as carried on the wire.
    pub dispersion: [u8; 4],
    /// Reference identifier: a refclock code at stratum 0, else an address.
    pub identifier: u32,
    /// When the sender's clock was last set.
    pub ref_time: u64,
    /// When the request left the client, as echoed by the server.
    pub origin_time: u64,
    /// When the request reached the server.
    pub recv_time: u64,
    /// When the reply left the server.
    pub transmit_time: u64,
    /// Optional trailer, carried and never checked.
    pub authenticator: [u8; 12],
}

/// The unsigned integer that four bytes from index `i` spell in big-endian order.
pub open spec fn be_u32_at(b: Seq<u8>, i: int) -> int {
    b[i] * 0x100_0000 + b[i + 1] * 0x1_0000 + b[i + 2] * 0x100 + b[i + 3]
}

/// The unsigned integer that eight bytes from index `i` spell in big-endian order.
pub open spec fn be_u64_at(b: Seq<u8>, i: int) -> int {
    be_u32_at(b, i) * 0x1_0000_0000 + be_u32_at(b, i + 4)
}

/// The four big-endian bytes of a 32-bit value.
#[verifier::opaque]
pub open spec fn be_u32_bytes(x: int) -> Seq<u8> {
    seq![
        (x / 0x100_0000 % 0x100) as u8,
        (x / 0x1_0000 % 0x100) as u8,
        (x / 0x100 % 0x100) as u8,
        (x % 0x100) as u8,
    ]
}

/// The eight big-endian bytes of a 64-bit value.
pub open spec fn be_u64_bytes(x: int) -> Seq<u8> {
    be_u32_bytes(x / 0x1_0000_0000) + be_u32_bytes(x % 0x1_0000_0000)
}

/// The NTP form in which a timestamp travels: unset stays 0.
pub open spec fn wire_timestamp(unix_nanos: u64) -> int {
    if unix_nanos == 0 {
        0
    } else {
        spec_unix_nanos_to_ntp(unix_nanos as int)
    }
}

/// Byte `k` of the authenticator in a received buffer: zero where the buffer ends first.
pub open spec fn trailer_byte(b: Seq<u8>, k: int) -> u8 {
    if 48 + k < b.len() {
        b[48 + k]
    } else {
        0
    }
}

/// The packet that a buffer of at least 48 bytes decodes to.
pub open spec fn spec_unpack(b: Seq<u8>) -> NtpPacket {
    NtpPacket {
        leap_indicator: b[0] / 64,
        version: b[0] / 8 % 8,
        mode: NtpMode::spec_from_bits(b[0] % 8),
        stratum: b[1],
        poll: b[2] as i8,
        precision: b[3] as i8,
        root_delay_ms: [b[4], b[5], b[6], b[7]],
        dispersion: [b[8], b[9], b[10], b[11]],
        identifier: be_u32_at(b, 12) as u32,
        ref_time: spec_ntp_to_unix_nanos(be_u64_at(b, 16)) as u64,
        origin_time: spec_ntp_to_unix_nanos(be_u64_at(b, 24)) as u64,
        recv_time: spec_ntp_to_unix_nanos(be_u64_at(b, 32)) as u64,
        transmit_time: spec_ntp_to_unix_nanos(be_u64_at(b, 40)) as u64,
        authenticator: [
            trailer_byte(b, 0),
            trailer_byte(b, 1),
            trailer_byte(b, 2),
            trailer_byte(b, 3),
            trailer_byte(b, 4),
            trailer_byte(b, 5),
            trailer_byte(b, 6),
            trailer_byte(b, 7),
            trailer_byte(b, 8),
            trailer_byte(b, 9),
            trailer_byte(b, 10),
            trailer_byte(b, 11),
        ],
    }
}

/// Decoding a received buffer: too short, an unsupported version, or the packet.
pub open spec fn spec_decode(b: Seq<u8>) -> Result<NtpPacket, ClockError> {
    if b.len() < 48 {
        Err(ClockError::PacketTooShort)
    } else if b[0] / 8 % 8 < 1 || b[0] / 8 % 8 > 4 {
        Err(ClockError::InvalidVersion)
    } else {
        Ok(spec_unpack(b))
    }
}

impl NtpPacket {
    /// The first octet: leap indicator, version and mode, each cut to its field width.
    pub open spec fn spec_flags(self) -> int {
        (self.leap_indicator % 4) * 64 + (self.version % 8) * 8 + self.mode.spec_bits()
    }

    /// The 48 bytes of the packet without its authenticator.
    #[verifier::opaque]
    pub open spec fn spec_header_bytes(self) -> Seq<u8> {
        seq![self.spec_flags() as u8, self.stratum, self.poll as u8, self.precision as u8]
            + self.root_delay_ms@ + self.dispersion@ + be_u32_bytes(self.identifier as int)
            + be_u64_bytes(wire_timestamp(self.ref_time)) + be_u64_bytes(
            wire_timestamp(self.origin_time),
        ) + be_u64_bytes(wire_timestamp(self.recv_time)) + be_u64_bytes(
            wire_timestamp(self.transmit_time),
        )
    }

    /// The 60 bytes of the packet with its authenticator.
    pub open spec fn spec_packed_bytes(self) -> Seq<u8> {
        self.spec_header_bytes() + self.authenticator@
    }

    /// Fields within their widths, a version that decoding accepts, and
    /// timestamps that NTP era 0 can hold.
    pub open spec fn is_well_formed(self) -> bool {
        &&& self.leap_indicator < 4
        &&& 1 <= self.version <= 4
        &&& self.ref_time < NTP_ERA_END_UNIX_NANOS
        &&& self.origin_time < NTP_ERA_END_UNIX_NANOS
        &&& self.recv_time < NTP_ERA_END_UNIX_NANOS
        &&& self.transmit_time < NTP_ERA_END_UNIX_NANOS
    }
}

/// Appends the four big-endian bytes of `x`.
fn push_u32_be(out: &mut Vec<u8>, x: u32)
    ensures
        final(out)@ == old(out)@ + be_u32_bytes(x as int),
{
    reveal(be_u32_bytes);
    out.push((x / 0x100_0000 % 0x100) as u8);
    out.push((x / 0x1_0000 % 0x100) as u8);
    out.push((x / 0x100 % 0x100) as u8);
    out.push((x % 0x100) as u8);
    assert(final(out)@ =~= old(out)@ + be_u32_bytes(x as int));
}

/// Appends the eight big-endian bytes of `x`.
fn push_u64_be(out: &mut Vec<u8>, x: u64)
    ensures
        final(out)@ == old(out)@ + be_u64_bytes(x as int),
{
    push_u32_be(out, (x / 0x1_0000_0000) as u32);
    push_u32_be(out, (x % 0x1_0000_0000) as u32);
    assert(final(out)@ =~= old(out)@ + be_u64_bytes(x as int));
}

/// Appends a timestamp in its wire form.
fn push_timestamp(out: &mut Vec<u8>, unix_nanos: u64)
    ensures
        final(out)@ == old(out)@ + be_u64_bytes(wire_timestamp(unix_nanos)),
{
    if unix_nanos == 0 {
        push_u64_be(out, 0);
    } else {
        push_u64_be(out, unix_nanos_to_ntp(unix_nanos));
    }
}

/// Appends every byte of `bytes`.
fn push_all(out: &mut Vec<u8>, bytes: &[u8])
    ensures
        final(out)@ == old(out)@ + bytes@,
{
    let mut i: usize = 0;
    while i < bytes.len()
        invariant
            i <= bytes@.len(),
            out@ == old(out)@ + bytes@.subrange(0, i as int),
        decreases bytes@.len() - i,
    {
        out.push(bytes[i]);
        i = i + 1;
        assert(out@ =~= old(out)@ + bytes@.subrange(0, i as int));
    }
    assert(bytes@.subrange(0, i as int) =~= bytes@);
}

/// Reads the big-endian 32-bit value at `i`.
pub(crate) fn read_u32_be(b: &[u8], i: usize) -> (x: u32)
    requires
        i + 4 <= b.len(),
    ensures
        x == be_u32_at(b@, i as int),
{
    (b[i] as u32) * 0x100_0000 + (b[i + 1] as u32) * 0x1_0000 + (b[i + 2] as u32) * 0x100 + (b[i
        + 3] as u32)
}

/// Reads the big-endian 64-bit value at `i`.
pub(crate) fn read_u64_be(b: &[u8], i: usize) -> (x: u64)
    requires
        i + 8 <= b.len(),
    ensures
        x == be_u64_at(b@, i as int),
{
    (read_u32_be(b, i) as u64) * 0x1_0000_0000 + read_u32_be(b, i + 4) as u64
}

/// Reads byte `k` of the authenticator, zero where the buffer ends first.
fn read_trailer_byte(b: &[u8], k: usize) -> (x: u8)
    requires
        k < 12,
    ensures
        x == trailer_byte(b@, k as int),
{
    if 48 + k < b.len() {
        b[48 + k]
    } else {
        0
    }
}

/// Decodes a received packet. Fails `PacketTooShort` under 48 bytes and
/// `InvalidVersion` when the version is not 1 to 4; an authenticator is
/// taken from the 12 bytes after the first 48, as far as they go.
pub fn parse_ntp_packet(packet: &[u8], _local_time: u64) -> (r: Result<NtpPacket, ClockError>)
    ensures
        r == spec_decode(packet@),
{
    if packet.len() < NTP_MIN_PACKET_LEN {
        return Err(ClockError::PacketTooShort);
    }
    let flags = packet[0];
    let version = flags / 8 % 8;
    if version < 1 || version > 4 {
        return Err(ClockError::InvalidVersion);
    }
    let b = packet;
    Ok(
        NtpPacket {
            leap_indicator: flags / 64,
            version,
            mode: NtpMode::from_bits(flags % 8),
            stratum: b[1],
            poll: b[2] as i8,
            precision: b[3] as i8,
            root_delay_ms: [b[4], b[5], b[6], b[7]],
            dispersion: [b[8], b[9], b[10], b[11]],
            identifier: read_u32_be(b, 12),
            ref_time: ntp_to_unix_nanos(read_u64_be(b, 16)),
            origin_time: ntp_to_unix_nanos(read_u64_be(b, 24)),
            recv_time: ntp_to_unix_nanos(read_u64_be(b, 32)),
            transmit_time: ntp_to_unix_nanos(read_u64_be(b, 40)),
            authenticator: [
                read_trailer_byte(b, 0),
                read_trailer_byte(b, 1),
                read_trailer_byte(b, 2),
                read_trailer_byte(b, 3),
                read_trailer_byte(b, 4),
                read_trailer_byte(b, 5),
                read_trailer_byte(b, 6),
                read_trailer_byte(b, 7),
                read_trailer_byte(b, 8),
                read_trailer_byte(b, 9),
                read_trailer_byte(b, 10),
                read_trailer_byte(b, 11),
            ],
        },
    )
}

impl NtpPacket {
    /// The 48 bytes of the packet, without the authenticator.
    pub fn as_bytes(&self) -> (bytes: Vec<u8>)
        ensures
            bytes@ == self.spec_header_bytes(),
            bytes@.len() == NTP_MIN_PACKET_LEN,
    {
        let mut out: Vec<u8> = Vec::new();
        let flags: u8 = (self.leap_indicator % 4) * 64 + (self.version % 8) * 8 + self.mode.bits();
        out.push(flags);
        out.push(self.stratum);
        out.push(self.poll as u8);
        out.push(self.precision as u8);
        assert(out@ =~= seq![self.spec_flags() as u8, self.stratum, self.poll as u8, self.precision as u8]);
        push_all(&mut out, &self.root_delay_ms);
        push_all(&mut out, &self.dispersion);
        push_u32_be(&mut out, self.identifier);
        push_timestamp(&mut out, self.ref_time);
        push_timestamp(&mut out, self.origin_time);
        push_timestamp(&mut out, self.recv_time);
        push_timestamp(&mut out, self.transmit_time);
        proof {
            reveal(NtpPacket::spec_header_bytes);
            lemma_header_layout(*self);
        }
        out
    }

    /// The 60 bytes of the packet, authenticator included.
    pub fn pack(&self) -> (bytes: Vec<u8>)
        ensures
            bytes@ == self.spec_packed_bytes(),
            bytes@.len() == NTP_PACKET_LEN,
    {
        let mut out = self.as_bytes();
        push_all(&mut out, &self.authenticator);
        out
    }
}

/// What a timestamp becomes after a trip through its wire form.
pub open spec fn spec_timestamp_round_trip(unix_nanos: u64) -> u64 {
    spec_ntp_to_unix_nanos(wire_timestamp(unix_nanos)) as u64
}

proof fn lemma_be_u32_round_trip(x: int)
    requires
        0 <= x < 0x1_0000_0000,
    ensures
        be_u32_bytes(x).len() == 4,
        be_u32_at(be_u32_bytes(x), 0) == x,
{
    reveal(be_u32_bytes);
    let b = be_u32_bytes(x);
    assert(b[0] == x / 0x100_0000 % 0x100);
    assert(b[1] == x / 0x1_0000 % 0x100);
    assert(b[2] == x / 0x100 % 0x100);
    assert(b[3] == x % 0x100);
}

proof fn lemma_be_u64_round_trip(x: int)
    requires
        0 <= x < 0x1_0000_0000_0000_0000,
    ensures
        be_u64_bytes(x).len() == 8,
        be_u64_at(be_u64_bytes(x), 0) == x,
{
    let hi = be_u32_bytes(x / 0x1_0000_0000);
    let lo = be_u32_bytes(x % 0x1_0000_0000);
    lemma_be_u32_round_trip(x / 0x1_0000_0000);
    lemma_be_u32_round_trip(x % 0x1_0000_0000);
    let b = be_u64_bytes(x);
    assert(b.subrange(0, 4) =~= hi);
    assert(b.subrange(4, 8) =~= lo);
    lemma_be_u32_at_window(b, 0);
    lemma_be_u32_at_window(b, 4);
}

/// A big-endian read sees only its own four bytes.
proof fn lemma_be_u32_at_window(b: Seq<u8>, i: int)
    requires
        0 <= i,
        i + 4 <= b.len(),
    ensures
        be_u32_at(b, i) == be_u32_at(b.subrange(i, i + 4), 0),
{
}

/// A big-endian 64-bit read sees only its own eight bytes.
proof fn lemma_be_u64_at_window(b: Seq<u8>, i: int)
    requires
        0 <= i,
        i + 8 <= b.len(),
    ensures
        be_u64_at(b, i) == be_u64_at(b.subrange(i, i + 8), 0),
{
}

/// A timestamp comes back from its wire form rounded down by at most one
/// nanosecond, and unchanged when it is a whole number of 1/512 s
/// (1_953_125 ns), which the 32-bit fraction holds without loss.
pub proof fn lemma_timestamp_round_trip(u: u64)
    requires
        u < NTP_ERA_END_UNIX_NANOS,
    ensures
        u - 1 <= spec_timestamp_round_trip(u) <= u,
        u % 1_953_125 == 0 ==> spec_timestamp_round_trip(u) == u,
        0 <= wire_timestamp(u) < 0x1_0000_0000_0000_0000,
{
    reveal(spec_unix_nanos_to_ntp);
    reveal(spec_ntp_to_unix_nanos);
    if u != 0 {
        crate::timestamp::lemma_unix_ntp_round_trip(u);
        let n = u % 1_000_000_000;
        let f = n * 0x1_0000_0000 / 1_000_000_000;
        if u % 1_953_125 == 0 {
            assert(n % 1_953_125 == 0);
            let k = n / 1_953_125;
            assert(n * 0x1_0000_0000 == k * 8_388_608 * 1_000_000_000);
            assert(f == k * 8_388_608);
            assert(f * 1_000_000_000 == n * 0x1_0000_0000);
        }
    }
}

/// Where each field lies in the 48 header bytes.
proof fn lemma_header_layout(p: NtpPacket)
    ensures
        p.spec_header_bytes().len() == 48,
        p.spec_header_bytes()[0] == p.spec_flags() as u8,
        p.spec_header_bytes()[1] == p.stratum,
        p.spec_header_bytes()[2] == p.poll as u8,
        p.spec_header_bytes()[3] == p.precision as u8,
        p.spec_header_bytes().subrange(4, 8) == p.root_delay_ms@,
        p.spec_header_bytes().subrange(8, 12) == p.dispersion@,
        p.spec_header_bytes().subrange(12, 16) == be_u32_bytes(p.identifier as int),
        p.spec_header_bytes().subrange(16, 24) == be_u64_bytes(wire_timestamp(p.ref_time)),
        p.spec_header_bytes().subrange(24, 32) == be_u64_bytes(wire_timestamp(p.origin_time)),
        p.spec_header_bytes().subrange(32, 40) == be_u64_bytes(wire_timestamp(p.recv_time)),
        p.spec_header_bytes().subrange(40, 48) == be_u64_bytes(wire_timestamp(p.transmit_time)),
{
    let s0 = seq![p.spec_flags() as u8, p.stratum, p.poll as u8, p.precision as u8];
    let s1 = s0 + p.root_delay_ms@;
    let s2 = s1 + p.dispersion@;
    let s3 = s2 + be_u32_bytes(p.identifier as int);
    let s4 = s3 + be_u64_bytes(wire_timestamp(p.ref_time));
    let s5 = s4 + be_u64_bytes(wire_timestamp(p.origin_time));
    let s6 = s5 + be_u64_bytes(wire_timestamp(p.recv_time));
    let h = s6 + be_u64_bytes(wire_timestamp(p.transmit_time));
    reveal(NtpPacket::spec_header_bytes);
    reveal(be_u32_bytes);
    assert(h == p.spec_header_bytes());
    assert(h.subrange(4, 8) =~= p.root_delay_ms@);
    assert(h.subrange(8, 12) =~= p.dispersion@);
    assert(h.subrange(12, 16) =~= be_u32_bytes(p.identifier as int));
    assert(h.subrange(16, 24) =~= be_u64_bytes(wire_timestamp(p.ref_time)));
    assert(h.subrange(24, 32) =~= be_u64_bytes(wire_timestamp(p.origin_time)));
    assert(h.subrange(32, 40) =~= be_u64_bytes(wire_timestamp(p.recv_time)));
    assert(h.subrange(40, 48) =~= be_u64_bytes(wire_timestamp(p.transmit_time)));
}

/// A timestamp read back from where its wire form was written.
proof fn lemma_unpack_timestamp(b: Seq<u8>, i: int, u: u64)
    requires
        0 <= i,
        i + 8 <= b.len(),
        u < NTP_ERA_END_UNIX_NANOS,
        b.subrange(i, i + 8) == be_u64_bytes(wire_timestamp(u)),
    ensures
        spec_ntp_to_unix_nanos(be_u64_at(b, i)) as u64 == spec_timestamp_round_trip(u),
{
    lemma_timestamp_round_trip(u);
    lemma_be_u64_round_trip(wire_timestamp(u));
    lemma_be_u64_at_window(b, i);
}

/// The fields that decoding reads from a buffer whose first 48 bytes are the
/// header of `p`.
proof fn lemma_unpack_header(p: NtpPacket, b: Seq<u8>)
    requires
        p.is_well_formed(),
        b.len() >= 48,
        b.subrange(0, 48) == p.spec_header_bytes(),
    ensures
        spec_decode(b) is Ok,
        spec_unpack(b).leap_indicator == p.leap_indicator,
        spec_unpack(b).version == p.version,
        spec_unpack(b).mode == p.mode,
        spec_unpack(b).stratum == p.stratum,
        spec_unpack(b).poll == p.poll,
        spec_unpack(b).precision == p.precision,
        spec_unpack(b).root_delay_ms == p.root_delay_ms,
        spec_unpack(b).dispersion == p.dispersion,
        spec_unpack(b).identifier == p.identifier,
        spec_unpack(b).ref_time == spec_timestamp_round_trip(p.ref_time),
        spec_unpack(b).origin_time == spec_timestamp_round_trip(p.origin_time),
        spec_unpack(b).recv_time == spec_timestamp_round_trip(p.recv_time),
        spec_unpack(b).transmit_time == spec_timestamp_round_trip(p.transmit_time),
{
    let h = p.spec_header_bytes();
    lemma_header_layout(p);
    assert(b.subrange(12, 16) =~= h.subrange(12, 16));
    assert(b.subrange(16, 24) =~= h.subrange(16, 24));
    assert(b.subrange(24, 32) =~= h.subrange(24, 32));
    assert(b.subrange(32, 40) =~= h.subrange(32, 40));
    assert(b.subrange(40, 48) =~= h.subrange(40, 48));
    lemma_be_u32_round_trip(p.identifier as int);
    lemma_be_u32_at_window(b, 12);
    lemma_unpack_timestamp(b, 16, p.ref_time);
    lemma_unpack_timestamp(b, 24, p.origin_time);
    lemma_unpack_timestamp(b, 32, p.recv_time);
    lemma_unpack_timestamp(b, 40, p.transmit_time);
    assert(b[0] == h[0] && b[1] == h[1] && b[2] == h[2] && b[3] == h[3]);
    let flags = p.spec_flags();
    assert(flags / 64 == p.leap_indicator);
    assert(flags / 8 % 8 == p.version);
    assert(flags % 8 == p.mode.spec_bits());
    let poll = p.poll;
    let precision = p.precision;
    assert((poll as u8) as i8 == poll) by (bit_vector);
    assert((precision as u8) as i8 == precision) by (bit_vector);
    let q = spec_unpack(b);
    assert(forall|k: int| 0 <= k < 4 ==> b[4 + k] == #[trigger] h.subrange(4, 8)[k]);
    assert(forall|k: int| 0 <= k < 4 ==> b[8 + k] == #[trigger] h.subrange(8, 12)[k]);
    assert(q.root_delay_ms =~= p.root_delay_ms);
    assert(q.dispersion =~= p.dispersion);
}

/// Decoding the 60 packed bytes of a well-formed packet gives back every
/// field; each timestamp comes back as its wire form holds it (see
/// `lemma_timestamp_round_trip`).
pub proof fn lemma_pack_parse_round_trip(p: NtpPacket)
    requires
        p.is_well_formed(),
    ensures
        spec_decode(p.spec_packed_bytes()) == Ok::<NtpPacket, ClockError>(
            NtpPacket {
                ref_time: spec_timestamp_round_trip(p.ref_time),
                origin_time: spec_timestamp_round_trip(p.origin_time),
                recv_time: spec_timestamp_round_trip(p.recv_time),
                transmit_time: spec_timestamp_round_trip(p.transmit_time),
                ..p
            },
        ),
{
    let b = p.spec_packed_bytes();
    lemma_header_layout(p);
    assert(b.subrange(0, 48) =~= p.spec_header_bytes());
    lemma_unpack_header(p, b);
    let q = spec_unpack(b);
    assert(forall|k: int| 0 <= k < 12 ==> trailer_byte(b, k) == #[trigger] p.authenticator@[k]);
    assert(q.authenticator =~= p.authenticator);
}

/// Decoding the 48 header bytes of a well-formed packet gives back every field
/// as `lemma_pack_parse_round_trip` says, except the authenticator, which
/// comes back as zeros.
pub proof fn lemma_header_parse_round_trip(p: NtpPacket)
    requires
        p.is_well_formed(),
    ensures
        spec_decode(p.spec_header_bytes()) == Ok::<NtpPacket, ClockError>(
            NtpPacket {
                ref_time: spec_timestamp_round_trip(p.ref_time),
                origin_time: spec_timestamp_round_trip(p.origin_time),
                recv_time: spec_timestamp_round_trip(p.recv_time),
                transmit_time: spec_timestamp_round_trip(p.transmit_time),
                authenticator: [0, 0, 0, 0, 0, 0, 0, 0, 0, 0, 0, 0],
                ..p
            },
        ),
{
    let b = p.spec_header_bytes();
    lemma_header_layout(p);
    assert(b.subrange(0, 48) =~= b);
    lemma_unpack_header(p, b);
    let q = spec_unpack(b);
    assert(q.authenticator =~= [0u8, 0, 0, 0, 0, 0, 0, 0, 0, 0, 0, 0]);
}

/// When every timestamp is a whole number of 1_953_125 ns, decoding the
/// packed bytes of a well-formed packet gives back exactly that packet.
pub proof fn lemma_pack_parse_exact(p: NtpPacket)
    requires
        p.is_well_formed(),
        p.ref_time % 1_953_125 == 0,
        p.origin_time % 1_953_125 == 0,
        p.recv_time % 1_953_125 == 0,
        p.transmit_time % 1_953_125 == 0,
    ensures
        spec_decode(p.spec_packed_bytes()) == Ok::<NtpPacket, ClockError>(p),
{
    lemma_pack_parse_round_trip(p);
    lemma_timestamp_round_trip(p.ref_time);
    lemma_timestamp_round_trip(p.origin_time);
    lemma_timestamp_round_trip(p.recv_time);
    lemma_timestamp_round_trip(p.transmit_time);
}

/// The signed 16.16 fixed-point root delay, split into its two halves.
#[derive(Clone, Copy, Debug, PartialEq, Eq, Structural)]
pub struct RootDelay {
    /// Whole seconds, signed.
    pub int_part: i16,
    /// The fraction of a second, in units of 1/65536 s.
    pub frac_part: u16,
}

/// The two halves that four big-endian root-delay bytes hold; the whole
/// part is read in two's complement.
pub open spec fn spec_root_delay(b: Seq<u8>) -> RootDelay {
    let high = b[0] * 0x100 + b[1];
    RootDelay {
        int_part: (if high < 0x8000 {
            high
        } else {
            high - 0x1_0000
        }) as i16,
        frac_part: (b[2] * 0x100 + b[3]) as u16,
    }
}

impl RootDelay {
    /// Splits the four wire bytes of the root delay.
    pub fn unpack(bytes: &[u8; 4]) -> (r: RootDelay)
        ensures
            r == spec_root_delay(bytes@),
    {
        let high: u16 = (bytes[0] as u16) * 0x100 + bytes[1] as u16;
        let int_part: i16 = if high < 0x8000 {
            high as i16
        } else {
            (high as i32 - 0x1_0000) as i16
        };
        RootDelay { int_part, frac_part: (bytes[2] as u16) * 0x100 + bytes[3] as u16 }
    }
}

/// Who the reference identifier names.
#[derive(Clone, Debug)]
pub enum NtpIdentifier {
    /// The four octets of an IPv4 address (stratum 1 and above).
    IpAddr([u8; 4]),
    /// A refclock code in text (stratum 0).
    Source(String),
}

/// Up to the first four bytes of `b`, zero-padded to four.
pub open spec fn first_four_padded(b: Seq<u8>) -> Seq<u8> {
    Seq::new(4, |k: int| if k < b.len() { b[k] } else { 0u8 })
}

impl NtpIdentifier {
    /// The 32-bit identifier value: the octets of the address, or the first
    /// four UTF-8 bytes of the code padded with zeros, in big-endian order.
    pub open spec fn spec_as_u32(&self) -> u32 {
        match self {
            NtpIdentifier::IpAddr(octets) => be_u32_at(octets@, 0) as u32,
            NtpIdentifier::Source(s) => be_u32_at(first_four_padded(encode_utf8(s@)), 0) as u32,
        }
    }

    /// The 32-bit identifier value.
    pub fn as_u32(&self) -> (r: u32)
        ensures
            r == self.spec_as_u32(),
    {
        match self {
            NtpIdentifier::IpAddr(octets) => read_u32_be(octets, 0),
            NtpIdentifier::Source(s) => {
                let bytes = s.as_str().as_bytes();
                let mut arr: [u8; 4] = [0u8; 4];
                let mut i: usize = 0;
                while i < 4 && i < bytes.len()
                    invariant
                        i <= 4,
                        i <= bytes@.len(),
                        bytes@ == encode_utf8(s@),
                        forall|k: int|
                            0 <= k < 4 ==> #[trigger] arr[k] == (if k < i {
                                bytes@[k]
                            } else {
                                0u8
                            }),
                    decreases 4 - i,
                {
                    arr[i] = bytes[i];
                    i = i + 1;
                }
                assert(arr@ =~= first_four_padded(encode_utf8(s@)));
                read_u32_be(&arr, 0)
            },
        }
    }
}

/// Relies on `heapless::String::from_utf8` (fed by `heapless::Vec::from_slice`,
/// which takes four bytes into a capacity of four without failing): the bytes
/// are accepted exactly when they are valid UTF-8, and the text is theirs.
#[verifier::external_body]
fn text_from_code(code: &[u8; 4]) -> (r: Option<String>)
    ensures
        r is Some <==> valid_utf8(code@),
        r matches Some(s) ==> s@ == decode_utf8(code@),
{
    let bytes = heapless::Vec::<u8, 4>::from_slice(code).ok()?;
    let text = heapless::String::<4>::from_utf8(bytes).ok()?;
    Some(String::from(text.as_str()))
}

/// What reading the reference identifier of `p` may give: at stratum 0 the
/// four bytes as UTF-8 text, failing `InvalidIdentifier` when they are not;
/// otherwise the four octets of an address.
pub open spec fn is_remote_id_of(p: NtpPacket, r: Result<NtpIdentifier, ClockError>) -> bool {
    let code = be_u32_bytes(p.identifier as int);
    if p.stratum == 0 {
        if valid_utf8(code) {
            r matches Ok(NtpIdentifier::Source(s)) && s@ == decode_utf8(code)
        } else {
            r matches Err(ClockError::InvalidIdentifier)
        }
    } else {
        r matches Ok(NtpIdentifier::IpAddr(octets)) && octets@ == code
    }
}

/// The text a leap indicator stands for.
pub open spec fn spec_leap_text(leap_indicator: u8) -> Seq<char> {
    if leap_indicator == 0 {
        "no warning"@
    } else if leap_indicator == 1 {
        "last minute has 61 seconds"@
    } else if leap_indicator == 2 {
        "last minute has 59 seconds"@
    } else if leap_indicator == 3 {
        "alarm condition (clock not synchronized)"@
    } else {
        "undefined"@
    }
}

/// The text a stratum stands for.
pub open spec fn spec_stratum_text(stratum: u8) -> Seq<char> {
    if stratum == 0 {
        "unspecified or invalid"@
    } else if stratum == 1 {
        "primary reference (e.g., radio clock)"@
    } else if stratum <= 15 {
        "secondary reference (via NTP or SNTP)"@
    } else {
        "reserved"@
    }
}

/// Integer division rounding toward zero, as Rust's `/` does.
pub open spec fn div_toward_zero(x: int, d: int) -> int {
    if x >= 0 {
        x / d
    } else {
        -((-x) / d)
    }
}

/// `x` held within the range of `i64`.
pub open spec fn clamp_to_i64(x: int) -> i64 {
    if x > i64::MAX {
        i64::MAX
    } else if x < i64::MIN {
        i64::MIN
    } else {
        x as i64
    }
}

impl NtpPacket {
    /// A client request: version 3, mode client, every other field zero.
    pub open spec fn spec_request() -> NtpPacket {
        NtpPacket {
            leap_indicator: 0,
            version: 3,
            mode: NtpMode::Client,
            stratum: 0,
            poll: 0,
            precision: 0,
            root_delay_ms: [0, 0, 0, 0],
            dispersion: [0, 0, 0, 0],
            identifier: 0,
            ref_time: 0,
            origin_time: 0,
            recv_time: 0,
            transmit_time: 0,
            authenticator: [0, 0, 0, 0, 0, 0, 0, 0, 0, 0, 0, 0],
        }
    }

    /// A client request: version 3, mode client, every other field zero.
    pub fn request() -> (p: NtpPacket)
        ensures
            p == NtpPacket::spec_request(),
    {
        NtpPacket {
            leap_indicator: 0,
            version: 3,
            mode: NtpMode::Client,
            stratum: 0,
            poll: 0,
            precision: 0,
            root_delay_ms: [0, 0, 0, 0],
            dispersion: [0, 0, 0, 0],
            identifier: 0,
            ref_time: 0,
            origin_time: 0,
            recv_time: 0,
            transmit_time: 0,
            authenticator: [0, 0, 0, 0, 0, 0, 0, 0, 0, 0, 0, 0],
        }
    }

    /// This packet with its transmit timestamp replaced; the packet itself is left as it was.
    pub fn with_transmit_time(&mut self, transmit_time: u64) -> (p: NtpPacket)
        ensures
            *final(self) == *old(self),
            p == (NtpPacket { transmit_time, ..*old(self) }),
    {
        NtpPacket { transmit_time, ..*self }
    }

    /// A server reply stamped with `unix_nanos` as reference, receive and
    /// transmit time: version 3, stratum 1, poll 4, precision -25, root delay
    /// 15/65536 s, dispersion 0x999f/65536 s, identifier "PPS".
    pub fn from_nanos(unix_nanos: u64) -> (p: NtpPacket)
        ensures
            p == (NtpPacket {
                leap_indicator: 0,
                version: 3,
                mode: NtpMode::Server,
                stratum: 1,
                poll: 4,
                precision: -25i8,
                root_delay_ms: [0, 0, 0, 15],
                dispersion: [0x00, 0x00, 0x99, 0x9f],
                identifier: 0x50505300,
                ref_time: unix_nanos,
                origin_time: 0,
                recv_time: unix_nanos,
                transmit_time: unix_nanos,
                authenticator: [0, 0, 0, 0, 0, 0, 0, 0, 0, 0, 0, 0],
            }),
    {
        NtpPacket {
            leap_indicator: 0,
            version: 3,
            mode: NtpMode::Server,
            stratum: 1,
            poll: 4,
            precision: -25,
            root_delay_ms: [0, 0, 0, 15],
            dispersion: [0x00, 0x00, 0x99, 0x9f],
            identifier: 0x50505300,
            ref_time: unix_nanos,
            origin_time: 0,
            recv_time: unix_nanos,
            transmit_time: unix_nanos,
            authenticator: [0, 0, 0, 0, 0, 0, 0, 0, 0, 0, 0, 0],
        }
    }

    /// The association mode.
    pub fn mode(&self) -> (m: NtpMode)
        ensures
            m == self.mode,
    {
        self.mode
    }

    /// The root delay as whole and fractional seconds.
    pub fn root_delay(&self) -> (r: RootDelay)
        ensures
            r == spec_root_delay(self.root_delay_ms@),
    {
        RootDelay::unpack(&self.root_delay_ms)
    }

    /// Reads the reference identifier: text at stratum 0, failing
    /// `InvalidIdentifier` when it is not valid UTF-8; an address otherwise.
    pub fn remote_id(&self) -> (r: Result<NtpIdentifier, ClockError>)
        ensures
            is_remote_id_of(*self, r),
    {
        let id = self.identifier;
        let code: [u8; 4] = [
            (id / 0x100_0000 % 0x100) as u8,
            (id / 0x1_0000 % 0x100) as u8,
            (id / 0x100 % 0x100) as u8,
            (id % 0x100) as u8,
        ];
        proof {
            reveal(be_u32_bytes);
            assert(code@ =~= be_u32_bytes(id as int));
        }
        if self.stratum == 0 {
            match text_from_code(&code) {
                Some(text) => Ok(NtpIdentifier::Source(text)),
                None => Err(ClockError::InvalidIdentifier),
            }
        } else {
            Ok(NtpIdentifier::IpAddr(code))
        }
    }

    /// The clock offset in nanoseconds from the two timestamp pairs:
    /// `((recv - origin) + (transmit - local)) / 2`, rounded toward zero and
    /// held within `i64`. An unset origin is taken to be `local`.
    pub open spec fn spec_offset(self, local_time_nanos: u64) -> i64 {
        let origin: int = if self.origin_time == 0 {
            local_time_nanos as int
        } else {
            self.origin_time as int
        };
        clamp_to_i64(
            div_toward_zero(
                (self.recv_time - origin) + (self.transmit_time - local_time_nanos),
                2,
            ),
        )
    }

    /// The clock offset in nanoseconds relative to the local time at which
    /// the reply arrived.
    pub fn offset_from_local(&self, local_time_nanos: u64) -> (offset: i64)
        ensures
            offset == self.spec_offset(local_time_nanos),
    {
        let origin: i128 = if self.origin_time == 0 {
            local_time_nanos as i128
        } else {
            self.origin_time as i128
        };
        let sum: i128 = (self.recv_time as i128 - origin) + (self.transmit_time as i128
            - local_time_nanos as i128);
        let half: i128 = if sum >= 0 {
            sum / 2
        } else {
            -((-sum) / 2)
        };
        if half > i64::MAX as i128 {
            i64::MAX
        } else if half < i64::MIN as i128 {
            i64::MIN
        } else {
            half as i64
        }
    }

    /// What the leap indicator announces.
    pub fn leap_identifier_string(&self) -> (text: &'static str)
        ensures
            text@ == spec_leap_text(self.leap_indicator),
    {
        proof {
            reveal_strlit("no warning");
            reveal_strlit("last minute has 61 seconds");
            reveal_strlit("last minute has 59 seconds");
            reveal_strlit("alarm condition (clock not synchronized)");
            reveal_strlit("undefined");
        }
        if self.leap_indicator == 0 {
            "no warning"
        } else if self.leap_indicator == 1 {
            "last minute has 61 seconds"
        } else if self.leap_indicator == 2 {
            "last minute has 59 seconds"
        } else if self.leap_indicator == 3 {
            "alarm condition (clock not synchronized)"
        } else {
            "undefined"
        }
    }

    /// What the stratum says of the server.
    pub fn stratum_string(&self) -> (text: &'static str)
        ensures
            text@ == spec_stratum_text(self.stratum),
    {
        proof {
            reveal_strlit("unspecified or invalid");
            reveal_strlit("primary reference (e.g., radio clock)");
            reveal_strlit("secondary reference (via NTP or SNTP)");
            reveal_strlit("reserved");
        }
        if self.stratum == 0 {
            "unspecified or invalid"
        } else if self.stratum == 1 {
            "primary reference (e.g., radio clock)"
        } else if self.stratum <= 15 {
            "secondary reference (via NTP or SNTP)"
        } else {
            "reserved"
        }
    }
}

/// The offset is zero when the server stamped the request's arrival and the
/// reply's departure at the very instants at which the client sent the
/// request and received the reply, all of them equal.
pub proof fn lemma_offset_zero_when_clocks_agree(p: NtpPacket, local_time_nanos: u64)
    requires
        p.transmit_time == local_time_nanos,
        p.recv_time == local_time_nanos,
        p.origin_time == local_time_nanos,
    ensures
        p.spec_offset(local_time_nanos) == 0,
{
}

/// Reading the reference identifier and turning what was read back into a
/// number gives the identifier again, as text at stratum 0 and as an address
/// above it.
pub proof fn lemma_remote_id_round_trip(p: NtpPacket, r: Result<NtpIdentifier, ClockError>)
    requires
        is_remote_id_of(p, r),
        r is Ok,
    ensures
        r->Ok_0.spec_as_u32() == p.identifier,
{
    let code = be_u32_bytes(p.identifier as int);
    lemma_be_u32_round_trip(p.identifier as int);
    if p.stratum == 0 {
        decode_utf8_encode_utf8(code);
        assert(first_four_padded(code) =~= code);
    }
}

} // verus!
