//! The synchronisation client: the cached reply, its validity window and the
//! handling of each reply. Sending and receiving datagrams is left to the
//! caller, which hands each reply in with the local time of its arrival.

use vstd::prelude::*;
use vstd::string::StringExecFns;

use crate::error::{ClockError, NtpParseError};
use crate::packets::{
    be_u32_at, be_u64_at, clamp_to_i64, parse_ntp_packet, read_u32_be, read_u64_be, spec_decode,
    NtpPacket,
};
use crate::timestamp::{ntp_to_unix_nanos, spec_ntp_to_unix_nanos, NTP_UNIX_EPOCH};

verus! {

/// The port NTP servers listen on.
pub const NTP_PORT: u16 = 123;

/// How long a reply stays fresh unless told otherwise: 60 s, in nanoseconds.
pub const DEFAULT_TIME_VALIDITY_NANOS: u64 = 60_000_000_000;

/// A polling loop synchronises on every this many ticks.
pub const SYNC_EVERY_TICKS: u32 = 5;

/// Whether a polling loop synchronises on tick `tick` (counting from 0 and
/// wrapping at `u32::MAX`).
pub fn sync_due(tick: u32) -> (due: bool)
    ensures
        due == (tick % SYNC_EVERY_TICKS == 0),
{
    tick % SYNC_EVERY_TICKS == 0
}

/// The octets of an IP address of either family.
#[derive(Clone, Copy, Debug, PartialEq, Eq)]
pub enum IpOctets {
    V4([u8; 4]),
    V6([u8; 16]),
}

/// A resolved server endpoint.
#[derive(Clone, Copy, Debug, PartialEq, Eq)]
pub struct ServerAddress {
    pub ip: IpOctets,
    pub port: u16,
}

/// The last reply and the local time at which it arrived.
pub struct NtpData {
    /// Local Unix time in nanoseconds at which the last reply arrived.
    pub last_check: u64,
    /// The last reply that decoded in full.
    pub last_response: Option<NtpPacket>,
}

impl NtpData {
    /// The clock offset that the last reply gives, measured at its arrival.
    pub open spec fn spec_offset(&self) -> Option<i64> {
        match self.last_response {
            Some(p) => Some(p.spec_offset(self.last_check)),
            None => None,
        }
    }

    /// The clock offset that the last reply gives, if there is one.
    pub fn offset(&self) -> (r: Option<i64>)
        ensures
            r == self.spec_offset(),
    {
        match &self.last_response {
            Some(p) => Some(p.offset_from_local(self.last_check)),
            None => None,
        }
    }
}

/// Relies on `std::time::SystemTime::now`: the wall clock at the call; nothing
/// is known of the value.
#[verifier::external_body]
fn system_time_now() -> std::time::SystemTime {
    std::time::SystemTime::now()
}

/// Relies on `std::time::SystemTime::duration_since` with `UNIX_EPOCH`: the
/// nanoseconds since 1970, or nothing for an earlier instant.
#[verifier::external_body]
fn nanos_since_unix_epoch(t: &std::time::SystemTime) -> Option<u128> {
    t.duration_since(std::time::UNIX_EPOCH).ok().map(|d| d.as_nanos())
}

/// `std::time::SystemTime`, carried unopened from one clock wrapper to the other.
#[verifier::external_type_specification]
#[verifier::external_body]
pub struct ExSystemTime(std::time::SystemTime);

/// The wall clock as Unix time in nanoseconds; 0 when the clock reads before
/// 1970, and the low 64 bits beyond the year 2554.
pub fn unix_nanos_now() -> u64 {
    let now = system_time_now();
    match nanos_since_unix_epoch(&now) {
        Some(nanos) => #[verifier::truncate] (nanos as u64),
        None => 0,
    }
}

/// The time carried by the transmit timestamp of a buffer of at least 48
/// bytes, when it is not before 1970.
pub open spec fn spec_transmit_time(b: Seq<u8>) -> int {
    spec_ntp_to_unix_nanos(be_u64_at(b, 40))
}

/// Reads only the transmit timestamp of a reply and the offset of the local
/// clock from it. Fails on fewer than 48 bytes, on a timestamp before 1970,
/// and when the offset does not fit in `i64`.
pub fn parse_transmit_time(packet: &[u8], local_time: u64) -> (r: Result<(u64, i64), NtpParseError>)
    ensures
        r is Ok <==> (packet@.len() >= 48 && be_u32_at(packet@, 40) >= NTP_UNIX_EPOCH
            && i64::MIN <= spec_transmit_time(packet@) - local_time <= i64::MAX),
        r matches Ok((t, offset)) ==> t == spec_transmit_time(packet@) && offset == t
            - local_time,
{
    if packet.len() < 48 {
        return Err(NtpParseError::InvalidResponse);
    }
    let seconds = read_u32_be(packet, 40);
    if (seconds as i64) < NTP_UNIX_EPOCH {
        return Err(NtpParseError::InvalidResponse);
    }
    let ntp = read_u64_be(packet, 40);
    proof {
        assert(be_u64_at(packet@, 40) >= 0x1_0000_0000);
    }
    let now = ntp_to_unix_nanos(ntp);
    let offset: i128 = now as i128 - local_time as i128;
    if offset < i64::MIN as i128 || offset > i64::MAX as i128 {
        return Err(NtpParseError::InvalidResponse);
    }
    Ok((now, offset as i64))
}

/// The client's state: where to ask, how long an answer stays fresh, and the
/// last answer.
pub struct NtpClient {
    pub server: ServerAddress,
    /// How long a reply stays fresh, in nanoseconds.
    pub time_validity: u64,
    pub data: NtpData,
}

/// The request sent at local time `now`: a client request whose transmit
/// timestamp is `now`.
pub open spec fn spec_request_at(now: u64) -> NtpPacket {
    NtpPacket { transmit_time: now, ..NtpPacket::spec_request() }
}

impl NtpClient {
    /// A client for the first of the addresses that `server` resolved to;
    /// fails `ConfigError` when it resolved to none.
    pub fn new(server: &str, resolved: &Vec<ServerAddress>) -> (r: Result<NtpClient, ClockError>)
        ensures
            r is Err <==> resolved@.len() == 0,
            r matches Err(e) ==> e matches ClockError::ConfigError(msg) && msg@ == "Could not resolve NTP server address: "@ + server@,
            r matches Ok(c) ==> c.server == resolved@[0] && c.time_validity
                == DEFAULT_TIME_VALIDITY_NANOS && c.data.last_check == 0
                && c.data.last_response is None,
    {
        if resolved.len() == 0 {
            proof {
                reveal_strlit("Could not resolve NTP server address: ");
            }
            let mut msg = "Could not resolve NTP server address: ".to_owned();
            msg.append(server);
            return Err(ClockError::ConfigError(msg));
        }
        Ok(
            NtpClient {
                server: resolved[0],
                time_validity: DEFAULT_TIME_VALIDITY_NANOS,
                data: NtpData { last_check: 0, last_response: None },
            },
        )
    }

    /// Whether the last reply is still fresh at local time `now`: its
    /// transmit time lies less than the validity window before `now` (a
    /// transmit time after `now` counts as no time elapsed).
    pub open spec fn spec_valid_at(&self, now: u64) -> bool {
        match self.data.last_response {
            Some(p) => (if now > p.transmit_time {
                now - p.transmit_time
            } else {
                0
            }) < self.time_validity,
            None => false,
        }
    }

    /// Whether the last reply is still fresh at local time `now`.
    pub fn time_is_valid_at(&self, now: u64) -> (valid: bool)
        ensures
            valid == self.spec_valid_at(now),
    {
        match &self.data.last_response {
            Some(p) => now.saturating_sub(p.transmit_time) < self.time_validity,
            None => false,
        }
    }

    /// Whether the last reply is still fresh now, by the wall clock.
    pub fn time_is_valid(&self) -> (valid: bool)
        ensures
            self.data.last_response is None ==> !valid,
            exists|now: u64| valid == self.spec_valid_at(now),
    {
        let now = unix_nanos_now();
        self.time_is_valid_at(now)
    }

    /// The cached time when the last reply is fresh at `now`; nothing when a
    /// new request is due.
    pub fn cached_time(&self, now: u64) -> (r: Option<u64>)
        ensures
            r is Some <==> self.spec_valid_at(now),
            r matches Some(t) ==> t == self.data.last_response->Some_0.transmit_time,
    {
        if self.time_is_valid_at(now) {
            match &self.data.last_response {
                Some(p) => Some(p.transmit_time),
                None => None,
            }
        } else {
            None
        }
    }

    /// The bytes of the request to send at local time `now`.
    pub fn update_request(now: u64) -> (bytes: Vec<u8>)
        ensures
            bytes@ == spec_request_at(now).spec_header_bytes(),
    {
        let mut request = NtpPacket::request();
        let packet = request.with_transmit_time(now);
        packet.as_bytes()
    }

    /// Takes in a reply that arrived at local time `local_time`. When it
    /// decodes in full it replaces the cached reply and its transmit time is
    /// returned; otherwise the decoding error is returned and the client is
    /// left as it was.
    pub fn update_from_response(&mut self, response: &[u8], local_time: u64) -> (r: Result<
        u64,
        ClockError,
    >)
        ensures
            match spec_decode(response@) {
                Ok(p) => r == Ok::<u64, ClockError>(p.transmit_time) && final(self).data.last_response
                    == Some(p) && final(self).data.last_check == local_time,
                Err(e) => r == Err::<u64, ClockError>(e) && final(self).data.last_response == old(
                    self,
                ).data.last_response && final(self).data.last_check == old(self).data.last_check,
            },
            final(self).server == old(self).server,
            final(self).time_validity == old(self).time_validity,
    {
        match parse_ntp_packet(response, local_time) {
            Ok(p) => {
                self.data.last_response = Some(p);
                self.data.last_check = local_time;
                Ok(p.transmit_time)
            },
            Err(e) => Err(e),
        }
    }

    /// Reads only the transmit time of a reply and the local clock's offset
    /// from it; any failure is `InvalidResponse`.
    pub fn parse_packet(packet: &[u8], local_time: u64) -> (r: Result<(u64, i64), ClockError>)
        ensures
            match parse_transmit_time_spec(packet@, local_time) {
                Some(v) => r == Ok::<(u64, i64), ClockError>(v),
                None => r == Err::<(u64, i64), ClockError>(ClockError::InvalidResponse),
            },
    {
        match parse_transmit_time(packet, local_time) {
            Ok(v) => Ok(v),
            Err(_) => Err(ClockError::InvalidResponse),
        }
    }

    /// How far the server's transmit time was ahead of the local clock when
    /// the last reply arrived, in nanoseconds, held within `i64`; 0 before
    /// any reply.
    pub fn get_offset(&self) -> (offset: i64)
        ensures
            offset == match self.data.last_response {
                Some(p) => clamp_to_i64(p.transmit_time - self.data.last_check),
                None => 0,
            },
    {
        match &self.data.last_response {
            Some(p) => {
                let diff: i128 = p.transmit_time as i128 - self.data.last_check as i128;
                if diff > i64::MAX as i128 {
                    i64::MAX
                } else if diff < i64::MIN as i128 {
                    i64::MIN
                } else {
                    diff as i64
                }
            },
            None => 0,
        }
    }
}

/// What `parse_transmit_time` gives: the transmit time and the offset, or
/// nothing.
pub open spec fn parse_transmit_time_spec(b: Seq<u8>, local_time: u64) -> Option<(u64, i64)> {
    if b.len() >= 48 && be_u32_at(b, 40) >= NTP_UNIX_EPOCH && i64::MIN <= spec_transmit_time(b)
        - local_time <= i64::MAX {
        Some((spec_transmit_time(b) as u64, (spec_transmit_time(b) - local_time) as i64))
    } else {
        None
    }
}

/// The validity window: before any reply the time is never valid; once a
/// reply with transmit time `t` has been taken in, the time is valid at every
/// local time before `t + time_validity`, `t` itself included, and at none
/// from then on.
pub proof fn lemma_validity_window(
    before: NtpClient,
    after: NtpClient,
    reply: Seq<u8>,
    now: u64,
)
    requires
        before.data.last_response is None,
        spec_decode(reply) is Ok,
        after.data.last_response == Some(spec_decode(reply)->Ok_0),
        after.time_validity == before.time_validity,
        before.time_validity > 0,
    ensures
        !before.spec_valid_at(now),
        after.spec_valid_at(spec_decode(reply)->Ok_0.transmit_time),
        now < spec_decode(reply)->Ok_0.transmit_time + before.time_validity
            ==> after.spec_valid_at(now),
        now >= spec_decode(reply)->Ok_0.transmit_time + before.time_validity
            ==> !after.spec_valid_at(now),
{
}

} // verus!
