use ntp_clock::packets::{NTP_MIN_PACKET_LEN, NTP_PACKET_LEN};
use ntp_clock::timestamp::NTP_ERA_END_UNIX_NANOS;
use ntp_clock::{
    ntp_to_unix_nanos, parse_ntp_packet, unix_nanos_to_ntp, ClockError, NtpIdentifier, NtpMode,
    NtpPacket, RootDelay,
};

const UNIX_NANOS_SAMPLE: u64 = 1_735_689_600_000_000_000;

fn unix_nanos_to_ntp_timestamp(unix_nanos: u64) -> u64 {
    const NTP_UNIX_EPOCH: i128 = 2_208_988_800;
    let unix_seconds = (unix_nanos / 1_000_000_000) as i128;
    let nanos = (unix_nanos % 1_000_000_000) as i128;
    let ntp_seconds = unix_seconds + NTP_UNIX_EPOCH;
    let fraction = (nanos << 32) / 1_000_000_000i128;
    ((ntp_seconds as u64) << 32) | (fraction as u64)
}

#[test]
fn test_packet_size() {
    let req = NtpPacket::request();
    let packed_req = req.pack();
    assert_eq!(
        packed_req.len(),
        60,
        "Packed NtpPacket request size mismatch, should be 60 bytes"
    );

    let response = NtpPacket::from_nanos(0);
    let packed_resp = response.as_bytes();
    assert_eq!(
        packed_resp.len(),
        NTP_MIN_PACKET_LEN,
        "Packed NtpPacket size mismatch, should be {NTP_MIN_PACKET_LEN} bytes"
    );
}

#[test]
fn test_root_delay() {
    let test_bytes = [0x00, 0x00, 0x04, 0x78];
    let root_delay = RootDelay::unpack(&test_bytes);
    let delay_ms = root_delay.int_part as f32 + (root_delay.frac_part as f32) / 65536.0;
    assert_eq!(
        delay_ms, 0.017456055,
        "RootDelay to_milliseconds calculation incorrect"
    );
}

#[test]
fn root_delay_negative_whole_part() {
    let root_delay = RootDelay::unpack(&[0xff, 0xff, 0x80, 0x00]);
    assert_eq!(root_delay, RootDelay { int_part: -1, frac_part: 0x8000 });
}

#[test]
fn test_real_v3_packet() {
    let bytes = [
        0x1c, 0x3, 0x0, 0xe7, 0x0, 0x0, 0x4, 0x78, 0x0, 0x0, 0x0, 0x1a, 0xa, 0x55, 0x8, 0x30,
        0xed, 0x20, 0xb, 0x24, 0x71, 0x87, 0xcc, 0xec, 0x0, 0x0, 0x0, 0x0, 0x0, 0x0, 0x0, 0x0,
        0xed, 0x20, 0xc, 0x0, 0x3d, 0x0, 0x8c, 0xe5, 0xed, 0x20, 0xc, 0x0, 0x3d, 0x5, 0xbc,
        0xf0,
    ];

    let response = match parse_ntp_packet(&bytes, 0) {
        Ok(p) => p,
        Err(e) => panic!("Should parse NTP response: {:?}", e),
    };
    assert_eq!(response.leap_indicator, 0, "Leap indicator should be 0");
    assert_eq!(response.version, 3, "NTP version should be 3");
    assert_eq!(response.mode(), NtpMode::Server, "NTP mode should be Server");
    assert_eq!(response.stratum, 3, "Stratum should be 3");
    assert_eq!(response.poll, 0, "Poll should be 0");
    assert_eq!(response.precision, -25, "Precision should be -25");
    assert_eq!(
        response.root_delay_ms,
        [0x00, 0x00, 0x04, 0x78],
        "Root delay bytes should match packet"
    );
    assert_eq!(
        response.dispersion,
        [0x00, 0x00, 0x00, 0x1a],
        "Dispersion bytes should match packet"
    );
    assert_eq!(response.identifier, 0x0a55_0830, "Identifier should match packet");
    // Jan 25, 2026 03:23:16.443478400 UTC
    assert_eq!(
        response.ref_time, 1_769_311_396_443_478_400,
        "Local time should be Jan 25, 2026 03:23:16.443478400 UTC"
    );
    assert_eq!(response.origin_time, 0, "Origin time should be 0");
    assert_eq!(
        response.recv_time, 1_769_311_616_238_289_647,
        "Receive time should match packet"
    );
    assert_eq!(
        response.transmit_time, 1_769_311_616_238_368_805,
        "Transmit time should match packet"
    );
    // The origin is unset, so the local time stands in for it and the offset
    // is half the receive-to-transmit gap: (recv - transmit) / 2.
    assert_eq!(
        response.offset_from_local(response.transmit_time),
        -39_579,
        "Offset should be half the server's turnaround"
    );
}

#[test]
fn test_real_v3_response_packet() {
    let bytes = [
        0x1c, 0x4, 0x0, 0xe7, 0x0, 0x0, 0x17, 0x74, 0x0, 0x0, 0x3, 0x5b, 0x34, 0x94, 0x72,
        0xbc, 0xed, 0x20, 0x12, 0xa0, 0x5f, 0xc7, 0x84, 0xc6, 0x0, 0x0, 0x0, 0x0, 0x0, 0x0,
        0x0, 0x0, 0xed, 0x20, 0x15, 0xad, 0x77, 0x68, 0xf0, 0x31, 0xed, 0x20, 0x15, 0xad, 0x77,
        0x6b, 0x39, 0xf0,
    ];

    let response = match parse_ntp_packet(&bytes, 0) {
        Ok(p) => p,
        Err(e) => panic!("Should parse NTP response: {:?}", e),
    };
    assert_eq!(response.leap_indicator, 0, "Leap indicator should be 0");
    assert_eq!(response.version, 3, "NTP version should be 3");
    assert_eq!(response.mode(), NtpMode::Server, "NTP mode should be Server");
    assert_eq!(response.stratum, 4, "Stratum should be 4");
    assert_eq!(response.poll, 0, "Poll should be 0");
    assert_eq!(response.precision, -25, "Precision should be -25");
    assert_eq!(
        response.root_delay_ms,
        [0x00, 0x00, 0x17, 0x74],
        "Root delay bytes should match packet"
    );
    assert_eq!(
        response.dispersion,
        [0x00, 0x00, 0x03, 0x5b],
        "Dispersion bytes should match packet"
    );
    assert_eq!(response.identifier, 0x34_94_72_bc, "Identifier should match packet");
    // Jan 25, 2026 03:55:12.374138162 UTC
    assert_eq!(
        response.ref_time, 1_769_313_312_374_138_162,
        "Local time should be Jan 25, 2026 03:55:12.374138162 UTC"
    );
    assert_eq!(response.origin_time, 0, "Origin time should be 0");
    assert_eq!(
        response.recv_time, 1_769_314_093_466_444_980,
        "Receive time should match packet"
    );
    assert_eq!(
        response.transmit_time, 1_769_314_093_466_479_893,
        "Transmit time should match packet"
    );
}

#[test]
fn parse_packet_valid() {
    let local_time = UNIX_NANOS_SAMPLE;
    let ntp_timestamp = unix_nanos_to_ntp_timestamp(local_time);
    // The four timestamps travel in NTP form on the wire.
    let mut packet = NtpPacket::request().pack();
    for offset in [16usize, 24, 32, 40] {
        packet[offset..offset + 8].copy_from_slice(&ntp_timestamp.to_be_bytes());
    }
    let response = match parse_ntp_packet(&packet, local_time) {
        Ok(p) => p,
        Err(e) => panic!("Failed to parse valid NTP packet: {:?}", e),
    };
    assert_eq!(response.offset_from_local(local_time), 0);
}

#[test]
fn parse_packet_invalid() {
    let local_time = UNIX_NANOS_SAMPLE;
    let packet = [0u8; 12];
    let parsed = parse_ntp_packet(&packet, local_time);
    assert!(matches!(parsed, Err(ClockError::PacketTooShort)));
    let packet = [0u8; 48];
    let parsed = parse_ntp_packet(&packet, local_time);
    assert!(matches!(parsed, Err(ClockError::InvalidVersion)));
}

#[test]
fn parse_rejects_versions_above_four() {
    let mut packet = NtpPacket::request().as_bytes();
    packet[0] = (5 << 3) | 3;
    assert!(matches!(parse_ntp_packet(&packet, 0), Err(ClockError::InvalidVersion)));
    packet[0] = (4 << 3) | 3;
    assert!(parse_ntp_packet(&packet, 0).is_ok());
}

#[test]
fn request_is_client_mode_version_three() {
    let bytes = NtpPacket::request().as_bytes();
    assert_eq!(bytes[0], 0x1b);
    assert!(bytes[1..].iter().all(|b| *b == 0));
}

#[test]
fn with_transmit_time_leaves_the_packet_unchanged() {
    let mut req = NtpPacket::request();
    let stamped = req.with_transmit_time(UNIX_NANOS_SAMPLE);
    assert_eq!(req.transmit_time, 0);
    assert_eq!(stamped.transmit_time, UNIX_NANOS_SAMPLE);
    assert_eq!(stamped.mode(), NtpMode::Client);
}

#[test]
fn pack_then_parse_round_trips_exact_timestamps() {
    let mut p = NtpPacket::from_nanos(UNIX_NANOS_SAMPLE + 1_953_125 * 7);
    p.origin_time = UNIX_NANOS_SAMPLE - 1_953_125;
    p.leap_indicator = 2;
    p.authenticator = [1, 2, 3, 4, 5, 6, 7, 8, 9, 10, 11, 12];
    let bytes = p.pack();
    assert_eq!(bytes.len(), NTP_PACKET_LEN);
    let q = parse_ntp_packet(&bytes, 0).ok();
    assert_eq!(q, Some(p));
}

#[test]
fn pack_then_parse_loses_at_most_a_nanosecond() {
    let p = NtpPacket::from_nanos(UNIX_NANOS_SAMPLE + 1);
    let q = parse_ntp_packet(&p.pack(), 0).ok().map(|q| q.transmit_time);
    assert_eq!(q, Some(UNIX_NANOS_SAMPLE));
}

#[test]
fn header_only_bytes_drop_the_authenticator() {
    let mut p = NtpPacket::from_nanos(UNIX_NANOS_SAMPLE);
    p.authenticator = [9; 12];
    let q = parse_ntp_packet(&p.as_bytes(), 0).ok().map(|q| q.authenticator);
    assert_eq!(q, Some([0; 12]));
}

#[test]
fn timestamp_conversion_exact_values() {
    assert_eq!(unix_nanos_to_ntp(0), 2_208_988_800u64 << 32);
    assert_eq!(unix_nanos_to_ntp(500_000_000), (2_208_988_800u64 << 32) | 0x8000_0000);
    assert_eq!(ntp_to_unix_nanos(0), 0);
    assert_eq!(ntp_to_unix_nanos(1u64 << 32), 0);
    assert_eq!(ntp_to_unix_nanos((2_208_988_801u64 << 32) | 0x8000_0000), 1_500_000_000);
}

#[test]
fn timestamp_round_trip_within_a_nanosecond() {
    for u in [1u64, 7, 999_999_999, UNIX_NANOS_SAMPLE, UNIX_NANOS_SAMPLE + 123_456_789] {
        let back = ntp_to_unix_nanos(unix_nanos_to_ntp(u));
        assert!(back == u || back + 1 == u, "{u} came back as {back}");
    }
    assert_eq!(ntp_to_unix_nanos(unix_nanos_to_ntp(1)), 0);
    assert_eq!(ntp_to_unix_nanos(unix_nanos_to_ntp(UNIX_NANOS_SAMPLE)), UNIX_NANOS_SAMPLE);
    let last = NTP_ERA_END_UNIX_NANOS - 1_000_000_000;
    assert_eq!(ntp_to_unix_nanos(unix_nanos_to_ntp(last)), last);
}

#[test]
fn remote_id_reads_address_above_stratum_zero() {
    let p = NtpPacket::from_nanos(UNIX_NANOS_SAMPLE);
    match p.remote_id() {
        Ok(NtpIdentifier::IpAddr(octets)) => assert_eq!(octets, [0x50, 0x50, 0x53, 0x00]),
        other => panic!("expected an address, got {:?}", other),
    }
}

#[test]
fn remote_id_reads_text_at_stratum_zero() {
    let mut p = NtpPacket::from_nanos(UNIX_NANOS_SAMPLE);
    p.stratum = 0;
    p.identifier = u32::from_be_bytes(*b"GOES");
    match p.remote_id() {
        Ok(NtpIdentifier::Source(s)) => {
            assert_eq!(s, "GOES");
            assert_eq!(NtpIdentifier::Source(s).as_u32(), p.identifier);
        }
        other => panic!("expected text, got {:?}", other),
    }
}

#[test]
fn remote_id_rejects_invalid_text() {
    let mut p = NtpPacket::from_nanos(UNIX_NANOS_SAMPLE);
    p.stratum = 0;
    p.identifier = 0xff_fe_00_41;
    assert!(matches!(p.remote_id(), Err(ClockError::InvalidIdentifier)));
}

#[test]
fn identifier_as_u32() {
    assert_eq!(NtpIdentifier::IpAddr([10, 85, 8, 48]).as_u32(), 0x0a55_0830);
    assert_eq!(NtpIdentifier::Source(String::from("PPS")).as_u32(), 0x5050_5300);
}

#[test]
fn offset_zero_when_all_times_agree() {
    let mut p = NtpPacket::from_nanos(UNIX_NANOS_SAMPLE);
    p.origin_time = UNIX_NANOS_SAMPLE;
    assert_eq!(p.offset_from_local(UNIX_NANOS_SAMPLE), 0);
}

#[test]
fn offset_formula_exact_values() {
    let mut p = NtpPacket::from_nanos(0);
    p.origin_time = 1_000;
    p.recv_time = 1_500;
    p.transmit_time = 1_600;
    // ((1500 - 1000) + (1600 - 2001)) / 2 = 99 / 2, rounded toward zero.
    assert_eq!(p.offset_from_local(2_001), 49);
    // ((1500 - 1000) + (1600 - 3101)) / 2 = -1001 / 2, rounded toward zero.
    assert_eq!(p.offset_from_local(3_101), -500);
    p.origin_time = 0;
    p.recv_time = u64::MAX;
    p.transmit_time = u64::MAX;
    assert_eq!(p.offset_from_local(0), i64::MAX);
}

#[test]
fn leap_and_stratum_texts() {
    let mut p = NtpPacket::request();
    assert_eq!(p.leap_identifier_string(), "no warning");
    p.leap_indicator = 3;
    assert_eq!(p.leap_identifier_string(), "alarm condition (clock not synchronized)");
    assert_eq!(p.stratum_string(), "unspecified or invalid");
    p.stratum = 1;
    assert_eq!(p.stratum_string(), "primary reference (e.g., radio clock)");
    p.stratum = 15;
    assert_eq!(p.stratum_string(), "secondary reference (via NTP or SNTP)");
    p.stratum = 16;
    assert_eq!(p.stratum_string(), "reserved");
}

#[test]
fn modes_round_trip_through_bits() {
    for bits in 0u8..8 {
        assert_eq!(NtpMode::from_bits(bits).bits(), bits);
    }
    assert_eq!(NtpMode::from_bits(4), NtpMode::Server);
}
