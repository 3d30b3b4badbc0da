use ntp_clock::client::DEFAULT_TIME_VALIDITY_NANOS;
use ntp_clock::{
    parse_ipv4, parse_transmit_time, parse_u16, syslog_priority, unix_nanos_now, Cli, ClockError,
    IpOctets, LogLevel,
    NtpClient, NtpPacket, NtpParseError, ServerAddress, NTP_PORT, NTP_UNIX_EPOCH,
};

fn localhost() -> Vec<ServerAddress> {
    vec![ServerAddress { ip: IpOctets::V4([127, 0, 0, 1]), port: NTP_PORT }]
}

fn client() -> NtpClient {
    match NtpClient::new("127.0.0.1", &localhost()) {
        Ok(c) => c,
        Err(e) => panic!("client should parse server: {:?}", e),
    }
}

fn build_ntp_response(time: time::OffsetDateTime) -> [u8; 48] {
    let mut packet = [0u8; 48];
    let ntp_seconds = (time.unix_timestamp() + NTP_UNIX_EPOCH) as u32;
    let nanos = time.nanosecond() as u128;
    let fraction = ((nanos << 32) / 1_000_000_000u128) as u32;
    packet[40..44].copy_from_slice(&ntp_seconds.to_be_bytes());
    packet[44..48].copy_from_slice(&fraction.to_be_bytes());
    packet
}

fn new_year_2025() -> time::OffsetDateTime {
    time::Date::from_calendar_date(2025, time::Month::January, 1)
        .and_then(|d| d.with_hms(0, 0, 0))
        .map(|t| t.assume_utc())
        .expect("a valid date and time")
}

#[test]
fn tests_parse_packet_valid() {
    let local_time = new_year_2025();
    let local_nanos = local_time.unix_timestamp_nanos() as u64;
    let packet = build_ntp_response(local_time);
    let parsed = NtpClient::parse_packet(&packet, local_nanos);
    assert!(parsed.is_ok());
    let (ntp_time, offset) = parsed.ok().unwrap_or((0, i64::MAX));
    assert_eq!(ntp_time, local_nanos);
    assert_eq!(offset, 0);
}

#[test]
fn tests_parse_packet_invalid() {
    let local_time = new_year_2025();
    let packet = [0u8; 12];
    let parsed = NtpClient::parse_packet(&packet, local_time.unix_timestamp_nanos() as u64);
    assert!(matches!(parsed, Err(ClockError::InvalidResponse)));
}

#[test]
fn transmit_time_before_1970_is_rejected() {
    let packet = [0u8; 48];
    assert_eq!(parse_transmit_time(&packet, 0), Err(NtpParseError::InvalidResponse));
    let packet = build_ntp_response(new_year_2025());
    assert_eq!(parse_transmit_time(&packet, u64::MAX), Err(NtpParseError::InvalidResponse));
}

#[test]
fn live_ntp_time_is_reasonable() {
    let mut client = client();
    let local_time = unix_nanos_now();
    let response = NtpPacket::from_nanos(local_time).pack();
    let ntp_time = match client.update_from_response(&response, local_time) {
        Ok(t) => t,
        Err(e) => panic!("mocked NTP update should succeed: {:?}", e),
    };
    let delta = (ntp_time as i128 - local_time as i128).abs() / 1_000_000_000;
    assert!(delta <= 600, "mocked ntp time drift too large: {delta} seconds");

    let offset = match client.data.last_response {
        Some(p) => p.offset_from_local(local_time),
        None => panic!("response should be available"),
    };
    let offset_seconds = (offset as i128).abs() / 1_000_000_000;
    assert!(offset_seconds <= 600, "mocked ntp offset too large: {offset_seconds} seconds");
}

#[test]
fn live_ntp_live_ntp_time_is_reasonable() {
    let mut client = client();
    let local_time = unix_nanos_now();
    let response = build_ntp_response(
        time::OffsetDateTime::from_unix_timestamp_nanos(local_time as i128).expect("a valid time"),
    );
    let mut full = NtpPacket::request().as_bytes();
    full[40..48].copy_from_slice(&response[40..48]);
    let ntp_time = match client.update_from_response(&full, local_time) {
        Ok(t) => t,
        Err(e) => panic!("mocked NTP update should succeed: {:?}", e),
    };
    let delta = (ntp_time as i128 - local_time as i128).abs() / 1_000_000_000;
    assert!(delta <= 600, "mocked ntp time drift too large: {delta} seconds");
    let offset_seconds = (client.get_offset() as i128).abs() / 1_000_000_000;
    assert!(offset_seconds <= 600, "mocked ntp offset too large: {offset_seconds} seconds");
}

#[test]
fn validity_window_opens_on_update_and_closes_after() {
    let mut client = client();
    let t = 1_735_689_600_000_000_000u64;
    assert!(!client.time_is_valid_at(t));
    assert!(!client.time_is_valid());
    assert_eq!(client.cached_time(t), None);
    let reply = NtpPacket::from_nanos(t).pack();
    assert_eq!(client.update_from_response(&reply, t).ok(), Some(t));
    assert!(client.time_is_valid_at(t));
    assert!(client.time_is_valid_at(t - 5));
    assert!(client.time_is_valid_at(t + DEFAULT_TIME_VALIDITY_NANOS - 1));
    assert!(!client.time_is_valid_at(t + DEFAULT_TIME_VALIDITY_NANOS));
    assert_eq!(client.cached_time(t + 1), Some(t));
    assert_eq!(client.cached_time(t + DEFAULT_TIME_VALIDITY_NANOS), None);
}

#[test]
fn failed_reply_leaves_the_cache_alone() {
    let mut client = client();
    let t = 1_735_689_600_000_000_000u64;
    assert!(client.update_from_response(&NtpPacket::from_nanos(t).pack(), t).is_ok());
    assert!(matches!(client.update_from_response(&[0u8; 47], t + 1), Err(ClockError::PacketTooShort)));
    assert!(matches!(client.update_from_response(&[0u8; 48], t + 1), Err(ClockError::InvalidVersion)));
    assert_eq!(client.data.last_check, t);
    assert_eq!(client.data.last_response.map(|p| p.transmit_time), Some(t));
}

#[test]
fn offsets_of_the_last_reply() {
    let mut client = client();
    assert_eq!(client.data.offset(), None);
    assert_eq!(client.get_offset(), 0);
    let mut reply = NtpPacket::from_nanos(1_000_000_000_000);
    reply.origin_time = 1_000_000_000_000 - 3_906_250;
    assert!(client.update_from_response(&reply.pack(), 1_000_000_002_000).is_ok());
    // (3_906_250 + (1e12 - (1e12 + 2000))) / 2
    assert_eq!(client.data.offset(), Some(1_952_125));
    assert_eq!(client.get_offset(), -2_000);
}

#[test]
fn update_request_carries_the_local_time() {
    let bytes = NtpClient::update_request(1_735_689_600_000_000_000);
    assert_eq!(bytes.len(), 48);
    assert_eq!(bytes[0], 0x1b);
    let p = ntp_clock::parse_ntp_packet(&bytes, 0).ok().map(|p| p.transmit_time);
    assert_eq!(p, Some(1_735_689_600_000_000_000));
}

#[test]
fn unresolved_server_is_a_config_error() {
    match NtpClient::new("nowhere.invalid", &vec![]) {
        Err(ClockError::ConfigError(msg)) => {
            assert_eq!(msg, "Could not resolve NTP server address: nowhere.invalid")
        }
        _ => panic!("expected a configuration error"),
    }
    let c = client();
    assert_eq!(c.server, localhost()[0]);
    assert_eq!(c.time_validity, 60_000_000_000);
}

#[test]
fn errors_have_distinct_exit_codes_and_messages() {
    let all = [
        ClockError::NetworkError,
        ClockError::InvalidResponse,
        ClockError::ConfigError(String::from("bad")),
        ClockError::NoTimeAvailable,
        ClockError::Timeout,
        ClockError::Io,
        ClockError::PacketTooShort,
        ClockError::InvalidIdentifier,
        ClockError::InvalidVersion,
    ];
    let codes: Vec<u8> = all.iter().map(|e| e.exit_code()).collect();
    assert_eq!(codes, vec![1, 2, 3, 4, 5, 6, 7, 8, 9]);
    assert_eq!(all[2].message(), "Configuration error: bad");
    assert_eq!(all[6].message(), "NTP packet too short");
}

#[test]
fn syslog_priorities() {
    assert_eq!(syslog_priority(LogLevel::Error), 11);
    assert_eq!(syslog_priority(LogLevel::Warn), 12);
    assert_eq!(syslog_priority(LogLevel::Info), 14);
    assert_eq!(syslog_priority(LogLevel::Debug), 15);
    assert_eq!(syslog_priority(LogLevel::Trace), 15);
}

#[test]
fn cli_settings_hold_their_values() {
    let cli = Cli { debug: true, ntp_server: String::from("pool.ntp.org"), show_angles: false };
    assert!(cli.debug && !cli.show_angles);
    assert_eq!(cli.ntp_server, "pool.ntp.org");
}

#[test]
fn ipv4_addresses_are_read() {
    assert_eq!(parse_ipv4("10.0.0.1"), Some([10, 0, 0, 1]));
    assert_eq!(parse_ipv4("192.168.001.255"), Some([192, 168, 1, 255]));
    assert_eq!(parse_ipv4("+1.2.3.4"), Some([1, 2, 3, 4]));
    assert_eq!(parse_ipv4("256.0.0.1"), None);
    assert_eq!(parse_ipv4("1.2.3"), None);
    assert_eq!(parse_ipv4("1.2.3.4.5"), None);
    assert_eq!(parse_ipv4("1..3.4"), None);
    assert_eq!(parse_ipv4("1.2.3.4."), None);
    assert_eq!(parse_ipv4(""), None);
    assert_eq!(parse_ipv4("a.b.c.d"), None);
}

#[test]
fn u16_values_are_read() {
    assert_eq!(parse_u16("514"), Some(514));
    assert_eq!(parse_u16("65535"), Some(65535));
    assert_eq!(parse_u16("+80"), Some(80));
    assert_eq!(parse_u16(""), None);
    assert_eq!(parse_u16("65536"), None);
    assert_eq!(parse_u16("99999999999999999999"), None);
    assert_eq!(parse_u16("8a"), None);
    assert_eq!(parse_u16("-1"), None);
    assert_eq!(parse_u16("+"), None);
}

#[test]
fn synchronisation_every_fifth_tick() {
    let due: Vec<u32> = (0..12).filter(|t| ntp_clock::sync_due(*t)).collect();
    assert_eq!(due, vec![0, 5, 10]);
    assert!(!ntp_clock::sync_due(u32::MAX - 1));
}
