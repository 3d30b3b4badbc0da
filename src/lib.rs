//! Client side of the Network Time Protocol driving an analog clock: the NTP
//! wire codec, the NTP/Unix timestamp conversion, the synchronisation client,
//! the projection of a time onto hand angles and the servo mapping with its
//! zero-point calibration.

pub mod client;
pub mod clock;
pub mod config;
pub mod error;
pub mod mechanism;
pub mod packets;
pub mod refclock;
pub mod servo;
pub mod timestamp;

pub use client::{
    parse_transmit_time, sync_due, unix_nanos_now, IpOctets, NtpClient, NtpData, ServerAddress,
    NTP_PORT,
};
pub use clock::{hand_angles, CivilTime, HandAngles};
pub use config::{parse_ipv4, parse_u16, syslog_priority, Cli, LogLevel};
pub use error::{ClockError, NtpParseError};
pub use mechanism::{ClockMechanism, HandAnglesDeg, LimitSwitches, ServoController, ZeroOffsets};
pub use packets::{parse_ntp_packet, NtpIdentifier, NtpMode, NtpPacket, RootDelay};
pub use refclock::NtpClockSource;
pub use servo::{angles_to_hand_degrees, DutyOutput, PwmServoController, ServoPwmConfig};
pub use timestamp::{ntp_to_unix_nanos, unix_nanos_to_ntp, NTP_UNIX_EPOCH};
