//! The error taxonomy shared by the codec, the client and the command line.

use vstd::prelude::*;
use vstd::string::StringExecFns;

verus! {

/// Every way in which getting the time can fail.
#[derive(Clone, Debug)]
pub enum ClockError {
    /// A socket could not be bound, or a datagram could not be sent or received.
    NetworkError,
    /// The transport layer below the socket reported an error.
    Io,
    /// The reply could not be understood.
    InvalidResponse,
    /// The server address could not be resolved; holds the reason.
    ConfigError(String),
    /// The time was asked for before any successful synchronisation.
    NoTimeAvailable,
    /// No reply came within the deadline.
    Timeout,
    /// Fewer than 48 bytes were received.
    PacketTooShort,
    /// A stratum-0 reference identifier is not valid text.
    InvalidIdentifier,
    /// The version field is outside 1..=4.
    InvalidVersion,
}

/// The error of the transmit-timestamp reader, which only tells that the
/// reply could not be used.
#[derive(Clone, Copy, Debug, PartialEq, Eq, Structural)]
pub enum NtpParseError {
    InvalidResponse,
}

impl ClockError {
    /// The process exit status for this error; each kind has its own.
    pub open spec fn spec_exit_code(&self) -> u8 {
        match self {
            ClockError::NetworkError => 1,
            ClockError::InvalidResponse => 2,
            ClockError::ConfigError(_) => 3,
            ClockError::NoTimeAvailable => 4,
            ClockError::Timeout => 5,
            ClockError::Io => 6,
            ClockError::PacketTooShort => 7,
            ClockError::InvalidIdentifier => 8,
            ClockError::InvalidVersion => 9,
        }
    }

    /// A sentence describing the error.
    pub open spec fn spec_message(&self) -> Seq<char> {
        match self {
            ClockError::NetworkError => "Network error occurred"@,
            ClockError::InvalidResponse => "Received invalid response from NTP server"@,
            ClockError::ConfigError(msg) => "Configuration error: "@ + msg@,
            ClockError::NoTimeAvailable => "No valid time available"@,
            ClockError::Timeout => "Operation timed out"@,
            ClockError::Io => "I/O error"@,
            ClockError::PacketTooShort => "NTP packet too short"@,
            ClockError::InvalidIdentifier => "Invalid NTP identifier"@,
            ClockError::InvalidVersion => "Invalid NTP version"@,
        }
    }

    /// A sentence describing the error, for people.
    pub fn message(&self) -> (text: String)
        ensures
            text@ == self.spec_message(),
    {
        proof {
            reveal_strlit("Network error occurred");
            reveal_strlit("Received invalid response from NTP server");
            reveal_strlit("Configuration error: ");
            reveal_strlit("No valid time available");
            reveal_strlit("Operation timed out");
            reveal_strlit("I/O error");
            reveal_strlit("NTP packet too short");
            reveal_strlit("Invalid NTP identifier");
            reveal_strlit("Invalid NTP version");
        }
        match self {
            ClockError::NetworkError => "Network error occurred".to_owned(),
            ClockError::InvalidResponse => "Received invalid response from NTP server".to_owned(),
            ClockError::ConfigError(msg) => {
                let mut text = "Configuration error: ".to_owned();
                text.append(msg.as_str());
                text
            },
            ClockError::NoTimeAvailable => "No valid time available".to_owned(),
            ClockError::Timeout => "Operation timed out".to_owned(),
            ClockError::Io => "I/O error".to_owned(),
            ClockError::PacketTooShort => "NTP packet too short".to_owned(),
            ClockError::InvalidIdentifier => "Invalid NTP identifier".to_owned(),
            ClockError::InvalidVersion => "Invalid NTP version".to_owned(),
        }
    }

    /// The process exit status for this error.
    pub fn exit_code(&self) -> (code: u8)
        ensures
            code == self.spec_exit_code(),
    {
        match self {
            ClockError::NetworkError => 1,
            ClockError::InvalidResponse => 2,
            ClockError::ConfigError(_) => 3,
            ClockError::NoTimeAvailable => 4,
            ClockError::Timeout => 5,
            ClockError::Io => 6,
            ClockError::PacketTooShort => 7,
            ClockError::InvalidIdentifier => 8,
            ClockError::InvalidVersion => 9,
        }
    }
}

/// Distinct kinds of error give distinct exit statuses, none of them 0.
pub proof fn lemma_exit_codes_distinct(a: ClockError, b: ClockError)
    ensures
        a.spec_exit_code() != 0,
        a.spec_exit_code() == b.spec_exit_code() ==> (a is ConfigError && b is ConfigError) || a == b,
{
}

} // verus!
