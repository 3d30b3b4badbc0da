//! Settings given by the caller (the command line, dotted-quad addresses,
//! port numbers) and the mapping of log levels to syslog priorities.

use vstd::prelude::*;
use vstd::string::StringSliceAdditionalSpecFns;

verus! {

/// Command-line settings of the time client.
#[derive(Clone, Debug)]
pub struct Cli {
    /// Log at debug level.
    pub debug: bool,
    /// Host name or address of the NTP server.
    pub ntp_server: String,
    /// Also report the hand angles for the time received.
    pub show_angles: bool,
}

/// Severity of a log record.
#[derive(Clone, Copy, Debug, PartialEq, Eq, Structural)]
pub enum LogLevel {
    Error,
    Warn,
    Info,
    Debug,
    Trace,
}

/// The syslog severity of a log level.
pub open spec fn spec_syslog_severity(level: LogLevel) -> u8 {
    match level {
        LogLevel::Error => 3,
        LogLevel::Warn => 4,
        LogLevel::Info => 6,
        LogLevel::Debug => 7,
        LogLevel::Trace => 7,
    }
}

/// The syslog priority of a record at `level` from facility 1 (user-level
/// messages): `facility * 8 + severity`.
pub fn syslog_priority(level: LogLevel) -> (priority: u8)
    ensures
        priority == 8 + spec_syslog_severity(level),
{
    let facility: u8 = 1;
    let severity: u8 = match level {
        LogLevel::Error => 3,
        LogLevel::Warn => 4,
        LogLevel::Info => 6,
        LogLevel::Debug => 7,
        LogLevel::Trace => 7,
    };
    facility * 8 + severity
}

/// Whether `b` is an ASCII decimal digit.
pub open spec fn is_digit(b: u8) -> bool {
    48 <= b <= 57
}

/// The number that a string of ASCII digits spells in decimal.
pub open spec fn decimal_value(digits: Seq<u8>) -> int
    decreases digits.len(),
{
    if digits.len() == 0 {
        0
    } else {
        decimal_value(digits.drop_last()) * 10 + (digits.last() - 48)
    }
}

/// What reading `s` as an unsigned number no larger than `max` gives, as
/// `str::parse` reads unsigned integers: an optional `+`, then one or more
/// ASCII digits whose value is at most `max`.
pub open spec fn spec_parse_unsigned(s: Seq<u8>, max: int) -> Option<int> {
    let digits = unsigned_digits(s);
    if digits.len() > 0 && all_digits(digits) && decimal_value(digits) <= max {
        Some(decimal_value(digits))
    } else {
        None
    }
}

/// A string of digits spells a number that is not negative.
proof fn lemma_decimal_value_nonnegative(digits: Seq<u8>)
    requires
        all_digits(digits),
    ensures
        decimal_value(digits) >= 0,
    decreases digits.len(),
{
    if digits.len() > 0 {
        assert(all_digits(digits.drop_last()) && is_digit(digits.last())) by {
            assert(forall|i: int| 0 <= i < digits.len() - 1 ==> digits.drop_last()[i] == digits[i]);
        }
        lemma_decimal_value_nonnegative(digits.drop_last());
    }
}

/// The text after an optional leading `+`.
pub open spec fn unsigned_digits(s: Seq<u8>) -> Seq<u8> {
    if s.len() > 0 && s[0] == 43 {
        s.drop_first()
    } else {
        s
    }
}

/// Whether every byte is an ASCII decimal digit.
pub open spec fn all_digits(s: Seq<u8>) -> bool {
    forall|i: int| 0 <= i < s.len() ==> is_digit(#[trigger] s[i])
}

/// Reads `b[start..end]` as an unsigned number no larger than `max`.
fn parse_unsigned(b: &[u8], start: usize, end: usize, max: u32) -> (r: Option<u32>)
    requires
        start <= end <= b@.len(),
        max < 0xFFFF_FFFF,
    ensures
        match spec_parse_unsigned(b@.subrange(start as int, end as int), max as int) {
            Some(v) => r == Some(v as u32) && 0 <= v <= max,
            None => r is None,
        },
{
    let ghost s = b@.subrange(start as int, end as int);
    let first: usize = if start < end && b[start] == 43 {
        start + 1
    } else {
        start
    };
    let ghost digits = b@.subrange(first as int, end as int);
    assert(digits =~= unsigned_digits(s));
    if first == end {
        return None;
    }
    let mut value: u64 = 0;
    let mut i: usize = first;
    while i < end
        invariant
            first <= i <= end,
            s == b@.subrange(start as int, end as int),
            digits == unsigned_digits(s),
            end <= b@.len(),
            digits == b@.subrange(first as int, end as int),
            max < 0xFFFF_FFFF,
            forall|k: int| first <= k < i ==> is_digit(#[trigger] b@[k]),
            value as int == (if decimal_value(b@.subrange(first as int, i as int)) > max {
                max + 1
            } else {
                decimal_value(b@.subrange(first as int, i as int))
            }),
        decreases end - i,
    {
        let c = b[i];
        if c < 48 || c > 57 {
            assert(!is_digit(digits[i - first]));
            assert(!all_digits(digits));
            return None;
        }
        let ghost before = b@.subrange(first as int, i as int);
        let ghost after = b@.subrange(first as int, i + 1);
        assert(after.drop_last() =~= before);
        let digit: u64 = (c - 48) as u64;
        value = if value > max as u64 {
            max as u64 + 1
        } else if value * 10 + digit > max as u64 {
            max as u64 + 1
        } else {
            value * 10 + digit
        };
        i = i + 1;
    }
    assert(digits =~= b@.subrange(first as int, i as int));
    assert forall|k: int| 0 <= k < digits.len() implies is_digit(#[trigger] digits[k]) by {
        assert(digits[k] == b@[first + k]);
    }
    assert(all_digits(digits));
    proof {
        lemma_decimal_value_nonnegative(digits);
    }
    if value > max as u64 {
        None
    } else {
        Some(value as u32)
    }
}

/// Reads a port or other 16-bit number; empty text gives nothing.
pub fn parse_u16(input: &str) -> (r: Option<u16>)
    ensures
        match spec_parse_unsigned(input.spec_bytes(), 0xFFFF) {
            Some(v) => r == Some(v as u16),
            None => r is None,
        },
{
    let b = input.as_bytes();
    proof {
        assert(b@.subrange(0, b@.len() as int) =~= b@);
    }
    match parse_unsigned(b, 0, b.len(), 0xFFFF) {
        Some(v) => Some(v as u16),
        None => None,
    }
}

/// The pieces of `s` between `.` separators, left to right.
pub open spec fn split_dots(s: Seq<u8>) -> Seq<Seq<u8>>
    decreases s.len(),
{
    if s.len() == 0 {
        seq![Seq::<u8>::empty()]
    } else {
        let pieces = split_dots(s.drop_last());
        if s.last() == 46 {
            pieces.push(Seq::<u8>::empty())
        } else {
            pieces.update(pieces.len() - 1, pieces.last().push(s.last()))
        }
    }
}

proof fn lemma_split_dots_nonempty(s: Seq<u8>)
    ensures
        split_dots(s).len() >= 1,
    decreases s.len(),
{
    if s.len() > 0 {
        lemma_split_dots_nonempty(s.drop_last());
    }
}

/// How the pieces grow by one byte: a dot starts a new empty piece, any
/// other byte extends the last piece; earlier pieces stay as they are.
proof fn lemma_split_dots_step(s: Seq<u8>, i: int)
    requires
        0 <= i < s.len(),
    ensures
        split_dots(s.subrange(0, i)).len() >= 1,
        s[i] == 46 ==> split_dots(s.subrange(0, i + 1)) == split_dots(s.subrange(0, i)).push(
            Seq::<u8>::empty(),
        ),
        s[i] != 46 ==> split_dots(s.subrange(0, i + 1)) == split_dots(s.subrange(0, i)).update(
            split_dots(s.subrange(0, i)).len() - 1,
            split_dots(s.subrange(0, i)).last().push(s[i]),
        ),
{
    lemma_split_dots_nonempty(s.subrange(0, i));
    assert(s.subrange(0, i + 1).drop_last() =~= s.subrange(0, i));
}

/// What reading `s` as an IPv4 address gives: exactly four pieces between
/// dots, each a decimal octet as `spec_parse_unsigned` reads it.
pub open spec fn spec_parse_ipv4(s: Seq<u8>) -> Option<Seq<u8>> {
    let pieces = split_dots(s);
    if pieces.len() == 4 && forall|k: int|
        0 <= k < 4 ==> #[trigger] spec_parse_unsigned(pieces[k], 255) is Some {
        Some(Seq::new(4, |k: int| spec_parse_unsigned(pieces[k], 255)->Some_0 as u8))
    } else {
        None
    }
}

/// Reads a dotted-quad IPv4 address such as `10.0.0.1`.
pub fn parse_ipv4(input: &str) -> (r: Option<[u8; 4]>)
    ensures
        match spec_parse_ipv4(input.spec_bytes()) {
            Some(octets) => r matches Some(a) && a@ == octets,
            None => r is None,
        },
{
    let b = input.as_bytes();
    let mut octets: [u8; 4] = [0, 0, 0, 0];
    let mut count: usize = 0;
    let mut ok: bool = true;
    let mut start: usize = 0;
    let mut i: usize = 0;
    proof {
        assert(b@.subrange(0, 0) =~= Seq::<u8>::empty());
    }
    while i < b.len()
        invariant
            i <= b@.len(),
            start <= i,
            count <= i,
            split_dots(b@.subrange(0, i as int)).len() == count + 1,
            split_dots(b@.subrange(0, i as int)).last() == b@.subrange(start as int, i as int),
            ok <==> forall|k: int|
                0 <= k < count ==> #[trigger] spec_parse_unsigned(
                    split_dots(b@.subrange(0, i as int))[k],
                    255,
                ) is Some,
            ok ==> forall|k: int|
                0 <= k < count && k < 4 ==> octets[k] as int == #[trigger] spec_parse_unsigned(
                    split_dots(b@.subrange(0, i as int))[k],
                    255,
                )->Some_0,
        decreases b@.len() - i,
    {
        let ghost before = b@.subrange(0, i as int);
        let ghost after = b@.subrange(0, i + 1);
        let ghost c0 = count;
        let ghost ok0 = ok;
        let ghost old_pieces = split_dots(before);
        proof {
            lemma_split_dots_step(b@, i as int);
        }
        if b[i] == 46 {
            let piece = parse_unsigned(b, start, i, 255);
            match piece {
                Some(v) => {
                    if count < 4 {
                        octets[count] = v as u8;
                    }
                },
                None => {
                    ok = false;
                },
            }
            count = count + 1;
            start = i + 1;
            proof {
                let new_pieces = split_dots(after);
                assert(b@.subrange(start as int, i + 1) =~= Seq::<u8>::empty());
                assert forall|k: int| 0 <= k < count implies #[trigger] new_pieces[k] == (if k
                    < c0 {
                    old_pieces[k]
                } else {
                    old_pieces.last()
                }) by {}
                assert(ok <==> forall|k: int|
                    0 <= k < count ==> #[trigger] spec_parse_unsigned(new_pieces[k], 255) is Some)
                    by {
                    if ok {
                        assert forall|k: int| 0 <= k < count implies #[trigger] spec_parse_unsigned(
                            new_pieces[k],
                            255,
                        ) is Some by {
                            if k < c0 {
                                assert(new_pieces[k] == old_pieces[k]);
                            }
                        }
                    } else if !ok0 {
                        let w = choose|k: int|
                            0 <= k < c0 && !(#[trigger] spec_parse_unsigned(old_pieces[k], 255) is Some);
                        assert(new_pieces[w] == old_pieces[w]);
                    } else {
                        assert(new_pieces[c0 as int] == old_pieces.last());
                    }
                }
            }
        } else {
            proof {
                let new_pieces = split_dots(after);
                assert(b@.subrange(start as int, i + 1) =~= b@.subrange(start as int, i as int).push(
                    b@[i as int],
                ));
                assert forall|k: int| 0 <= k < count implies #[trigger] new_pieces[k]
                    == old_pieces[k] by {}
                assert(ok <==> forall|k: int|
                    0 <= k < count ==> #[trigger] spec_parse_unsigned(new_pieces[k], 255) is Some)
                    by {
                    if ok {
                        assert forall|k: int| 0 <= k < count implies #[trigger] spec_parse_unsigned(
                            new_pieces[k],
                            255,
                        ) is Some by {
                            assert(new_pieces[k] == old_pieces[k]);
                        }
                    } else {
                        let w = choose|k: int|
                            0 <= k < c0 && !(#[trigger] spec_parse_unsigned(old_pieces[k], 255) is Some);
                        assert(new_pieces[w] == old_pieces[w]);
                    }
                }
            }
        }
        i = i + 1;
    }
    proof {
        assert(b@.subrange(0, i as int) =~= b@);
    }
    let last = parse_unsigned(b, start, b.len(), 255);
    if count != 3 || !ok {
        return None;
    }
    match last {
        Some(v) => {
            octets[3] = v as u8;
            proof {
                let pieces = split_dots(b@);
                assert(octets@ =~= Seq::new(
                    4,
                    |k: int| spec_parse_unsigned(pieces[k], 255)->Some_0 as u8,
                ));
            }
            Some(octets)
        },
        None => None,
    }
}

} // verus!
