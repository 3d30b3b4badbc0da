//! Reference clock codes that a stratum-0 server puts in its reference
//! identifier.

use vstd::prelude::*;
use vstd::utf8::encode_utf8_decode_utf8;

verus! {

/// A kind of reference clock, named by its refclock code.
#[allow(non_camel_case_types)]
#[derive(Clone, Debug)]
pub enum NtpClockSource {
    GOES,
    GPS,
    GAL,
    PPS,
    IRIG,
    WWVB,
    DCF,
    HBG,
    MSF,
    JJY,
    LORC,
    TDF,
    CHU,
    WWV,
    WWVH,
    NIST,
    ACTS,
    USNO,
    PTB,
    ATOM,
    DCFa,
    DCFp,
    GPSs,
    GPSi,
    GLNs,
    GLNi,
    LCL,
    LOCL,
    /// A code outside the list, kept as given.
    Unknown(String),
}

/// The known source that a code names, if any.
pub open spec fn spec_known_source(code: Seq<char>) -> Option<NtpClockSource> {
    if code == "GOES"@ {
        Some(NtpClockSource::GOES)
    } else if code == "GPS"@ {
        Some(NtpClockSource::GPS)
    } else if code == "GAL"@ {
        Some(NtpClockSource::GAL)
    } else if code == "PPS"@ {
        Some(NtpClockSource::PPS)
    } else if code == "IRIG"@ {
        Some(NtpClockSource::IRIG)
    } else if code == "WWVB"@ {
        Some(NtpClockSource::WWVB)
    } else if code == "DCF"@ {
        Some(NtpClockSource::DCF)
    } else if code == "HBG"@ {
        Some(NtpClockSource::HBG)
    } else if code == "MSF"@ {
        Some(NtpClockSource::MSF)
    } else if code == "JJY"@ {
        Some(NtpClockSource::JJY)
    } else if code == "LORC"@ {
        Some(NtpClockSource::LORC)
    } else if code == "TDF"@ {
        Some(NtpClockSource::TDF)
    } else if code == "CHU"@ {
        Some(NtpClockSource::CHU)
    } else if code == "WWV"@ {
        Some(NtpClockSource::WWV)
    } else if code == "WWVH"@ {
        Some(NtpClockSource::WWVH)
    } else if code == "NIST"@ {
        Some(NtpClockSource::NIST)
    } else if code == "ACTS"@ {
        Some(NtpClockSource::ACTS)
    } else if code == "USNO"@ {
        Some(NtpClockSource::USNO)
    } else if code == "PTB"@ {
        Some(NtpClockSource::PTB)
    } else if code == "ATOM"@ {
        Some(NtpClockSource::ATOM)
    } else if code == "DCFa"@ {
        Some(NtpClockSource::DCFa)
    } else if code == "DCFp"@ {
        Some(NtpClockSource::DCFp)
    } else if code == "GPSs"@ {
        Some(NtpClockSource::GPSs)
    } else if code == "GPSi"@ {
        Some(NtpClockSource::GPSi)
    } else if code == "GLNs"@ {
        Some(NtpClockSource::GLNs)
    } else if code == "GLNi"@ {
        Some(NtpClockSource::GLNi)
    } else if code == "LCL"@ {
        Some(NtpClockSource::LCL)
    } else if code == "LOCL"@ {
        Some(NtpClockSource::LOCL)
    } else {
        None
    }
}

/// Whether two strings hold the same bytes.
fn same_bytes(x: &[u8], y: &[u8]) -> (r: bool)
    ensures
        r == (x@ == y@),
{
    if x.len() != y.len() {
        return false;
    }
    let mut i: usize = 0;
    while i < x.len()
        invariant
            i <= x@.len(),
            x@.len() == y@.len(),
            forall|k: int| 0 <= k < i ==> x@[k] == y@[k],
        decreases x@.len() - i,
    {
        if x[i] != y[i] {
            return false;
        }
        i = i + 1;
    }
    assert(x@ =~= y@);
    true
}

/// Whether two strings hold the same text.
fn same_text(a: &str, b: &str) -> (r: bool)
    ensures
        r == (a@ == b@),
{
    proof {
        encode_utf8_decode_utf8(a@);
        encode_utf8_decode_utf8(b@);
    }
    same_bytes(a.as_bytes(), b.as_bytes())
}

impl NtpClockSource {
    /// The source that `code` names; codes outside the list are kept as `Unknown`.
    pub fn from(code: &str) -> (r: NtpClockSource)
        ensures
            match spec_known_source(code@) {
                Some(k) => r == k,
                None => r matches NtpClockSource::Unknown(s) && s@ == code@,
            },
    {
        if same_text(code, "GOES") {
            NtpClockSource::GOES
        } else if same_text(code, "GPS") {
            NtpClockSource::GPS
        } else if same_text(code, "GAL") {
            NtpClockSource::GAL
        } else if same_text(code, "PPS") {
            NtpClockSource::PPS
        } else if same_text(code, "IRIG") {
            NtpClockSource::IRIG
        } else if same_text(code, "WWVB") {
            NtpClockSource::WWVB
        } else if same_text(code, "DCF") {
            NtpClockSource::DCF
        } else if same_text(code, "HBG") {
            NtpClockSource::HBG
        } else if same_text(code, "MSF") {
            NtpClockSource::MSF
        } else if same_text(code, "JJY") {
            NtpClockSource::JJY
        } else if same_text(code, "LORC") {
            NtpClockSource::LORC
        } else if same_text(code, "TDF") {
            NtpClockSource::TDF
        } else if same_text(code, "CHU") {
            NtpClockSource::CHU
        } else if same_text(code, "WWV") {
            NtpClockSource::WWV
        } else if same_text(code, "WWVH") {
            NtpClockSource::WWVH
        } else if same_text(code, "NIST") {
            NtpClockSource::NIST
        } else if same_text(code, "ACTS") {
            NtpClockSource::ACTS
        } else if same_text(code, "USNO") {
            NtpClockSource::USNO
        } else if same_text(code, "PTB") {
            NtpClockSource::PTB
        } else if same_text(code, "ATOM") {
            NtpClockSource::ATOM
        } else if same_text(code, "DCFa") {
            NtpClockSource::DCFa
        } else if same_text(code, "DCFp") {
            NtpClockSource::DCFp
        } else if same_text(code, "GPSs") {
            NtpClockSource::GPSs
        } else if same_text(code, "GPSi") {
            NtpClockSource::GPSi
        } else if same_text(code, "GLNs") {
            NtpClockSource::GLNs
        } else if same_text(code, "GLNi") {
            NtpClockSource::GLNi
        } else if same_text(code, "LCL") {
            NtpClockSource::LCL
        } else if same_text(code, "LOCL") {
            NtpClockSource::LOCL
        } else {
            NtpClockSource::Unknown(code.to_owned())
        }
    }

    /// What the source is, in words; an unknown code stands for itself.
    pub open spec fn spec_description(&self) -> Seq<char> {
        match self {
            NtpClockSource::GOES => "Geosynchronous Orbit Environment Satellite"@,
            NtpClockSource::GPS => "Global Position System"@,
            NtpClockSource::GAL => "Galileo Positioning System"@,
            NtpClockSource::PPS => "Generic pulse-per-second"@,
            NtpClockSource::IRIG => "Inter-Range Instrumentation Group"@,
            NtpClockSource::WWVB => "LF Radio WWVB Ft. Collins, CO 60 kHz"@,
            NtpClockSource::DCF => "LF Radio DCF77 Mainflingen, DE 77.5 kHz"@,
            NtpClockSource::HBG => "LF Radio HBG Prangins, HB 75 kHz"@,
            NtpClockSource::MSF => "LF Radio MSF Anthorn, UK 60 kHz"@,
            NtpClockSource::JJY => "LF Radio JJY Fukushima, JP 40 kHz, Saga, JP 60 kHz"@,
            NtpClockSource::LORC => "MF Radio LORAN C station, 100 kHz"@,
            NtpClockSource::TDF => "MF Radio Allouis, FR 162 kHz"@,
            NtpClockSource::CHU => "HF Radio CHU Ottawa, Ontario"@,
            NtpClockSource::WWV => "HF Radio WWV Ft. Collins, CO"@,
            NtpClockSource::WWVH => "HF Radio WWVH Kauai, HI"@,
            NtpClockSource::NIST => "NIST telephone modem"@,
            NtpClockSource::ACTS => "NIST telephone modem"@,
            NtpClockSource::USNO => "USNO telephone modem"@,
            NtpClockSource::PTB => "European telephone modem"@,
            NtpClockSource::ATOM => "with ATOM PPS"@,
            NtpClockSource::DCFa => "DCF77 with amplitude modulation"@,
            NtpClockSource::DCFp => "DCF77 with phase modulation)/pseudo random phase modulation"@,
            NtpClockSource::GPSs => "GPS (with shared memory access - Meinberg)"@,
            NtpClockSource::GPSi => "GPS (with interrupt based access - Meinberg)"@,
            NtpClockSource::GLNs => "GPS/GLONASS (with shared memory access - Meinberg)"@,
            NtpClockSource::GLNi => "GPS/GLONASS (with interrupt based access - Meinberg)"@,
            NtpClockSource::LCL => "Undisciplined local clock"@,
            NtpClockSource::LOCL => "Undisciplined local clock"@,
            NtpClockSource::Unknown(s) => s@,
        }
    }

    /// What the source is, in words.
    pub fn description(&self) -> (text: &str)
        ensures
            text@ == self.spec_description(),
    {
        proof {
            reveal_strlit("Geosynchronous Orbit Environment Satellite");
            reveal_strlit("Global Position System");
            reveal_strlit("Galileo Positioning System");
            reveal_strlit("Generic pulse-per-second");
            reveal_strlit("Inter-Range Instrumentation Group");
            reveal_strlit("LF Radio WWVB Ft. Collins, CO 60 kHz");
            reveal_strlit("LF Radio DCF77 Mainflingen, DE 77.5 kHz");
            reveal_strlit("LF Radio HBG Prangins, HB 75 kHz");
            reveal_strlit("LF Radio MSF Anthorn, UK 60 kHz");
            reveal_strlit("LF Radio JJY Fukushima, JP 40 kHz, Saga, JP 60 kHz");
            reveal_strlit("MF Radio LORAN C station, 100 kHz");
            reveal_strlit("MF Radio Allouis, FR 162 kHz");
            reveal_strlit("HF Radio CHU Ottawa, Ontario");
            reveal_strlit("HF Radio WWV Ft. Collins, CO");
            reveal_strlit("HF Radio WWVH Kauai, HI");
            reveal_strlit("NIST telephone modem");
            reveal_strlit("NIST telephone modem");
            reveal_strlit("USNO telephone modem");
            reveal_strlit("European telephone modem");
            reveal_strlit("with ATOM PPS");
            reveal_strlit("DCF77 with amplitude modulation");
            reveal_strlit("DCF77 with phase modulation)/pseudo random phase modulation");
            reveal_strlit("GPS (with shared memory access - Meinberg)");
            reveal_strlit("GPS (with interrupt based access - Meinberg)");
            reveal_strlit("GPS/GLONASS (with shared memory access - Meinberg)");
            reveal_strlit("GPS/GLONASS (with interrupt based access - Meinberg)");
            reveal_strlit("Undisciplined local clock");
            reveal_strlit("Undisciplined local clock");
        }
        match self {
            NtpClockSource::GOES => "Geosynchronous Orbit Environment Satellite",
            NtpClockSource::GPS => "Global Position System",
            NtpClockSource::GAL => "Galileo Positioning System",
            NtpClockSource::PPS => "Generic pulse-per-second",
            NtpClockSource::IRIG => "Inter-Range Instrumentation Group",
            NtpClockSource::WWVB => "LF Radio WWVB Ft. Collins, CO 60 kHz",
            NtpClockSource::DCF => "LF Radio DCF77 Mainflingen, DE 77.5 kHz",
            NtpClockSource::HBG => "LF Radio HBG Prangins, HB 75 kHz",
            NtpClockSource::MSF => "LF Radio MSF Anthorn, UK 60 kHz",
            NtpClockSource::JJY => "LF Radio JJY Fukushima, JP 40 kHz, Saga, JP 60 kHz",
            NtpClockSource::LORC => "MF Radio LORAN C station, 100 kHz",
            NtpClockSource::TDF => "MF Radio Allouis, FR 162 kHz",
            NtpClockSource::CHU => "HF Radio CHU Ottawa, Ontario",
            NtpClockSource::WWV => "HF Radio WWV Ft. Collins, CO",
            NtpClockSource::WWVH => "HF Radio WWVH Kauai, HI",
            NtpClockSource::NIST => "NIST telephone modem",
            NtpClockSource::ACTS => "NIST telephone modem",
            NtpClockSource::USNO => "USNO telephone modem",
            NtpClockSource::PTB => "European telephone modem",
            NtpClockSource::ATOM => "with ATOM PPS",
            NtpClockSource::DCFa => "DCF77 with amplitude modulation",
            NtpClockSource::DCFp => "DCF77 with phase modulation)/pseudo random phase modulation",
            NtpClockSource::GPSs => "GPS (with shared memory access - Meinberg)",
            NtpClockSource::GPSi => "GPS (with interrupt based access - Meinberg)",
            NtpClockSource::GLNs => "GPS/GLONASS (with shared memory access - Meinberg)",
            NtpClockSource::GLNi => "GPS/GLONASS (with interrupt based access - Meinberg)",
            NtpClockSource::LCL => "Undisciplined local clock",
            NtpClockSource::LOCL => "Undisciplined local clock",
            NtpClockSource::Unknown(s) => s.as_str(),
        }
    }
}

} // verus!
