//! The normalised aircraft report that a receiver station forwards, and the
//! decoded broadcast frame it is made from.
//!
//! Angles and speeds are carried, never computed with: each is held as the
//! 64 bits of its IEEE 754 double-precision encoding.

use vstd::prelude::*;

verus! {

/// Horizontal coordinates in the geographic coordinate system, in degrees,
/// each as the bits of a double.
#[derive(Debug, Clone, Copy, PartialEq, Eq, Default)]
pub struct Position {
    pub latitude: u64,
    pub longitude: u64,
}

/// Frame parity.
#[derive(Debug, Clone, Copy, PartialEq, Eq)]
pub enum Parity {
    Even,
    Odd,
}

/// Aircraft position is broadcast as a set of alternating odd and even frames
/// which encode position information using Compact Position Reporting (CPR).
#[derive(Debug, Clone, Copy, PartialEq, Eq)]
pub struct CPRFrame {
    /// Aircraft position in CPR format
    pub position: Position,
    /// Frame parity
    pub parity: Parity,
}

/// Source for vertical rate information.
#[derive(Debug, Clone, Copy, PartialEq, Eq)]
pub enum VerticalRateSource {
    /// Barometric pressure altitude change rate
    BarometricPressureAltitude,
    /// Geometric altitude change rate
    GeometricAltitude,
}

#[derive(Debug, Clone, PartialEq, Eq)]
pub struct MessageHeader {
    pub downlink_format: u8,
    pub capability: u8,
    pub icao_address: String,
    pub type_code: u8,
}

pub struct MessageHeaderView {
    pub downlink_format: u8,
    pub capability: u8,
    pub icao_address: Seq<char>,
    pub type_code: u8,
}

impl View for MessageHeader {
    type V = MessageHeaderView;

    open spec fn view(&self) -> MessageHeaderView {
        MessageHeaderView {
            downlink_format: self.downlink_format,
            capability: self.capability,
            icao_address: self.icao_address@,
            type_code: self.type_code,
        }
    }
}

#[derive(Debug, Clone, PartialEq, Eq)]
pub enum ADSBMessagePayload {
    /// Aircraft identification and category message (TC 1-4)
    AircraftIdentification {
        /// Emitter category used to determine the type of aircraft
        emitter_category: u8,
        /// Aircraft callsign
        callsign: String,
    },
    /// Airborne position message (TC 9-18)
    AirbornePosition {
        /// Altitude in feet
        altitude: u16,
        position: Position,
    },
    /// Airborne velocity message (TC 19)
    AirborneVelocity {
        /// Heading in degrees, as the bits of a double
        heading: u64,
        /// Ground speed in knots, as the bits of a double
        ground_speed: u64,
        /// Vertical rate in feet per minute, positive values indicate an aircraft is climbing and
        /// negative values indicate it is descending
        vertical_rate: i16,
    },
}

pub enum ADSBMessagePayloadView {
    AircraftIdentification { emitter_category: u8, callsign: Seq<char> },
    AirbornePosition { altitude: u16, position: Position },
    AirborneVelocity { heading: u64, ground_speed: u64, vertical_rate: i16 },
}

impl View for ADSBMessagePayload {
    type V = ADSBMessagePayloadView;

    open spec fn view(&self) -> ADSBMessagePayloadView {
        match *self {
            ADSBMessagePayload::AircraftIdentification { emitter_category, callsign } => {
                ADSBMessagePayloadView::AircraftIdentification {
                    emitter_category,
                    callsign: callsign@,
                }
            },
            ADSBMessagePayload::AirbornePosition { altitude, position } => {
                ADSBMessagePayloadView::AirbornePosition { altitude, position }
            },
            ADSBMessagePayload::AirborneVelocity { heading, ground_speed, vertical_rate } => {
                ADSBMessagePayloadView::AirborneVelocity { heading, ground_speed, vertical_rate }
            },
        }
    }
}

/// One aircraft report, tagged with the station that received it.
#[derive(Debug, Clone, PartialEq, Eq)]
pub struct ADSBMessage {
    pub station_id: String,
    pub station_name: String,
    pub header: MessageHeader,
    pub payload: ADSBMessagePayload,
}

pub struct ADSBMessageView {
    pub station_id: Seq<char>,
    pub station_name: Seq<char>,
    pub header: MessageHeaderView,
    pub payload: ADSBMessagePayloadView,
}

impl View for ADSBMessage {
    type V = ADSBMessageView;

    open spec fn view(&self) -> ADSBMessageView {
        ADSBMessageView {
            station_id: self.station_id@,
            station_name: self.station_name@,
            header: self.header@,
            payload: self.payload@,
        }
    }
}

/// Whether `c` has the Unicode property White_Space.
pub open spec fn is_white_space(c: char) -> bool {
    let n = c as u32;
    ||| 0x09 <= n <= 0x0D
    ||| n == 0x20
    ||| n == 0x85
    ||| n == 0xA0
    ||| n == 0x1680
    ||| 0x2000 <= n <= 0x200A
    ||| n == 0x2028
    ||| n == 0x2029
    ||| n == 0x202F
    ||| n == 0x205F
    ||| n == 0x3000
}

/// `s` without its leading white space.
pub open spec fn trimmed_start(s: Seq<char>) -> Seq<char>
    decreases s.len(),
{
    if s.len() > 0 && is_white_space(s[0]) {
        trimmed_start(s.drop_first())
    } else {
        s
    }
}

/// `s` without its trailing white space.
pub open spec fn trimmed_end(s: Seq<char>) -> Seq<char>
    decreases s.len(),
{
    if s.len() > 0 && is_white_space(s.last()) {
        trimmed_end(s.drop_last())
    } else {
        s
    }
}

/// `s` without its leading and trailing white space.
pub open spec fn trimmed(s: Seq<char>) -> Seq<char> {
    trimmed_end(trimmed_start(s))
}

/// Whether `c` has the Unicode property White_Space.
pub fn is_whitespace(c: char) -> (r: bool)
    ensures
        r == is_white_space(c),
{
    let n: u32 = c as u32;
    (0x09 <= n && n <= 0x0D) || n == 0x20 || n == 0x85 || n == 0xA0 || n == 0x1680 || (0x2000 <= n
        && n <= 0x200A) || n == 0x2028 || n == 0x2029 || n == 0x202F || n == 0x205F || n == 0x3000
}

/// A copy of `s` without its leading and trailing white space.
pub fn trim(s: &str) -> (r: String)
    ensures
        r@ == trimmed(s@),
{
    let n = s.unicode_len();
    let mut start: usize = 0;
    assert(s@.subrange(0, n as int) =~= s@);
    while start < n && is_whitespace(s.get_char(start))
        invariant
            n == s@.len(),
            start <= n,
            trimmed_start(s@) == trimmed_start(s@.subrange(start as int, n as int)),
        decreases n - start,
    {
        proof {
            let rest = s@.subrange(start as int, n as int);
            assert(rest[0] == s@[start as int]);
            assert(rest.drop_first() =~= s@.subrange(start + 1, n as int));
        }
        start = start + 1;
    }
    assert(trimmed_start(s@) == s@.subrange(start as int, n as int)) by {
        let rest = s@.subrange(start as int, n as int);
        if start < n {
            assert(rest[0] == s@[start as int]);
        }
    }
    let mut end: usize = n;
    while end > start && is_whitespace(s.get_char(end - 1))
        invariant
            n == s@.len(),
            start <= end <= n,
            trimmed(s@) == trimmed_end(s@.subrange(start as int, end as int)),
        decreases end - start,
    {
        proof {
            let rest = s@.subrange(start as int, end as int);
            assert(rest.last() == s@[end - 1]);
            assert(rest.drop_last() =~= s@.subrange(start as int, end - 1));
        }
        end = end - 1;
    }
    assert(trimmed(s@) == s@.subrange(start as int, end as int)) by {
        let rest = s@.subrange(start as int, end as int);
        if end > start {
            assert(rest.last() == s@[end - 1]);
        }
    }
    s.substring_char(start, end).to_owned()
}

} // verus!
