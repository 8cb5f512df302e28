//! From a broadcast frame to the report that a station forwards.
//!
//! The frame is decoded by the `adsb` crate. What the rest of the library
//! reads of a decoded frame is held in `Message`; the report is made from it
//! and stamped with the identity of the receiving station.

use crate::adsbtypes::{
    trim, trimmed, ADSBMessage, ADSBMessagePayload, ADSBMessagePayloadView, ADSBMessageView,
    CPRFrame, MessageHeader, MessageHeaderView, Parity, Position, VerticalRateSource,
};
use vstd::prelude::*;

verus! {

/// The content of a decoded ADS-B frame.
#[derive(Debug, Clone, PartialEq, Eq)]
pub enum ADSBMessageKind {
    /// Aircraft identification and category message (TC 1-4)
    AircraftIdentification { emitter_category: u8, callsign: String },
    /// Airborne position message (TC 9-18)
    AirbornePosition { altitude: u16, cpr_frame: CPRFrame },
    /// Airborne velocity message (TC 19)
    AirborneVelocity {
        heading: u64,
        ground_speed: u64,
        vertical_rate: i16,
        vertical_rate_source: VerticalRateSource,
    },
}

pub enum ADSBMessageKindView {
    AircraftIdentification { emitter_category: u8, callsign: Seq<char> },
    AirbornePosition { altitude: u16, cpr_frame: CPRFrame },
    AirborneVelocity {
        heading: u64,
        ground_speed: u64,
        vertical_rate: i16,
        vertical_rate_source: VerticalRateSource,
    },
}

impl View for ADSBMessageKind {
    type V = ADSBMessageKindView;

    open spec fn view(&self) -> ADSBMessageKindView {
        match *self {
            ADSBMessageKind::AircraftIdentification { emitter_category, callsign } => {
                ADSBMessageKindView::AircraftIdentification { emitter_category, callsign: callsign@ }
            },
            ADSBMessageKind::AirbornePosition { altitude, cpr_frame } => {
                ADSBMessageKindView::AirbornePosition { altitude, cpr_frame }
            },
            ADSBMessageKind::AirborneVelocity {
                heading,
                ground_speed,
                vertical_rate,
                vertical_rate_source,
            } => ADSBMessageKindView::AirborneVelocity {
                heading,
                ground_speed,
                vertical_rate,
                vertical_rate_source,
            },
        }
    }
}

/// What a decoded frame is.
#[derive(Debug, Clone, PartialEq, Eq)]
pub enum MessageKind {
    /// ADS-B message (DF 17/18)
    ADSBMessage { capability: u8, icao_address: String, type_code: u8, kind: ADSBMessageKind },
    /// A frame of any other kind
    Unsupported,
}

pub enum MessageKindView {
    ADSBMessage { capability: u8, icao_address: Seq<char>, type_code: u8, kind: ADSBMessageKindView },
    Unsupported,
}

impl View for MessageKind {
    type V = MessageKindView;

    open spec fn view(&self) -> MessageKindView {
        match *self {
            MessageKind::ADSBMessage { capability, icao_address, type_code, kind } => {
                MessageKindView::ADSBMessage {
                    capability,
                    icao_address: icao_address@,
                    type_code,
                    kind: kind@,
                }
            },
            MessageKind::Unsupported => MessageKindView::Unsupported,
        }
    }
}

/// A decoded frame.
#[derive(Debug, Clone, PartialEq, Eq)]
pub struct Message {
    /// Downlink Format (DF)
    pub downlink_format: u8,
    pub kind: MessageKind,
}

pub struct MessageView {
    pub downlink_format: u8,
    pub kind: MessageKindView,
}

impl View for Message {
    type V = MessageView;

    open spec fn view(&self) -> MessageView {
        MessageView { downlink_format: self.downlink_format, kind: self.kind@ }
    }
}

/// The station name and id that a report carries before it is stamped.
pub const UNSTAMPED: &'static str = "TBD";

/// Why a decoded frame gives no report.
pub const UNSUPPORTED: &'static str = "Unsupported message format / kind";

/// What a line decides of the frame that is decoded from it: the downlink
/// format; for an ADS-B message its capability, the address of its aircraft
/// in six hexadecimal digits and its type code; the emitter category and
/// the callsign of an identification, eight characters with the padding;
/// the altitude, the latitude, the longitude and the parity of an airborne
/// position, each coordinate being the 17-bit integer of the frame as the
/// bits of a double.
#[derive(Debug, Clone, PartialEq, Eq, Default)]
pub struct Frame {
    pub downlink_format: u8,
    pub header: Option<(u8, String, u8)>,
    pub identification: Option<(u8, String)>,
    pub position: Option<(u16, u64, u64, Parity)>,
}

pub struct FrameView {
    pub downlink_format: u8,
    pub header: Option<(u8, Seq<char>, u8)>,
    pub identification: Option<(u8, Seq<char>)>,
    pub position: Option<(u16, u64, u64, Parity)>,
}

impl View for Frame {
    type V = FrameView;

    open spec fn view(&self) -> FrameView {
        FrameView {
            downlink_format: self.downlink_format,
            header: match self.header {
                Some((capability, icao, type_code)) => Some((capability, icao@, type_code)),
                None => None,
            },
            identification: identification_view(self.identification),
            position: self.position,
        }
    }
}

/// What `adsb::parse_avr` decodes from a line, but for the fields of a
/// velocity; `None` where the line does not decode.
pub uninterp spec fn avr_frame(line: Seq<char>) -> Option<FrameView>;

/// Calls `adsb::parse_avr` and hands out the integers of the decoded frame,
/// the address as `ICAOAddress` prints it, and the fields of an
/// identification or of a position. They depend on the line alone.
#[verifier::external_body]
fn decode_frame(line: &str) -> (r: Option<Frame>)
    ensures
        match r {
            Some(frame) => avr_frame(line@) == Some(frame@),
            None => avr_frame(line@).is_none(),
        },
{
    let (m, _) = adsb::parse_avr(line).ok()?;
    let mut r = Frame { downlink_format: m.downlink_format, ..Default::default() };
    if let adsb::MessageKind::ADSBMessage { capability, icao_address, type_code, kind, .. } = m.kind {
        r.header = Some((capability, icao_address.to_string(), type_code));
        match kind {
            adsb::ADSBMessageKind::AircraftIdentification { emitter_category, callsign } => r.identification = Some((emitter_category, callsign)),
            adsb::ADSBMessageKind::AirbornePosition { altitude, cpr_frame: f } => {
                let parity = match f.parity { adsb::Parity::Even => Parity::Even, adsb::Parity::Odd => Parity::Odd };
                r.position = Some((altitude, f.position.latitude.to_bits(), f.position.longitude.to_bits(), parity))
            },
            _ => {},
        }
    }
    Some(r)
}

/// Calls `adsb::parse_avr` and hands out the fields of an airborne velocity:
/// heading, ground speed, vertical rate and its source. Heading and speed
/// come from floating-point arithmetic, so nothing is claimed of the result.
#[verifier::external_body]
fn decode_velocity(line: &str) -> (r: Option<(u64, u64, i16, VerticalRateSource)>) {
    match adsb::parse_avr(line) {
        Ok((adsb::Message { kind: adsb::MessageKind::ADSBMessage { kind, .. }, .. }, _)) => {
            match kind {
                adsb::ADSBMessageKind::AirborneVelocity { heading, ground_speed, vertical_rate, vertical_rate_source } => {
                    let source = match vertical_rate_source {
                        adsb::VerticalRateSource::BarometricPressureAltitude => VerticalRateSource::BarometricPressureAltitude,
                        adsb::VerticalRateSource::GeometricAltitude => VerticalRateSource::GeometricAltitude,
                    };
                    Some((heading.to_bits(), ground_speed.to_bits(), vertical_rate, source))
                },
                _ => None,
            }
        },
        _ => None,
    }
}

/// The content that the decoded fields make: the identification where there
/// is one, else the position, else the velocity.
pub open spec fn content(
    identification: Option<(u8, Seq<char>)>,
    position: Option<(u16, CPRFrame)>,
    velocity: Option<(u64, u64, i16, VerticalRateSource)>,
) -> Option<ADSBMessageKindView> {
    match (identification, position, velocity) {
        (Some((emitter_category, callsign)), _, _) => Some(
            ADSBMessageKindView::AircraftIdentification { emitter_category, callsign },
        ),
        (None, Some((altitude, cpr_frame)), _) => Some(
            ADSBMessageKindView::AirbornePosition { altitude, cpr_frame },
        ),
        (None, None, Some((heading, ground_speed, vertical_rate, vertical_rate_source))) => Some(
            ADSBMessageKindView::AirborneVelocity {
                heading,
                ground_speed,
                vertical_rate,
                vertical_rate_source,
            },
        ),
        (None, None, None) => None,
    }
}

/// The view of the fields of an identification, where there are any.
pub open spec fn identification_view(identification: Option<(u8, String)>) -> Option<
    (u8, Seq<char>),
> {
    match identification {
        None => None,
        Some((category, callsign)) => Some((category, callsign@)),
    }
}

/// The content that the decoded fields make.
pub fn kind_of(
    identification: Option<(u8, String)>,
    position: Option<(u16, CPRFrame)>,
    velocity: Option<(u64, u64, i16, VerticalRateSource)>,
) -> (r: Option<ADSBMessageKind>)
    ensures
        kind_view(r) == content(identification_view(identification), position, velocity),
{
    match (identification, position, velocity) {
        (Some((emitter_category, callsign)), _, _) => Some(
            ADSBMessageKind::AircraftIdentification { emitter_category, callsign },
        ),
        (None, Some((altitude, cpr_frame)), _) => Some(
            ADSBMessageKind::AirbornePosition { altitude, cpr_frame },
        ),
        (None, None, Some((heading, ground_speed, vertical_rate, vertical_rate_source))) => Some(
            ADSBMessageKind::AirborneVelocity {
                heading,
                ground_speed,
                vertical_rate,
                vertical_rate_source,
            },
        ),
        (None, None, None) => None,
    }
}

/// The frame that an envelope and a content make: an ADS-B message where
/// both are there, a frame of another kind where either is missing.
pub open spec fn framed(
    envelope: Option<(u8, Option<(u8, Seq<char>, u8)>)>,
    kind: Option<ADSBMessageKindView>,
) -> Option<MessageView> {
    match envelope {
        None => None,
        Some((downlink_format, header)) => Some(
            MessageView {
                downlink_format,
                kind: match (header, kind) {
                    (Some((capability, icao_address, type_code)), Some(kind)) => {
                        MessageKindView::ADSBMessage { capability, icao_address, type_code, kind }
                    },
                    _ => MessageKindView::Unsupported,
                },
            },
        ),
    }
}

/// The payload of the report for a decoded content: the callsign loses the
/// white space around it, the position is that of the frame, and the source
/// of the vertical rate is left out.
pub open spec fn payload_of(kind: ADSBMessageKindView) -> ADSBMessagePayloadView {
    match kind {
        ADSBMessageKindView::AircraftIdentification { emitter_category, callsign } => {
            ADSBMessagePayloadView::AircraftIdentification {
                emitter_category,
                callsign: trimmed(callsign),
            }
        },
        ADSBMessageKindView::AirbornePosition { altitude, cpr_frame } => {
            ADSBMessagePayloadView::AirbornePosition { altitude, position: cpr_frame.position }
        },
        ADSBMessageKindView::AirborneVelocity { heading, ground_speed, vertical_rate, .. } => {
            ADSBMessagePayloadView::AirborneVelocity { heading, ground_speed, vertical_rate }
        },
    }
}

/// The report for a decoded frame, not yet stamped with a station; none for
/// a frame that is no ADS-B message.
pub open spec fn report_of(m: MessageView) -> Option<ADSBMessageView> {
    match m.kind {
        MessageKindView::ADSBMessage { capability, icao_address, type_code, kind } => Some(
            ADSBMessageView {
                station_id: UNSTAMPED@,
                station_name: UNSTAMPED@,
                header: MessageHeaderView {
                    downlink_format: m.downlink_format,
                    capability,
                    icao_address,
                    type_code,
                },
                payload: payload_of(kind),
            },
        ),
        MessageKindView::Unsupported => None,
    }
}

/// The report that a station forwards for a decoded frame.
pub open spec fn delivered(m: MessageView, station_id: Seq<char>, station_name: Seq<char>)
    -> Option<ADSBMessageView> {
    match report_of(m) {
        Some(report) => Some(ADSBMessageView { station_id, station_name, ..report }),
        None => None,
    }
}

impl ADSBMessagePayload {
    /// The payload of the report for a decoded content.
    pub fn from(source: ADSBMessageKind) -> (r: ADSBMessagePayload)
        ensures
            r@ == payload_of(source@),
    {
        match source {
            ADSBMessageKind::AirbornePosition { altitude, cpr_frame } => {
                ADSBMessagePayload::AirbornePosition {
                    altitude,
                    position: Position {
                        latitude: cpr_frame.position.latitude,
                        longitude: cpr_frame.position.longitude,
                    },
                }
            },
            ADSBMessageKind::AircraftIdentification { emitter_category, callsign } => {
                ADSBMessagePayload::AircraftIdentification {
                    emitter_category,
                    callsign: trim(callsign.as_str()),
                }
            },
            ADSBMessageKind::AirborneVelocity { heading, ground_speed, vertical_rate, .. } => {
                ADSBMessagePayload::AirborneVelocity { heading, ground_speed, vertical_rate }
            },
        }
    }
}

impl ADSBMessage {
    /// The report for a decoded frame, with `UNSTAMPED` for the station. A
    /// frame that is no ADS-B message is refused with `UNSUPPORTED`.
    pub fn try_from(source: Message) -> (r: Result<ADSBMessage, &'static str>)
        ensures
            match r {
                Ok(report) => report_of(source@) == Some(report@),
                Err(why) => report_of(source@).is_none() && why@ == UNSUPPORTED@,
            },
    {
        match source.kind {
            MessageKind::ADSBMessage { capability, icao_address, type_code, kind } => Ok(
                ADSBMessage {
                    station_id: UNSTAMPED.to_owned(),
                    station_name: UNSTAMPED.to_owned(),
                    header: MessageHeader {
                        downlink_format: source.downlink_format,
                        capability,
                        icao_address,
                        type_code,
                    },
                    payload: ADSBMessagePayload::from(kind),
                },
            ),
            MessageKind::Unsupported => Err(UNSUPPORTED),
        }
    }
}

/// The frame that an envelope and a content make.
pub fn frame_message(
    envelope: Option<(u8, Option<(u8, String, u8)>)>,
    kind: Option<ADSBMessageKind>,
) -> (r: Option<Message>)
    ensures
        match r {
            Some(m) => framed(envelope_view(envelope), kind_view(kind)) == Some(m@),
            None => framed(envelope_view(envelope), kind_view(kind)).is_none(),
        },
{
    match envelope {
        None => None,
        Some((downlink_format, header)) => Some(
            Message {
                downlink_format,
                kind: match (header, kind) {
                    (Some((capability, icao_address, type_code)), Some(kind)) => {
                        MessageKind::ADSBMessage { capability, icao_address, type_code, kind }
                    },
                    _ => MessageKind::Unsupported,
                },
            },
        ),
    }
}

/// The view of an envelope.
pub open spec fn envelope_view(envelope: Option<(u8, Option<(u8, String, u8)>)>) -> Option<
    (u8, Option<(u8, Seq<char>, u8)>),
> {
    match envelope {
        None => None,
        Some((df, None)) => Some((df, None)),
        Some((df, Some((capability, icao, type_code)))) => Some(
            (df, Some((capability, icao@, type_code))),
        ),
    }
}

/// The view of a content, where there is one.
pub open spec fn kind_view(kind: Option<ADSBMessageKind>) -> Option<ADSBMessageKindView> {
    match kind {
        None => None,
        Some(k) => Some(k@),
    }
}

/// Decodes one line in AVR format, `*` then hexadecimal digits then `;`.
/// The line decides the frame but for the fields of a velocity, of which
/// nothing is known beforehand.
pub fn parse_avr(line: &str) -> (r: Option<Message>)
    ensures
        exists|velocity: Option<(u64, u64, i16, VerticalRateSource)>|
            match r {
                Some(m) => #[trigger] decoded(avr_frame(line@), velocity) == Some(m@),
                None => decoded(avr_frame(line@), velocity).is_none(),
            },
{
    let frame = decode_frame(line);
    let velocity = decode_velocity(line);
    let ghost frame_view = avr_frame(line@);
    let r = assemble(frame, velocity);
    proof {
        assert(match r {
            Some(m) => decoded(frame_view, velocity) == Some(m@),
            None => decoded(frame_view, velocity).is_none(),
        });
    }
    r
}

/// The frame that is decoded, given what the line decides of it and the
/// fields of its velocity.
pub open spec fn decoded(
    frame: Option<FrameView>,
    velocity: Option<(u64, u64, i16, VerticalRateSource)>,
) -> Option<MessageView> {
    match frame {
        None => None,
        Some(f) => framed(
            Some((f.downlink_format, f.header)),
            content(f.identification, position_frame(f.position), velocity),
        ),
    }
}

/// The altitude and the position frame that the fields of a position make.
pub open spec fn position_frame(position: Option<(u16, u64, u64, Parity)>) -> Option<
    (u16, CPRFrame),
> {
    match position {
        Some((altitude, latitude, longitude, parity)) => Some(
            (altitude, CPRFrame { position: Position { latitude, longitude }, parity }),
        ),
        None => None,
    }
}

/// The view of what a line decides of its frame, where it decodes.
pub open spec fn frame_view(frame: Option<Frame>) -> Option<FrameView> {
    match frame {
        None => None,
        Some(f) => Some(f@),
    }
}

/// The frame that is decoded, given what the line decides of it and the
/// fields of its velocity.
pub fn assemble(frame: Option<Frame>, velocity: Option<(u64, u64, i16, VerticalRateSource)>) -> (r:
    Option<Message>)
    ensures
        match r {
            Some(m) => decoded(frame_view(frame), velocity) == Some(m@),
            None => decoded(frame_view(frame), velocity).is_none(),
        },
{
    match frame {
        None => None,
        Some(f) => {
            let position = match f.position {
                Some((altitude, latitude, longitude, parity)) => Some(
                    (altitude, CPRFrame { position: Position { latitude, longitude }, parity }),
                ),
                None => None,
            };
            frame_message(
                Some((f.downlink_format, f.header)),
                kind_of(f.identification, position, velocity),
            )
        },
    }
}

/// The report that the station forwards for a decoded frame: the frame's
/// report with the station's id and name in it. A frame that is no ADS-B
/// message is not forwarded.
pub fn deliver_message(message: Message, station_id: &str, station_name: &str) -> (r: Option<
    ADSBMessage,
>)
    ensures
        match r {
            Some(report) => delivered(message@, station_id@, station_name@) == Some(report@),
            None => delivered(message@, station_id@, station_name@).is_none(),
        },
{
    match ADSBMessage::try_from(message) {
        Ok(intmessage) => Some(
            ADSBMessage {
                station_id: station_id.to_owned(),
                station_name: station_name.to_owned(),
                header: intmessage.header,
                payload: intmessage.payload,
            },
        ),
        Err(_) => None,
    }
}

} // verus!
