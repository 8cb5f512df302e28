use wasmair::adsbtypes::{
    ADSBMessage, ADSBMessagePayload, CPRFrame, MessageHeader, Parity, Position, VerticalRateSource,
};
use wasmair::esmodel::AdsbUpdateEvent;
use wasmair::processor::{load_state, process_adsb_message};
use wasmair::provider::{
    assemble, deliver_message, frame_message, kind_of, parse_avr, ADSBMessageKind, Frame, Message,
    MessageKind, UNSTAMPED, UNSUPPORTED,
};
use wasmair::store::AggregateStore;

fn klm() -> Message {
    Message {
        downlink_format: 17,
        kind: MessageKind::ADSBMessage {
            capability: 5,
            icao_address: "4840D6".to_string(),
            type_code: 4,
            kind: ADSBMessageKind::AircraftIdentification {
                emitter_category: 0,
                callsign: "KLM1023 ".to_string(),
            },
        },
    }
}

#[test]
fn avr_identification_frame_is_decoded() {
    assert_eq!(parse_avr("*8D4840D6202CC371C32CE0576098;"), Some(klm()));
}

#[test]
fn avr_position_frames_are_decoded() {
    let even = parse_avr("*8D40621D58C382D690C8AC2863A7;").unwrap();
    assert_eq!(
        even,
        Message {
            downlink_format: 17,
            kind: MessageKind::ADSBMessage {
                capability: 5,
                icao_address: "40621D".to_string(),
                type_code: 11,
                kind: ADSBMessageKind::AirbornePosition {
                    altitude: 38000,
                    cpr_frame: CPRFrame {
                        parity: Parity::Even,
                        position: Position {
                            latitude: 93000.0f64.to_bits(),
                            longitude: 51372.0f64.to_bits(),
                        },
                    },
                },
            },
        }
    );
    let odd = parse_avr("*8D40621D58C386435CC412692AD6;").unwrap();
    match odd.kind {
        MessageKind::ADSBMessage { kind: ADSBMessageKind::AirbornePosition { cpr_frame, .. }, .. } => {
            assert_eq!(cpr_frame.parity, Parity::Odd);
            assert_eq!(f64::from_bits(cpr_frame.position.latitude), 74158.0);
            assert_eq!(f64::from_bits(cpr_frame.position.longitude), 50194.0);
        }
        _ => panic!("a position frame was decoded"),
    }
    let tisb = parse_avr("*952982E5681B82B22BB7E634AE96;").unwrap();
    assert_eq!(tisb.downlink_format, 18);
}

#[test]
fn avr_velocity_frame_is_decoded() {
    let m = parse_avr("*8D485020994409940838175B284F;").unwrap();
    assert_eq!(m.downlink_format, 17);
    match m.kind {
        MessageKind::ADSBMessage { capability, icao_address, type_code, kind } => {
            assert_eq!(capability, 5);
            assert_eq!(icao_address, "485020");
            assert_eq!(type_code, 19);
            match kind {
                ADSBMessageKind::AirborneVelocity {
                    heading,
                    ground_speed,
                    vertical_rate,
                    vertical_rate_source,
                } => {
                    assert!((f64::from_bits(heading) - 182.8803775528476).abs() < 1e-9);
                    assert!((f64::from_bits(ground_speed) - 159.20113064925135).abs() < 1e-9);
                    assert_eq!(vertical_rate, -832);
                    assert_eq!(vertical_rate_source, VerticalRateSource::BarometricPressureAltitude);
                }
                _ => panic!("a velocity frame was decoded"),
            }
        }
        MessageKind::Unsupported => panic!("an ADS-B frame was decoded"),
    }
}

#[test]
fn other_frames_and_broken_lines() {
    assert_eq!(
        parse_avr("*28001D8A2DA5AE;"),
        Some(Message { downlink_format: 5, kind: MessageKind::Unsupported })
    );
    assert_eq!(parse_avr(""), None);
    assert_eq!(parse_avr("8D4840D6202CC371C32CE0576098;"), None);
    assert_eq!(parse_avr("*8D4840D6202CC371C32CE0576098"), None);
    assert_eq!(parse_avr("*8D48;zz"), parse_avr("*8D48;"));
}

#[test]
fn frames_are_assembled_from_their_parts() {
    let envelope = Some((17u8, Some((5u8, "4840D6".to_string(), 4u8))));
    let kind = kind_of(Some((0, "KLM1023 ".to_string())), None, Some((1, 2, 3, VerticalRateSource::GeometricAltitude)));
    assert_eq!(frame_message(envelope.clone(), kind), Some(klm()));
    assert_eq!(
        frame_message(envelope, None),
        Some(Message { downlink_format: 17, kind: MessageKind::Unsupported })
    );
    assert_eq!(
        frame_message(Some((11, None)), kind_of(Some((0, "X".to_string())), None, None)),
        Some(Message { downlink_format: 11, kind: MessageKind::Unsupported })
    );
    assert_eq!(frame_message(None, kind_of(Some((0, "X".to_string())), None, None)), None);
    assert_eq!(kind_of(None, None, None), None);
    let frame = CPRFrame { position: Position { latitude: 7, longitude: 9 }, parity: Parity::Odd };
    assert_eq!(
        kind_of(None, Some((100, frame)), Some((1, 2, 3, VerticalRateSource::GeometricAltitude))),
        Some(ADSBMessageKind::AirbornePosition { altitude: 100, cpr_frame: frame })
    );
    assert_eq!(
        kind_of(None, None, Some((1, 2, -3, VerticalRateSource::GeometricAltitude))),
        Some(ADSBMessageKind::AirborneVelocity {
            heading: 1,
            ground_speed: 2,
            vertical_rate: -3,
            vertical_rate_source: VerticalRateSource::GeometricAltitude,
        })
    );
}

#[test]
fn report_is_made_from_a_frame() {
    assert_eq!(
        ADSBMessage::try_from(klm()),
        Ok(ADSBMessage {
            station_id: "TBD".to_string(),
            station_name: "TBD".to_string(),
            header: MessageHeader {
                downlink_format: 17,
                capability: 5,
                icao_address: "4840D6".to_string(),
                type_code: 4,
            },
            payload: ADSBMessagePayload::AircraftIdentification {
                emitter_category: 0,
                callsign: "KLM1023".to_string(),
            },
        })
    );
    assert_eq!(UNSTAMPED, "TBD");
    assert_eq!(
        ADSBMessage::try_from(Message { downlink_format: 5, kind: MessageKind::Unsupported }),
        Err("Unsupported message format / kind")
    );
    assert_eq!(UNSUPPORTED, "Unsupported message format / kind");
}

#[test]
fn payload_drops_parity_and_rate_source() {
    let frame = CPRFrame { position: Position { latitude: 7, longitude: 9 }, parity: Parity::Odd };
    assert_eq!(
        ADSBMessagePayload::from(ADSBMessageKind::AirbornePosition { altitude: 100, cpr_frame: frame }),
        ADSBMessagePayload::AirbornePosition {
            altitude: 100,
            position: Position { latitude: 7, longitude: 9 },
        }
    );
    assert_eq!(
        ADSBMessagePayload::from(ADSBMessageKind::AirborneVelocity {
            heading: 1,
            ground_speed: 2,
            vertical_rate: -3,
            vertical_rate_source: VerticalRateSource::GeometricAltitude,
        }),
        ADSBMessagePayload::AirborneVelocity { heading: 1, ground_speed: 2, vertical_rate: -3 }
    );
}

#[test]
fn delivered_report_carries_the_station() {
    let report = deliver_message(klm(), "station001", "Unnamed Station").unwrap();
    assert_eq!(report.station_id, "station001");
    assert_eq!(report.station_name, "Unnamed Station");
    assert_eq!(report.header.icao_address, "4840D6");
    assert_eq!(
        deliver_message(Message { downlink_format: 5, kind: MessageKind::Unsupported }, "a", "b"),
        None
    );
}

#[test]
fn a_line_goes_through_to_the_store() {
    let mut store = AggregateStore::new();
    let frame = parse_avr("*8D4840D6202CC371C32CE0576098;").unwrap();
    let report = deliver_message(frame, "S1", "Lab").unwrap();
    let event = process_adsb_message(&mut store, report, 0).unwrap();
    assert_eq!(event.key(), "4840D6");
    match event {
        AdsbUpdateEvent::AircraftIdentified { callsign, .. } => assert_eq!(callsign, "KLM1023"),
        _ => panic!("an identification was processed"),
    }
    let state = load_state(&store, "4840D6", 0).unwrap();
    assert_eq!(state.callsign, "KLM1023");
    assert_eq!(state.last_reporting_station_id, "S1");
}

#[test]
fn decoded_fields_are_assembled() {
    let frame = Frame {
        downlink_format: 17,
        header: Some((5, "4840D6".to_string(), 4)),
        identification: Some((0, "KLM1023 ".to_string())),
        position: None,
    };
    assert_eq!(assemble(Some(frame.clone()), None), Some(klm()));
    let velocity = Some((7u64, 8u64, -64i16, VerticalRateSource::GeometricAltitude));
    assert_eq!(assemble(Some(frame), velocity), Some(klm()));
    let bare = Frame { downlink_format: 17, header: Some((5, "485020".to_string(), 19)), identification: None, position: None };
    assert_eq!(
        assemble(Some(bare.clone()), velocity),
        Some(Message {
            downlink_format: 17,
            kind: MessageKind::ADSBMessage {
                capability: 5,
                icao_address: "485020".to_string(),
                type_code: 19,
                kind: ADSBMessageKind::AirborneVelocity {
                    heading: 7,
                    ground_speed: 8,
                    vertical_rate: -64,
                    vertical_rate_source: VerticalRateSource::GeometricAltitude,
                },
            },
        })
    );
    assert_eq!(
        assemble(Some(bare), None),
        Some(Message { downlink_format: 17, kind: MessageKind::Unsupported })
    );
    let other = Frame { downlink_format: 5, header: None, identification: None, position: None };
    assert_eq!(
        assemble(Some(other), velocity),
        Some(Message { downlink_format: 5, kind: MessageKind::Unsupported })
    );
    assert_eq!(assemble(None, velocity), None);
    let at = Frame {
        downlink_format: 18,
        header: Some((5, "2982E5".to_string(), 13)),
        identification: None,
        position: Some((4400, 88341.0f64.to_bits(), 112614.0f64.to_bits(), Parity::Even)),
    };
    assert_eq!(assemble(Some(at), velocity), parse_avr("*952982E5681B82B22BB7E634AE96;"));
}
