use spike_prime::connection::message::parse::{is_utf8_text, read_str};
use spike_prime::connection::message::{
    ByteCursor, Color, DeviceMessage, DeviceNotification, GetHubNameResponse, HubFace, HubPort,
    InfoResponse, MotorDeviceType, ProgramAction, ResponseStatus, SetHubNameResponse, TxMessage,
};
use spike_prime::Error;

fn info_bytes() -> Vec<u8> {
    vec![
        0x01, 1, 0, 0x34, 0x12, 3, 2, 0x78, 0x56, 0xf4, 0x01, 0x00, 0x02, 0x54, 0x00, 0x00, 0x00,
    ]
}

#[test]
fn reads_info_response() {
    let m = TxMessage::deserialize(info_bytes()).unwrap();
    assert_eq!(
        m,
        TxMessage::InfoResponse(InfoResponse {
            rpc_major: 1,
            rpc_minor: 0,
            rpc_build: 0x1234,
            firmware_major: 3,
            firmware_minor: 2,
            firmware_build: 0x5678,
            max_packet_size: 500,
            max_msg_size: 512,
            max_chunk_size: 84,
            product_group_device_type: 0,
        })
    );
}

#[test]
fn short_message_is_end_of_input() {
    let mut bytes = info_bytes();
    bytes.pop();
    match TxMessage::deserialize(bytes) {
        Err(Error::Io(e)) => assert_eq!(e.kind(), std::io::ErrorKind::UnexpectedEof),
        other => panic!("unexpected {other:?}"),
    }
    assert!(matches!(TxMessage::deserialize(vec![]), Err(Error::Io(_))));
}

#[test]
fn unknown_identifier_is_reported() {
    assert!(matches!(TxMessage::deserialize(vec![0x02, 0]), Err(Error::UnknownMessage)));
}

#[test]
fn reads_status_responses() {
    assert_eq!(
        TxMessage::deserialize(vec![0x17, 0]).unwrap(),
        TxMessage::SetHubNameResponse(SetHubNameResponse {
            response_status: ResponseStatus::Acknowledged
        })
    );
    match TxMessage::deserialize(vec![0x0d, 1]).unwrap() {
        TxMessage::StartFileUploadResponse(r) => {
            assert_eq!(r.response_status, ResponseStatus::NotAcknowledged)
        }
        other => panic!("unexpected {other:?}"),
    }
    for id in [0x11u8, 0x15, 0x1f, 0x47, 0x29] {
        let m = TxMessage::deserialize(vec![id, 1]).unwrap();
        let status = match m {
            TxMessage::TransferChunkResponse(r) => r.response_status,
            TxMessage::BeginFirmwareUpdateResponse(r) => r.response_status,
            TxMessage::ProgramFlowResponse(r) => r.response_status,
            TxMessage::ClearSlotResponse(r) => r.response_status,
            TxMessage::DeviceNotificationResponse(r) => r.response_status,
            other => panic!("unexpected {other:?}"),
        };
        assert_eq!(status, ResponseStatus::NotAcknowledged);
    }
    assert!(matches!(
        TxMessage::deserialize(vec![0x17, 2]),
        Err(Error::InvalidEnumValue { enum_name: "ResponseStatus", value: 2 })
    ));
}

#[test]
fn reads_firmware_upload_response() {
    match TxMessage::deserialize(vec![0x0b, 0, 0x10, 0, 0, 0]).unwrap() {
        TxMessage::StartFirmwareUploadResponse(r) => {
            assert_eq!(r.response_status, ResponseStatus::Acknowledged);
            assert_eq!(r.already_uploaded, 16);
        }
        other => panic!("unexpected {other:?}"),
    }
    assert!(matches!(TxMessage::deserialize(vec![0x0b, 0, 0x10]), Err(Error::Io(_))));
}

#[test]
fn reads_hub_name_response() {
    let m = TxMessage::deserialize(vec![0x19, b'S', b'p', b'i', b'k', b'e', 0, 0xaa]).unwrap();
    assert_eq!(
        m,
        TxMessage::GetHubNameResponse(GetHubNameResponse { name: "Spike".to_string() })
    );
    assert!(matches!(TxMessage::deserialize(vec![0x19, b'a', b'b']), Err(Error::Io(_))));
}

#[test]
fn reads_console_notification() {
    match TxMessage::deserialize(vec![0x21, 0xc3, 0xa9, b'!', 0]).unwrap() {
        TxMessage::ConsoleNotification(c) => assert_eq!(c.console_message, "é!"),
        other => panic!("unexpected {other:?}"),
    }
}

#[test]
fn reads_uuid_response() {
    let mut bytes = vec![0x1b];
    bytes.extend(0u8..16);
    match TxMessage::deserialize(bytes).unwrap() {
        TxMessage::DeviceUuidResponse(r) => {
            let expected: Vec<u8> = (0u8..16).collect();
            assert_eq!(r.uuid.as_bytes().to_vec(), expected);
        }
        other => panic!("unexpected {other:?}"),
    }
    assert!(matches!(TxMessage::deserialize(vec![0x1b, 1, 2]), Err(Error::Io(_))));
}

#[test]
fn reads_program_flow_notification() {
    match TxMessage::deserialize(vec![0x20, 1]).unwrap() {
        TxMessage::ProgramFlowNotification(n) => assert_eq!(n.program_action, ProgramAction::Stop),
        other => panic!("unexpected {other:?}"),
    }
    assert!(matches!(
        TxMessage::deserialize(vec![0x20, 7]),
        Err(Error::InvalidEnumValue { enum_name: "ProgramAction", value: 7 })
    ));
}

#[test]
fn reads_device_notification() {
    let mut bytes = vec![0x3c];
    let body: Vec<u8> = vec![
        0x00, 87, // battery
        0x0d, 0x02, 0xff, 0xff, // distance sensor on port C: -1
        0x0c, 0x01, 0x09, 0x10, 0x00, 0x20, 0x00, 0x30, 0x00, // color sensor on B: red
    ];
    bytes.extend_from_slice(&(body.len() as u16).to_le_bytes());
    bytes.extend_from_slice(&body);
    match TxMessage::deserialize(bytes).unwrap() {
        TxMessage::DeviceNotification(DeviceNotification { payload }) => {
            assert_eq!(
                payload,
                vec![
                    DeviceMessage::DeviceBattery(87),
                    DeviceMessage::DeviceDistanceSensor { port: HubPort::C, distance: -1 },
                    DeviceMessage::DeviceColorSensor {
                        port: HubPort::B,
                        color: Some(Color::Red),
                        red: 0x10,
                        green: 0x20,
                        blue: 0x30,
                    },
                ]
            );
        }
        other => panic!("unexpected {other:?}"),
    }
}

#[test]
fn device_notification_stops_at_its_length() {
    let bytes = vec![0x3c, 2, 0, 0x00, 50, 0x00, 60];
    match TxMessage::deserialize(bytes).unwrap() {
        TxMessage::DeviceNotification(n) => {
            assert_eq!(n.payload, vec![DeviceMessage::DeviceBattery(50)])
        }
        other => panic!("unexpected {other:?}"),
    }
    let empty = vec![0x3c, 0, 0, 0x77];
    match TxMessage::deserialize(empty).unwrap() {
        TxMessage::DeviceNotification(n) => assert!(n.payload.is_empty()),
        other => panic!("unexpected {other:?}"),
    }
    assert!(matches!(
        TxMessage::deserialize(vec![0x3c, 2, 0, 0x42, 0]),
        Err(Error::UnknownMessage)
    ));
}

#[test]
fn reads_device_messages() {
    let mut imu = vec![0x01, 0x00, 0x05];
    for v in [1i16, -2, 3, -4, 5, -6, 7, -8, 9] {
        imu.extend_from_slice(&v.to_le_bytes());
    }
    let mut c = ByteCursor::new(imu);
    assert_eq!(
        DeviceMessage::deserialize(&mut c).unwrap(),
        DeviceMessage::DeviceImuValues {
            up_face: HubFace::Top,
            yaw_face: HubFace::Left,
            yaw: 1,
            pitch: -2,
            roll: 3,
            accelerometer_x: -4,
            accelerometer_y: 5,
            accelerometer_z: -6,
            gyroscope_x: 7,
            gyroscope_y: -8,
            gyroscope_z: 9,
        }
    );
    assert_eq!(c.position(), 21);

    let mut motor = vec![0x0a, 0x00, 0x31];
    motor.extend_from_slice(&(-90i16).to_le_bytes());
    motor.extend_from_slice(&(50i16).to_le_bytes());
    motor.push((-3i8) as u8);
    motor.extend_from_slice(&(-100000i32).to_le_bytes());
    let mut c = ByteCursor::new(motor);
    assert_eq!(
        DeviceMessage::deserialize(&mut c).unwrap(),
        DeviceMessage::DeviceMotor {
            port: HubPort::A,
            motor_device_type: MotorDeviceType::Large,
            absolute_position: -90,
            power: 50,
            speed: -3,
            position: -100000,
        }
    );

    let mut matrix = vec![0x02];
    matrix.extend(0u8..25);
    let mut c = ByteCursor::new(matrix);
    let mut pixels = [0u8; 25];
    for (i, p) in pixels.iter_mut().enumerate() {
        *p = i as u8;
    }
    assert_eq!(
        DeviceMessage::deserialize(&mut c).unwrap(),
        DeviceMessage::Device5x5MatrixDisplay(pixels)
    );

    let mut c = ByteCursor::new(vec![0x0e, 0x05, 1, 2, 3, 4, 5, 6, 7, 8, 9]);
    assert_eq!(
        DeviceMessage::deserialize(&mut c).unwrap(),
        DeviceMessage::Device3x3ColorMatrix { port: HubPort::F, pixels: [1, 2, 3, 4, 5, 6, 7, 8, 9] }
    );

    let mut c = ByteCursor::new(vec![0x0b, 0x03, 42, 0x01]);
    assert_eq!(
        DeviceMessage::deserialize(&mut c).unwrap(),
        DeviceMessage::DeviceForceSensor { port: HubPort::D, value: 42, pressure: true }
    );

    let mut c = ByteCursor::new(vec![0x0c, 0x04, 0x33, 0, 0, 0, 0, 0, 0]);
    assert_eq!(
        DeviceMessage::deserialize(&mut c).unwrap(),
        DeviceMessage::DeviceColorSensor { port: HubPort::E, color: None, red: 0, green: 0, blue: 0 }
    );
}

#[test]
fn device_message_faults() {
    let mut c = ByteCursor::new(vec![0x01, 0x06, 0x00]);
    assert!(matches!(
        DeviceMessage::deserialize(&mut c),
        Err(Error::InvalidEnumValue { enum_name: "HubFace", value: 6 })
    ));
    let mut c = ByteCursor::new(vec![0x0a, 0x09]);
    assert!(matches!(
        DeviceMessage::deserialize(&mut c),
        Err(Error::InvalidEnumValue { enum_name: "HubPort", value: 9 })
    ));
    let mut c = ByteCursor::new(vec![0x0a, 0x00, 0x10]);
    assert!(matches!(
        DeviceMessage::deserialize(&mut c),
        Err(Error::InvalidEnumValue { enum_name: "MotorDeviceType", value: 0x10 })
    ));
    let mut c = ByteCursor::new(vec![0x0b, 0x00, 1, 2]);
    assert!(matches!(
        DeviceMessage::deserialize(&mut c),
        Err(Error::InvalidEnumValue { enum_name: "bool", value: 2 })
    ));
    let mut c = ByteCursor::new(vec![0x0d, 0x00, 1]);
    assert!(matches!(DeviceMessage::deserialize(&mut c), Err(Error::Io(_))));
    let mut c = ByteCursor::new(vec![0x0f]);
    assert!(matches!(DeviceMessage::deserialize(&mut c), Err(Error::UnknownMessage)));
}

#[test]
fn cursor_reads_little_endian() {
    let mut c = ByteCursor::new(vec![0x01, 0x02, 0xfe, 0xff, 0x78, 0x56, 0x34, 0x12, 0xff]);
    assert_eq!(c.read_u16().unwrap(), 0x0201);
    assert_eq!(c.read_i16().unwrap(), -2);
    assert_eq!(c.read_u32().unwrap(), 0x12345678);
    assert_eq!(c.read_i8().unwrap(), -1);
    assert_eq!(c.position(), 9);
    assert!(matches!(c.read_u8(), Err(Error::Io(_))));
    let mut c = ByteCursor::new(vec![0xff, 0xff, 0xff, 0x7f]);
    assert_eq!(c.read_i32().unwrap(), i32::MAX);
}

#[test]
fn reads_nul_terminated_text() {
    let mut c = ByteCursor::new(vec![b'h', b'i', 0, b'x']);
    assert_eq!(read_str(&mut c).unwrap(), "hi");
    assert_eq!(c.position(), 3);
    assert!(is_utf8_text(&[b'o', b'k', 0, 0xff]));
    assert!(!is_utf8_text(&[0xff, 0]));
    assert!(is_utf8_text(&[0xff]));
}

#[test]
fn failed_read_moves_cursor_to_end() {
    let mut c = ByteCursor::new(vec![0x34]);
    assert!(matches!(c.read_u16(), Err(Error::Io(_))));
    assert_eq!(c.position(), 1);
    let mut c = ByteCursor::new(vec![1, 2, 3]);
    let mut buf = [0u8; 4];
    assert!(matches!(c.read_exact(&mut buf), Err(Error::Io(_))));
    assert_eq!(c.position(), 3);
    let mut c = ByteCursor::new(vec![0x0d, 0x00, 1]);
    assert!(matches!(DeviceMessage::deserialize(&mut c), Err(Error::Io(_))));
    assert_eq!(c.position(), 3);
}
