use spike_prime::connection::message::{
    BeginFirmwareUpdateRequest, ClearSlotRequest, Color, DeviceNotificationRequest, HubFace,
    HubPort, MotorDeviceType, MotorMoveDirection, ProgramAction, ProgramFlowRequest,
    ResponseStatus, RxMessage, SetHubNameRequest, StartFileUploadRequest,
    StartFirmwareUploadRequest, TransferChunkRequest, TunnelMessage,
};
use spike_prime::connection::DEVICE_NOTIFICATION_INTERVAL;
use spike_prime::Error;

#[test]
fn serializes_requests_without_payload() {
    assert_eq!(RxMessage::InfoRequest.serialize(), vec![0x00]);
    assert_eq!(RxMessage::GetHubNameRequest.serialize(), vec![0x18]);
    assert_eq!(RxMessage::DeviceUuidRequest.serialize(), vec![0x1a]);
}

#[test]
fn serializes_firmware_requests() {
    let mut sha = [0u8; 20];
    for (i, b) in sha.iter_mut().enumerate() {
        *b = i as u8;
    }
    let mut expected = vec![0x0a];
    expected.extend_from_slice(&sha);
    expected.extend_from_slice(&[0x78, 0x56, 0x34, 0x12]);
    let r = StartFirmwareUploadRequest { file_sha: sha, crc32: 0x12345678 };
    assert_eq!(r.clone().serialize(), expected);
    assert_eq!(RxMessage::from(r).serialize(), expected);
    expected[0] = 0x14;
    assert_eq!(
        BeginFirmwareUpdateRequest { file_sha: sha, crc32: 0x12345678 }.serialize(),
        expected
    );
}

#[test]
fn serializes_file_upload_request() {
    let r = StartFileUploadRequest { file_name: "a.py", program_slot: 3, crc32: 0xdeadbeef };
    assert_eq!(
        r.serialize(),
        vec![0x0c, b'a', b'.', b'p', b'y', 0x00, 3, 0xef, 0xbe, 0xad, 0xde]
    );
}

#[test]
fn file_upload_request_cuts_long_names() {
    let name = "abcdefghijklmnopqrstuvwxyz0123456789";
    let bytes = StartFileUploadRequest { file_name: name, program_slot: 0, crc32: 0 }.serialize();
    assert_eq!(bytes.len(), 1 + 31 + 1 + 1 + 4);
    assert_eq!(&bytes[1..32], &name.as_bytes()[..31]);
    assert_eq!(bytes[32], 0);
}

#[test]
fn serializes_transfer_chunk_request() {
    let payload = [1u8, 2, 3];
    let r = TransferChunkRequest { crc32: 0x01020304, payload: &payload };
    assert_eq!(
        r.serialize(),
        vec![0x10, 0x04, 0x03, 0x02, 0x01, 0x03, 0x00, 1, 2, 3]
    );
}

#[test]
fn transfer_chunk_request_caps_payload() {
    let payload = vec![7u8; 70000];
    let bytes = TransferChunkRequest { crc32: 0, payload: &payload }.serialize();
    assert_eq!(bytes.len(), 1 + 4 + 2 + 65535);
    assert_eq!(&bytes[5..7], &[0xff, 0xff]);
}

#[test]
fn serializes_hub_name_request() {
    assert_eq!(
        SetHubNameRequest { name: "Hub" }.serialize(),
        vec![0x16, b'H', b'u', b'b', 0x00]
    );
    let long = "x".repeat(40);
    let bytes = SetHubNameRequest { name: &long }.serialize();
    assert_eq!(bytes.len(), 1 + 29 + 1);
    assert_eq!(bytes[30], 0);
}

#[test]
fn serializes_program_requests() {
    assert_eq!(
        ProgramFlowRequest { program_action: ProgramAction::Start, program_slot: 4 }.serialize(),
        vec![0x1e, 0x00, 4]
    );
    assert_eq!(
        ProgramFlowRequest { program_action: ProgramAction::Stop, program_slot: 9 }.serialize(),
        vec![0x1e, 0x01, 9]
    );
    assert_eq!(ClearSlotRequest { program_slot: 2 }.serialize(), vec![0x46, 2]);
}

#[test]
fn serializes_tunnel_message() {
    let payload = [9u8, 8];
    assert_eq!(TunnelMessage { payload: &payload }.serialize(), vec![0x32, 2, 0, 9, 8]);
    let big = vec![1u8; 65536];
    let bytes = TunnelMessage { payload: &big }.serialize();
    assert_eq!(bytes.len(), 1 + 2 + 65535);
}

#[test]
fn serializes_device_notification_request() {
    assert_eq!(
        DeviceNotificationRequest { interval: DEVICE_NOTIFICATION_INTERVAL }.serialize(),
        vec![0x28, 10, 0]
    );
    assert_eq!(
        RxMessage::from(DeviceNotificationRequest { interval: 0x1234 }).serialize(),
        vec![0x28, 0x34, 0x12]
    );
}

#[test]
fn enum_codes_round_trip() {
    for b in 0u8..=255 {
        if let Ok(f) = HubFace::try_from(b) {
            assert_eq!(f.to_u8(), b);
        } else {
            assert!(b > 5);
        }
        if let Ok(p) = HubPort::try_from(b) {
            assert_eq!(p.to_u8(), b);
        }
        if let Ok(m) = MotorDeviceType::try_from(b) {
            assert_eq!(m.to_u8(), b);
        }
        if let Ok(c) = Color::try_from(b) {
            assert_eq!(c.to_u8(), b);
        } else {
            assert!(b > 10);
        }
    }
    assert_eq!(MotorDeviceType::try_from(0x41).unwrap(), MotorDeviceType::Small);
    assert_eq!(Color::try_from(0x0a), Ok(Color::White));
    assert_eq!(Color::try_from(0x0b), Err(()));
    assert_eq!(ResponseStatus::NotAcknowledged.to_u8(), 1);
    assert_eq!(MotorMoveDirection::LongestPath.to_u8(), 3);
    assert_eq!(ProgramAction::Stop.to_u8(), 1);
}

#[test]
fn invalid_enum_byte_is_reported() {
    match HubFace::try_from(6) {
        Err(Error::InvalidEnumValue { enum_name, value }) => {
            assert_eq!(enum_name, "HubFace");
            assert_eq!(value, 6);
        }
        other => panic!("unexpected {other:?}"),
    }
    assert!(matches!(
        HubPort::try_from(0x10),
        Err(Error::InvalidEnumValue { enum_name: "HubPort", value: 0x10 })
    ));
    assert!(matches!(
        MotorDeviceType::try_from(0x32),
        Err(Error::InvalidEnumValue { enum_name: "MotorDeviceType", value: 0x32 })
    ));
}
