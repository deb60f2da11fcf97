use spike_prime::connection::checksum::{file_upload_request, transfer_chunks};
use spike_prime::connection::filter::{read_frame, route_frame, NotificationFilter, Routed};
use spike_prime::connection::framing::encode_message;
use spike_prime::connection::message::{
    ClearSlotResponse, ConsoleNotification, DeviceNotification, DeviceUuidResponse,
    GetHubNameResponse, InfoResponse, ProgramAction, ProgramFlowNotification, ResponseStatus,
    RxMessage, SetHubNameRequest, SetHubNameResponse, TransferChunkResponse, TxMessage,
};
use spike_prime::connection::{
    check_reply, find_characteristics, hub_name_from_reply, hub_uuid_from_reply, split_chunks,
    ConnectionInfo, ReplyKind, RX_CHARACTERISTIC, TX_CHARACTERISTIC,
};
use spike_prime::Error;

fn info(device_type: u16) -> InfoResponse {
    InfoResponse {
        rpc_major: 1,
        rpc_minor: 2,
        rpc_build: 3,
        firmware_major: 4,
        firmware_minor: 5,
        firmware_build: 6,
        max_packet_size: 20,
        max_msg_size: 30,
        max_chunk_size: 4,
        product_group_device_type: device_type,
    }
}

#[test]
fn connection_info_from_info_response() {
    let c = ConnectionInfo::from_reply(Ok(TxMessage::InfoResponse(info(0)))).unwrap();
    assert_eq!(c.rpc_version(), (1, 2, 3));
    assert_eq!(c.firmware_version(), (4, 5, 6));
    assert_eq!(c.max_packet_size(), 20);
    assert_eq!(c.max_message_size(), 30);
    assert_eq!(c.max_chunk_size(), 4);
}

#[test]
fn connection_info_refusals() {
    assert!(matches!(
        ConnectionInfo::from_reply(Ok(TxMessage::InfoResponse(info(1)))),
        Err(Error::BadDevice)
    ));
    assert!(matches!(
        ConnectionInfo::from_reply(Ok(TxMessage::ClearSlotResponse(ClearSlotResponse {
            response_status: ResponseStatus::Acknowledged
        }))),
        Err(Error::WrongMessage)
    ));
    assert!(matches!(
        ConnectionInfo::from_reply(Err(Error::UnknownMessage)),
        Err(Error::UnknownMessage)
    ));
}

fn limits(packet: u16, message: u16) -> ConnectionInfo {
    ConnectionInfo {
        rpc_version: (0, 0, 0),
        firmware_version: (0, 0, 0),
        max_packet_size: packet,
        max_message_size: message,
        max_chunk_size: 4,
    }
}

#[test]
fn packets_carry_the_frame() {
    let c = limits(3, 100);
    let msg = RxMessage::SetHubNameRequest(SetHubNameRequest { name: "Robot" });
    let frame = encode_message(msg.clone().serialize());
    let packets = c.packets(msg).unwrap();
    assert!(packets.iter().all(|p| !p.is_empty() && p.len() <= 3));
    assert_eq!(packets.concat(), frame);
    assert_eq!(packets.len(), (frame.len() + 2) / 3);
}

#[test]
fn oversized_message_is_refused() {
    let c = limits(3, 4);
    let msg = RxMessage::from(SetHubNameRequest { name: "Robot" });
    assert!(matches!(c.packets(msg), Err(Error::OversizedMessage)));
    let c = limits(0, 0);
    assert!(matches!(c.packets(RxMessage::InfoRequest), Err(Error::OversizedMessage)));
}

#[test]
fn split_chunks_cuts_evenly() {
    assert_eq!(split_chunks(&[1, 2, 3, 4, 5], 2), vec![vec![1, 2], vec![3, 4], vec![5]]);
    assert_eq!(split_chunks(&[], 2), Vec::<Vec<u8>>::new());
    assert_eq!(split_chunks(&[1, 2], 2), vec![vec![1, 2]]);
}

#[test]
fn replies_are_checked() {
    let ack = || {
        Ok(TxMessage::SetHubNameResponse(SetHubNameResponse {
            response_status: ResponseStatus::Acknowledged,
        }))
    };
    assert!(check_reply(ack(), ReplyKind::SetHubName).is_ok());
    assert!(matches!(check_reply(ack(), ReplyKind::ClearSlot), Err(Error::WrongMessage)));
    let nack = Ok(TxMessage::TransferChunkResponse(TransferChunkResponse {
        response_status: ResponseStatus::NotAcknowledged,
    }));
    assert!(matches!(
        check_reply(nack, ReplyKind::TransferChunk(168)),
        Err(Error::NotAcknowledged("TransferChunkRequest", Some(168)))
    ));
    let nack = Ok(TxMessage::ClearSlotResponse(ClearSlotResponse {
        response_status: ResponseStatus::NotAcknowledged,
    }));
    assert!(matches!(
        check_reply(nack, ReplyKind::ClearSlot),
        Err(Error::NotAcknowledged("ClearSlotResponse", None))
    ));
    assert!(matches!(
        check_reply(Err(Error::UnknownMessage), ReplyKind::ProgramFlow),
        Err(Error::UnknownMessage)
    ));
}

#[test]
fn hub_name_and_uuid_from_replies() {
    let name = hub_name_from_reply(Ok(TxMessage::GetHubNameResponse(GetHubNameResponse {
        name: "Prime".to_string(),
    })));
    assert_eq!(name.unwrap(), "Prime");
    assert!(matches!(hub_name_from_reply(Ok(TxMessage::InfoResponse(info(0)))), Err(Error::WrongMessage)));
    let id = uuid::Uuid::from_bytes([7; 16]);
    let got = hub_uuid_from_reply(Ok(TxMessage::DeviceUuidResponse(DeviceUuidResponse { uuid: id })));
    assert_eq!(got.unwrap(), id);
    assert!(matches!(hub_uuid_from_reply(Ok(TxMessage::InfoResponse(info(0)))), Err(Error::WrongMessage)));
}

#[test]
fn upload_request_checksums_padded_code() {
    let r = file_upload_request("program.py", 0, "123456789");
    assert_eq!(r.file_name, "program.py");
    assert_eq!(r.program_slot, 0);
    assert_eq!(r.crc32, 0x77d55834);
    let r = file_upload_request("p.py", 2, "print('hi')\r\n");
    assert_eq!(r.crc32, 0x68801653);
}

#[test]
fn transfer_chunks_chain_checksums() {
    let data: Vec<u8> = (0u8..10).collect();
    let plan = transfer_chunks(&data, 4);
    assert_eq!(plan.len(), 3);
    let offsets: Vec<usize> = plan.iter().map(|(o, _)| *o).collect();
    assert_eq!(offsets, vec![0, 4, 8]);
    assert_eq!(plan[0].1.payload, &[0, 1, 2, 3]);
    assert_eq!(plan[2].1.payload, &[8, 9]);
    let crcs: Vec<u32> = plan.iter().map(|(_, r)| r.crc32).collect();
    assert_eq!(crcs, vec![0x8bb98613, 0x3c127d5d, 0xa01cae5a]);
    assert!(transfer_chunks(&[], 4).is_empty());
}

#[test]
fn read_frame_decodes_and_reads() {
    let frame = encode_message(vec![0x20, 0x00]);
    match read_frame(frame) {
        Some(Ok(TxMessage::ProgramFlowNotification(n))) => {
            assert_eq!(n.program_action, ProgramAction::Start)
        }
        other => panic!("unexpected {other:?}"),
    }
    assert!(read_frame(vec![0x01, 0x02]).is_none());
    let bad_text = encode_message(vec![0x21, 0xff, 0x00]);
    assert!(read_frame(bad_text).is_none());
    assert!(matches!(read_frame(encode_message(vec![0x99])), Some(Err(Error::UnknownMessage))));
}

#[test]
fn filter_gathers_pieces_of_a_frame() {
    let frame = encode_message(vec![0x21, b'h', b'e', b'l', b'l', b'o', 0]);
    for cut in 0..frame.len() {
        let mut f = NotificationFilter::new();
        let first = f.push(frame[..cut].to_vec());
        assert!(matches!(first, Routed::Incomplete));
        match f.push(frame[cut..].to_vec()) {
            Routed::ConsoleNotification(ConsoleNotification { console_message }) => {
                assert_eq!(console_message, "hello")
            }
            other => panic!("unexpected {other:?}"),
        }
    }
}

#[test]
fn filter_routes_by_kind() {
    let mut f = NotificationFilter::new();
    match f.push(encode_message(vec![0x3c, 2, 0, 0x00, 99])) {
        Routed::DeviceNotification(DeviceNotification { payload }) => assert_eq!(payload.len(), 1),
        other => panic!("unexpected {other:?}"),
    }
    match f.push(encode_message(vec![0x20, 0x01])) {
        Routed::ProgramFlowNotification(ProgramFlowNotification { program_action }) => {
            assert_eq!(program_action, ProgramAction::Stop)
        }
        other => panic!("unexpected {other:?}"),
    }
    match f.push(encode_message(vec![0x17, 0x00])) {
        Routed::Message(Ok(TxMessage::SetHubNameResponse(r))) => {
            assert_eq!(r.response_status, ResponseStatus::Acknowledged)
        }
        other => panic!("unexpected {other:?}"),
    }
    assert!(matches!(f.push(encode_message(vec![0x17, 0x05])), Routed::Message(Err(_))));
    assert!(matches!(f.push(vec![0x01, 0x02]), Routed::Unreadable));
    assert!(matches!(route_frame(encode_message(vec![0x29, 0])), Routed::Message(Ok(_))));
}

#[test]
fn finds_hub_characteristics() {
    let other = [9u8; 16];
    assert_eq!(
        find_characteristics(&[other, TX_CHARACTERISTIC, RX_CHARACTERISTIC]).unwrap(),
        (2, 1)
    );
    assert_eq!(
        find_characteristics(&[RX_CHARACTERISTIC, TX_CHARACTERISTIC, RX_CHARACTERISTIC]).unwrap(),
        (2, 1)
    );
    assert!(matches!(find_characteristics(&[RX_CHARACTERISTIC, other]), Err(Error::BadDevice)));
    assert!(matches!(find_characteristics(&[TX_CHARACTERISTIC]), Err(Error::BadDevice)));
    assert!(matches!(find_characteristics(&[]), Err(Error::BadDevice)));
}

#[test]
fn filter_keeps_messages_in_order() {
    let first = encode_message(vec![0x21, b'a', 0]);
    let second = encode_message(vec![0x17, 0x01]);
    let third = encode_message(vec![0x21, b'b', 0]);
    let mut notifications: Vec<Vec<u8>> = Vec::new();
    for frame in [&first, &second, &third] {
        let cut = frame.len() / 2;
        notifications.push(frame[..cut].to_vec());
        notifications.push(vec![]);
        notifications.push(frame[cut..].to_vec());
    }
    let mut f = NotificationFilter::new();
    let routed: Vec<Routed> = notifications.into_iter().map(|n| f.push(n)).collect();
    let done: Vec<&Routed> = routed.iter().filter(|r| !matches!(r, Routed::Incomplete)).collect();
    assert_eq!(done.len(), 3);
    assert!(matches!(done[0], Routed::ConsoleNotification(c) if c.console_message == "a"));
    assert!(matches!(
        done[1],
        Routed::Message(Ok(TxMessage::SetHubNameResponse(r)))
            if r.response_status == ResponseStatus::NotAcknowledged
    ));
    assert!(matches!(done[2], Routed::ConsoleNotification(c) if c.console_message == "b"));
    assert!(matches!(routed[2], Routed::ConsoleNotification(_)));
}
