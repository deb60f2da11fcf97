//! Reading received messages from their bytes.
use super::cursor::{le16, le32, signed16, signed32, signed8, ByteCursor};
use super::{
    uuid_from_bytes, uuid_of_bytes, Color, ConsoleNotification, DeviceMessage, DeviceNotification,
    GetHubNameResponse, HubFace, HubPort, MotorDeviceType, TxMessage, BeginFirmwareUpdateResponse, ClearSlotResponse,
    DeviceNotificationResponse, DeviceUuidResponse, InfoResponse, ProgramAction,
    ProgramFlowNotification, ProgramFlowResponse, ResponseStatus, SetHubNameResponse,
    StartFileUploadResponse, StartFirmwareUploadResponse, TransferChunkResponse,
};
use crate::error::{first_fault, need, Error, ParseFault, Result};
use vstd::prelude::*;
use vstd::utf8::{decode_utf8, valid_utf8};

verus! {

/// The fault, if any, of reading a response status from the front of `s`.
pub open spec fn status_fault(s: Seq<u8>) -> Option<ParseFault> {
    first_fault(
        need(s, 1),
        if ResponseStatus::from_code(s[0]) is None {
            Some(ParseFault::InvalidEnumValue { enum_name: "ResponseStatus", value: s[0] as u32 })
        } else {
            None
        },
    )
}

fn read_status(cursor: &mut ByteCursor) -> (r: Result<ResponseStatus>)
    ensures
        match r {
            Ok(v) => status_fault(old(cursor).remaining()) is None && ResponseStatus::from_code(
                old(cursor).remaining()[0],
            ) == Some(v) && old(cursor).advanced(final(cursor), 1),
            Err(e) => e.reports(status_fault(old(cursor).remaining())),
        },
{
    let b = cursor.read_u8()?;
    match b {
        0 => Ok(ResponseStatus::Acknowledged),
        1 => Ok(ResponseStatus::NotAcknowledged),
        i => Err(Error::InvalidEnumValue { enum_name: "ResponseStatus", value: i as u32 }),
    }
}

impl StartFileUploadResponse {
    pub open spec fn parse_fault(s: Seq<u8>) -> Option<ParseFault> {
        status_fault(s)
    }

    /// The response the bytes `s` hold, where they hold one.
    pub open spec fn spec_parse(s: Seq<u8>) -> StartFileUploadResponse {
        StartFileUploadResponse { response_status: ResponseStatus::from_code(s[0]).unwrap() }
    }

    pub fn deserialize(cursor: ByteCursor) -> (r: Result<Self>)
        ensures
            match r {
                Ok(v) => Self::parse_fault(cursor.remaining()) is None && v == Self::spec_parse(
                    cursor.remaining(),
                ),
                Err(e) => e.reports(Self::parse_fault(cursor.remaining())),
            },
    {
        let mut cursor = cursor;
        let response_status = read_status(&mut cursor)?;
        Ok(StartFileUploadResponse { response_status })
    }
}

impl TransferChunkResponse {
    pub open spec fn parse_fault(s: Seq<u8>) -> Option<ParseFault> {
        status_fault(s)
    }

    /// The response the bytes `s` hold, where they hold one.
    pub open spec fn spec_parse(s: Seq<u8>) -> TransferChunkResponse {
        TransferChunkResponse { response_status: ResponseStatus::from_code(s[0]).unwrap() }
    }

    pub fn deserialize(cursor: ByteCursor) -> (r: Result<Self>)
        ensures
            match r {
                Ok(v) => Self::parse_fault(cursor.remaining()) is None && v == Self::spec_parse(
                    cursor.remaining(),
                ),
                Err(e) => e.reports(Self::parse_fault(cursor.remaining())),
            },
    {
        let mut cursor = cursor;
        let response_status = read_status(&mut cursor)?;
        Ok(TransferChunkResponse { response_status })
    }
}

impl BeginFirmwareUpdateResponse {
    pub open spec fn parse_fault(s: Seq<u8>) -> Option<ParseFault> {
        status_fault(s)
    }

    /// The response the bytes `s` hold, where they hold one.
    pub open spec fn spec_parse(s: Seq<u8>) -> BeginFirmwareUpdateResponse {
        BeginFirmwareUpdateResponse { response_status: ResponseStatus::from_code(s[0]).unwrap() }
    }

    pub fn deserialize(cursor: ByteCursor) -> (r: Result<Self>)
        ensures
            match r {
                Ok(v) => Self::parse_fault(cursor.remaining()) is None && v == Self::spec_parse(
                    cursor.remaining(),
                ),
                Err(e) => e.reports(Self::parse_fault(cursor.remaining())),
            },
    {
        let mut cursor = cursor;
        let response_status = read_status(&mut cursor)?;
        Ok(BeginFirmwareUpdateResponse { response_status })
    }
}

impl SetHubNameResponse {
    pub open spec fn parse_fault(s: Seq<u8>) -> Option<ParseFault> {
        status_fault(s)
    }

    /// The response the bytes `s` hold, where they hold one.
    pub open spec fn spec_parse(s: Seq<u8>) -> SetHubNameResponse {
        SetHubNameResponse { response_status: ResponseStatus::from_code(s[0]).unwrap() }
    }

    pub fn deserialize(cursor: ByteCursor) -> (r: Result<Self>)
        ensures
            match r {
                Ok(v) => Self::parse_fault(cursor.remaining()) is None && v == Self::spec_parse(
                    cursor.remaining(),
                ),
                Err(e) => e.reports(Self::parse_fault(cursor.remaining())),
            },
    {
        let mut cursor = cursor;
        let response_status = read_status(&mut cursor)?;
        Ok(SetHubNameResponse { response_status })
    }
}

impl ProgramFlowResponse {
    pub open spec fn parse_fault(s: Seq<u8>) -> Option<ParseFault> {
        status_fault(s)
    }

    /// The response the bytes `s` hold, where they hold one.
    pub open spec fn spec_parse(s: Seq<u8>) -> ProgramFlowResponse {
        ProgramFlowResponse { response_status: ResponseStatus::from_code(s[0]).unwrap() }
    }

    pub fn deserialize(cursor: ByteCursor) -> (r: Result<Self>)
        ensures
            match r {
                Ok(v) => Self::parse_fault(cursor.remaining()) is None && v == Self::spec_parse(
                    cursor.remaining(),
                ),
                Err(e) => e.reports(Self::parse_fault(cursor.remaining())),
            },
    {
        let mut cursor = cursor;
        let response_status = read_status(&mut cursor)?;
        Ok(ProgramFlowResponse { response_status })
    }
}

impl ClearSlotResponse {
    pub open spec fn parse_fault(s: Seq<u8>) -> Option<ParseFault> {
        status_fault(s)
    }

    /// The response the bytes `s` hold, where they hold one.
    pub open spec fn spec_parse(s: Seq<u8>) -> ClearSlotResponse {
        ClearSlotResponse { response_status: ResponseStatus::from_code(s[0]).unwrap() }
    }

    pub fn deserialize(cursor: ByteCursor) -> (r: Result<Self>)
        ensures
            match r {
                Ok(v) => Self::parse_fault(cursor.remaining()) is None && v == Self::spec_parse(
                    cursor.remaining(),
                ),
                Err(e) => e.reports(Self::parse_fault(cursor.remaining())),
            },
    {
        let mut cursor = cursor;
        let response_status = read_status(&mut cursor)?;
        Ok(ClearSlotResponse { response_status })
    }
}

impl DeviceNotificationResponse {
    pub open spec fn parse_fault(s: Seq<u8>) -> Option<ParseFault> {
        status_fault(s)
    }

    /// The response the bytes `s` hold, where they hold one.
    pub open spec fn spec_parse(s: Seq<u8>) -> DeviceNotificationResponse {
        DeviceNotificationResponse { response_status: ResponseStatus::from_code(s[0]).unwrap() }
    }

    pub fn deserialize(cursor: ByteCursor) -> (r: Result<Self>)
        ensures
            match r {
                Ok(v) => Self::parse_fault(cursor.remaining()) is None && v == Self::spec_parse(
                    cursor.remaining(),
                ),
                Err(e) => e.reports(Self::parse_fault(cursor.remaining())),
            },
    {
        let mut cursor = cursor;
        let response_status = read_status(&mut cursor)?;
        Ok(DeviceNotificationResponse { response_status })
    }
}

impl InfoResponse {
    pub open spec fn parse_fault(s: Seq<u8>) -> Option<ParseFault> {
        need(s, 16)
    }

    pub open spec fn spec_parse(s: Seq<u8>) -> InfoResponse {
        InfoResponse {
            rpc_major: s[0],
            rpc_minor: s[1],
            rpc_build: le16(s, 2),
            firmware_major: s[4],
            firmware_minor: s[5],
            firmware_build: le16(s, 6),
            max_packet_size: le16(s, 8),
            max_msg_size: le16(s, 10),
            max_chunk_size: le16(s, 12),
            product_group_device_type: le16(s, 14),
        }
    }

    pub fn deserialize(cursor: ByteCursor) -> (r: Result<Self>)
        ensures
            match r {
                Ok(v) => Self::parse_fault(cursor.remaining()) is None && v == Self::spec_parse(
                    cursor.remaining(),
                ),
                Err(e) => e.reports(Self::parse_fault(cursor.remaining())),
            },
    {
        let ghost s = cursor.remaining();
        let mut cursor = cursor;
        let rpc_major = cursor.read_u8()?;
        let rpc_minor = cursor.read_u8()?;
        let rpc_build = cursor.read_u16()?;
        let firmware_major = cursor.read_u8()?;
        let firmware_minor = cursor.read_u8()?;
        let firmware_build = cursor.read_u16()?;
        let max_packet_size = cursor.read_u16()?;
        let max_msg_size = cursor.read_u16()?;
        let max_chunk_size = cursor.read_u16()?;
        let product_group_device_type = cursor.read_u16()?;

        Ok(
            InfoResponse {
                rpc_major,
                rpc_minor,
                rpc_build,
                firmware_major,
                firmware_minor,
                firmware_build,
                max_packet_size,
                max_msg_size,
                max_chunk_size,
                product_group_device_type,
            },
        )
    }
}

impl StartFirmwareUploadResponse {
    pub open spec fn parse_fault(s: Seq<u8>) -> Option<ParseFault> {
        first_fault(status_fault(s), need(s, 5))
    }

    pub open spec fn spec_parse(s: Seq<u8>) -> StartFirmwareUploadResponse {
        StartFirmwareUploadResponse {
            response_status: ResponseStatus::from_code(s[0]).unwrap(),
            already_uploaded: le32(s, 1),
        }
    }

    pub fn deserialize(cursor: ByteCursor) -> (r: Result<Self>)
        ensures
            match r {
                Ok(v) => Self::parse_fault(cursor.remaining()) is None && v == Self::spec_parse(
                    cursor.remaining(),
                ),
                Err(e) => e.reports(Self::parse_fault(cursor.remaining())),
            },
    {
        let mut cursor = cursor;
        let response_status = read_status(&mut cursor)?;
        let already_uploaded = cursor.read_u32()?;
        Ok(StartFirmwareUploadResponse { response_status, already_uploaded })
    }
}

impl ProgramFlowNotification {
    pub open spec fn parse_fault(s: Seq<u8>) -> Option<ParseFault> {
        first_fault(
            need(s, 1),
            if ProgramAction::from_code(s[0]) is None {
                Some(ParseFault::InvalidEnumValue { enum_name: "ProgramAction", value: s[0] as u32 })
            } else {
                None
            },
        )
    }

    pub open spec fn spec_parse(s: Seq<u8>) -> ProgramFlowNotification {
        ProgramFlowNotification { program_action: ProgramAction::from_code(s[0]).unwrap() }
    }

    pub fn deserialize(cursor: ByteCursor) -> (r: Result<Self>)
        ensures
            match r {
                Ok(v) => Self::parse_fault(cursor.remaining()) is None && v == Self::spec_parse(
                    cursor.remaining(),
                ),
                Err(e) => e.reports(Self::parse_fault(cursor.remaining())),
            },
    {
        let mut cursor = cursor;
        let program_action = match cursor.read_u8()? {
            0 => ProgramAction::Start,
            1 => ProgramAction::Stop,
            i => {
                return Err(Error::InvalidEnumValue { enum_name: "ProgramAction", value: i as u32 });
            },
        };
        Ok(ProgramFlowNotification { program_action })
    }
}

impl DeviceUuidResponse {
    pub open spec fn parse_fault(s: Seq<u8>) -> Option<ParseFault> {
        need(s, 16)
    }

    pub open spec fn spec_parse(s: Seq<u8>) -> DeviceUuidResponse {
        DeviceUuidResponse { uuid: uuid_of_bytes(s.take(16)) }
    }

    pub fn deserialize(cursor: ByteCursor) -> (r: Result<Self>)
        ensures
            match r {
                Ok(v) => Self::parse_fault(cursor.remaining()) is None && v == Self::spec_parse(
                    cursor.remaining(),
                ),
                Err(e) => e.reports(Self::parse_fault(cursor.remaining())),
            },
    {
        let mut cursor = cursor;
        let mut buf = [0u8; 16];
        cursor.read_exact(&mut buf)?;
        let uuid = uuid_from_bytes(buf);
        Ok(DeviceUuidResponse { uuid })
    }
}

/// The index of the first zero byte of `s`, if it has one.
pub open spec fn nul_index(s: Seq<u8>) -> Option<nat>
    decreases s.len(),
{
    if s.len() == 0 {
        None
    } else if s[0] == 0 {
        Some(0)
    } else {
        match nul_index(s.drop_first()) {
            Some(i) => Some(i + 1),
            None => None,
        }
    }
}

proof fn lemma_nul_bound(s: Seq<u8>)
    ensures
        nul_index(s) matches Some(i) ==> i < s.len(),
    decreases s.len(),
{
    if s.len() > 0 {
        lemma_nul_bound(s.drop_first());
    }
}

pub proof fn lemma_nul_index(s: Seq<u8>, k: int)
    requires
        0 <= k <= s.len(),
        forall|j: int| 0 <= j < k ==> s[j] != 0,
    ensures
        k < s.len() && s[k] == 0 ==> nul_index(s) == Some(k as nat),
        k == s.len() ==> nul_index(s) is None,
    decreases k,
{
    if k > 0 {
        lemma_nul_index(s.drop_first(), k - 1);
    }
}

/// The fault, if any, of reading NUL-terminated text from the front of `s`.
pub open spec fn text_fault(s: Seq<u8>) -> Option<ParseFault> {
    if nul_index(s) is None {
        Some(ParseFault::EndOfInput)
    } else {
        None
    }
}

/// The bytes before the first zero byte are UTF-8, where there is one.
pub open spec fn text_is_utf8(s: Seq<u8>) -> bool {
    match nul_index(s) {
        Some(i) => valid_utf8(s.take(i as int)),
        None => true,
    }
}

/// The text held by the bytes before the first zero byte of `s`.
pub open spec fn text_of(s: Seq<u8>) -> Seq<char> {
    decode_utf8(s.take(nul_index(s).unwrap() as int))
}

/// `String::from_utf8`: the text that `bytes` encode, or `None` where they
/// are not valid UTF-8.
#[verifier::external_body]
fn string_from_utf8(bytes: Vec<u8>) -> (r: Option<String>)
    ensures
        r is Some <==> valid_utf8(bytes@),
        r matches Some(s) ==> s@ == decode_utf8(bytes@),
{
    String::from_utf8(bytes).ok()
}

/// Whether the bytes before the first zero byte of `bytes` are valid
/// UTF-8; true when there is no zero byte, since no text is read then.
pub fn is_utf8_text(bytes: &[u8]) -> (b: bool)
    ensures
        b == text_is_utf8(bytes@),
{
    let mut end: usize = 0;
    while end < bytes.len() && bytes[end] != 0
        invariant
            end <= bytes@.len(),
            forall|j: int| 0 <= j < end ==> bytes@[j] != 0,
        decreases bytes.len() - end,
    {
        end = end + 1;
    }
    proof {
        lemma_nul_index(bytes@, end as int);
    }
    if end == bytes.len() {
        return true;
    }
    let prefix = vstd::slice::slice_to_vec(vstd::slice::slice_subrange(bytes, 0, end));
    string_from_utf8(prefix).is_some()
}

/// Reads NUL-terminated UTF-8 text; the NUL is read but not kept.
pub fn read_str(cursor: &mut ByteCursor) -> (r: Result<String>)
    requires
        text_is_utf8(old(cursor).remaining()),
    ensures
        match r {
            Ok(t) => text_fault(old(cursor).remaining()) is None && t@ == text_of(
                old(cursor).remaining(),
            ) && old(cursor).advanced(
                final(cursor),
                (nul_index(old(cursor).remaining()).unwrap() + 1) as int,
            ),
            Err(e) => e.reports(text_fault(old(cursor).remaining())) && final(cursor).bytes()
                == old(cursor).bytes(),
        },
{
    let ghost s = cursor.remaining();
    let ghost start = *cursor;
    let mut str: Vec<u8> = Vec::new();
    assert(start.remaining().skip(0) =~= start.remaining());
    loop
        invariant_except_break
            s == start.remaining(),
            s == old(cursor).remaining(),
            start.bytes() == old(cursor).bytes(),
            str@.len() <= s.len(),
            str@ == s.take(str@.len() as int),
            forall|j: int| 0 <= j < str@.len() ==> s[j] != 0,
            start.advanced(&*cursor, str@.len() as int),
        ensures
            s == start.remaining(),
            str@ == s.take(str@.len() as int),
            nul_index(s) == Some(str@.len()),
            start.advanced(&*cursor, str@.len() + 1 as int),
        decreases s.len() - str@.len(),
    {
        let ghost k = str@.len() as int;
        let ghost before = *cursor;
        let byte = match cursor.read_u8() {
            Ok(b) => b,
            Err(e) => {
                proof {
                    assert(before.remaining().len() == 0);
                    lemma_nul_index(s, k);
                }
                return Err(e);
            },
        };
        proof {
            assert(before.remaining() =~= s.skip(k));
            assert(byte == s[k]);
            assert(s.skip(k).skip(1) =~= s.skip(k + 1));
        }
        if byte == 0 {
            proof {
                lemma_nul_index(s, k);
            }
            break;
        }
        str.push(byte);
        proof {
            assert(str@ =~= s.take(k + 1));
        }
    }
    match string_from_utf8(str) {
        Some(text) => Ok(text),
        None => {
            proof {
                assert(false);
            }
            Ok(String::new())
        },
    }
}

impl GetHubNameResponse {
    pub fn deserialize(cursor: ByteCursor) -> (r: Result<Self>)
        requires
            text_is_utf8(cursor.remaining()),
        ensures
            match r {
                Ok(v) => text_fault(cursor.remaining()) is None && v.name@ == text_of(
                    cursor.remaining(),
                ),
                Err(e) => e.reports(text_fault(cursor.remaining())),
            },
    {
        let mut cursor = cursor;
        let name = read_str(&mut cursor)?;
        Ok(GetHubNameResponse { name })
    }
}

impl ConsoleNotification {
    pub fn deserialize(cursor: ByteCursor) -> (r: Result<Self>)
        requires
            text_is_utf8(cursor.remaining()),
        ensures
            match r {
                Ok(v) => text_fault(cursor.remaining()) is None && v.console_message@ == text_of(
                    cursor.remaining(),
                ),
                Err(e) => e.reports(text_fault(cursor.remaining())),
            },
    {
        let mut cursor = cursor;
        let console_message = read_str(&mut cursor)?;
        Ok(ConsoleNotification { console_message })
    }
}

/// The array whose elements are `s`.
pub open spec fn array_of<const N: usize>(s: Seq<u8>) -> [u8; N] {
    choose|a: [u8; N]| a@ == s
}

proof fn lemma_array_of<const N: usize>(a: [u8; N])
    ensures
        array_of::<N>(a@) == a,
{
    let b = array_of::<N>(a@);
    assert(b@ == a@);
    assert(b =~= a);
}

/// `InvalidEnumValue` for `b` read as `enum_name`, unless `known`.
pub open spec fn enum_fault(enum_name: &'static str, b: u8, known: bool) -> Option<ParseFault> {
    if known {
        None
    } else {
        Some(ParseFault::InvalidEnumValue { enum_name, value: b as u32 })
    }
}

/// The fault, if any, of reading the port byte that follows the tag.
pub open spec fn port_fault(s: Seq<u8>) -> Option<ParseFault> {
    first_fault(need(s, 2), enum_fault("HubPort", s[1], HubPort::from_code(s[1]) is Some))
}

impl DeviceMessage {
    /// The fault, if any, of reading one device message from the front of
    /// `s`; fields are read in order, and the first that fails is reported.
    pub open spec fn parse_fault(s: Seq<u8>) -> Option<ParseFault> {
        if s.len() < 1 {
            Some(ParseFault::EndOfInput)
        } else if s[0] == 0x00 {
            need(s, 2)
        } else if s[0] == 0x01 {
            first_fault(
                need(s, 2),
                first_fault(
                    enum_fault("HubFace", s[1], HubFace::from_code(s[1]) is Some),
                    first_fault(
                        need(s, 3),
                        first_fault(
                            enum_fault("HubFace", s[2], HubFace::from_code(s[2]) is Some),
                            need(s, 21),
                        ),
                    ),
                ),
            )
        } else if s[0] == 0x02 {
            need(s, 26)
        } else if s[0] == 0x0a {
            first_fault(
                port_fault(s),
                first_fault(
                    need(s, 3),
                    first_fault(
                        enum_fault(
                            "MotorDeviceType",
                            s[2],
                            MotorDeviceType::from_code(s[2]) is Some,
                        ),
                        need(s, 12),
                    ),
                ),
            )
        } else if s[0] == 0x0b {
            first_fault(
                port_fault(s),
                first_fault(need(s, 4), enum_fault("bool", s[3], s[3] == 0 || s[3] == 1)),
            )
        } else if s[0] == 0x0c {
            first_fault(port_fault(s), need(s, 9))
        } else if s[0] == 0x0d {
            first_fault(port_fault(s), need(s, 4))
        } else if s[0] == 0x0e {
            first_fault(port_fault(s), need(s, 11))
        } else {
            Some(ParseFault::UnknownMessage)
        }
    }

    /// How many bytes one device message at the front of `s` takes.
    pub open spec fn wire_len(s: Seq<u8>) -> nat {
        if s[0] == 0x00 {
            2
        } else if s[0] == 0x01 {
            21
        } else if s[0] == 0x02 {
            26
        } else if s[0] == 0x0a {
            12
        } else if s[0] == 0x0b {
            4
        } else if s[0] == 0x0c {
            9
        } else if s[0] == 0x0d {
            4
        } else if s[0] == 0x0e {
            11
        } else {
            1
        }
    }

    /// The device message at the front of `s`, where there is one.
    pub open spec fn spec_parse(s: Seq<u8>) -> DeviceMessage {
        if s[0] == 0x00 {
            DeviceMessage::DeviceBattery(s[1])
        } else if s[0] == 0x01 {
            DeviceMessage::DeviceImuValues {
                up_face: HubFace::from_code(s[1]).unwrap(),
                yaw_face: HubFace::from_code(s[2]).unwrap(),
                yaw: signed16(le16(s, 3)),
                pitch: signed16(le16(s, 5)),
                roll: signed16(le16(s, 7)),
                accelerometer_x: signed16(le16(s, 9)),
                accelerometer_y: signed16(le16(s, 11)),
                accelerometer_z: signed16(le16(s, 13)),
                gyroscope_x: signed16(le16(s, 15)),
                gyroscope_y: signed16(le16(s, 17)),
                gyroscope_z: signed16(le16(s, 19)),
            }
        } else if s[0] == 0x02 {
            DeviceMessage::Device5x5MatrixDisplay(array_of::<25>(s.subrange(1, 26)))
        } else if s[0] == 0x0a {
            DeviceMessage::DeviceMotor {
                port: HubPort::from_code(s[1]).unwrap(),
                motor_device_type: MotorDeviceType::from_code(s[2]).unwrap(),
                absolute_position: signed16(le16(s, 3)),
                power: signed16(le16(s, 5)),
                speed: signed8(s[7]),
                position: signed32(le32(s, 8)),
            }
        } else if s[0] == 0x0b {
            DeviceMessage::DeviceForceSensor {
                port: HubPort::from_code(s[1]).unwrap(),
                value: s[2],
                pressure: s[3] == 1,
            }
        } else if s[0] == 0x0c {
            DeviceMessage::DeviceColorSensor {
                port: HubPort::from_code(s[1]).unwrap(),
                color: Color::from_code(s[2]),
                red: le16(s, 3),
                green: le16(s, 5),
                blue: le16(s, 7),
            }
        } else if s[0] == 0x0d {
            DeviceMessage::DeviceDistanceSensor {
                port: HubPort::from_code(s[1]).unwrap(),
                distance: signed16(le16(s, 2)),
            }
        } else {
            DeviceMessage::Device3x3ColorMatrix {
                port: HubPort::from_code(s[1]).unwrap(),
                pixels: array_of::<9>(s.subrange(2, 11)),
            }
        }
    }

    /// Reads one device message.
    #[verifier::rlimit(100)]
    #[verifier::spinoff_prover]
    pub fn deserialize(cursor: &mut ByteCursor) -> (r: Result<Self>)
        ensures
            match r {
                Ok(m) => Self::parse_fault(old(cursor).remaining()) is None && m == Self::spec_parse(
                    old(cursor).remaining(),
                ) && old(cursor).advanced(
                    final(cursor),
                    Self::wire_len(old(cursor).remaining()) as int,
                ),
                Err(e) => e.reports(Self::parse_fault(old(cursor).remaining()))
                    && final(cursor).bytes() == old(cursor).bytes(),
            },
    {
        let ghost s = cursor.remaining();
        let ghost p0 = cursor.pos();
        let tag = cursor.read_u8()?;
        let r = match tag {
            0x00 => Ok(Self::DeviceBattery(cursor.read_u8()?)),
            0x01 => {
                let up_face = HubFace::try_from(cursor.read_u8()?)?;
                let yaw_face = HubFace::try_from(cursor.read_u8()?)?;
                Ok(
                    Self::DeviceImuValues {
                        up_face,
                        yaw_face,
                        yaw: cursor.read_i16()?,
                        pitch: cursor.read_i16()?,
                        roll: cursor.read_i16()?,
                        accelerometer_x: cursor.read_i16()?,
                        accelerometer_y: cursor.read_i16()?,
                        accelerometer_z: cursor.read_i16()?,
                        gyroscope_x: cursor.read_i16()?,
                        gyroscope_y: cursor.read_i16()?,
                        gyroscope_z: cursor.read_i16()?,
                    },
                )
            },
            0x02 => {
                let mut buf = [0u8; 25];
                cursor.read_exact(&mut buf)?;
                proof {
                    lemma_array_of::<25>(buf);
                    assert(buf@ =~= s.subrange(1, 26));
                }
                Ok(Self::Device5x5MatrixDisplay(buf))
            },
            0x0a => {
                let port = HubPort::try_from(cursor.read_u8()?)?;
                let motor_device_type = MotorDeviceType::try_from(cursor.read_u8()?)?;
                Ok(
                    Self::DeviceMotor {
                        port,
                        motor_device_type,
                        absolute_position: cursor.read_i16()?,
                        power: cursor.read_i16()?,
                        speed: cursor.read_i8()?,
                        position: cursor.read_i32()?,
                    },
                )
            },
            0x0b => {
                let port = HubPort::try_from(cursor.read_u8()?)?;
                let value = cursor.read_u8()?;
                let pressure = match cursor.read_u8()? {
                    0x01 => true,
                    0x00 => false,
                    i => {
                        return Err(Error::InvalidEnumValue { enum_name: "bool", value: i as u32 });
                    },
                };
                Ok(Self::DeviceForceSensor { port, value, pressure })
            },
            0x0c => {
                let port = HubPort::try_from(cursor.read_u8()?)?;
                Ok(
                    Self::DeviceColorSensor {
                        port,
                        color: Color::try_from(cursor.read_u8()?).ok(),
                        red: cursor.read_u16()?,
                        green: cursor.read_u16()?,
                        blue: cursor.read_u16()?,
                    },
                )
            },
            0x0d => {
                let port = HubPort::try_from(cursor.read_u8()?)?;
                Ok(Self::DeviceDistanceSensor { port, distance: cursor.read_i16()? })
            },
            0x0e => {
                let port = HubPort::try_from(cursor.read_u8()?)?;
                let mut buf = [0u8; 9];
                cursor.read_exact(&mut buf)?;
                proof {
                    lemma_array_of::<9>(buf);
                    assert(buf@ =~= s.subrange(2, 11));
                }
                Ok(Self::Device3x3ColorMatrix { port, pixels: buf })
            },
            _ => Err(Error::UnknownMessage),
        };
        proof {
            if r is Ok {
                assert(cursor.remaining() =~= s.skip(Self::wire_len(s) as int));
            }
        }
        r
    }
}

/// The device messages read from the front of `s` while fewer than
/// `budget` bytes have been read.
pub open spec fn device_messages(s: Seq<u8>, budget: nat) -> Seq<DeviceMessage>
    decreases budget,
{
    if budget == 0 {
        seq![]
    } else {
        let n = DeviceMessage::wire_len(s);
        seq![DeviceMessage::spec_parse(s)] + device_messages(
            s.skip(n as int),
            if n >= budget {
                0
            } else {
                (budget - n) as nat
            },
        )
    }
}

/// The fault, if any, of reading device messages from the front of `s`
/// while fewer than `budget` bytes have been read.
pub open spec fn device_messages_fault(s: Seq<u8>, budget: nat) -> Option<ParseFault>
    decreases budget,
{
    if budget == 0 {
        None
    } else {
        let n = DeviceMessage::wire_len(s);
        first_fault(
            DeviceMessage::parse_fault(s),
            device_messages_fault(
                s.skip(n as int),
                if n >= budget {
                    0
                } else {
                    (budget - n) as nat
                },
            ),
        )
    }
}

impl DeviceNotification {
    /// A two-byte length, then device messages until that many bytes have
    /// been read.
    pub open spec fn parse_fault(s: Seq<u8>) -> Option<ParseFault> {
        first_fault(need(s, 2), device_messages_fault(s.skip(2), le16(s, 0) as nat))
    }

    pub open spec fn spec_payload(s: Seq<u8>) -> Seq<DeviceMessage> {
        device_messages(s.skip(2), le16(s, 0) as nat)
    }

    #[verifier::loop_isolation(false)]
    #[verifier::rlimit(50)]
    pub fn deserialize(cursor: ByteCursor) -> (r: Result<Self>)
        ensures
            match r {
                Ok(v) => Self::parse_fault(cursor.remaining()) is None && v.payload@
                    == Self::spec_payload(cursor.remaining()),
                Err(e) => e.reports(Self::parse_fault(cursor.remaining())),
            },
    {
        let ghost s = cursor.remaining();
        let mut cursor = cursor;
        let size = cursor.read_u16()?;
        let ghost s2 = cursor.remaining();
        assert(s2 =~= s.skip(2));
        let start = cursor.position();
        let mut payload: Vec<DeviceMessage> = Vec::new();
        let ghost mut budget: nat = size as nat;
        assert(payload@ + device_messages(s2, budget) =~= device_messages(s2, budget));
        assert(s2.skip(0) =~= s2);
        while cursor.position() - start < size as usize
            invariant
                cursor.pos() >= start,
                cursor.pos() - start <= s2.len(),
                cursor.remaining() == s2.skip(cursor.pos() - start),
                budget == if cursor.pos() - start >= size {
                    0
                } else {
                    size - (cursor.pos() - start)
                },
                device_messages(s2, size as nat) == payload@ + device_messages(
                    cursor.remaining(),
                    budget,
                ),
                device_messages_fault(s2, size as nat) == device_messages_fault(
                    cursor.remaining(),
                    budget,
                ),
            decreases s2.len() - (cursor.pos() - start),
        {
            let ghost before = cursor.remaining();
            let ghost n = DeviceMessage::wire_len(before);
            assert(budget > 0);
            let m = match DeviceMessage::deserialize(&mut cursor) {
                Ok(m) => m,
                Err(e) => {
                    assert(device_messages_fault(before, budget) == first_fault(
                        DeviceMessage::parse_fault(before),
                        device_messages_fault(
                            before.skip(n as int),
                            if n >= budget {
                                0
                            } else {
                                (budget - n) as nat
                            },
                        ),
                    ));
                    return Err(e);
                },
            };
            proof {
                assert(s2.skip(cursor.pos() - start - n).skip(n as int) =~= s2.skip(
                    cursor.pos() - start,
                ));
                budget = if n >= budget {
                    0
                } else {
                    (budget - n) as nat
                };
            }
            payload.push(m);
            assert(payload@ + device_messages(cursor.remaining(), budget) =~= (payload@.drop_last()
                + (seq![m] + device_messages(cursor.remaining(), budget))));
        }
        Ok(DeviceNotification { payload })
    }
}

impl TxMessage {
    /// A message that holds text holds valid UTF-8 before the text's NUL.
    pub open spec fn text_is_valid(s: Seq<u8>) -> bool {
        s.len() > 0 && (s[0] == 0x19 || s[0] == 0x21) ==> text_is_utf8(s.drop_first())
    }

    /// The fault, if any, of reading a message from `s`: its identifier,
    /// then the message that identifier names.
    pub open spec fn parse_fault(s: Seq<u8>) -> Option<ParseFault> {
        if s.len() < 1 {
            Some(ParseFault::EndOfInput)
        } else {
            let b = s.drop_first();
            if s[0] == 0x01 {
                InfoResponse::parse_fault(b)
            } else if s[0] == 0x0b {
                StartFirmwareUploadResponse::parse_fault(b)
            } else if s[0] == 0x0d {
                StartFileUploadResponse::parse_fault(b)
            } else if s[0] == 0x11 {
                TransferChunkResponse::parse_fault(b)
            } else if s[0] == 0x15 {
                BeginFirmwareUpdateResponse::parse_fault(b)
            } else if s[0] == 0x17 {
                SetHubNameResponse::parse_fault(b)
            } else if s[0] == 0x19 {
                text_fault(b)
            } else if s[0] == 0x1b {
                DeviceUuidResponse::parse_fault(b)
            } else if s[0] == 0x1f {
                ProgramFlowResponse::parse_fault(b)
            } else if s[0] == 0x20 {
                ProgramFlowNotification::parse_fault(b)
            } else if s[0] == 0x47 {
                ClearSlotResponse::parse_fault(b)
            } else if s[0] == 0x21 {
                text_fault(b)
            } else if s[0] == 0x29 {
                DeviceNotificationResponse::parse_fault(b)
            } else if s[0] == 0x3c {
                DeviceNotification::parse_fault(b)
            } else {
                Some(ParseFault::UnknownMessage)
            }
        }
    }

    /// `self` is the message that `s` holds.
    pub open spec fn is_parsed_from(self, s: Seq<u8>) -> bool {
        s.len() > 0 && {
            let b = s.drop_first();
            match self {
                TxMessage::InfoResponse(x) => s[0] == 0x01 && x == InfoResponse::spec_parse(b),
                TxMessage::StartFirmwareUploadResponse(x) => s[0] == 0x0b && x == StartFirmwareUploadResponse::spec_parse(b),
                TxMessage::StartFileUploadResponse(x) => s[0] == 0x0d && x == StartFileUploadResponse::spec_parse(b),
                TxMessage::TransferChunkResponse(x) => s[0] == 0x11 && x == TransferChunkResponse::spec_parse(b),
                TxMessage::BeginFirmwareUpdateResponse(x) => s[0] == 0x15 && x == BeginFirmwareUpdateResponse::spec_parse(b),
                TxMessage::SetHubNameResponse(x) => s[0] == 0x17 && x == SetHubNameResponse::spec_parse(b),
                TxMessage::GetHubNameResponse(x) => s[0] == 0x19 && x.name@ == text_of(b),
                TxMessage::DeviceUuidResponse(x) => s[0] == 0x1b && x == DeviceUuidResponse::spec_parse(b),
                TxMessage::ProgramFlowResponse(x) => s[0] == 0x1f && x == ProgramFlowResponse::spec_parse(b),
                TxMessage::ProgramFlowNotification(x) => s[0] == 0x20 && x == ProgramFlowNotification::spec_parse(b),
                TxMessage::ClearSlotResponse(x) => s[0] == 0x47 && x == ClearSlotResponse::spec_parse(b),
                TxMessage::ConsoleNotification(x) => s[0] == 0x21 && x.console_message@ == text_of(b),
                TxMessage::DeviceNotificationResponse(x) => s[0] == 0x29 && x == DeviceNotificationResponse::spec_parse(b),
                TxMessage::DeviceNotification(x) => s[0] == 0x3c && x.payload@ == DeviceNotification::spec_payload(b),
            }
        }
    }

    /// `r` is what reading a message from `s` gives.
    pub open spec fn outcome(s: Seq<u8>, r: Result<TxMessage>) -> bool {
        match r {
            Ok(m) => Self::parse_fault(s) is None && m.is_parsed_from(s),
            Err(e) => e.reports(Self::parse_fault(s)),
        }
    }

    pub fn deserialize(data: Vec<u8>) -> (r: Result<TxMessage>)
        requires
            Self::text_is_valid(data@),
        ensures
            Self::outcome(data@, r),
    {
        let ghost s = data@;
        let mut cursor = ByteCursor::new(data);
        let tag = cursor.read_u8()?;
        assert(cursor.remaining() =~= s.drop_first());
        match tag {
            0x01 => Ok(TxMessage::InfoResponse(InfoResponse::deserialize(cursor)?)),
            0x0b => Ok(TxMessage::StartFirmwareUploadResponse(StartFirmwareUploadResponse::deserialize(cursor)?)),
            0x0d => Ok(TxMessage::StartFileUploadResponse(StartFileUploadResponse::deserialize(cursor)?)),
            0x11 => Ok(TxMessage::TransferChunkResponse(TransferChunkResponse::deserialize(cursor)?)),
            0x15 => Ok(TxMessage::BeginFirmwareUpdateResponse(BeginFirmwareUpdateResponse::deserialize(cursor)?)),
            0x17 => Ok(TxMessage::SetHubNameResponse(SetHubNameResponse::deserialize(cursor)?)),
            0x19 => Ok(TxMessage::GetHubNameResponse(GetHubNameResponse::deserialize(cursor)?)),
            0x1b => Ok(TxMessage::DeviceUuidResponse(DeviceUuidResponse::deserialize(cursor)?)),
            0x1f => Ok(TxMessage::ProgramFlowResponse(ProgramFlowResponse::deserialize(cursor)?)),
            0x20 => Ok(TxMessage::ProgramFlowNotification(ProgramFlowNotification::deserialize(cursor)?)),
            0x47 => Ok(TxMessage::ClearSlotResponse(ClearSlotResponse::deserialize(cursor)?)),
            0x21 => Ok(TxMessage::ConsoleNotification(ConsoleNotification::deserialize(cursor)?)),
            0x29 => Ok(TxMessage::DeviceNotificationResponse(DeviceNotificationResponse::deserialize(cursor)?)),
            0x3c => Ok(TxMessage::DeviceNotification(DeviceNotification::deserialize(cursor)?)),
            _ => Err(Error::UnknownMessage),
        }
    }
}

/// The value of two bytes, least significant first, read as two's
/// complement.
pub open spec fn twos16(lo: u8, hi: u8) -> int {
    lo + 256 * hi - if hi >= 128 {
        65536int
    } else {
        0int
    }
}

/// The value of four bytes, least significant first, read as two's
/// complement.
pub open spec fn twos32(b0: u8, b1: u8, b2: u8, b3: u8) -> int {
    b0 + 256 * b1 + 65536 * b2 + 16777216 * b3 - if b3 >= 128 {
        0x1_0000_0000int
    } else {
        0int
    }
}

/// Every status reply reads its status from its first byte by the wire
/// code table: a byte of 0 or 1 is read as the status with that code, and
/// any other byte is refused as an invalid `ResponseStatus`.
pub proof fn lemma_status_replies_read_code(s: Seq<u8>)
    requires
        s.len() >= 1,
    ensures
        s[0] <= 1 ==> {
            &&& StartFileUploadResponse::parse_fault(s) is None
            &&& StartFileUploadResponse::spec_parse(s).response_status.code() == s[0]
            &&& TransferChunkResponse::parse_fault(s) is None
            &&& TransferChunkResponse::spec_parse(s).response_status.code() == s[0]
            &&& BeginFirmwareUpdateResponse::parse_fault(s) is None
            &&& BeginFirmwareUpdateResponse::spec_parse(s).response_status.code() == s[0]
            &&& SetHubNameResponse::parse_fault(s) is None
            &&& SetHubNameResponse::spec_parse(s).response_status.code() == s[0]
            &&& ProgramFlowResponse::parse_fault(s) is None
            &&& ProgramFlowResponse::spec_parse(s).response_status.code() == s[0]
            &&& ClearSlotResponse::parse_fault(s) is None
            &&& ClearSlotResponse::spec_parse(s).response_status.code() == s[0]
            &&& DeviceNotificationResponse::parse_fault(s) is None
            &&& DeviceNotificationResponse::spec_parse(s).response_status.code() == s[0]
            &&& StartFirmwareUploadResponse::spec_parse(s).response_status.code() == s[0]
            &&& (s.len() >= 5 ==> StartFirmwareUploadResponse::parse_fault(s) is None)
            &&& StartFirmwareUploadResponse::spec_parse(s).already_uploaded == s[1] + 256 * s[2]
                + 65536 * s[3] + 16777216 * s[4]
        },
        s[0] > 1 ==> {
            let f = Some(ParseFault::InvalidEnumValue { enum_name: "ResponseStatus", value: s[0] as u32 });
            &&& StartFileUploadResponse::parse_fault(s) == f
            &&& TransferChunkResponse::parse_fault(s) == f
            &&& BeginFirmwareUpdateResponse::parse_fault(s) == f
            &&& SetHubNameResponse::parse_fault(s) == f
            &&& ProgramFlowResponse::parse_fault(s) == f
            &&& ClearSlotResponse::parse_fault(s) == f
            &&& DeviceNotificationResponse::parse_fault(s) == f
            &&& StartFirmwareUploadResponse::parse_fault(s) == f
        },
{
}

/// What a successfully read device message holds, field by field, in terms
/// of its bytes: the tag selects the kind and the length it takes, enum
/// fields have the codes of their bytes, and numbers are the little-endian
/// values of theirs.
pub proof fn lemma_device_message_fields(s: Seq<u8>)
    requires
        DeviceMessage::parse_fault(s) is None,
    ensures
        s.len() >= DeviceMessage::wire_len(s),
        match DeviceMessage::spec_parse(s) {
            DeviceMessage::DeviceBattery(b) => s[0] == 0x00 && DeviceMessage::wire_len(s) == 2 && b
                == s[1],
            DeviceMessage::DeviceImuValues {
                up_face,
                yaw_face,
                yaw,
                pitch,
                roll,
                accelerometer_x,
                accelerometer_y,
                accelerometer_z,
                gyroscope_x,
                gyroscope_y,
                gyroscope_z,
            } => {
                &&& s[0] == 0x01
                &&& DeviceMessage::wire_len(s) == 21
                &&& up_face.code() == s[1]
                &&& yaw_face.code() == s[2]
                &&& yaw == twos16(s[3], s[4])
                &&& pitch == twos16(s[5], s[6])
                &&& roll == twos16(s[7], s[8])
                &&& accelerometer_x == twos16(s[9], s[10])
                &&& accelerometer_y == twos16(s[11], s[12])
                &&& accelerometer_z == twos16(s[13], s[14])
                &&& gyroscope_x == twos16(s[15], s[16])
                &&& gyroscope_y == twos16(s[17], s[18])
                &&& gyroscope_z == twos16(s[19], s[20])
            },
            DeviceMessage::Device5x5MatrixDisplay(_) => s[0] == 0x02 && DeviceMessage::wire_len(s)
                == 26,
            DeviceMessage::DeviceMotor {
                port,
                motor_device_type,
                absolute_position,
                power,
                speed,
                position,
            } => {
                &&& s[0] == 0x0a
                &&& DeviceMessage::wire_len(s) == 12
                &&& port.code() == s[1]
                &&& motor_device_type.code() == s[2]
                &&& absolute_position == twos16(s[3], s[4])
                &&& power == twos16(s[5], s[6])
                &&& speed == s[7] - if s[7] >= 128 {
                    256int
                } else {
                    0int
                }
                &&& position == twos32(s[8], s[9], s[10], s[11])
            },
            DeviceMessage::DeviceForceSensor { port, value, pressure } => {
                &&& s[0] == 0x0b
                &&& DeviceMessage::wire_len(s) == 4
                &&& port.code() == s[1]
                &&& value == s[2]
                &&& s[3] <= 1
                &&& pressure == (s[3] == 1)
            },
            DeviceMessage::DeviceColorSensor { port, color, red, green, blue } => {
                &&& s[0] == 0x0c
                &&& DeviceMessage::wire_len(s) == 9
                &&& port.code() == s[1]
                &&& (color matches Some(c) ==> c.code() == s[2])
                &&& (color is None <==> s[2] > 0x0a)
                &&& red == s[3] + 256 * s[4]
                &&& green == s[5] + 256 * s[6]
                &&& blue == s[7] + 256 * s[8]
            },
            DeviceMessage::DeviceDistanceSensor { port, distance } => {
                &&& s[0] == 0x0d
                &&& DeviceMessage::wire_len(s) == 4
                &&& port.code() == s[1]
                &&& distance == twos16(s[2], s[3])
            },
            DeviceMessage::Device3x3ColorMatrix { port, pixels: _ } => {
                &&& s[0] == 0x0e
                &&& DeviceMessage::wire_len(s) == 11
                &&& port.code() == s[1]
            },
        },
{
}

/// A device message whose tag is known, whose enum bytes are in range and
/// which is long enough is read without fault.
pub proof fn lemma_device_message_accepted(s: Seq<u8>)
    requires
        s.len() >= 1,
    ensures
        s[0] == 0x00 && s.len() >= 2 ==> DeviceMessage::parse_fault(s) is None,
        s[0] == 0x01 && s.len() >= 21 && s[1] <= 5 && s[2] <= 5 ==> DeviceMessage::parse_fault(s) is None,
        s[0] == 0x02 && s.len() >= 26 ==> DeviceMessage::parse_fault(s) is None,
        s[0] == 0x0a && s.len() >= 12 && s[1] <= 5 && (s[2] == 0x30 || s[2] == 0x31 || s[2] == 0x41)
            ==> DeviceMessage::parse_fault(s) is None,
        s[0] == 0x0b && s.len() >= 4 && s[1] <= 5 && s[3] <= 1 ==> DeviceMessage::parse_fault(s) is None,
        s[0] == 0x0c && s.len() >= 9 && s[1] <= 5 ==> DeviceMessage::parse_fault(s) is None,
        s[0] == 0x0d && s.len() >= 4 && s[1] <= 5 ==> DeviceMessage::parse_fault(s) is None,
        s[0] == 0x0e && s.len() >= 11 && s[1] <= 5 ==> DeviceMessage::parse_fault(s) is None,
{
}

/// Each kind of message the hub sends is read from the identifier the
/// protocol gives it; a status reply holds the status whose code follows
/// the identifier, and the info reply its fields in order.
pub proof fn lemma_tx_message_identifiers(s: Seq<u8>, m: TxMessage)
    requires
        TxMessage::parse_fault(s) is None,
        m.is_parsed_from(s),
    ensures
        s.len() >= 2,
        match m {
            TxMessage::InfoResponse(r) => {
                &&& s[0] == 0x01
                &&& r.rpc_major == s[1]
                &&& r.rpc_minor == s[2]
                &&& r.rpc_build == s[3] + 256 * s[4]
                &&& r.firmware_major == s[5]
                &&& r.firmware_minor == s[6]
                &&& r.firmware_build == s[7] + 256 * s[8]
                &&& r.max_packet_size == s[9] + 256 * s[10]
                &&& r.max_msg_size == s[11] + 256 * s[12]
                &&& r.max_chunk_size == s[13] + 256 * s[14]
                &&& r.product_group_device_type == s[15] + 256 * s[16]
            },
            TxMessage::StartFirmwareUploadResponse(r) => s[0] == 0x0b && r.response_status.code()
                == s[1],
            TxMessage::StartFileUploadResponse(r) => s[0] == 0x0d && r.response_status.code()
                == s[1],
            TxMessage::TransferChunkResponse(r) => s[0] == 0x11 && r.response_status.code() == s[1],
            TxMessage::BeginFirmwareUpdateResponse(r) => s[0] == 0x15 && r.response_status.code()
                == s[1],
            TxMessage::SetHubNameResponse(r) => s[0] == 0x17 && r.response_status.code() == s[1],
            TxMessage::GetHubNameResponse(_) => s[0] == 0x19,
            TxMessage::DeviceUuidResponse(r) => s[0] == 0x1b && r.uuid == uuid_of_bytes(
                s.subrange(1, 17),
            ),
            TxMessage::ProgramFlowResponse(r) => s[0] == 0x1f && r.response_status.code() == s[1],
            TxMessage::ProgramFlowNotification(r) => s[0] == 0x20 && r.program_action.code()
                == s[1],
            TxMessage::ClearSlotResponse(r) => s[0] == 0x47 && r.response_status.code() == s[1],
            TxMessage::ConsoleNotification(_) => s[0] == 0x21,
            TxMessage::DeviceNotificationResponse(r) => s[0] == 0x29 && r.response_status.code()
                == s[1],
            TxMessage::DeviceNotification(_) => s[0] == 0x3c,
        },
{
    let b = s.drop_first();
    if s[0] == 0x19 || s[0] == 0x21 {
        lemma_nul_bound(b);
    }
    if s[0] == 0x1b {
        assert(b.take(16) =~= s.subrange(1, 17));
    }
}

} // verus!
