//! Messages that can be sent to the SPIKE Prime, and received from it.
use crate::error::{Error, Result};
use vstd::prelude::*;
use vstd::std_specs::convert::{FromSpecImpl, TryFromSpec, TryFromSpecImpl};
use vstd::string::StringSliceAdditionalSpecFns;

pub mod cursor;
pub mod parse;

pub use cursor::ByteCursor;

verus! {

/// The two little-endian bytes of `x`.
pub open spec fn le_bytes_u16(x: u16) -> Seq<u8> {
    seq![(x % 256) as u8, (x / 256) as u8]
}

/// The four little-endian bytes of `x`.
pub open spec fn le_bytes_u32(x: u32) -> Seq<u8> {
    seq![
        (x % 256) as u8,
        ((x / 256) % 256) as u8,
        ((x / 65536) % 256) as u8,
        (x / 16777216) as u8,
    ]
}

fn u16_to_le_bytes(x: u16) -> (b: [u8; 2])
    ensures
        b@ == le_bytes_u16(x),
{
    let b = [(x % 256) as u8, (x / 256) as u8];
    assert(b@ =~= le_bytes_u16(x));
    b
}

fn u32_to_le_bytes(x: u32) -> (b: [u8; 4])
    ensures
        b@ == le_bytes_u32(x),
{
    let b = [
        (x % 256) as u8,
        ((x / 256) % 256) as u8,
        ((x / 65536) % 256) as u8,
        (x / 16777216) as u8,
    ];
    assert(b@ =~= le_bytes_u32(x));
    b
}

fn push_all(buf: &mut Vec<u8>, bytes: &[u8])
    ensures
        final(buf)@ == old(buf)@ + bytes@,
{
    let mut i: usize = 0;
    while i < bytes.len()
        invariant
            i <= bytes@.len(),
            buf@ == old(buf)@ + bytes@.take(i as int),
        decreases bytes.len() - i,
    {
        buf.push(bytes[i]);
        i = i + 1;
        assert(buf@ =~= old(buf)@ + bytes@.take(i as int));
    }
    assert(bytes@.take(bytes@.len() as int) =~= bytes@);
}

/// The smaller of two lengths.
pub open spec fn min_len(a: int, b: int) -> int {
    if a <= b {
        a
    } else {
        b
    }
}

/// Messages sent to the SPIKE Prime
#[derive(Debug, PartialEq, Eq, Hash, Clone)]
pub enum RxMessage<'a> {
    InfoRequest,
    StartFirmwareUploadRequest(StartFirmwareUploadRequest),
    StartFileUploadRequest(StartFileUploadRequest<'a>),
    TransferChunkRequest(TransferChunkRequest<'a>),
    BeginFirmwareUpdateRequest(BeginFirmwareUpdateRequest),
    SetHubNameRequest(SetHubNameRequest<'a>),
    GetHubNameRequest,
    DeviceUuidRequest,
    ProgramFlowRequest(ProgramFlowRequest),
    ClearSlotRequest(ClearSlotRequest),
    TunnelMessage(TunnelMessage<'a>),
    DeviceNotificationRequest(DeviceNotificationRequest),
}

impl<'a> RxMessage<'a> {
    /// The bytes of this message, as the hub reads them.
    pub open spec fn spec_serialize(self) -> Seq<u8> {
        match self {
            RxMessage::InfoRequest => seq![0x00u8],
            RxMessage::StartFirmwareUploadRequest(r) => r.spec_serialize(),
            RxMessage::StartFileUploadRequest(r) => r.spec_serialize(),
            RxMessage::TransferChunkRequest(r) => r.spec_serialize(),
            RxMessage::BeginFirmwareUpdateRequest(r) => r.spec_serialize(),
            RxMessage::SetHubNameRequest(r) => r.spec_serialize(),
            RxMessage::GetHubNameRequest => seq![0x18u8],
            RxMessage::DeviceUuidRequest => seq![0x1au8],
            RxMessage::ProgramFlowRequest(r) => r.spec_serialize(),
            RxMessage::ClearSlotRequest(r) => r.spec_serialize(),
            RxMessage::TunnelMessage(r) => r.spec_serialize(),
            RxMessage::DeviceNotificationRequest(r) => r.spec_serialize(),
        }
    }

    pub fn serialize(self) -> (bytes: Vec<u8>)
        ensures
            bytes@ == self.spec_serialize(),
    {
        match self {
            RxMessage::InfoRequest => vec![0x00],
            RxMessage::StartFirmwareUploadRequest(r) => r.serialize(),
            RxMessage::StartFileUploadRequest(r) => r.serialize(),
            RxMessage::TransferChunkRequest(r) => r.serialize(),
            RxMessage::BeginFirmwareUpdateRequest(r) => r.serialize(),
            RxMessage::SetHubNameRequest(r) => r.serialize(),
            RxMessage::GetHubNameRequest => vec![0x18],
            RxMessage::DeviceUuidRequest => vec![0x1a],
            RxMessage::ProgramFlowRequest(r) => r.serialize(),
            RxMessage::ClearSlotRequest(r) => r.serialize(),
            RxMessage::TunnelMessage(r) => r.serialize(),
            RxMessage::DeviceNotificationRequest(r) => r.serialize(),
        }
    }
}

#[derive(Debug, PartialEq, Eq, Hash, Clone)]
pub struct StartFirmwareUploadRequest {
    pub file_sha: [u8; 20],
    pub crc32: u32,
}

impl StartFirmwareUploadRequest {
    pub open spec fn spec_serialize(self) -> Seq<u8> {
        seq![0x0au8] + self.file_sha@ + le_bytes_u32(self.crc32)
    }

    pub fn serialize(self) -> (bytes: Vec<u8>)
        ensures
            bytes@ == self.spec_serialize(),
    {
        let mut buf = Vec::new();
        buf.push(0x0a);  // ID
        push_all(&mut buf, self.file_sha.as_slice());
        push_all(&mut buf, u32_to_le_bytes(self.crc32).as_slice());
        buf
    }
}

#[derive(Debug, PartialEq, Eq, Hash, Clone)]
pub struct StartFileUploadRequest<'a> {
    pub file_name: &'a str,
    pub program_slot: u8,
    pub crc32: u32,
}

impl<'a> StartFileUploadRequest<'a> {
    /// The file name is cut to its first 31 bytes and NUL-terminated.
    pub open spec fn spec_serialize(self) -> Seq<u8> {
        let name = self.file_name.spec_bytes();
        seq![0x0cu8] + name.take(min_len(31, name.len() as int)) + seq![0x00u8, self.program_slot]
            + le_bytes_u32(self.crc32)
    }

    pub fn serialize(self) -> (bytes: Vec<u8>)
        ensures
            bytes@ == self.spec_serialize(),
    {
        let mut buf = Vec::new();
        buf.push(0x0c);  // ID
        let name = self.file_name.as_bytes();
        let n = if 31 <= name.len() {
            31
        } else {
            name.len()
        };
        push_all(&mut buf, vstd::slice::slice_subrange(name, 0, n));
        buf.push(0x00);  // null-terminator
        buf.push(self.program_slot);
        push_all(&mut buf, u32_to_le_bytes(self.crc32).as_slice());
        assert(buf@ =~= self.spec_serialize());
        buf
    }
}

#[derive(Debug, PartialEq, Eq, Hash, Clone)]
pub struct TransferChunkRequest<'a> {
    pub crc32: u32,
    pub payload: &'a [u8],
}

impl<'a> TransferChunkRequest<'a> {
    /// The payload is cut to at most `u16::MAX` bytes, and its length
    /// written before it.
    pub open spec fn spec_serialize(self) -> Seq<u8> {
        let n = min_len(self.payload@.len() as int, u16::MAX as int);
        seq![0x10u8] + le_bytes_u32(self.crc32) + le_bytes_u16(n as u16) + self.payload@.take(n)
    }

    pub fn serialize(self) -> (bytes: Vec<u8>)
        ensures
            bytes@ == self.spec_serialize(),
    {
        let mut buf = Vec::new();
        buf.push(0x10);  // ID
        push_all(&mut buf, u32_to_le_bytes(self.crc32).as_slice());
        let n: usize = if self.payload.len() <= 65535 {
            self.payload.len()
        } else {
            65535
        };
        push_all(&mut buf, u16_to_le_bytes(n as u16).as_slice());
        push_all(&mut buf, vstd::slice::slice_subrange(self.payload, 0, n));
        assert(buf@ =~= self.spec_serialize());
        buf
    }
}

#[derive(Debug, PartialEq, Eq, Hash, Clone)]
pub struct BeginFirmwareUpdateRequest {
    pub file_sha: [u8; 20],
    pub crc32: u32,
}

impl BeginFirmwareUpdateRequest {
    pub open spec fn spec_serialize(self) -> Seq<u8> {
        seq![0x14u8] + self.file_sha@ + le_bytes_u32(self.crc32)
    }

    pub fn serialize(self) -> (bytes: Vec<u8>)
        ensures
            bytes@ == self.spec_serialize(),
    {
        let mut buf = Vec::new();
        buf.push(0x14);  // ID
        push_all(&mut buf, self.file_sha.as_slice());
        push_all(&mut buf, u32_to_le_bytes(self.crc32).as_slice());
        buf
    }
}

#[derive(Debug, PartialEq, Eq, Hash, Clone)]
pub struct SetHubNameRequest<'a> {
    pub name: &'a str,
}

impl<'a> SetHubNameRequest<'a> {
    /// The name is cut to its first 29 bytes and NUL-terminated.
    pub open spec fn spec_serialize(self) -> Seq<u8> {
        let name = self.name.spec_bytes();
        seq![0x16u8] + name.take(min_len(29, name.len() as int)) + seq![0x00u8]
    }

    pub fn serialize(self) -> (bytes: Vec<u8>)
        ensures
            bytes@ == self.spec_serialize(),
    {
        let mut buf = Vec::new();
        buf.push(0x16);  // ID
        let name = self.name.as_bytes();
        let n = if 29 <= name.len() {
            29
        } else {
            name.len()
        };
        push_all(&mut buf, vstd::slice::slice_subrange(name, 0, n));
        buf.push(0x00);
        assert(buf@ =~= self.spec_serialize());
        buf
    }
}

#[derive(Debug, PartialEq, Eq, Hash, Clone)]
pub struct ProgramFlowRequest {
    pub program_action: ProgramAction,
    pub program_slot: u8,
}

impl ProgramFlowRequest {
    pub open spec fn spec_serialize(self) -> Seq<u8> {
        seq![0x1eu8, self.program_action.code(), self.program_slot]
    }

    pub fn serialize(self) -> (bytes: Vec<u8>)
        ensures
            bytes@ == self.spec_serialize(),
    {
        let v = vec![0x1e, self.program_action.to_u8(), self.program_slot];
        assert(v@ =~= self.spec_serialize());
        v
    }
}

#[derive(Debug, PartialEq, Eq, Hash, Clone)]
pub struct ClearSlotRequest {
    pub program_slot: u8,
}

impl ClearSlotRequest {
    pub open spec fn spec_serialize(self) -> Seq<u8> {
        seq![0x46u8, self.program_slot]
    }

    pub fn serialize(self) -> (bytes: Vec<u8>)
        ensures
            bytes@ == self.spec_serialize(),
    {
        let v = vec![0x46, self.program_slot];
        assert(v@ =~= self.spec_serialize());
        v
    }
}

#[derive(Debug, PartialEq, Eq, Hash, Clone)]
pub struct TunnelMessage<'a> {
    pub payload: &'a [u8],
}

impl<'a> TunnelMessage<'a> {
    /// The payload is cut to at most `u16::MAX` bytes, and its length
    /// written before it.
    pub open spec fn spec_serialize(self) -> Seq<u8> {
        let n = min_len(self.payload@.len() as int, u16::MAX as int);
        seq![0x32u8] + le_bytes_u16(n as u16) + self.payload@.take(n)
    }

    pub fn serialize(self) -> (bytes: Vec<u8>)
        ensures
            bytes@ == self.spec_serialize(),
    {
        let mut buf = Vec::new();
        buf.push(0x32);  // ID
        let n: usize = if self.payload.len() <= 65535 {
            self.payload.len()
        } else {
            65535
        };
        push_all(&mut buf, u16_to_le_bytes(n as u16).as_slice());
        push_all(&mut buf, vstd::slice::slice_subrange(self.payload, 0, n));
        assert(buf@ =~= self.spec_serialize());
        buf
    }
}

#[derive(Debug, PartialEq, Eq, Hash, Clone)]
pub struct DeviceNotificationRequest {
    pub interval: u16,
}

impl DeviceNotificationRequest {
    pub open spec fn spec_serialize(self) -> Seq<u8> {
        seq![0x28u8] + le_bytes_u16(self.interval)
    }

    pub fn serialize(self) -> (bytes: Vec<u8>)
        ensures
            bytes@ == self.spec_serialize(),
    {
        let mut buf = Vec::new();
        buf.push(0x28);  // ID
        push_all(&mut buf, u16_to_le_bytes(self.interval).as_slice());
        buf
    }
}

/// Messages received from the SPIKE Prime
#[derive(Debug, PartialEq, Eq, Hash, Clone)]
pub enum TxMessage {
    InfoResponse(InfoResponse),
    StartFirmwareUploadResponse(StartFirmwareUploadResponse),
    StartFileUploadResponse(StartFileUploadResponse),
    TransferChunkResponse(TransferChunkResponse),
    BeginFirmwareUpdateResponse(BeginFirmwareUpdateResponse),
    SetHubNameResponse(SetHubNameResponse),
    GetHubNameResponse(GetHubNameResponse),
    DeviceUuidResponse(DeviceUuidResponse),
    ProgramFlowResponse(ProgramFlowResponse),
    ProgramFlowNotification(ProgramFlowNotification),
    ClearSlotResponse(ClearSlotResponse),
    ConsoleNotification(ConsoleNotification),
    DeviceNotificationResponse(DeviceNotificationResponse),
    DeviceNotification(DeviceNotification),
}

#[derive(Debug, PartialEq, Eq, Hash, Clone)]
pub struct InfoResponse {
    pub rpc_major: u8,
    pub rpc_minor: u8,
    pub rpc_build: u16,
    pub firmware_major: u8,
    pub firmware_minor: u8,
    pub firmware_build: u16,
    pub max_packet_size: u16,
    pub max_msg_size: u16,
    pub max_chunk_size: u16,
    pub product_group_device_type: u16,
}

#[derive(Debug, PartialEq, Eq, Hash, Clone)]
pub struct StartFirmwareUploadResponse {
    pub response_status: ResponseStatus,
    pub already_uploaded: u32,
}

#[derive(Debug, PartialEq, Eq, Hash, Clone)]
pub struct StartFileUploadResponse {
    pub response_status: ResponseStatus,
}

#[derive(Debug, PartialEq, Eq, Hash, Clone)]
pub struct TransferChunkResponse {
    pub response_status: ResponseStatus,
}

#[derive(Debug, PartialEq, Eq, Hash, Clone)]
pub struct BeginFirmwareUpdateResponse {
    pub response_status: ResponseStatus,
}

#[derive(Debug, PartialEq, Eq, Hash, Clone)]
pub struct SetHubNameResponse {
    pub response_status: ResponseStatus,
}

#[derive(Debug, PartialEq, Eq, Hash, Clone)]
pub struct ProgramFlowResponse {
    pub response_status: ResponseStatus,
}

#[derive(Debug, PartialEq, Eq, Hash, Clone)]
pub struct ClearSlotResponse {
    pub response_status: ResponseStatus,
}

#[derive(Debug, PartialEq, Eq, Hash, Clone)]
pub struct DeviceNotificationResponse {
    pub response_status: ResponseStatus,
}

#[derive(Debug, PartialEq, Eq, Hash, Clone)]
pub struct GetHubNameResponse {
    pub name: String,
}

#[derive(Debug, PartialEq, Eq, Hash, Clone, Copy)]
pub struct DeviceUuidResponse {
    pub uuid: uuid::Uuid,
}

#[derive(Debug, PartialEq, Eq, Hash, Clone)]
pub struct ProgramFlowNotification {
    pub program_action: ProgramAction,
}

#[derive(Debug, PartialEq, Eq, Hash, Clone)]
pub struct ConsoleNotification {
    pub console_message: String,
}

#[derive(Debug, PartialEq, Eq, Hash, Clone)]
pub struct DeviceNotification {
    pub payload: Vec<DeviceMessage>,
}

#[derive(Clone, Debug, PartialEq, Eq, Hash)]
pub enum DeviceMessage {
    /// The devices's battery in percentage
    DeviceBattery(u8),
    DeviceImuValues {
        up_face: HubFace,
        yaw_face: HubFace,
        yaw: i16,
        pitch: i16,
        roll: i16,
        accelerometer_x: i16,
        accelerometer_y: i16,
        accelerometer_z: i16,
        gyroscope_x: i16,
        gyroscope_y: i16,
        gyroscope_z: i16,
    },
    /// The brightness of the pixels on the device's matrix display
    Device5x5MatrixDisplay([u8; 25]),
    DeviceMotor {
        port: HubPort,
        motor_device_type: MotorDeviceType,
        absolute_position: i16,
        power: i16,
        speed: i8,
        position: i32,
    },
    DeviceForceSensor { port: HubPort, value: u8, pressure: bool },
    DeviceColorSensor { port: HubPort, color: Option<Color>, red: u16, green: u16, blue: u16 },
    DeviceDistanceSensor { port: HubPort, distance: i16 },
    Device3x3ColorMatrix { port: HubPort, pixels: [u8; 9] },
}

/// What `uuid::Uuid::from_bytes` builds from `bytes`.
pub uninterp spec fn uuid_of_bytes(bytes: Seq<u8>) -> uuid::Uuid;

/// `uuid::Uuid::from_bytes`: the UUID whose sixteen bytes, most significant
/// first, are `bytes`.
#[verifier::external_body]
pub(crate) fn uuid_from_bytes(bytes: [u8; 16]) -> (u: uuid::Uuid)
    ensures
        u == uuid_of_bytes(bytes@),
{
    uuid::Uuid::from_bytes(bytes)
}

#[derive(Copy, Clone, Debug, PartialEq, Eq, Hash)]
pub enum ProgramAction {
    Start,
    Stop,
}

impl ProgramAction {
    /// The byte that stands for this action on the wire.
    pub open spec fn code(self) -> u8 {
        match self {
            ProgramAction::Start => 0x00,
            ProgramAction::Stop => 0x01,
        }
    }

    pub fn to_u8(self) -> (b: u8)
        ensures
            b == self.code(),
    {
        match self {
            ProgramAction::Start => 0x00,
            ProgramAction::Stop => 0x01,
        }
    }

    /// The action that `b` stands for on the wire, if any.
    pub open spec fn from_code(b: u8) -> Option<ProgramAction> {
        if b == 0x00 {
            Some(ProgramAction::Start)
        } else if b == 0x01 {
            Some(ProgramAction::Stop)
        } else {
            None
        }
    }
}

/// Every `ProgramAction` is read back from its code, and every code that is
/// read stands for the value read.
pub proof fn lemma_program_action_code_roundtrip()
    ensures
        forall|v: ProgramAction| #[trigger] ProgramAction::from_code(v.code()) == Some(v),
        forall|b: u8| #[trigger] ProgramAction::from_code(b) matches Some(v) ==> v.code() == b,
{
}

#[derive(Copy, Clone, Debug, PartialEq, Eq, Hash)]
pub enum ResponseStatus {
    Acknowledged,
    NotAcknowledged,
}
impl ResponseStatus {
    /// The byte that stands for this value on the wire.
    pub open spec fn code(self) -> u8 {
        match self {
            ResponseStatus::Acknowledged => 0x00,
            ResponseStatus::NotAcknowledged => 0x01,
        }
    }

    pub fn to_u8(self) -> (b: u8)
        ensures
            b == self.code(),
    {
        match self {
            ResponseStatus::Acknowledged => 0x00,
            ResponseStatus::NotAcknowledged => 0x01,
        }
    }

    /// The value that `b` stands for on the wire, if any.
    pub open spec fn from_code(b: u8) -> Option<ResponseStatus> {
        if b == 0x00 {
            Some(ResponseStatus::Acknowledged)
        } else if b == 0x01 {
            Some(ResponseStatus::NotAcknowledged)
        } else {
            None
        }
    }
}

/// Every `ResponseStatus` is read back from its code, and every code that is read
/// stands for the value read.
pub proof fn lemma_response_status_code_roundtrip()
    ensures
        forall|v: ResponseStatus| #[trigger] ResponseStatus::from_code(v.code()) == Some(v),
        forall|b: u8| #[trigger] ResponseStatus::from_code(b) matches Some(v) ==> v.code() == b,
{
}

#[derive(Copy, Clone, Debug, PartialEq, Eq, Hash)]
pub enum HubFace {
    Top,
    Front,
    Right,
    Bottom,
    Back,
    Left,
}
impl HubFace {
    /// The byte that stands for this value on the wire.
    pub open spec fn code(self) -> u8 {
        match self {
            HubFace::Top => 0x00,
            HubFace::Front => 0x01,
            HubFace::Right => 0x02,
            HubFace::Bottom => 0x03,
            HubFace::Back => 0x04,
            HubFace::Left => 0x05,
        }
    }

    pub fn to_u8(self) -> (b: u8)
        ensures
            b == self.code(),
    {
        match self {
            HubFace::Top => 0x00,
            HubFace::Front => 0x01,
            HubFace::Right => 0x02,
            HubFace::Bottom => 0x03,
            HubFace::Back => 0x04,
            HubFace::Left => 0x05,
        }
    }

    /// The value that `b` stands for on the wire, if any.
    pub open spec fn from_code(b: u8) -> Option<HubFace> {
        if b == 0x00 {
            Some(HubFace::Top)
        } else if b == 0x01 {
            Some(HubFace::Front)
        } else if b == 0x02 {
            Some(HubFace::Right)
        } else if b == 0x03 {
            Some(HubFace::Bottom)
        } else if b == 0x04 {
            Some(HubFace::Back)
        } else if b == 0x05 {
            Some(HubFace::Left)
        } else {
            None
        }
    }

}

/// Every `HubFace` is read back from its code, and every code that is read
/// stands for the value read.
pub proof fn lemma_hub_face_code_roundtrip()
    ensures
        forall|v: HubFace| #[trigger] HubFace::from_code(v.code()) == Some(v),
        forall|b: u8| #[trigger] HubFace::from_code(b) matches Some(v) ==> v.code() == b,
{
}

#[derive(Copy, Clone, Debug, PartialEq, Eq, Hash)]
pub enum HubPort {
    A,
    B,
    C,
    D,
    E,
    F,
}
impl HubPort {
    /// The byte that stands for this value on the wire.
    pub open spec fn code(self) -> u8 {
        match self {
            HubPort::A => 0x00,
            HubPort::B => 0x01,
            HubPort::C => 0x02,
            HubPort::D => 0x03,
            HubPort::E => 0x04,
            HubPort::F => 0x05,
        }
    }

    pub fn to_u8(self) -> (b: u8)
        ensures
            b == self.code(),
    {
        match self {
            HubPort::A => 0x00,
            HubPort::B => 0x01,
            HubPort::C => 0x02,
            HubPort::D => 0x03,
            HubPort::E => 0x04,
            HubPort::F => 0x05,
        }
    }

    /// The value that `b` stands for on the wire, if any.
    pub open spec fn from_code(b: u8) -> Option<HubPort> {
        if b == 0x00 {
            Some(HubPort::A)
        } else if b == 0x01 {
            Some(HubPort::B)
        } else if b == 0x02 {
            Some(HubPort::C)
        } else if b == 0x03 {
            Some(HubPort::D)
        } else if b == 0x04 {
            Some(HubPort::E)
        } else if b == 0x05 {
            Some(HubPort::F)
        } else {
            None
        }
    }

}

/// Every `HubPort` is read back from its code, and every code that is read
/// stands for the value read.
pub proof fn lemma_hub_port_code_roundtrip()
    ensures
        forall|v: HubPort| #[trigger] HubPort::from_code(v.code()) == Some(v),
        forall|b: u8| #[trigger] HubPort::from_code(b) matches Some(v) ==> v.code() == b,
{
}

#[derive(Copy, Clone, Debug, PartialEq, Eq, Hash)]
pub enum MotorMoveDirection {
    Clockwise,
    CounterClockwise,
    ShortestPath,
    LongestPath,
}
impl MotorMoveDirection {
    /// The byte that stands for this value on the wire.
    pub open spec fn code(self) -> u8 {
        match self {
            MotorMoveDirection::Clockwise => 0x00,
            MotorMoveDirection::CounterClockwise => 0x01,
            MotorMoveDirection::ShortestPath => 0x02,
            MotorMoveDirection::LongestPath => 0x03,
        }
    }

    pub fn to_u8(self) -> (b: u8)
        ensures
            b == self.code(),
    {
        match self {
            MotorMoveDirection::Clockwise => 0x00,
            MotorMoveDirection::CounterClockwise => 0x01,
            MotorMoveDirection::ShortestPath => 0x02,
            MotorMoveDirection::LongestPath => 0x03,
        }
    }

    /// The value that `b` stands for on the wire, if any.
    pub open spec fn from_code(b: u8) -> Option<MotorMoveDirection> {
        if b == 0x00 {
            Some(MotorMoveDirection::Clockwise)
        } else if b == 0x01 {
            Some(MotorMoveDirection::CounterClockwise)
        } else if b == 0x02 {
            Some(MotorMoveDirection::ShortestPath)
        } else if b == 0x03 {
            Some(MotorMoveDirection::LongestPath)
        } else {
            None
        }
    }
}

/// Every `MotorMoveDirection` is read back from its code, and every code that is read
/// stands for the value read.
pub proof fn lemma_motor_move_direction_code_roundtrip()
    ensures
        forall|v: MotorMoveDirection| #[trigger] MotorMoveDirection::from_code(v.code()) == Some(v),
        forall|b: u8| #[trigger] MotorMoveDirection::from_code(b) matches Some(v) ==> v.code() == b,
{
}

#[derive(Copy, Clone, Debug, PartialEq, Eq, Hash)]
pub enum MotorDeviceType {
    Medium,
    Large,
    Small,
}
impl MotorDeviceType {
    /// The byte that stands for this value on the wire.
    pub open spec fn code(self) -> u8 {
        match self {
            MotorDeviceType::Medium => 0x30,
            MotorDeviceType::Large => 0x31,
            MotorDeviceType::Small => 0x41,
        }
    }

    pub fn to_u8(self) -> (b: u8)
        ensures
            b == self.code(),
    {
        match self {
            MotorDeviceType::Medium => 0x30,
            MotorDeviceType::Large => 0x31,
            MotorDeviceType::Small => 0x41,
        }
    }

    /// The value that `b` stands for on the wire, if any.
    pub open spec fn from_code(b: u8) -> Option<MotorDeviceType> {
        if b == 0x30 {
            Some(MotorDeviceType::Medium)
        } else if b == 0x31 {
            Some(MotorDeviceType::Large)
        } else if b == 0x41 {
            Some(MotorDeviceType::Small)
        } else {
            None
        }
    }

}

/// Every `MotorDeviceType` is read back from its code, and every code that is read
/// stands for the value read.
pub proof fn lemma_motor_device_type_code_roundtrip()
    ensures
        forall|v: MotorDeviceType| #[trigger] MotorDeviceType::from_code(v.code()) == Some(v),
        forall|b: u8| #[trigger] MotorDeviceType::from_code(b) matches Some(v) ==> v.code() == b,
{
}

#[derive(Copy, Clone, Debug, PartialEq, Eq, Hash)]
pub enum Color {
    Black,
    Magenta,
    Purple,
    Blue,
    Azure,
    Turquoise,
    Green,
    Yellow,
    Orange,
    Red,
    White,
}
impl Color {
    /// The byte that stands for this value on the wire.
    pub open spec fn code(self) -> u8 {
        match self {
            Color::Black => 0x00,
            Color::Magenta => 0x01,
            Color::Purple => 0x02,
            Color::Blue => 0x03,
            Color::Azure => 0x04,
            Color::Turquoise => 0x05,
            Color::Green => 0x06,
            Color::Yellow => 0x07,
            Color::Orange => 0x08,
            Color::Red => 0x09,
            Color::White => 0x0a,
        }
    }

    pub fn to_u8(self) -> (b: u8)
        ensures
            b == self.code(),
    {
        match self {
            Color::Black => 0x00,
            Color::Magenta => 0x01,
            Color::Purple => 0x02,
            Color::Blue => 0x03,
            Color::Azure => 0x04,
            Color::Turquoise => 0x05,
            Color::Green => 0x06,
            Color::Yellow => 0x07,
            Color::Orange => 0x08,
            Color::Red => 0x09,
            Color::White => 0x0a,
        }
    }

    /// The value that `b` stands for on the wire, if any.
    pub open spec fn from_code(b: u8) -> Option<Color> {
        if b == 0x00 {
            Some(Color::Black)
        } else if b == 0x01 {
            Some(Color::Magenta)
        } else if b == 0x02 {
            Some(Color::Purple)
        } else if b == 0x03 {
            Some(Color::Blue)
        } else if b == 0x04 {
            Some(Color::Azure)
        } else if b == 0x05 {
            Some(Color::Turquoise)
        } else if b == 0x06 {
            Some(Color::Green)
        } else if b == 0x07 {
            Some(Color::Yellow)
        } else if b == 0x08 {
            Some(Color::Orange)
        } else if b == 0x09 {
            Some(Color::Red)
        } else if b == 0x0a {
            Some(Color::White)
        } else {
            None
        }
    }

}

/// Every `Color` is read back from its code, and every code that is read
/// stands for the value read.
pub proof fn lemma_color_code_roundtrip()
    ensures
        forall|v: Color| #[trigger] Color::from_code(v.code()) == Some(v),
        forall|b: u8| #[trigger] Color::from_code(b) matches Some(v) ==> v.code() == b,
{
}

impl<'a> From<StartFirmwareUploadRequest> for RxMessage<'a> {
    fn from(v: StartFirmwareUploadRequest) -> (m: Self) {
        RxMessage::StartFirmwareUploadRequest(v)
    }
}

impl<'a> FromSpecImpl<StartFirmwareUploadRequest> for RxMessage<'a> {
    open spec fn obeys_from_spec() -> bool {
        true
    }

    open spec fn from_spec(v: StartFirmwareUploadRequest) -> Self {
        RxMessage::StartFirmwareUploadRequest(v)
    }
}

impl<'a> From<StartFileUploadRequest<'a>> for RxMessage<'a> {
    fn from(v: StartFileUploadRequest<'a>) -> (m: Self) {
        RxMessage::StartFileUploadRequest(v)
    }
}

impl<'a> FromSpecImpl<StartFileUploadRequest<'a>> for RxMessage<'a> {
    open spec fn obeys_from_spec() -> bool {
        true
    }

    open spec fn from_spec(v: StartFileUploadRequest<'a>) -> Self {
        RxMessage::StartFileUploadRequest(v)
    }
}

impl<'a> From<TransferChunkRequest<'a>> for RxMessage<'a> {
    fn from(v: TransferChunkRequest<'a>) -> (m: Self) {
        RxMessage::TransferChunkRequest(v)
    }
}

impl<'a> FromSpecImpl<TransferChunkRequest<'a>> for RxMessage<'a> {
    open spec fn obeys_from_spec() -> bool {
        true
    }

    open spec fn from_spec(v: TransferChunkRequest<'a>) -> Self {
        RxMessage::TransferChunkRequest(v)
    }
}

impl<'a> From<BeginFirmwareUpdateRequest> for RxMessage<'a> {
    fn from(v: BeginFirmwareUpdateRequest) -> (m: Self) {
        RxMessage::BeginFirmwareUpdateRequest(v)
    }
}

impl<'a> FromSpecImpl<BeginFirmwareUpdateRequest> for RxMessage<'a> {
    open spec fn obeys_from_spec() -> bool {
        true
    }

    open spec fn from_spec(v: BeginFirmwareUpdateRequest) -> Self {
        RxMessage::BeginFirmwareUpdateRequest(v)
    }
}

impl<'a> From<SetHubNameRequest<'a>> for RxMessage<'a> {
    fn from(v: SetHubNameRequest<'a>) -> (m: Self) {
        RxMessage::SetHubNameRequest(v)
    }
}

impl<'a> FromSpecImpl<SetHubNameRequest<'a>> for RxMessage<'a> {
    open spec fn obeys_from_spec() -> bool {
        true
    }

    open spec fn from_spec(v: SetHubNameRequest<'a>) -> Self {
        RxMessage::SetHubNameRequest(v)
    }
}

impl<'a> From<ProgramFlowRequest> for RxMessage<'a> {
    fn from(v: ProgramFlowRequest) -> (m: Self) {
        RxMessage::ProgramFlowRequest(v)
    }
}

impl<'a> FromSpecImpl<ProgramFlowRequest> for RxMessage<'a> {
    open spec fn obeys_from_spec() -> bool {
        true
    }

    open spec fn from_spec(v: ProgramFlowRequest) -> Self {
        RxMessage::ProgramFlowRequest(v)
    }
}

impl<'a> From<ClearSlotRequest> for RxMessage<'a> {
    fn from(v: ClearSlotRequest) -> (m: Self) {
        RxMessage::ClearSlotRequest(v)
    }
}

impl<'a> FromSpecImpl<ClearSlotRequest> for RxMessage<'a> {
    open spec fn obeys_from_spec() -> bool {
        true
    }

    open spec fn from_spec(v: ClearSlotRequest) -> Self {
        RxMessage::ClearSlotRequest(v)
    }
}

impl<'a> From<TunnelMessage<'a>> for RxMessage<'a> {
    fn from(v: TunnelMessage<'a>) -> (m: Self) {
        RxMessage::TunnelMessage(v)
    }
}

impl<'a> FromSpecImpl<TunnelMessage<'a>> for RxMessage<'a> {
    open spec fn obeys_from_spec() -> bool {
        true
    }

    open spec fn from_spec(v: TunnelMessage<'a>) -> Self {
        RxMessage::TunnelMessage(v)
    }
}

impl<'a> From<DeviceNotificationRequest> for RxMessage<'a> {
    fn from(v: DeviceNotificationRequest) -> (m: Self) {
        RxMessage::DeviceNotificationRequest(v)
    }
}

impl<'a> FromSpecImpl<DeviceNotificationRequest> for RxMessage<'a> {
    open spec fn obeys_from_spec() -> bool {
        true
    }

    open spec fn from_spec(v: DeviceNotificationRequest) -> Self {
        RxMessage::DeviceNotificationRequest(v)
    }
}

impl From<InfoResponse> for TxMessage {
    fn from(v: InfoResponse) -> (m: Self) {
        TxMessage::InfoResponse(v)
    }
}

impl FromSpecImpl<InfoResponse> for TxMessage {
    open spec fn obeys_from_spec() -> bool {
        true
    }

    open spec fn from_spec(v: InfoResponse) -> Self {
        TxMessage::InfoResponse(v)
    }
}

impl From<StartFirmwareUploadResponse> for TxMessage {
    fn from(v: StartFirmwareUploadResponse) -> (m: Self) {
        TxMessage::StartFirmwareUploadResponse(v)
    }
}

impl FromSpecImpl<StartFirmwareUploadResponse> for TxMessage {
    open spec fn obeys_from_spec() -> bool {
        true
    }

    open spec fn from_spec(v: StartFirmwareUploadResponse) -> Self {
        TxMessage::StartFirmwareUploadResponse(v)
    }
}

impl From<StartFileUploadResponse> for TxMessage {
    fn from(v: StartFileUploadResponse) -> (m: Self) {
        TxMessage::StartFileUploadResponse(v)
    }
}

impl FromSpecImpl<StartFileUploadResponse> for TxMessage {
    open spec fn obeys_from_spec() -> bool {
        true
    }

    open spec fn from_spec(v: StartFileUploadResponse) -> Self {
        TxMessage::StartFileUploadResponse(v)
    }
}

impl From<TransferChunkResponse> for TxMessage {
    fn from(v: TransferChunkResponse) -> (m: Self) {
        TxMessage::TransferChunkResponse(v)
    }
}

impl FromSpecImpl<TransferChunkResponse> for TxMessage {
    open spec fn obeys_from_spec() -> bool {
        true
    }

    open spec fn from_spec(v: TransferChunkResponse) -> Self {
        TxMessage::TransferChunkResponse(v)
    }
}

impl From<BeginFirmwareUpdateResponse> for TxMessage {
    fn from(v: BeginFirmwareUpdateResponse) -> (m: Self) {
        TxMessage::BeginFirmwareUpdateResponse(v)
    }
}

impl FromSpecImpl<BeginFirmwareUpdateResponse> for TxMessage {
    open spec fn obeys_from_spec() -> bool {
        true
    }

    open spec fn from_spec(v: BeginFirmwareUpdateResponse) -> Self {
        TxMessage::BeginFirmwareUpdateResponse(v)
    }
}

impl From<SetHubNameResponse> for TxMessage {
    fn from(v: SetHubNameResponse) -> (m: Self) {
        TxMessage::SetHubNameResponse(v)
    }
}

impl FromSpecImpl<SetHubNameResponse> for TxMessage {
    open spec fn obeys_from_spec() -> bool {
        true
    }

    open spec fn from_spec(v: SetHubNameResponse) -> Self {
        TxMessage::SetHubNameResponse(v)
    }
}

impl From<GetHubNameResponse> for TxMessage {
    fn from(v: GetHubNameResponse) -> (m: Self) {
        TxMessage::GetHubNameResponse(v)
    }
}

impl FromSpecImpl<GetHubNameResponse> for TxMessage {
    open spec fn obeys_from_spec() -> bool {
        true
    }

    open spec fn from_spec(v: GetHubNameResponse) -> Self {
        TxMessage::GetHubNameResponse(v)
    }
}

impl From<DeviceUuidResponse> for TxMessage {
    fn from(v: DeviceUuidResponse) -> (m: Self) {
        TxMessage::DeviceUuidResponse(v)
    }
}

impl FromSpecImpl<DeviceUuidResponse> for TxMessage {
    open spec fn obeys_from_spec() -> bool {
        true
    }

    open spec fn from_spec(v: DeviceUuidResponse) -> Self {
        TxMessage::DeviceUuidResponse(v)
    }
}

impl From<ProgramFlowResponse> for TxMessage {
    fn from(v: ProgramFlowResponse) -> (m: Self) {
        TxMessage::ProgramFlowResponse(v)
    }
}

impl FromSpecImpl<ProgramFlowResponse> for TxMessage {
    open spec fn obeys_from_spec() -> bool {
        true
    }

    open spec fn from_spec(v: ProgramFlowResponse) -> Self {
        TxMessage::ProgramFlowResponse(v)
    }
}

impl From<ProgramFlowNotification> for TxMessage {
    fn from(v: ProgramFlowNotification) -> (m: Self) {
        TxMessage::ProgramFlowNotification(v)
    }
}

impl FromSpecImpl<ProgramFlowNotification> for TxMessage {
    open spec fn obeys_from_spec() -> bool {
        true
    }

    open spec fn from_spec(v: ProgramFlowNotification) -> Self {
        TxMessage::ProgramFlowNotification(v)
    }
}

impl From<ClearSlotResponse> for TxMessage {
    fn from(v: ClearSlotResponse) -> (m: Self) {
        TxMessage::ClearSlotResponse(v)
    }
}

impl FromSpecImpl<ClearSlotResponse> for TxMessage {
    open spec fn obeys_from_spec() -> bool {
        true
    }

    open spec fn from_spec(v: ClearSlotResponse) -> Self {
        TxMessage::ClearSlotResponse(v)
    }
}

impl From<ConsoleNotification> for TxMessage {
    fn from(v: ConsoleNotification) -> (m: Self) {
        TxMessage::ConsoleNotification(v)
    }
}

impl FromSpecImpl<ConsoleNotification> for TxMessage {
    open spec fn obeys_from_spec() -> bool {
        true
    }

    open spec fn from_spec(v: ConsoleNotification) -> Self {
        TxMessage::ConsoleNotification(v)
    }
}

impl From<DeviceNotificationResponse> for TxMessage {
    fn from(v: DeviceNotificationResponse) -> (m: Self) {
        TxMessage::DeviceNotificationResponse(v)
    }
}

impl FromSpecImpl<DeviceNotificationResponse> for TxMessage {
    open spec fn obeys_from_spec() -> bool {
        true
    }

    open spec fn from_spec(v: DeviceNotificationResponse) -> Self {
        TxMessage::DeviceNotificationResponse(v)
    }
}

impl From<DeviceNotification> for TxMessage {
    fn from(v: DeviceNotification) -> (m: Self) {
        TxMessage::DeviceNotification(v)
    }
}

impl FromSpecImpl<DeviceNotification> for TxMessage {
    open spec fn obeys_from_spec() -> bool {
        true
    }

    open spec fn from_spec(v: DeviceNotification) -> Self {
        TxMessage::DeviceNotification(v)
    }
}

impl TryFrom<u8> for HubFace {
    type Error = Error;

    fn try_from(value: u8) -> (r: Result<Self, Error>) {
        match value {
            0x00 => Ok(HubFace::Top),
            0x01 => Ok(HubFace::Front),
            0x02 => Ok(HubFace::Right),
            0x03 => Ok(HubFace::Bottom),
            0x04 => Ok(HubFace::Back),
            0x05 => Ok(HubFace::Left),
            _ => Err(Error::InvalidEnumValue { enum_name: "HubFace", value: value as u32 }),
        }
    }
}

impl TryFromSpecImpl<u8> for HubFace {
    open spec fn obeys_try_from_spec() -> bool {
        true
    }

    open spec fn try_from_spec(v: u8) -> Result<Self, Error> {
        match HubFace::from_code(v) {
            Some(x) => Ok(x),
            None => Err(Error::InvalidEnumValue { enum_name: "HubFace", value: v as u32 }),
        }
    }
}

impl TryFrom<u8> for HubPort {
    type Error = Error;

    fn try_from(value: u8) -> (r: Result<Self, Error>) {
        match value {
            0x00 => Ok(HubPort::A),
            0x01 => Ok(HubPort::B),
            0x02 => Ok(HubPort::C),
            0x03 => Ok(HubPort::D),
            0x04 => Ok(HubPort::E),
            0x05 => Ok(HubPort::F),
            _ => Err(Error::InvalidEnumValue { enum_name: "HubPort", value: value as u32 }),
        }
    }
}

impl TryFromSpecImpl<u8> for HubPort {
    open spec fn obeys_try_from_spec() -> bool {
        true
    }

    open spec fn try_from_spec(v: u8) -> Result<Self, Error> {
        match HubPort::from_code(v) {
            Some(x) => Ok(x),
            None => Err(Error::InvalidEnumValue { enum_name: "HubPort", value: v as u32 }),
        }
    }
}

impl TryFrom<u8> for MotorDeviceType {
    type Error = Error;

    fn try_from(value: u8) -> (r: Result<Self, Error>) {
        match value {
            0x30 => Ok(MotorDeviceType::Medium),
            0x31 => Ok(MotorDeviceType::Large),
            0x41 => Ok(MotorDeviceType::Small),
            _ => Err(Error::InvalidEnumValue { enum_name: "MotorDeviceType", value: value as u32 }),
        }
    }
}

impl TryFromSpecImpl<u8> for MotorDeviceType {
    open spec fn obeys_try_from_spec() -> bool {
        true
    }

    open spec fn try_from_spec(v: u8) -> Result<Self, Error> {
        match MotorDeviceType::from_code(v) {
            Some(x) => Ok(x),
            None => Err(Error::InvalidEnumValue { enum_name: "MotorDeviceType", value: v as u32 }),
        }
    }
}

impl TryFrom<u8> for Color {
    type Error = ();

    fn try_from(value: u8) -> (r: Result<Self, ()>) {
        match value {
            0x00 => Ok(Color::Black),
            0x01 => Ok(Color::Magenta),
            0x02 => Ok(Color::Purple),
            0x03 => Ok(Color::Blue),
            0x04 => Ok(Color::Azure),
            0x05 => Ok(Color::Turquoise),
            0x06 => Ok(Color::Green),
            0x07 => Ok(Color::Yellow),
            0x08 => Ok(Color::Orange),
            0x09 => Ok(Color::Red),
            0x0a => Ok(Color::White),
            _ => Err(()),
        }
    }
}

impl TryFromSpecImpl<u8> for Color {
    open spec fn obeys_try_from_spec() -> bool {
        true
    }

    open spec fn try_from_spec(v: u8) -> Result<Self, ()> {
        match Color::from_code(v) {
            Some(x) => Ok(x),
            None => Err(()),
        }
    }
}

/// The wire codes of `ProgramAction` that the protocol fixes: Start 0x00, Stop 0x01. Every
/// other byte stands for no `ProgramAction`.
pub proof fn lemma_program_action_code_table()
    ensures
        ProgramAction::Start.code() == 0x00,
        ProgramAction::Stop.code() == 0x01,
        ProgramAction::from_code(0x00) == Some(ProgramAction::Start),
        ProgramAction::from_code(0x01) == Some(ProgramAction::Stop),
        forall|b: u8| !(b == 0x00 || b == 0x01) ==> #[trigger] ProgramAction::from_code(b) is None,
{
}

/// The wire codes of `ResponseStatus` that the protocol fixes: Acknowledged 0x00, NotAcknowledged 0x01. Every
/// other byte stands for no `ResponseStatus`.
pub proof fn lemma_response_status_code_table()
    ensures
        ResponseStatus::Acknowledged.code() == 0x00,
        ResponseStatus::NotAcknowledged.code() == 0x01,
        ResponseStatus::from_code(0x00) == Some(ResponseStatus::Acknowledged),
        ResponseStatus::from_code(0x01) == Some(ResponseStatus::NotAcknowledged),
        forall|b: u8| !(b == 0x00 || b == 0x01) ==> #[trigger] ResponseStatus::from_code(b) is None,
{
}

/// The wire codes of `HubFace` that the protocol fixes: Top 0x00, Front 0x01, Right 0x02, Bottom 0x03, Back 0x04, Left 0x05. Every
/// other byte stands for no `HubFace`, and converting one gives the error for that byte.
pub proof fn lemma_hub_face_code_table()
    ensures
        HubFace::Top.code() == 0x00,
        HubFace::Front.code() == 0x01,
        HubFace::Right.code() == 0x02,
        HubFace::Bottom.code() == 0x03,
        HubFace::Back.code() == 0x04,
        HubFace::Left.code() == 0x05,
        HubFace::from_code(0x00) == Some(HubFace::Top),
        HubFace::from_code(0x01) == Some(HubFace::Front),
        HubFace::from_code(0x02) == Some(HubFace::Right),
        HubFace::from_code(0x03) == Some(HubFace::Bottom),
        HubFace::from_code(0x04) == Some(HubFace::Back),
        HubFace::from_code(0x05) == Some(HubFace::Left),
        forall|b: u8| !(b == 0x00 || b == 0x01 || b == 0x02 || b == 0x03 || b == 0x04 || b == 0x05) ==> #[trigger] HubFace::from_code(b) is None,
        <HubFace as TryFromSpec<u8>>::obeys_try_from_spec(),
        forall|b: u8|
            #![trigger <HubFace as TryFromSpec<u8>>::try_from_spec(b)]
            {
                let r = <HubFace as TryFromSpec<u8>>::try_from_spec(b);
                &&& r matches Ok(v) ==> v.code() == b
                &&& !(b == 0x00 || b == 0x01 || b == 0x02 || b == 0x03 || b == 0x04 || b == 0x05) ==> r == Err::<HubFace, Error>(Error::InvalidEnumValue { enum_name: "HubFace", value: b as u32 })
            },
{
}

/// The wire codes of `HubPort` that the protocol fixes: A 0x00, B 0x01, C 0x02, D 0x03, E 0x04, F 0x05. Every
/// other byte stands for no `HubPort`, and converting one gives the error for that byte.
pub proof fn lemma_hub_port_code_table()
    ensures
        HubPort::A.code() == 0x00,
        HubPort::B.code() == 0x01,
        HubPort::C.code() == 0x02,
        HubPort::D.code() == 0x03,
        HubPort::E.code() == 0x04,
        HubPort::F.code() == 0x05,
        HubPort::from_code(0x00) == Some(HubPort::A),
        HubPort::from_code(0x01) == Some(HubPort::B),
        HubPort::from_code(0x02) == Some(HubPort::C),
        HubPort::from_code(0x03) == Some(HubPort::D),
        HubPort::from_code(0x04) == Some(HubPort::E),
        HubPort::from_code(0x05) == Some(HubPort::F),
        forall|b: u8| !(b == 0x00 || b == 0x01 || b == 0x02 || b == 0x03 || b == 0x04 || b == 0x05) ==> #[trigger] HubPort::from_code(b) is None,
        <HubPort as TryFromSpec<u8>>::obeys_try_from_spec(),
        forall|b: u8|
            #![trigger <HubPort as TryFromSpec<u8>>::try_from_spec(b)]
            {
                let r = <HubPort as TryFromSpec<u8>>::try_from_spec(b);
                &&& r matches Ok(v) ==> v.code() == b
                &&& !(b == 0x00 || b == 0x01 || b == 0x02 || b == 0x03 || b == 0x04 || b == 0x05) ==> r == Err::<HubPort, Error>(Error::InvalidEnumValue { enum_name: "HubPort", value: b as u32 })
            },
{
}

/// The wire codes of `MotorMoveDirection` that the protocol fixes: Clockwise 0x00, CounterClockwise 0x01, ShortestPath 0x02, LongestPath 0x03. Every
/// other byte stands for no `MotorMoveDirection`.
pub proof fn lemma_motor_move_direction_code_table()
    ensures
        MotorMoveDirection::Clockwise.code() == 0x00,
        MotorMoveDirection::CounterClockwise.code() == 0x01,
        MotorMoveDirection::ShortestPath.code() == 0x02,
        MotorMoveDirection::LongestPath.code() == 0x03,
        MotorMoveDirection::from_code(0x00) == Some(MotorMoveDirection::Clockwise),
        MotorMoveDirection::from_code(0x01) == Some(MotorMoveDirection::CounterClockwise),
        MotorMoveDirection::from_code(0x02) == Some(MotorMoveDirection::ShortestPath),
        MotorMoveDirection::from_code(0x03) == Some(MotorMoveDirection::LongestPath),
        forall|b: u8| !(b == 0x00 || b == 0x01 || b == 0x02 || b == 0x03) ==> #[trigger] MotorMoveDirection::from_code(b) is None,
{
}

/// The wire codes of `MotorDeviceType` that the protocol fixes: Medium 0x30, Large 0x31, Small 0x41. Every
/// other byte stands for no `MotorDeviceType`, and converting one gives the error for that byte.
pub proof fn lemma_motor_device_type_code_table()
    ensures
        MotorDeviceType::Medium.code() == 0x30,
        MotorDeviceType::Large.code() == 0x31,
        MotorDeviceType::Small.code() == 0x41,
        MotorDeviceType::from_code(0x30) == Some(MotorDeviceType::Medium),
        MotorDeviceType::from_code(0x31) == Some(MotorDeviceType::Large),
        MotorDeviceType::from_code(0x41) == Some(MotorDeviceType::Small),
        forall|b: u8| !(b == 0x30 || b == 0x31 || b == 0x41) ==> #[trigger] MotorDeviceType::from_code(b) is None,
        <MotorDeviceType as TryFromSpec<u8>>::obeys_try_from_spec(),
        forall|b: u8|
            #![trigger <MotorDeviceType as TryFromSpec<u8>>::try_from_spec(b)]
            {
                let r = <MotorDeviceType as TryFromSpec<u8>>::try_from_spec(b);
                &&& r matches Ok(v) ==> v.code() == b
                &&& !(b == 0x30 || b == 0x31 || b == 0x41) ==> r == Err::<MotorDeviceType, Error>(Error::InvalidEnumValue { enum_name: "MotorDeviceType", value: b as u32 })
            },
{
}

/// The wire codes of `Color` that the protocol fixes: Black 0x00, Magenta 0x01, Purple 0x02, Blue 0x03, Azure 0x04, Turquoise 0x05, Green 0x06, Yellow 0x07, Orange 0x08, Red 0x09, White 0x0a. Every
/// other byte stands for no `Color`, and converting one gives the error for that byte.
pub proof fn lemma_color_code_table()
    ensures
        Color::Black.code() == 0x00,
        Color::Magenta.code() == 0x01,
        Color::Purple.code() == 0x02,
        Color::Blue.code() == 0x03,
        Color::Azure.code() == 0x04,
        Color::Turquoise.code() == 0x05,
        Color::Green.code() == 0x06,
        Color::Yellow.code() == 0x07,
        Color::Orange.code() == 0x08,
        Color::Red.code() == 0x09,
        Color::White.code() == 0x0a,
        Color::from_code(0x00) == Some(Color::Black),
        Color::from_code(0x01) == Some(Color::Magenta),
        Color::from_code(0x02) == Some(Color::Purple),
        Color::from_code(0x03) == Some(Color::Blue),
        Color::from_code(0x04) == Some(Color::Azure),
        Color::from_code(0x05) == Some(Color::Turquoise),
        Color::from_code(0x06) == Some(Color::Green),
        Color::from_code(0x07) == Some(Color::Yellow),
        Color::from_code(0x08) == Some(Color::Orange),
        Color::from_code(0x09) == Some(Color::Red),
        Color::from_code(0x0a) == Some(Color::White),
        forall|b: u8| !(b == 0x00 || b == 0x01 || b == 0x02 || b == 0x03 || b == 0x04 || b == 0x05 || b == 0x06 || b == 0x07 || b == 0x08 || b == 0x09 || b == 0x0a) ==> #[trigger] Color::from_code(b) is None,
        <Color as TryFromSpec<u8>>::obeys_try_from_spec(),
        forall|b: u8|
            #![trigger <Color as TryFromSpec<u8>>::try_from_spec(b)]
            {
                let r = <Color as TryFromSpec<u8>>::try_from_spec(b);
                &&& r matches Ok(v) ==> v.code() == b
                &&& !(b == 0x00 || b == 0x01 || b == 0x02 || b == 0x03 || b == 0x04 || b == 0x05 || b == 0x06 || b == 0x07 || b == 0x08 || b == 0x09 || b == 0x0a) ==> r == Err::<Color, ()>(())
            },
{
}

/// The bytes of `x`, least significant first, give `x` back.
pub proof fn lemma_le_bytes_u32_value(x: u32)
    ensures
        le_bytes_u32(x).len() == 4,
        le_bytes_u32(x)[0] + 256 * le_bytes_u32(x)[1] + 65536 * le_bytes_u32(x)[2] + 16777216
            * le_bytes_u32(x)[3] == x,
{
    let b = le_bytes_u32(x);
    assert(b[0] + 256 * b[1] + 65536 * b[2] + 16777216 * b[3] == x) by (nonlinear_arith)
        requires
            b[0] == x % 256,
            b[1] == (x / 256) % 256,
            b[2] == (x / 65536) % 256,
            b[3] == x / 16777216,
            0 <= x < 0x1_0000_0000,
    {
        assert(x == 256 * (x / 256) + x % 256);
        assert(x / 256 == 256 * (x / 65536) + (x / 256) % 256);
        assert(x / 65536 == 256 * (x / 16777216) + (x / 65536) % 256);
    }
}

/// The bytes of `x`, least significant first, give `x` back.
pub proof fn lemma_le_bytes_u16_value(x: u16)
    ensures
        le_bytes_u16(x).len() == 2,
        le_bytes_u16(x)[0] + 256 * le_bytes_u16(x)[1] == x,
{
}

/// A request wrapped as an `RxMessage` is sent exactly as the request
/// itself, and every message starts with the identifier the hub reads it
/// by; the requests with no body are that identifier alone.
pub proof fn lemma_rx_message_bytes(m: RxMessage)
    ensures
        m.spec_serialize().len() >= 1,
        match m {
            RxMessage::InfoRequest => m.spec_serialize() == seq![0x00u8],
            RxMessage::StartFirmwareUploadRequest(r) => m.spec_serialize() == r.spec_serialize() && m.spec_serialize()[0]
                == 0x0a,
            RxMessage::StartFileUploadRequest(r) => m.spec_serialize() == r.spec_serialize() && m.spec_serialize()[0]
                == 0x0c,
            RxMessage::TransferChunkRequest(r) => m.spec_serialize() == r.spec_serialize() && m.spec_serialize()[0]
                == 0x10,
            RxMessage::BeginFirmwareUpdateRequest(r) => m.spec_serialize() == r.spec_serialize() && m.spec_serialize()[0]
                == 0x14,
            RxMessage::SetHubNameRequest(r) => m.spec_serialize() == r.spec_serialize() && m.spec_serialize()[0]
                == 0x16,
            RxMessage::GetHubNameRequest => m.spec_serialize() == seq![0x18u8],
            RxMessage::DeviceUuidRequest => m.spec_serialize() == seq![0x1au8],
            RxMessage::ProgramFlowRequest(r) => m.spec_serialize() == r.spec_serialize() && m.spec_serialize()[0]
                == 0x1e,
            RxMessage::ClearSlotRequest(r) => m.spec_serialize() == r.spec_serialize() && m.spec_serialize()[0]
                == 0x46,
            RxMessage::TunnelMessage(r) => m.spec_serialize() == r.spec_serialize() && m.spec_serialize()[0]
                == 0x32,
            RxMessage::DeviceNotificationRequest(r) => m.spec_serialize() == r.spec_serialize() && m.spec_serialize()[0]
                == 0x28,
        },
{
}

/// A program flow request is the identifier, then 1 for a stop and 0 for a
/// start, then the slot.
pub proof fn lemma_program_flow_request_bytes(r: ProgramFlowRequest)
    ensures
        r.spec_serialize().len() == 3,
        r.spec_serialize()[0] == 0x1e,
        r.spec_serialize()[1] == 1 <==> r.program_action == ProgramAction::Stop,
        r.spec_serialize()[1] == 0 <==> r.program_action == ProgramAction::Start,
        r.spec_serialize()[2] == r.program_slot,
{
}

/// A clear request is the identifier and the slot.
pub proof fn lemma_clear_slot_request_bytes(r: ClearSlotRequest)
    ensures
        r.spec_serialize() == seq![0x46u8, r.program_slot],
{
}

/// The interval of a notification request is read back from its two bytes.
pub proof fn lemma_device_notification_request_bytes(r: DeviceNotificationRequest)
    ensures
        r.spec_serialize().len() == 3,
        r.spec_serialize()[0] == 0x28,
        r.spec_serialize()[1] + 256 * r.spec_serialize()[2] == r.interval,
{
    lemma_le_bytes_u16_value(r.interval);
}

/// A firmware request holds the identifier, the 20 bytes of the hash, and
/// the checksum, read back from its four bytes.
pub proof fn lemma_firmware_request_bytes(a: StartFirmwareUploadRequest, b: BeginFirmwareUpdateRequest)
    ensures
        a.spec_serialize().len() == 25,
        a.spec_serialize()[0] == 0x0a,
        a.spec_serialize().subrange(1, 21) == a.file_sha@,
        a.spec_serialize()[21] + 256 * a.spec_serialize()[22] + 65536 * a.spec_serialize()[23]
            + 16777216 * a.spec_serialize()[24] == a.crc32,
        b.spec_serialize().len() == 25,
        b.spec_serialize()[0] == 0x14,
        b.spec_serialize().subrange(1, 21) == b.file_sha@,
        b.spec_serialize()[21] + 256 * b.spec_serialize()[22] + 65536 * b.spec_serialize()[23]
            + 16777216 * b.spec_serialize()[24] == b.crc32,
{
    lemma_le_bytes_u32_value(a.crc32);
    lemma_le_bytes_u32_value(b.crc32);
    assert(a.spec_serialize().subrange(1, 21) =~= a.file_sha@);
    assert(b.spec_serialize().subrange(1, 21) =~= b.file_sha@);
}

/// A chunk request holds its checksum, then the payload length (at most
/// `u16::MAX`), then that many bytes of the payload.
pub proof fn lemma_transfer_chunk_request_bytes(r: TransferChunkRequest)
    ensures
        ({
            let s = r.spec_serialize();
            let n = s[5] + 256 * s[6];
            &&& s[0] == 0x10
            &&& s[1] + 256 * s[2] + 65536 * s[3] + 16777216 * s[4] == r.crc32
            &&& n <= r.payload@.len()
            &&& n <= 65535
            &&& (r.payload@.len() <= 65535 ==> n == r.payload@.len())
            &&& s.len() == 7 + n
            &&& s.skip(7) == r.payload@.take(n)
        }),
{
    let n = min_len(r.payload@.len() as int, u16::MAX as int);
    lemma_le_bytes_u32_value(r.crc32);
    lemma_le_bytes_u16_value(n as u16);
    assert(r.spec_serialize().skip(7) =~= r.payload@.take(n));
}

/// A tunnel message holds the payload length (at most `u16::MAX`), then
/// that many bytes of the payload.
pub proof fn lemma_tunnel_message_bytes(r: TunnelMessage)
    ensures
        ({
            let s = r.spec_serialize();
            let n = s[1] + 256 * s[2];
            &&& s[0] == 0x32
            &&& n <= r.payload@.len()
            &&& (r.payload@.len() <= 65535 ==> n == r.payload@.len())
            &&& s.len() == 3 + n
            &&& s.skip(3) == r.payload@.take(n)
        }),
{
    let n = min_len(r.payload@.len() as int, u16::MAX as int);
    lemma_le_bytes_u16_value(n as u16);
    assert(r.spec_serialize().skip(3) =~= r.payload@.take(n));
}

/// A file upload request holds the first bytes of the name (all of them
/// when there are at most 31), a zero byte, the slot, and the checksum.
pub proof fn lemma_file_upload_request_bytes(r: StartFileUploadRequest)
    ensures
        ({
            let s = r.spec_serialize();
            let name = r.file_name.spec_bytes();
            let k = s.len() - 7;
            &&& s[0] == 0x0c
            &&& 0 <= k <= 31
            &&& k <= name.len()
            &&& (name.len() <= 31 ==> k == name.len())
            &&& s.subrange(1, k + 1) == name.take(k)
            &&& s[k + 1] == 0
            &&& s[k + 2] == r.program_slot
            &&& s[k + 3] + 256 * s[k + 4] + 65536 * s[k + 5] + 16777216 * s[k + 6] == r.crc32
        }),
{
    let name = r.file_name.spec_bytes();
    let k = min_len(31, name.len() as int);
    lemma_le_bytes_u32_value(r.crc32);
    assert(r.spec_serialize().subrange(1, k + 1) =~= name.take(k));
}

/// A name request holds the first bytes of the name (all of them when
/// there are at most 29) and a closing zero byte.
pub proof fn lemma_set_hub_name_request_bytes(r: SetHubNameRequest)
    ensures
        ({
            let s = r.spec_serialize();
            let name = r.name.spec_bytes();
            let k = s.len() - 2;
            &&& s[0] == 0x16
            &&& 0 <= k <= 29
            &&& k <= name.len()
            &&& (name.len() <= 29 ==> k == name.len())
            &&& s.subrange(1, k + 1) == name.take(k)
            &&& s.last() == 0
        }),
{
    let name = r.name.spec_bytes();
    let k = min_len(29, name.len() as int);
    assert(r.spec_serialize().subrange(1, k + 1) =~= name.take(k));
}

} // verus!
