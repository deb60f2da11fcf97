//! What a connection to the hub decides: the limits the hub announces, the
//! packets a message is sent in, and what the hub's replies mean.
use crate::connection::framing::{encode_message, spec_encode};
use crate::connection::message::{ResponseStatus, RxMessage, TxMessage};
use crate::error::{Error, Result};
use vstd::prelude::*;

pub mod checksum;
pub mod filter;
pub mod framing;
pub mod message;

verus! {

/// The interval, in milliseconds, at which the hub is asked to send device
/// notifications.
pub const DEVICE_NOTIFICATION_INTERVAL: u16 = 10;

/// The UUID, most significant byte first, of the characteristic that the
/// hub receives on (RX from the hub's side).
pub const RX_CHARACTERISTIC: [u8; 16] = [
    0x00, 0x00, 0xFD, 0x02, 0x00, 0x01, 0x10, 0x00, 0x80, 0x00, 0x00, 0x80, 0x5F, 0x9B, 0x34, 0xFB,
];

/// The UUID, most significant byte first, of the characteristic that the
/// hub sends on (TX from the hub's side).
pub const TX_CHARACTERISTIC: [u8; 16] = [
    0x00, 0x00, 0xFD, 0x02, 0x00, 0x02, 0x10, 0x00, 0x80, 0x00, 0x00, 0x80, 0x5F, 0x9B, 0x34, 0xFB,
];

/// The last position of `id` among `ids`, if it occurs.
pub open spec fn last_index_of(ids: Seq<[u8; 16]>, id: [u8; 16]) -> Option<int>
    decreases ids.len(),
{
    if ids.len() == 0 {
        None
    } else if ids.last()@ == id@ {
        Some(ids.len() - 1)
    } else {
        last_index_of(ids.drop_last(), id)
    }
}

proof fn lemma_last_index_bound(ids: Seq<[u8; 16]>, id: [u8; 16])
    ensures
        last_index_of(ids, id) is Some ==> 0 <= last_index_of(ids, id).unwrap() < ids.len(),
    decreases ids.len(),
{
    if ids.len() > 0 {
        lemma_last_index_bound(ids.drop_last(), id);
    }
}

fn same_id(a: &[u8; 16], b: &[u8; 16]) -> (r: bool)
    ensures
        r == (a@ == b@),
{
    let mut i: usize = 0;
    while i < 16
        invariant
            i <= 16,
            a@.len() == 16,
            b@.len() == 16,
            forall|k: int| 0 <= k < i ==> a@[k] == b@[k],
        decreases 16 - i,
    {
        if a[i] != b[i] {
            return false;
        }
        i = i + 1;
    }
    assert(a@ =~= b@);
    true
}

/// Among the UUIDs of a device's characteristics, the positions of the
/// hub's RX and TX characteristics (the last of each where one occurs more
/// than once); a device that lacks either is not a SPIKE Prime hub.
pub fn find_characteristics(ids: &[[u8; 16]]) -> (r: Result<(usize, usize)>)
    ensures
        match (last_index_of(ids@, RX_CHARACTERISTIC), last_index_of(ids@, TX_CHARACTERISTIC)) {
            (Some(rx), Some(tx)) => r == Ok::<(usize, usize), Error>((rx as usize, tx as usize)),
            _ => r matches Err(Error::BadDevice),
        },
{
    let mut rx: Option<usize> = None;
    let mut tx: Option<usize> = None;
    let mut i: usize = 0;
    while i < ids.len()
        invariant
            i <= ids@.len(),
            rx == (match last_index_of(ids@.take(i as int), RX_CHARACTERISTIC) {
                Some(k) => Some(k as usize),
                None => None::<usize>,
            }),
            tx == (match last_index_of(ids@.take(i as int), TX_CHARACTERISTIC) {
                Some(k) => Some(k as usize),
                None => None::<usize>,
            }),
        decreases ids.len() - i,
    {
        let ghost before = ids@.take(i as int);
        assert(ids@.take(i + 1).drop_last() =~= before);
        assert(ids@.take(i + 1).last() == ids@[i as int]);
        if same_id(&ids[i], &RX_CHARACTERISTIC) {
            rx = Some(i);
        }
        if same_id(&ids[i], &TX_CHARACTERISTIC) {
            tx = Some(i);
        }
        proof {
            lemma_last_index_bound(before, RX_CHARACTERISTIC);
            lemma_last_index_bound(before, TX_CHARACTERISTIC);
        }
        i = i + 1;
    }
    assert(ids@.take(i as int) =~= ids@);
    let tx = match tx {
        Some(t) => t,
        None => return Err(Error::BadDevice),
    };
    let rx = match rx {
        Some(r) => r,
        None => return Err(Error::BadDevice),
    };
    Ok((rx, tx))
}

/// `s` cut into pieces of `n` bytes; the last piece may be shorter.
pub open spec fn chunks(s: Seq<u8>, n: nat) -> Seq<Seq<u8>>
    decreases s.len(),
{
    if s.len() == 0 || n == 0 {
        seq![]
    } else if s.len() <= n {
        seq![s]
    } else {
        seq![s.take(n as int)] + chunks(s.skip(n as int), n)
    }
}

/// Cutting `s` into pieces loses and adds nothing: the pieces, joined,
/// are `s`; none is empty, none is longer than `n`, and all but the last
/// are `n` bytes long.
pub proof fn lemma_chunks_cover(s: Seq<u8>, n: nat)
    requires
        n > 0,
    ensures
        chunks(s, n).flatten() == s,
        forall|k: int|
            0 <= k < chunks(s, n).len() ==> 0 < #[trigger] chunks(s, n)[k].len() <= n,
        forall|k: int|
            0 <= k < chunks(s, n).len() - 1 ==> #[trigger] chunks(s, n)[k].len() == n,
    decreases s.len(),
{
    let c = chunks(s, n);
    if s.len() == 0 {
    } else if s.len() <= n {
        assert(c.drop_first() =~= Seq::<Seq<u8>>::empty());
        assert(c.first() == s);
        assert(c.drop_first().flatten() =~= Seq::<u8>::empty());
        assert(c.flatten() =~= s);
    } else {
        let rest = s.skip(n as int);
        lemma_chunks_cover(rest, n);
        assert(c.drop_first() =~= chunks(rest, n));
        assert(s.take(n as int) + rest =~= s);
        assert forall|k: int| 0 <= k < c.len() implies 0 < #[trigger] c[k].len() <= n by {
            if k > 0 {
                assert(c[k] == chunks(rest, n)[k - 1]);
            }
        }
        assert forall|k: int| 0 <= k < c.len() - 1 implies #[trigger] c[k].len() == n by {
            if k > 0 {
                assert(c[k] == chunks(rest, n)[k - 1]);
            }
        }
    }
}

/// The pieces of `s`, of `n` bytes each but the last.
pub fn split_chunks(s: &[u8], n: usize) -> (r: Vec<Vec<u8>>)
    requires
        n > 0,
    ensures
        r@.map_values(|p: Vec<u8>| p@) == chunks(s@, n as nat),
{
    let mut r: Vec<Vec<u8>> = Vec::new();
    let mut i: usize = 0;
    assert(s@.skip(0) =~= s@);
    while i < s.len()
        invariant
            n > 0,
            i <= s@.len(),
            r@.map_values(|p: Vec<u8>| p@) + chunks(s@.skip(i as int), n as nat) == chunks(
                s@,
                n as nat,
            ),
        decreases s.len() - i,
    {
        let end = if s.len() - i <= n {
            s.len()
        } else {
            i + n
        };
        let piece = vstd::slice::slice_to_vec(vstd::slice::slice_subrange(s, i, end));
        let ghost rest = s@.skip(i as int);
        let ghost before = r@.map_values(|p: Vec<u8>| p@);
        r.push(piece);
        proof {
            if rest.len() <= n {
                assert(piece@ =~= rest);
                assert(s@.skip(end as int).len() == 0);
            } else {
                assert(piece@ =~= rest.take(n as int));
                assert(rest.skip(n as int) =~= s@.skip(end as int));
            }
            assert(r@.map_values(|p: Vec<u8>| p@) =~= before.push(piece@));
            assert(before.push(piece@) + chunks(s@.skip(end as int), n as nat) =~= before + chunks(
                rest,
                n as nat,
            ));
        }
        i = end;
    }
    assert(chunks(s@.skip(i as int), n as nat) =~= Seq::<Seq<u8>>::empty());
    assert(r@.map_values(|p: Vec<u8>| p@) + Seq::<Seq<u8>>::empty() =~= r@.map_values(
        |p: Vec<u8>| p@,
    ));
    r
}

/// The versions and limits a hub announces when a connection opens.
#[derive(Debug, Clone, Copy, PartialEq, Eq)]
pub struct ConnectionInfo {
    pub rpc_version: (u8, u8, u16),
    pub firmware_version: (u8, u8, u16),
    pub max_packet_size: u16,
    pub max_message_size: u16,
    pub max_chunk_size: u16,
}

impl ConnectionInfo {
    /// The limits announced by the reply to the info request, which must
    /// come from a SPIKE Prime hub.
    pub fn from_reply(reply: Result<TxMessage>) -> (r: Result<ConnectionInfo>)
        ensures
            match reply {
                Err(e) => r == Err::<ConnectionInfo, Error>(e),
                Ok(TxMessage::InfoResponse(p)) => if p.product_group_device_type != 0 {
                    r matches Err(Error::BadDevice)
                } else {
                    r == Ok::<ConnectionInfo, Error>(
                        ConnectionInfo {
                            rpc_version: (p.rpc_major, p.rpc_minor, p.rpc_build),
                            firmware_version: (
                                p.firmware_major,
                                p.firmware_minor,
                                p.firmware_build,
                            ),
                            max_packet_size: p.max_packet_size,
                            max_message_size: p.max_msg_size,
                            max_chunk_size: p.max_chunk_size,
                        },
                    )
                },
                Ok(_) => r matches Err(Error::WrongMessage),
            },
    {
        let packet = if let TxMessage::InfoResponse(r) = reply? {
            r
        } else {
            return Err(Error::WrongMessage);
        };

        let rpc_version = (packet.rpc_major, packet.rpc_minor, packet.rpc_build);
        let firmware_version = (packet.firmware_major, packet.firmware_minor, packet.firmware_build);

        if packet.product_group_device_type != 0 {
            return Err(Error::BadDevice);
        }
        Ok(
            ConnectionInfo {
                rpc_version,
                firmware_version,
                max_packet_size: packet.max_packet_size,
                max_message_size: packet.max_msg_size,
                max_chunk_size: packet.max_chunk_size,
            },
        )
    }

    /// Returns RPC Version as (major, minor, build)
    pub fn rpc_version(&self) -> (v: (u8, u8, u16))
        ensures
            v == self.rpc_version,
    {
        self.rpc_version
    }

    /// Returns Firmware Version as (major, minor, build)
    pub fn firmware_version(&self) -> (v: (u8, u8, u16))
        ensures
            v == self.firmware_version,
    {
        self.firmware_version
    }

    pub fn max_packet_size(&self) -> (v: u16)
        ensures
            v == self.max_packet_size,
    {
        self.max_packet_size
    }

    pub fn max_message_size(&self) -> (v: u16)
        ensures
            v == self.max_message_size,
    {
        self.max_message_size
    }

    pub fn max_chunk_size(&self) -> (v: u16)
        ensures
            v == self.max_chunk_size,
    {
        self.max_chunk_size
    }

    /// The packets that carry `message` to the hub: its frame, cut into
    /// pieces of the hub's packet size. A message longer than the hub's
    /// message size is refused.
    pub fn packets(&self, message: RxMessage) -> (r: Result<Vec<Vec<u8>>>)
        requires
            message.spec_serialize().len() <= self.max_message_size ==> self.max_packet_size > 0,
        ensures
            message.spec_serialize().len() > self.max_message_size ==> r matches Err(
                Error::OversizedMessage,
            ),
            message.spec_serialize().len() <= self.max_message_size ==> (r matches Ok(ps)
                && ps@.map_values(|p: Vec<u8>| p@) == chunks(
                spec_encode(message.spec_serialize()),
                self.max_packet_size as nat,
            )),
    {
        let message = message.serialize();
        if message.len() > self.max_message_size as usize {
            return Err(Error::OversizedMessage);
        }
        let bytes = encode_message(message);
        Ok(split_chunks(bytes.as_slice(), self.max_packet_size as usize))
    }
}

/// The request whose reply is awaited.
#[derive(Debug, Clone, Copy, PartialEq, Eq)]
pub enum ReplyKind {
    StartFileUpload,
    /// A chunk, starting at the given byte position of the data.
    TransferChunk(usize),
    SetHubName,
    ProgramFlow,
    ClearSlot,
    DeviceNotification,
}

impl ReplyKind {
    /// The status `m` reports, if `m` is the reply this kind of request
    /// awaits.
    pub open spec fn status_in(self, m: TxMessage) -> Option<ResponseStatus> {
        match self {
            ReplyKind::StartFileUpload => match m {
                TxMessage::StartFileUploadResponse(r) => Some(r.response_status),
                _ => None,
            },
            ReplyKind::TransferChunk(_) => match m {
                TxMessage::TransferChunkResponse(r) => Some(r.response_status),
                _ => None,
            },
            ReplyKind::SetHubName => match m {
                TxMessage::SetHubNameResponse(r) => Some(r.response_status),
                _ => None,
            },
            ReplyKind::ProgramFlow => match m {
                TxMessage::ProgramFlowResponse(r) => Some(r.response_status),
                _ => None,
            },
            ReplyKind::ClearSlot => match m {
                TxMessage::ClearSlotResponse(r) => Some(r.response_status),
                _ => None,
            },
            ReplyKind::DeviceNotification => match m {
                TxMessage::DeviceNotificationResponse(r) => Some(r.response_status),
                _ => None,
            },
        }
    }

    /// The name a refusal reports.
    pub open spec fn request_name(self) -> &'static str {
        match self {
            ReplyKind::StartFileUpload => "StartFileUploadRequest",
            ReplyKind::TransferChunk(_) => "TransferChunkRequest",
            ReplyKind::SetHubName => "SetHubNameRequest",
            ReplyKind::ProgramFlow => "ProgramFlowRequest",
            ReplyKind::ClearSlot => "ClearSlotResponse",
            ReplyKind::DeviceNotification => "DeviceNotificationRequest",
        }
    }

    /// The byte position a refusal reports.
    pub open spec fn position(self) -> Option<usize> {
        match self {
            ReplyKind::TransferChunk(i) => Some(i),
            _ => None,
        }
    }
}

/// A reply kind reads the status of exactly the response that its request
/// awaits, and takes it from that response's own `response_status` field: an
/// acknowledged response reads as acknowledged, a refused one as refused.
/// Every other message carries no status for it.
pub proof fn lemma_status_in_reads_own_status(kind: ReplyKind, m: TxMessage)
    ensures
        match (kind, m) {
            (ReplyKind::StartFileUpload, TxMessage::StartFileUploadResponse(r)) => kind.status_in(m)
                == Some(r.response_status),
            (ReplyKind::TransferChunk(_), TxMessage::TransferChunkResponse(r)) => kind.status_in(m)
                == Some(r.response_status),
            (ReplyKind::SetHubName, TxMessage::SetHubNameResponse(r)) => kind.status_in(m) == Some(
                r.response_status,
            ),
            (ReplyKind::ProgramFlow, TxMessage::ProgramFlowResponse(r)) => kind.status_in(m) == Some(
                r.response_status,
            ),
            (ReplyKind::ClearSlot, TxMessage::ClearSlotResponse(r)) => kind.status_in(m) == Some(
                r.response_status,
            ),
            (ReplyKind::DeviceNotification, TxMessage::DeviceNotificationResponse(r)) => kind.status_in(
                m,
            ) == Some(r.response_status),
            _ => kind.status_in(m) is None,
        },
        kind.status_in(m) == Some(ResponseStatus::NotAcknowledged) ==> match m {
            TxMessage::StartFileUploadResponse(r) => r.response_status is NotAcknowledged,
            TxMessage::TransferChunkResponse(r) => r.response_status is NotAcknowledged,
            TxMessage::SetHubNameResponse(r) => r.response_status is NotAcknowledged,
            TxMessage::ProgramFlowResponse(r) => r.response_status is NotAcknowledged,
            TxMessage::ClearSlotResponse(r) => r.response_status is NotAcknowledged,
            TxMessage::DeviceNotificationResponse(r) => r.response_status is NotAcknowledged,
            _ => false,
        },
{
}

/// What a refusal reports for each kind of request: the request's name, and
/// the byte position only for a chunk.
pub proof fn lemma_refusal_report(kind: ReplyKind)
    ensures
        kind is StartFileUpload ==> kind.request_name() == "StartFileUploadRequest",
        kind is TransferChunk ==> kind.request_name() == "TransferChunkRequest",
        kind is SetHubName ==> kind.request_name() == "SetHubNameRequest",
        kind is ProgramFlow ==> kind.request_name() == "ProgramFlowRequest",
        kind is ClearSlot ==> kind.request_name() == "ClearSlotResponse",
        kind is DeviceNotification ==> kind.request_name() == "DeviceNotificationRequest",
        match kind {
            ReplyKind::TransferChunk(i) => kind.position() == Some(i),
            _ => kind.position() is None,
        },
{
}

fn status_in(kind: ReplyKind, m: &TxMessage) -> (r: Option<ResponseStatus>)
    ensures
        r == kind.status_in(*m),
{
    match kind {
        ReplyKind::StartFileUpload => match m {
            TxMessage::StartFileUploadResponse(r) => Some(r.response_status),
            _ => None,
        },
        ReplyKind::TransferChunk(_) => match m {
            TxMessage::TransferChunkResponse(r) => Some(r.response_status),
            _ => None,
        },
        ReplyKind::SetHubName => match m {
            TxMessage::SetHubNameResponse(r) => Some(r.response_status),
            _ => None,
        },
        ReplyKind::ProgramFlow => match m {
            TxMessage::ProgramFlowResponse(r) => Some(r.response_status),
            _ => None,
        },
        ReplyKind::ClearSlot => match m {
            TxMessage::ClearSlotResponse(r) => Some(r.response_status),
            _ => None,
        },
        ReplyKind::DeviceNotification => match m {
            TxMessage::DeviceNotificationResponse(r) => Some(r.response_status),
            _ => None,
        },
    }
}

/// What the reply to a request means: the request went through when the
/// hub acknowledged it.
pub fn check_reply(reply: Result<TxMessage>, kind: ReplyKind) -> (r: Result<()>)
    ensures
        match reply {
            Err(e) => r == Err::<(), Error>(e),
            Ok(m) => match kind.status_in(m) {
                None => r matches Err(Error::WrongMessage),
                Some(ResponseStatus::Acknowledged) => r is Ok,
                Some(ResponseStatus::NotAcknowledged) => r == Err::<(), Error>(
                    Error::NotAcknowledged(kind.request_name(), kind.position()),
                ),
            },
        },
{
    let m = reply?;
    let status = if let Some(s) = status_in(kind, &m) {
        s
    } else {
        return Err(Error::WrongMessage);
    };
    match status {
        ResponseStatus::NotAcknowledged => {
            let (name, position) = match kind {
                ReplyKind::StartFileUpload => ("StartFileUploadRequest", None),
                ReplyKind::TransferChunk(i) => ("TransferChunkRequest", Some(i)),
                ReplyKind::SetHubName => ("SetHubNameRequest", None),
                ReplyKind::ProgramFlow => ("ProgramFlowRequest", None),
                ReplyKind::ClearSlot => ("ClearSlotResponse", None),
                ReplyKind::DeviceNotification => ("DeviceNotificationRequest", None),
            };
            Err(Error::NotAcknowledged(name, position))
        },
        ResponseStatus::Acknowledged => Ok(()),
    }
}

/// The hub's name, from the reply to the name request.
pub fn hub_name_from_reply(reply: Result<TxMessage>) -> (r: Result<String>)
    ensures
        match reply {
            Err(e) => r == Err::<String, Error>(e),
            Ok(TxMessage::GetHubNameResponse(x)) => r == Ok::<String, Error>(x.name),
            Ok(_) => r matches Err(Error::WrongMessage),
        },
{
    if let TxMessage::GetHubNameResponse(r) = reply? {
        Ok(r.name)
    } else {
        Err(Error::WrongMessage)
    }
}

/// The hub's UUID, from the reply to the UUID request.
pub fn hub_uuid_from_reply(reply: Result<TxMessage>) -> (r: Result<uuid::Uuid>)
    ensures
        match reply {
            Err(e) => r == Err::<uuid::Uuid, Error>(e),
            Ok(TxMessage::DeviceUuidResponse(x)) => r == Ok::<uuid::Uuid, Error>(x.uuid),
            Ok(_) => r matches Err(Error::WrongMessage),
        },
{
    let uuid = if let TxMessage::DeviceUuidResponse(r) = reply? {
        r.uuid
    } else {
        return Err(Error::WrongMessage);
    };
    Ok(uuid)
}

} // verus!
