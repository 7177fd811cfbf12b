use vstd::prelude::*;

use crate::entity::AnswerResult;
use crate::entity::DataConnectionEventEnum;
use crate::entity::DataConnectionId;
use crate::entity::DataConnectionIdWrapper;
use crate::entity::DataConnectionStatus;
use crate::entity::DataId;
use crate::entity::DataIdWrapper;
use crate::entity::DataResponse;
use crate::entity::MediaConnectionEventEnum;
use crate::entity::MediaConnectionIdWrapper;
use crate::entity::MediaConnectionStatus;
use crate::entity::MediaId;
use crate::entity::MediaIdWrapper;
use crate::entity::MediaResponse;
use crate::entity::PeerEventEnum;
use crate::entity::PeerInfo;
use crate::entity::PeerResponse;
use crate::entity::PeerStatusMessage;
use crate::entity::RtcpId;
use crate::entity::RtcpIdWrapper;
use crate::entity::SocketInfo;

verus! {

/// Host-side parameters of a redirect command: which established data
/// connection to redirect, and the topic that should receive its bytes.
#[derive(Debug, Clone, PartialEq, Eq)]
pub struct RedirectDtoParams {
    pub data_connection_id: DataConnectionId,
    pub destination_topic: String,
}

/// Peer-domain commands of the host.
#[derive(Debug, Clone, PartialEq, Eq)]
pub enum PeerRequestDto {
    Create { params: PeerInfo },
    Status { params: PeerInfo },
    Delete { params: PeerInfo },
}

/// Media-domain commands of the host.
#[derive(Debug, Clone, PartialEq, Eq)]
pub enum MediaRequestDto {
    Call { params: MediaConnectionIdWrapper },
    Answer { params: MediaConnectionIdWrapper },
    Status { params: MediaConnectionIdWrapper },
}

/// Data-domain commands of the host.
#[derive(Debug, Clone, PartialEq, Eq)]
pub enum DataRequestDto {
    Create,
    Connect { params: DataConnectionIdWrapper },
    Delete { params: DataIdWrapper },
    Disconnect { params: DataConnectionIdWrapper },
    Redirect { params: RedirectDtoParams },
    Status { params: DataConnectionIdWrapper },
}

/// A decoded host command, one domain per arm.
#[derive(Debug, Clone, PartialEq, Eq)]
pub enum RequestDto {
    Peer(PeerRequestDto),
    Media(MediaRequestDto),
    Data(DataRequestDto),
}

/// The composite connection event delivered to the host: the original
/// peer parameters, the data-connection parameters, and the fetched
/// status of that connection.
#[derive(Debug, Clone, PartialEq, Eq)]
pub struct PeerConnectionEventDto {
    pub params: PeerInfo,
    pub data_params: DataConnectionIdWrapper,
    pub status: DataConnectionStatus,
}

/// Peer lifecycle events in the form the host receives them. The
/// CONNECTION arm carries the status that the reactor fetched for the
/// embedded data connection.
#[derive(Debug, Clone, PartialEq, Eq)]
#[allow(non_camel_case_types)]
pub enum PeerEventEnumDto {
    OPEN(PeerInfo),
    CLOSE(PeerInfo),
    CONNECTION(PeerConnectionEventDto),
    CALL(MediaConnectionIdWrapper),
    TIMEOUT,
}

/// Peer-domain responses in the form the host receives them.
#[derive(Debug, Clone, PartialEq, Eq)]
pub enum PeerResponseDto {
    Create(PeerInfo),
    Status(PeerStatusMessage),
    Delete(PeerInfo),
    Event(PeerEventEnumDto),
}

/// Media-domain responses in the form the host receives them.
#[derive(Debug, Clone, PartialEq, Eq)]
pub enum MediaResponseDto {
    ContentCreate(SocketInfo<MediaId>),
    ContentDelete(MediaIdWrapper),
    RtcpCreate(SocketInfo<RtcpId>),
    RtcpDelete(RtcpIdWrapper),
    Call(MediaConnectionIdWrapper),
    Answer(AnswerResult),
    Event(MediaConnectionEventEnum),
    Status(MediaConnectionStatus),
}

/// Data-domain responses in the form the host receives them.
#[derive(Debug, Clone, PartialEq, Eq)]
pub enum DataResponseDto {
    Create(SocketInfo<DataId>),
    Connect(DataConnectionIdWrapper),
    Delete(DataIdWrapper),
    Disconnect(DataConnectionIdWrapper),
    Redirect(DataConnectionIdWrapper),
    Event(DataConnectionEventEnum),
    Status(DataConnectionStatus),
}

/// A response to the host, one domain per arm.
#[derive(Debug, Clone, PartialEq, Eq)]
pub enum ResponseDto {
    Peer(PeerResponseDto),
    Media(MediaResponseDto),
    Data(DataResponseDto),
}

/// The outbound envelope: a typed success payload or an error string.
/// Exactly one of the two shapes is present.
#[derive(Debug, Clone, PartialEq, Eq)]
pub enum ResponseDtoResult {
    Success(ResponseDto),
    Error(String),
}

/// A topic-registry entry: the binding, written when a redirect
/// succeeds, between a data connection and its topic/address/port
/// forwarding configuration.
#[derive(Debug, Clone, PartialEq, Eq)]
pub struct DataConnectionResponse {
    pub data_connection_id: DataConnectionId,
    pub source_topic_name: String,
    pub source_ip: String,
    pub source_port: u16,
    pub destination_topic_name: String,
}

impl DataConnectionResponse {
    pub fn duplicate(&self) -> (r: DataConnectionResponse)
        ensures
            r == *self,
    {
        DataConnectionResponse {
            data_connection_id: self.data_connection_id.duplicate(),
            source_topic_name: self.source_topic_name.clone(),
            source_ip: self.source_ip.clone(),
            source_port: self.source_port,
            destination_topic_name: self.destination_topic_name.clone(),
        }
    }
}

/// The host form of a peer event, for the event kinds that need no
/// enrichment. The composite CONNECTION kind has no plain conversion:
/// its host form carries a fetched status, which only the event reactor
/// can supply.
pub open spec fn spec_peer_event_dto_of(entity: PeerEventEnum) -> PeerEventEnumDto
    recommends
        !(entity is CONNECTION),
{
    match entity {
        PeerEventEnum::OPEN(item) => PeerEventEnumDto::OPEN(item),
        PeerEventEnum::CLOSE(item) => PeerEventEnumDto::CLOSE(item),
        PeerEventEnum::CALL(item) => PeerEventEnumDto::CALL(item),
        PeerEventEnum::TIMEOUT => PeerEventEnumDto::TIMEOUT,
        PeerEventEnum::CONNECTION(_) => PeerEventEnumDto::TIMEOUT,
    }
}

impl PeerResponseDto {
    /// Casts a peer-domain backend response into its host form. A
    /// CONNECTION event is excluded: it must pass through the event
    /// reactor, which fetches the status its host form carries.
    pub fn from_entity(entity: PeerResponse) -> (r: Self)
        requires
            !(entity matches PeerResponse::Event(e) && e is CONNECTION),
        ensures
            (match entity {
                PeerResponse::Create(item) => r == PeerResponseDto::Create(item),
                PeerResponse::Status(item) => r == PeerResponseDto::Status(item),
                PeerResponse::Delete(item) => r == PeerResponseDto::Delete(item),
                PeerResponse::Event(e) => r == PeerResponseDto::Event(
                    spec_peer_event_dto_of(e),
                ),
            }),
    {
        match entity {
            PeerResponse::Create(item) => PeerResponseDto::Create(item),
            PeerResponse::Status(item) => PeerResponseDto::Status(item),
            PeerResponse::Delete(item) => PeerResponseDto::Delete(item),
            PeerResponse::Event(e) => PeerResponseDto::Event(
                match e {
                    PeerEventEnum::OPEN(item) => PeerEventEnumDto::OPEN(item),
                    PeerEventEnum::CLOSE(item) => PeerEventEnumDto::CLOSE(item),
                    PeerEventEnum::CALL(item) => PeerEventEnumDto::CALL(item),
                    PeerEventEnum::TIMEOUT => PeerEventEnumDto::TIMEOUT,
                    PeerEventEnum::CONNECTION(_) => unreached(),
                },
            ),
        }
    }
}

impl MediaResponseDto {
    /// Casts a media-domain backend response into its host form, arm by
    /// arm, payloads unchanged.
    pub fn from_entity(entity: MediaResponse) -> (r: Self)
        ensures
            (match entity {
                MediaResponse::ContentCreate(item) => r == MediaResponseDto::ContentCreate(item),
                MediaResponse::ContentDelete(item) => r == MediaResponseDto::ContentDelete(item),
                MediaResponse::RtcpCreate(item) => r == MediaResponseDto::RtcpCreate(item),
                MediaResponse::RtcpDelete(item) => r == MediaResponseDto::RtcpDelete(item),
                MediaResponse::Call(item) => r == MediaResponseDto::Call(item),
                MediaResponse::Answer(item) => r == MediaResponseDto::Answer(item),
                MediaResponse::Event(item) => r == MediaResponseDto::Event(item),
                MediaResponse::Status(item) => r == MediaResponseDto::Status(item),
            }),
    {
        match entity {
            MediaResponse::ContentCreate(item) => MediaResponseDto::ContentCreate(item),
            MediaResponse::ContentDelete(item) => MediaResponseDto::ContentDelete(item),
            MediaResponse::RtcpCreate(item) => MediaResponseDto::RtcpCreate(item),
            MediaResponse::RtcpDelete(item) => MediaResponseDto::RtcpDelete(item),
            MediaResponse::Call(item) => MediaResponseDto::Call(item),
            MediaResponse::Answer(item) => MediaResponseDto::Answer(item),
            MediaResponse::Event(item) => MediaResponseDto::Event(item),
            MediaResponse::Status(item) => MediaResponseDto::Status(item),
        }
    }
}

impl DataResponseDto {
    /// Casts a data-domain backend response into its host form, arm by
    /// arm, payloads unchanged.
    pub fn from_entity(entity: DataResponse) -> (r: Self)
        ensures
            (match entity {
                DataResponse::Create(item) => r == DataResponseDto::Create(item),
                DataResponse::Connect(item) => r == DataResponseDto::Connect(item),
                DataResponse::Delete(item) => r == DataResponseDto::Delete(item),
                DataResponse::Disconnect(item) => r == DataResponseDto::Disconnect(item),
                DataResponse::Redirect(item) => r == DataResponseDto::Redirect(item),
                DataResponse::Event(item) => r == DataResponseDto::Event(item),
                DataResponse::Status(item) => r == DataResponseDto::Status(item),
            }),
    {
        match entity {
            DataResponse::Create(item) => DataResponseDto::Create(item),
            DataResponse::Connect(item) => DataResponseDto::Connect(item),
            DataResponse::Delete(item) => DataResponseDto::Delete(item),
            DataResponse::Disconnect(item) => DataResponseDto::Disconnect(item),
            DataResponse::Redirect(item) => DataResponseDto::Redirect(item),
            DataResponse::Event(item) => DataResponseDto::Event(item),
            DataResponse::Status(item) => DataResponseDto::Status(item),
        }
    }
}

} // verus!
