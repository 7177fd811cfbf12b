use vstd::prelude::*;

use crate::dto::DataRequestDto;
use crate::dto::DataResponseDto;
use crate::dto::PeerConnectionEventDto;
use crate::dto::PeerEventEnumDto;
use crate::dto::PeerResponseDto;
use crate::dto::RequestDto;
use crate::dto::ResponseDto;
use crate::dto::ResponseDtoResult;
use crate::entity::DataConnectionEventEnum;
use crate::entity::DataConnectionId;
use crate::entity::DataConnectionIdWrapper;
use crate::entity::DataResponse;
use crate::entity::PeerConnectionEvent;
use crate::entity::PeerEventEnum;
use crate::entity::PeerResponse;
use crate::error::Error;
use crate::topic::TopicRegistry;

verus! {

/// What reacting to a data-connection event produces: the event
/// document for the host, and, for a CLOSE, the connection id whose
/// deletion the host must be notified of.
#[derive(Debug, Clone, PartialEq, Eq)]
pub struct DataEventOutcome {
    pub dto: DataResponseDto,
    pub deleted: Option<DataConnectionId>,
}

/// What a peer event asks the caller to do next: answer at once; answer
/// and then schedule, on an independent timeline and after a short
/// delay, the full shutdown of process-wide state (the answer must not
/// wait for it); or fetch the status of the embedded data connection
/// and compose the composite answer from it.
#[derive(Debug, Clone, PartialEq, Eq)]
pub enum PeerEventAction {
    Reply(PeerResponseDto),
    ReplyAndScheduleShutdown(PeerResponseDto),
    FetchDataStatus(PeerConnectionEvent),
}

/// The reactor that consumes backend lifecycle events: it mutates the
/// topic registry and says what to answer and whom to notify.
pub struct EventReceiveImpl {
    pub registry: TopicRegistry,
}

impl EventReceiveImpl {
    /// A reactor over an empty registry.
    pub fn new() -> (r: EventReceiveImpl)
        ensures
            forall|k: Seq<char>| r.registry.lookup(k) is None,
    {
        EventReceiveImpl { registry: TopicRegistry::new() }
    }

    /// Reacts to a data-connection lifecycle event.
    ///
    /// An OPEN for a registered connection echoes the registered id and
    /// leaves the registry as it was; an OPEN for an unknown connection
    /// is a local error, never a crash: the backend reports open a
    /// connection this process never redirected. A CLOSE removes the
    /// entry, unconditionally and idempotently, and always asks for the
    /// host's delete notification. Event kinds this layer does not
    /// support, and payloads that are no event, are the caller's
    /// contract to keep out.
    pub fn process_data_event(&mut self, response: DataResponse) -> (r: Result<
        DataEventOutcome,
        Error,
    >)
        requires
            response matches DataResponse::Event(e) && (e is OPEN || e is CLOSE),
        ensures
            (response matches DataResponse::Event(DataConnectionEventEnum::OPEN(w)) ==> ({
                let pre = *old(self);
                let post = *final(self);
                (forall|k: Seq<char>| post.registry.lookup(k) == pre.registry.lookup(k)) && (
                match pre.registry.lookup(w.data_connection_id@) {
                    Some(entry) => r matches Ok(o) && o.dto == DataResponseDto::Event(
                        DataConnectionEventEnum::OPEN(
                            DataConnectionIdWrapper {
                                data_connection_id: entry.data_connection_id,
                            },
                        ),
                    ) && o.deleted is None,
                    None => r matches Err(Error::Local(m)) && m@ == "no info about DataConnectionId "@
                        + w.data_connection_id@,
                })
            })),
            (response matches DataResponse::Event(DataConnectionEventEnum::CLOSE(w)) ==> ({
                let pre = *old(self);
                let post = *final(self);
                post.registry.lookup(w.data_connection_id@) is None && (forall|k: Seq<char>|
                    k != w.data_connection_id@ ==> post.registry.lookup(k)
                        == pre.registry.lookup(k)) && (r matches Ok(o) && o.dto
                    == DataResponseDto::Event(
                    DataConnectionEventEnum::CLOSE(
                        DataConnectionIdWrapper { data_connection_id: w.data_connection_id },
                    ),
                ) && o.deleted == Some(w.data_connection_id))
            })),
    {
        match response {
            DataResponse::Event(DataConnectionEventEnum::OPEN(w)) => {
                match self.registry.find_topic(&w.data_connection_id) {
                    Some(item) => Ok(
                        DataEventOutcome {
                            dto: DataResponseDto::Event(
                                DataConnectionEventEnum::OPEN(
                                    DataConnectionIdWrapper {
                                        data_connection_id: item.data_connection_id.duplicate(),
                                    },
                                ),
                            ),
                            deleted: None,
                        },
                    ),
                    None => {
                        let mut message = String::from_str("no info about DataConnectionId ");
                        message.append(w.data_connection_id.as_str());
                        Err(Error::Local(message))
                    },
                }
            },
            DataResponse::Event(DataConnectionEventEnum::CLOSE(w)) => {
                self.registry.remove_topic(&w.data_connection_id);
                Ok(
                    DataEventOutcome {
                        dto: DataResponseDto::Event(
                            DataConnectionEventEnum::CLOSE(
                                DataConnectionIdWrapper {
                                    data_connection_id: w.data_connection_id.duplicate(),
                                },
                            ),
                        ),
                        deleted: Some(w.data_connection_id),
                    },
                )
            },
            _ => unreached(),
        }
    }

    /// Reacts to a peer lifecycle event: OPEN and CALL pass through,
    /// CLOSE passes through and asks for the delayed shutdown, and the
    /// composite CONNECTION event asks for the nested status fetch that
    /// `peer_connection_compose` finishes. A TIMEOUT, and a payload
    /// that is no event, are the caller's contract to keep out.
    pub fn process_peer_event(&self, response: PeerResponse) -> (r: PeerEventAction)
        requires
            response matches PeerResponse::Event(e) && !(e is TIMEOUT),
        ensures
            (match response {
                PeerResponse::Event(PeerEventEnum::OPEN(p)) => r == PeerEventAction::Reply(
                    PeerResponseDto::Event(PeerEventEnumDto::OPEN(p)),
                ),
                PeerResponse::Event(PeerEventEnum::CLOSE(p)) => r
                    == PeerEventAction::ReplyAndScheduleShutdown(
                    PeerResponseDto::Event(PeerEventEnumDto::CLOSE(p)),
                ),
                PeerResponse::Event(PeerEventEnum::CALL(w)) => r == PeerEventAction::Reply(
                    PeerResponseDto::Event(PeerEventEnumDto::CALL(w)),
                ),
                PeerResponse::Event(PeerEventEnum::CONNECTION(c)) => r
                    == PeerEventAction::FetchDataStatus(c),
                _ => false,
            }),
    {
        match response {
            PeerResponse::Event(PeerEventEnum::OPEN(p)) => PeerEventAction::Reply(
                PeerResponseDto::Event(PeerEventEnumDto::OPEN(p)),
            ),
            PeerResponse::Event(PeerEventEnum::CLOSE(p)) => {
                PeerEventAction::ReplyAndScheduleShutdown(
                    PeerResponseDto::Event(PeerEventEnumDto::CLOSE(p)),
                )
            },
            PeerResponse::Event(PeerEventEnum::CALL(w)) => PeerEventAction::Reply(
                PeerResponseDto::Event(PeerEventEnumDto::CALL(w)),
            ),
            PeerResponse::Event(PeerEventEnum::CONNECTION(c)) => PeerEventAction::FetchDataStatus(
                c,
            ),
            _ => unreached(),
        }
    }
}

/// The synthetic status command the composite CONNECTION event needs,
/// scoped to the event's embedded data-connection parameters.
pub fn status_request_for(connection: &PeerConnectionEvent) -> (r: RequestDto)
    ensures
        r == RequestDto::Data(DataRequestDto::Status { params: connection.data_params }),
{
    RequestDto::Data(
        DataRequestDto::Status {
            params: DataConnectionIdWrapper {
                data_connection_id: connection.data_params.data_connection_id.duplicate(),
            },
        },
    )
}

/// Finishes the composite CONNECTION event: if the nested status fetch
/// succeeded with a data status, the answer carries exactly the
/// original peer parameters, the original data-connection parameters
/// and that status, nothing substituted and nothing lost; any failure
/// or other shape of the nested answer fails the whole event with a
/// local error.
pub fn peer_connection_compose(
    connection: PeerConnectionEvent,
    nested: Result<ResponseDtoResult, Error>,
) -> (r: Result<PeerResponseDto, Error>)
    ensures
        (match nested {
            Ok(
                ResponseDtoResult::Success(ResponseDto::Data(DataResponseDto::Status(status))),
            ) => r == Ok::<PeerResponseDto, Error>(
                PeerResponseDto::Event(
                    PeerEventEnumDto::CONNECTION(
                        PeerConnectionEventDto {
                            params: connection.params,
                            data_params: connection.data_params,
                            status: status,
                        },
                    ),
                ),
            ),
            _ => r matches Err(Error::Local(m)) && m@ == "connection request is received from "@
                + connection.params.peer_id@ + ". But failed to get DataConnection Status."@,
        }),
{
    match nested {
        Ok(ResponseDtoResult::Success(ResponseDto::Data(DataResponseDto::Status(status)))) => Ok(
            PeerResponseDto::Event(
                PeerEventEnumDto::CONNECTION(
                    PeerConnectionEventDto {
                        params: connection.params,
                        data_params: connection.data_params,
                        status,
                    },
                ),
            ),
        ),
        _ => {
            let mut message = String::from_str("connection request is received from ");
            message.append(connection.params.peer_id.as_str());
            message.append(". But failed to get DataConnection Status.");
            Err(Error::Local(message))
        },
    }
}

} // verus!
