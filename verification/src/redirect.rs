use vstd::prelude::*;

use crate::dto::DataRequestDto;
use crate::dto::DataResponseDto;
use crate::dto::DataConnectionResponse;
use crate::dto::RedirectDtoParams;
use crate::dto::RequestDto;
use crate::dto::ResponseDto;
use crate::dto::ResponseDtoResult;
use crate::entity::DataId;
use crate::entity::DataIdWrapper;
use crate::entity::DataRequest;
use crate::entity::DataResponse;
use crate::entity::RedirectParams;
use crate::entity::Request;
use crate::entity::Response;
use crate::entity::ResponseResult;
use crate::entity::SocketInfo;
use crate::error::Error;

verus! {

/// What the host needs to open the source side of a topic bridge: the
/// source topic's name and where its bytes must be forwarded.
#[derive(Debug, Clone, PartialEq, Eq)]
pub struct SourceParameters {
    pub source_topic_name: String,
    pub destination_address: String,
    pub destination_port: u16,
}

/// What the host needs to open the destination side of a topic bridge:
/// the local port to listen on and the topic to deliver into.
#[derive(Debug, Clone, PartialEq, Eq)]
pub struct DestinationParameters {
    pub source_port: u16,
    pub destination_topic_name: String,
}

/// The one combined notification a successful redirect delivers to the
/// host, so it can open the actual topic bridge.
#[derive(Debug, Clone, PartialEq, Eq)]
pub struct TopicParameters {
    pub data_connection_id: String,
    pub source_parameters: SourceParameters,
    pub destination_parameters: DestinationParameters,
}

/// How a redirect ends once the backend has answered. A completed
/// redirect carries exactly one host notification, exactly one registry
/// entry, and the success response; a rejected one carries only the
/// error response. The caller must deliver the notification before it
/// makes the entry observable to other operations: no operation may see
/// a registry entry whose topic bridge the host was not yet asked to
/// open.
#[derive(Debug, Clone, PartialEq, Eq)]
pub enum RedirectOutcome {
    Completed {
        notification: TopicParameters,
        entry: DataConnectionResponse,
        response: ResponseDtoResult,
    },
    Rejected { response: ResponseDtoResult },
}

/// Accepts exactly the redirect command and hands out its parameters;
/// any other command is rejected with a local error.
pub fn redirect_request_params(request: RequestDto) -> (r: Result<RedirectDtoParams, Error>)
    ensures
        (match request {
            RequestDto::Data(DataRequestDto::Redirect { params }) => r == Ok::<
                RedirectDtoParams,
                Error,
            >(params),
            _ => r matches Err(e) && e matches Error::Local(m) && m@ == "invalid parameters"@,
        }),
{
    match request {
        RequestDto::Data(DataRequestDto::Redirect { params }) => Ok(params),
        _ => Err(Error::create_local_error("invalid parameters")),
    }
}

/// The synthetic command that opens a fresh local receive endpoint: the
/// first step of the redirect workflow, run through dispatch like any
/// host command.
pub fn create_data_request() -> (r: RequestDto)
    ensures
        r == RequestDto::Data(DataRequestDto::Create),
{
    RequestDto::Data(DataRequestDto::Create)
}

/// Reads the outcome of the nested create step. A failure of the nested
/// call aborts the workflow before any backend state is touched. A
/// create response without an endpoint identifier breaks the protocol's
/// closed-world assumption: it is excluded here and stays fatal in the
/// caller, never a reported error.
pub fn interpret_create_result(result: Result<ResponseDtoResult, Error>) -> (r: Result<
    SocketInfo<DataId>,
    Error,
>)
    requires
        !(result matches Ok(
            ResponseDtoResult::Success(ResponseDto::Data(DataResponseDto::Create(socket))),
        ) && socket.id is None),
    ensures
        (match result {
            Err(e) => r == Err::<SocketInfo<DataId>, Error>(e),
            Ok(res) => match res {
                ResponseDtoResult::Success(
                    ResponseDto::Data(DataResponseDto::Create(socket)),
                ) => r == Ok::<SocketInfo<DataId>, Error>(socket),
                _ => r matches Err(e) && e matches Error::Local(m) && m@
                    == "create data failed"@,
            },
        }),
{
    match result {
        Err(e) => Err(e),
        Ok(res) => match res {
            ResponseDtoResult::Success(ResponseDto::Data(DataResponseDto::Create(socket))) => {
                if socket.id.is_some() {
                    Ok(socket)
                } else {
                    unreached()
                }
            },
            _ => Err(Error::create_local_error("create data failed")),
        },
    }
}

/// Builds the backend registration request: the original connection id,
/// the endpoint of the create step as the feed source, and a phantom
/// target at the loopback address with the locally allocated port.
pub fn build_redirect_request(params: &RedirectDtoParams, data_id: &DataId, forward_port: u16) -> (r:
    Request)
    ensures
        (r matches Request::Data(DataRequest::Redirect { params: p })
            && p.data_connection_id == params.data_connection_id && p.feed_params == Some(
            DataIdWrapper { data_id: *data_id },
        ) && (p.redirect_params matches Some(s) && s.id is None && s.ip@ == "127.0.0.1"@
            && s.port == forward_port)),
{
    let target = SocketInfo::new(None, String::from_str("127.0.0.1"), forward_port);
    Request::Data(
        DataRequest::Redirect {
            params: RedirectParams {
                data_connection_id: params.data_connection_id.duplicate(),
                feed_params: Some(DataIdWrapper { data_id: data_id.duplicate() }),
                redirect_params: Some(target),
            },
        },
    )
}

/// Reads the backend's answer to the registration and fixes what
/// follows from it. On success the outcome holds the one host
/// notification, built from the source topic name, the source
/// endpoint's address and port, the forward port and the destination
/// topic; the one registry entry binding the connection id to the same
/// configuration; and the success response that echoes the backend's
/// payload. A backend error string passes through verbatim as the error
/// response, with nothing to notify and nothing to register. A backend
/// success of any other command's shape breaks the protocol: it is
/// excluded here and stays fatal in the caller, never a reported error.
pub fn interpret_register_result(
    params: RedirectDtoParams,
    source_topic_name: String,
    source_address: String,
    source_port: u16,
    forward_port: u16,
    result: Result<ResponseResult, Error>,
) -> (r: Result<RedirectOutcome, Error>)
    requires
        (result matches Ok(ResponseResult::Success(resp)) ==> resp matches Response::Data(
            DataResponse::Redirect(_),
        )),
    ensures
        (match result {
            Err(e) => r == Err::<RedirectOutcome, Error>(e),
            Ok(res) => match res {
                ResponseResult::Error(m) => r == Ok::<RedirectOutcome, Error>(
                    RedirectOutcome::Rejected { response: ResponseDtoResult::Error(m) },
                ),
                ResponseResult::Success(Response::Data(DataResponse::Redirect(w))) => (r matches
                    Ok(RedirectOutcome::Completed { notification, entry, response })
                    && notification.data_connection_id@ == w.data_connection_id@
                    && notification.source_parameters == (SourceParameters {
                    source_topic_name: source_topic_name,
                    destination_address: source_address,
                    destination_port: source_port,
                }) && notification.destination_parameters == (DestinationParameters {
                    source_port: forward_port,
                    destination_topic_name: params.destination_topic,
                }) && entry == (DataConnectionResponse {
                    data_connection_id: w.data_connection_id,
                    source_topic_name: source_topic_name,
                    source_ip: source_address,
                    source_port: source_port,
                    destination_topic_name: params.destination_topic,
                }) && response == ResponseDtoResult::Success(
                    ResponseDto::Data(DataResponseDto::Redirect(w)),
                )),
                _ => false,
            },
        }),
{
    match result {
        Err(e) => Err(e),
        Ok(res) => match res {
            ResponseResult::Error(m) => Ok(
                RedirectOutcome::Rejected { response: ResponseDtoResult::Error(m) },
            ),
            ResponseResult::Success(Response::Data(DataResponse::Redirect(w))) => {
                let notification = TopicParameters {
                    data_connection_id: w.data_connection_id.id.clone(),
                    source_parameters: SourceParameters {
                        source_topic_name: source_topic_name.clone(),
                        destination_address: source_address.clone(),
                        destination_port: source_port,
                    },
                    destination_parameters: DestinationParameters {
                        source_port: forward_port,
                        destination_topic_name: params.destination_topic.clone(),
                    },
                };
                let entry = DataConnectionResponse {
                    data_connection_id: w.data_connection_id.duplicate(),
                    source_topic_name,
                    source_ip: source_address,
                    source_port,
                    destination_topic_name: params.destination_topic,
                };
                let response = ResponseDtoResult::Success(
                    ResponseDto::Data(DataResponseDto::Redirect(w)),
                );
                Ok(RedirectOutcome::Completed { notification, entry, response })
            },
            ResponseResult::Success(_) => unreached(),
        },
    }
}

} // verus!
